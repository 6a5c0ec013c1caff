use core::alloc::Layout;

use lp_core::pool::allocator::PoolSlice;
use lp_core::pool::block_header::HEADER_SIZE;
use lp_core::pool::{AllocError, LpAllocator};

/// Size of the header in front of every block.
fn header_size() -> usize {
    HEADER_SIZE
}

/// Allocate for `layout`.
fn alloc_for(pool: &mut LpAllocator, layout: Layout) -> Result<PoolSlice, AllocError> {
    pool.allocate(layout.size(), layout.align())
}

/// Free the allocation at `addr`.
fn dealloc(pool: &mut LpAllocator, addr: usize, _layout: Layout) {
    pool.deallocate(addr)
}

/// Move the allocation at `addr` to one of `new_size` bytes.
fn grow(pool: &mut LpAllocator, addr: usize, layout: Layout, new_size: usize) -> Result<PoolSlice, AllocError> {
    pool.grow(addr, layout.size(), layout.align(), new_size)
}

/// Move the allocation at `addr` to one of `new_size` bytes.
fn shrink(pool: &mut LpAllocator, addr: usize, layout: Layout, new_size: usize) -> Result<PoolSlice, AllocError> {
    pool.shrink(addr, layout.size(), layout.align(), new_size)
}

/// Move the allocation at `addr` to one of `new_size` bytes, with its bytes in `memory`.
fn grow_in(pool: &mut LpAllocator, memory: &mut [u8], addr: usize, layout: Layout, new_size: usize) -> Result<PoolSlice, AllocError> {
    pool.grow_copying(memory, addr, layout.size(), layout.align(), new_size)
}

/// Move the allocation at `addr` to one of `new_size` bytes, with its bytes in `memory`.
fn shrink_in(pool: &mut LpAllocator, memory: &mut [u8], addr: usize, layout: Layout, new_size: usize) -> Result<PoolSlice, AllocError> {
    pool.shrink_copying(memory, addr, layout.size(), layout.align(), new_size)
}

#[test]
fn allocator_test_pool_creation() {
    let mut memory = [0u8; 1024];
    let memory_ptr = memory.as_mut_ptr() as usize;

    {
        let pool = LpAllocator::new(memory_ptr, 1024).unwrap();
        assert_eq!(pool.capacity(), 1024);
        assert_eq!(pool.used_bytes(), 0);
    }
}

#[test]
fn allocator_test_reset() {
    let mut memory = [0u8; 1024];
    let memory_ptr = memory.as_mut_ptr() as usize;

    {
        let mut pool = LpAllocator::new(memory_ptr, 1024).unwrap();
        let layout = core::alloc::Layout::from_size_align(32, 8).unwrap();

        let _ptr1 = alloc_for(&mut pool, layout).unwrap();
        let _ptr2 = alloc_for(&mut pool, layout).unwrap();
        assert_eq!(pool.used_blocks(), 2);

        pool.reset();
        assert_eq!(pool.used_blocks(), 0);

        // Should be able to allocate again
        let _ptr3 = alloc_for(&mut pool, layout).unwrap();
        assert_eq!(pool.used_blocks(), 1);
    }
}

#[test]
fn allocate_test_allocate_deallocate() {
    let mut memory = [0u8; 1024];
    let memory_ptr = memory.as_mut_ptr() as usize;

    {
        let mut pool = LpAllocator::new(memory_ptr, 1024).unwrap();
        let allocation_overhead = header_size() + core::mem::size_of::<usize>();
        let layout = Layout::from_size_align(64 - allocation_overhead, 8).unwrap();

        let ptr1 = alloc_for(&mut pool, layout).unwrap();
        assert_eq!(pool.used_blocks(), 1);

        let ptr2 = alloc_for(&mut pool, layout).unwrap();
        assert_eq!(pool.used_blocks(), 2);

        dealloc(&mut pool, ptr1.as_ptr(), layout);
        assert_eq!(pool.used_blocks(), 1);

        dealloc(&mut pool, ptr2.as_ptr(), layout);
        assert_eq!(pool.used_blocks(), 0);
    }
}

#[test]
fn allocate_test_pool_exhausted() {
    let mut memory = [0u8; 128];
    let memory_ptr = memory.as_mut_ptr() as usize;

    {
        let mut pool = LpAllocator::new(memory_ptr, 128).unwrap();
        let align = 8;
        let header_size = header_size();
        let metadata_size = core::mem::size_of::<usize>();
        let max_padding = align - 1;
        let max_data_capacity =
            64usize.saturating_sub(header_size + metadata_size + max_padding);
        let layout_size = (max_data_capacity / align).max(1) * align;
        let layout = Layout::from_size_align(layout_size, align).unwrap();

        // Should get 2 blocks (128 / 64 = 2)
        let _ptr1 = alloc_for(&mut pool, layout).unwrap();
        let _ptr2 = alloc_for(&mut pool, layout).unwrap();

        // Third allocation should fail
        assert!(matches!(
            alloc_for(&mut pool, layout),
            Err(AllocError::PoolExhausted)
        ));
    }
}

#[test]
fn allocate_test_variable_size_allocations() {
    let mut memory = [0u8; 4096];
    let memory_ptr = memory.as_mut_ptr() as usize;

    {
        let mut pool = LpAllocator::new(memory_ptr, 4096).unwrap();

        // Allocate various sizes
        let layout_8 = Layout::from_size_align(8, 8).unwrap();
        let layout_32 = Layout::from_size_align(32, 8).unwrap();
        let layout_128 = Layout::from_size_align(128, 8).unwrap();
        let layout_512 = Layout::from_size_align(512, 8).unwrap();

        let ptr1 = alloc_for(&mut pool, layout_8).unwrap();
        assert_eq!(ptr1.len(), 8);

        let ptr2 = alloc_for(&mut pool, layout_32).unwrap();
        assert_eq!(ptr2.len(), 32);

        let ptr3 = alloc_for(&mut pool, layout_128).unwrap();
        assert_eq!(ptr3.len(), 128);

        let ptr4 = alloc_for(&mut pool, layout_512).unwrap();
        assert_eq!(ptr4.len(), 512);

        // All should fit in 4096 bytes
        assert!(pool.used_bytes() < 4096);
    }
}

#[test]
fn allocate_test_block_splitting() {
    let mut memory = [0u8; 1024];
    let memory_ptr = memory.as_mut_ptr() as usize;

    {
        let mut pool = LpAllocator::new(memory_ptr, 1024).unwrap();

        // First allocation should split the large free block
        let layout_32 = Layout::from_size_align(32, 8).unwrap();
        let ptr1 = alloc_for(&mut pool, layout_32).unwrap();
        assert!(ptr1.len() >= 32);

        // Should still have plenty of free memory
        let available = pool.capacity() - pool.used_bytes();
        assert!(
            available > 900,
            "Should have split block, got {} free",
            available
        );

        // Allocate another small block
        let ptr2 = alloc_for(&mut pool, layout_32).unwrap();
        assert!(ptr2.len() >= 32);

        // Both allocations should fit without using entire pool
        assert!(pool.used_bytes() < 200);
    }
}

#[test]
fn allocate_test_large_allocation() {
    let mut memory = [0u8; 8192];
    let memory_ptr = memory.as_mut_ptr() as usize;

    {
        let mut pool = LpAllocator::new(memory_ptr, 8192).unwrap();

        // Allocate most of the pool
        let layout_large = Layout::from_size_align(7000, 8).unwrap();
        let ptr = alloc_for(&mut pool, layout_large);
        assert!(
            ptr.is_ok(),
            "Should be able to allocate 7000 bytes from 8192 byte pool"
        );

        let used = pool.used_bytes();
        assert!(used >= 7000, "Should have allocated at least 7000 bytes");
    }
}

#[test]
fn allocate_test_mixed_size_allocations() {
    let mut memory = [0u8; 2048];
    let memory_ptr = memory.as_mut_ptr() as usize;

    {
        let mut pool = LpAllocator::new(memory_ptr, 2048).unwrap();

        // Allocate blocks of different sizes
        let sizes = [16, 64, 8, 128, 32, 256, 24];
        let mut ptrs = Vec::new();

        for size in sizes.iter() {
            let layout = Layout::from_size_align(*size, 8).unwrap();
            let ptr = alloc_for(&mut pool, layout).unwrap();
            ptrs.push((ptr, layout));
        }

        // All allocations should fit
        assert!(
            pool.used_bytes() < 2048,
            "All allocations should fit in pool"
        );

        // Deallocate some blocks
        for (ptr, layout) in ptrs.iter().take(3) {
            dealloc(&mut pool, ptr.as_ptr(), *layout);
        }

        // Should be able to allocate more
        let layout_new = Layout::from_size_align(50, 8).unwrap();
        let new_ptr = alloc_for(&mut pool, layout_new);
        assert!(new_ptr.is_ok(), "Should be able to reuse freed space");
    }
}

#[test]
fn allocate_test_allocation_efficiency() {
    let mut memory = [0u8; 4096];
    let memory_ptr = memory.as_mut_ptr() as usize;

    {
        let mut pool = LpAllocator::new(memory_ptr, 4096).unwrap();

        // Allocate many small blocks
        let layout = Layout::from_size_align(16, 8).unwrap();
        let mut count = 0;

        while alloc_for(&mut pool, layout).is_ok() {
            count += 1;
        }

        // With variable-size allocator, we should be able to fit many 16-byte allocations
        // Old fixed-size with 64-byte blocks: 4096/64 = 64 blocks
        // New variable-size: ~4096/(16+32_byte_header) ≈ 85 blocks
        assert!(
            count > 70,
            "Should fit at least 70 small allocations, got {}",
            count
        );
    }
}

#[test]
fn allocate_test_pool_exhaustion_and_recovery() {
    let mut memory = [0u8; 1024];
    let memory_ptr = memory.as_mut_ptr() as usize;

    {
        let mut pool = LpAllocator::new(memory_ptr, 1024).unwrap();

        let layout = Layout::from_size_align(256, 8).unwrap();

        // Allocate until exhausted
        let ptr1 = alloc_for(&mut pool, layout).unwrap();
        let ptr2 = alloc_for(&mut pool, layout).unwrap();
        let ptr3 = alloc_for(&mut pool, layout).unwrap();

        // Next allocation should fail (pool exhausted)
        let result = alloc_for(&mut pool, layout);
        assert!(result.is_err(), "Should fail when pool exhausted");

        // Deallocate one block
        dealloc(&mut pool, ptr2.as_ptr(), layout);

        // Should be able to allocate again
        let ptr4 = alloc_for(&mut pool, layout);
        assert!(ptr4.is_ok(), "Should succeed after freeing memory");

        // Clean up
        dealloc(&mut pool, ptr1.as_ptr(), layout);
        dealloc(&mut pool, ptr3.as_ptr(), layout);
        dealloc(&mut pool, 
            ptr4.unwrap().as_ptr(),
            layout,
        );
    }
}

#[test]
fn allocate_test_zero_size_allocation() {
    let mut memory = [0u8; 1024];
    let memory_ptr = memory.as_mut_ptr() as usize;

    {
        let mut pool = LpAllocator::new(memory_ptr, 1024).unwrap();

        let layout = Layout::from_size_align(0, 1).unwrap();
        let result = alloc_for(&mut pool, layout);

        // Zero-size allocations should either succeed (with a valid pointer)
        // or fail gracefully - both are acceptable behaviors
        if let Ok(ptr) = result {
            // If it succeeds, pointer should be non-null
            // Verify NonNull invariant (always non-null by construction)
            // And deallocate should work
            dealloc(&mut pool, ptr.as_ptr(), layout);
        }
        // If it fails, that's also acceptable
    }
}

#[test]
fn allocate_test_allocate_entire_pool() {
    let mut memory = [0u8; 2048];
    let memory_ptr = memory.as_mut_ptr() as usize;

    {
        let mut pool = LpAllocator::new(memory_ptr, 2048).unwrap();

        // Try to allocate entire pool capacity (minus header overhead)
        let allocation_overhead = header_size() + core::mem::size_of::<usize>();
        let layout = Layout::from_size_align(2048 - allocation_overhead, 8).unwrap();
        let result = alloc_for(&mut pool, layout);

        assert!(
            result.is_ok(),
            "Should be able to allocate most of the pool"
        );

        if let Ok(ptr) = result {
            // Verify no more allocations possible
            let layout_small = Layout::from_size_align(32, 8).unwrap();
            let result2 = alloc_for(&mut pool, layout_small);
            assert!(
                result2.is_err(),
                "Should not be able to allocate when pool is full"
            );

            // Clean up
            dealloc(&mut pool, ptr.as_ptr(), layout);

            // Now small allocation should work
            let result3 = alloc_for(&mut pool, layout_small);
            assert!(result3.is_ok(), "Should work after freeing large block");
        }
    }
}

#[test]
fn allocate_test_alignment_check_bug() {
    let mut memory = [0u8; 1024];
    let memory_ptr = memory.as_mut_ptr() as usize;

    {
        let mut pool = LpAllocator::new(memory_ptr, 1024).unwrap();

        // This should work: alignment 8, size 32, block_size 64
        // But current code rejects it if align() > block_size, which is wrong
        let layout = Layout::from_size_align(32, 8).unwrap();
        assert!(layout.align() <= 8); // 8 <= 64, should work
        let result = alloc_for(&mut pool, layout);
        assert!(
            result.is_ok(),
            "Valid allocation with align=8, block_size=64 should succeed"
        );
    }
}

#[test]
fn allocate_test_block_alignment() {
    // Test with properly aligned memory
    let mut memory = [0u8; 8192];
    let memory_ptr = {
        let addr = memory.as_mut_ptr() as usize;
        let aligned_addr = (addr + 31) & !31; // Align to 32 bytes
        aligned_addr
    };
    let size = 8192 - (memory_ptr - memory.as_mut_ptr() as usize);

    {
        let mut pool = LpAllocator::new(memory_ptr, size).unwrap();

        // Request alignment of 16 - should work with 32-byte aligned pool
        let layout = Layout::from_size_align(32, 16).unwrap();
        let block = alloc_for(&mut pool, layout).unwrap();
        let block_ptr = block.as_ptr() ;

        assert_eq!(block_ptr % 16, 0, "Block should be aligned to 16 bytes");

        // Also test with alignment 8
        let layout2 = Layout::from_size_align(32, 8).unwrap();
        let block2 = alloc_for(&mut pool, layout2).unwrap();
        let block2_ptr = block2.as_ptr() ;
        assert_eq!(block2_ptr % 8, 0, "Block should be aligned to 8 bytes");
    }
}

#[test]
fn allocate_test_pool_ensures_alignment() {
    // Test with unaligned memory - pool should skip blocks that don't meet alignment
    let mut memory = [0u8; 2048];
    // Start at offset 1 to force misalignment
    let unaligned_ptr = memory.as_mut_ptr() as usize + 1;

    {
        // Create pool with block_size 64, but memory starts at offset 1
        let mut pool = LpAllocator::new(unaligned_ptr, 2047).unwrap();

        // Request alignment of 16
        let layout = Layout::from_size_align(32, 16).unwrap();

        // Pool should find a block that IS aligned to 16, even if first block isn't
        // This tests that the pool skips misaligned blocks
        let result = alloc_for(&mut pool, layout);

        if let Ok(block) = result {
            let block_ptr = block.as_ptr() ;
            assert_eq!(
                block_ptr % 16,
                0,
                "Pool should return aligned block even from unaligned memory"
            );
        } else {
            // If it fails, that's also acceptable - means pool correctly rejects
            // when no aligned blocks are available
        }
    }
}

#[test]
fn allocate_test_pool_alignment_with_different_requirements() {
    let mut memory = [0u8; 4096]; // Larger pool for multiple alloc/dealloc cycles
                                  // Align memory to 64 bytes to ensure blocks are aligned
    let memory_ptr = {
        let addr = memory.as_mut_ptr() as usize;
        let aligned_addr = (addr + 63) & !63;
        aligned_addr
    };
    let size = 4096 - (memory_ptr - memory.as_mut_ptr() as usize);

    {
        let mut pool = LpAllocator::new(memory_ptr, size).unwrap();

        // Test various alignment requirements (up to 32 - header natural alignment limit)
        for align in [1, 2, 4, 8, 16, 32] {
            let layout = Layout::from_size_align(32, align).unwrap();
            let block = alloc_for(&mut pool, layout).unwrap();
            let block_ptr = block.as_ptr() ;
            assert_eq!(
                block_ptr % align,
                0,
                "Block should be aligned to {} bytes, got offset {}",
                align,
                block_ptr % align
            );

            // Deallocate for next test
            dealloc(&mut pool, block.as_ptr(), layout);
        }
    }
}

#[test]
fn allocate_test_pool_skips_misaligned_blocks() {
    // Create memory where first block is misaligned but later blocks are aligned
    let mut memory = [0u8; 2048];
    // Start at offset 8 (not aligned to 16)
    let memory_ptr = memory.as_mut_ptr() as usize + 8;

    {
        let mut pool = LpAllocator::new(memory_ptr, 2040).unwrap();

        // Request alignment of 16
        let layout = Layout::from_size_align(32, 16).unwrap();

        // First block would be at offset 8, which is not aligned to 16
        // Pool should skip it and find a block that IS aligned
        let result = alloc_for(&mut pool, layout);

        if let Ok(block) = result {
            let block_ptr = block.as_ptr() ;
            assert_eq!(
                block_ptr % 16,
                0,
                "Pool should skip misaligned blocks and return aligned one"
            );
        }
    }
}

#[test]
fn allocate_test_alignment_check_should_verify_alignment() {
    // Test with a case where align() < block_size but block might not be aligned
    let mut memory = [0u8; 1024 + 1];
    let memory_ptr = memory.as_mut_ptr() as usize + 1;

    {
        let mut pool = LpAllocator::new(memory_ptr, 1024).unwrap();

        // Request alignment of 16, block_size is 64
        // align() = 16, block_size = 64, so 16 <= 64 passes the current check
        // But if the block isn't actually aligned to 16, this is wrong
        let layout = Layout::from_size_align(32, 16).unwrap();
        let result = alloc_for(&mut pool, layout);

        // Should succeed AND the returned block should be aligned
        let block = result.expect("Allocation should succeed");
        let block_ptr = block.as_ptr() ;
        assert_eq!(
            block_ptr % 16,
            0,
            "Returned block must be aligned to requested alignment"
        );
    }
}

#[test]
fn allocate_test_allocation_alignment_boundary() {
    let mut memory = [0u8; 2048];
    let memory_ptr = memory.as_mut_ptr() as usize;

    {
        let mut pool = LpAllocator::new(memory_ptr, 2048).unwrap();

        // Test allocation at various alignment boundaries
        for align_power in 0..5 {
            let align = 1 << align_power; // 1, 2, 4, 8, 16
            let layout = Layout::from_size_align(32, align).unwrap();

            let ptr = alloc_for(&mut pool, layout)
                .expect("Should allocate with various alignments");
            let addr = ptr.as_ptr();

            assert_eq!(
                addr % align,
                0,
                "Allocation should be aligned to {} bytes",
                align
            );

            dealloc(&mut pool, ptr.as_ptr(), layout);
        }
    }
}

#[test]
fn coalesce_test_block_coalescing() {
    let mut memory = [0u8; 1024];
    let memory_ptr = memory.as_mut_ptr() as usize;

    {
        let mut pool = LpAllocator::new(memory_ptr, 1024).unwrap();

        let layout_32 = Layout::from_size_align(32, 8).unwrap();

        // Allocate three blocks
        let ptr1 = alloc_for(&mut pool, layout_32).unwrap();
        let ptr2 = alloc_for(&mut pool, layout_32).unwrap();
        let _ptr3 = alloc_for(&mut pool, layout_32).unwrap();

        // Deallocate middle block
        dealloc(&mut pool, ptr2.as_ptr(), layout_32);

        // Deallocate first block (should coalesce with middle)
        dealloc(&mut pool, ptr1.as_ptr(), layout_32);

        // Now we should be able to allocate a larger block
        // (larger than 32 but smaller than 64) if coalescing worked
        let layout_48 = Layout::from_size_align(48, 8).unwrap();
        let large_ptr = alloc_for(&mut pool, layout_48);
        assert!(
            large_ptr.is_ok(),
            "Should be able to allocate 48 bytes after coalescing"
        );
    }
}

#[test]
fn coalesce_test_fragmentation_handling() {
    let mut memory = [0u8; 2048];
    let memory_ptr = memory.as_mut_ptr() as usize;

    {
        let mut pool = LpAllocator::new(memory_ptr, 2048).unwrap();

        let layout_small = Layout::from_size_align(32, 8).unwrap();
        let layout_medium = Layout::from_size_align(64, 8).unwrap();

        // Create fragmentation pattern: alloc, alloc, dealloc first, alloc
        let ptr1 = alloc_for(&mut pool, layout_small).unwrap();
        let ptr2 = alloc_for(&mut pool, layout_small).unwrap();
        let ptr3 = alloc_for(&mut pool, layout_small).unwrap();

        // Free middle block
        dealloc(&mut pool, 
            ptr2.as_ptr(),
            layout_small,
        );

        // Try to allocate medium - should work despite fragmentation
        let ptr_medium = alloc_for(&mut pool, layout_medium);
        assert!(ptr_medium.is_ok(), "Should handle fragmentation");

        // Clean up
        dealloc(&mut pool, 
            ptr1.as_ptr(),
            layout_small,
        );
        dealloc(&mut pool, 
            ptr3.as_ptr(),
            layout_small,
        );
        if let Ok(pm) = ptr_medium {
            dealloc(&mut pool, pm.as_ptr(), layout_medium);
        }
    }
}

#[test]
fn deallocate_test_memory_leak_detection() {
    let mut memory = [0u8; 2048];
    let memory_ptr = memory.as_mut_ptr() as usize;

    {
        let mut pool = LpAllocator::new(memory_ptr, 2048).unwrap();

        let initial_used = pool.used_bytes();
        assert_eq!(initial_used, 0, "Pool should start empty");

        // Allocate and deallocate
        let layout = Layout::from_size_align(64, 8).unwrap();
        let ptr1 = alloc_for(&mut pool, layout).unwrap();
        let used_after_alloc = pool.used_bytes();
        assert!(used_after_alloc > 0, "Should track used bytes");

        dealloc(&mut pool, ptr1.as_ptr(), layout);
        let used_after_dealloc = pool.used_bytes();

        assert_eq!(
            used_after_dealloc, initial_used,
            "All memory should be freed after deallocation"
        );
    }
}

#[test]
fn deallocate_test_rapid_alloc_dealloc_cycles() {
    let mut memory = [0u8; 4096];
    let memory_ptr = memory.as_mut_ptr() as usize;

    {
        let mut pool = LpAllocator::new(memory_ptr, 4096).unwrap();

        let layout = Layout::from_size_align(64, 8).unwrap();

        // Rapid allocation/deallocation cycles
        for _ in 0..100 {
            let ptr = alloc_for(&mut pool, layout).expect("Should allocate");
            dealloc(&mut pool, ptr.as_ptr(), layout);
        }

        // Pool should be in consistent state
        let used = pool.used_bytes();
        assert_eq!(used, 0, "All memory should be freed after cycles");

        // Should still be able to allocate
        let final_ptr = alloc_for(&mut pool, layout);
        assert!(
            final_ptr.is_ok(),
            "Pool should still work after many cycles"
        );
    }
}

#[test]
fn resize_test_grow_same_block_size() {
    let mut memory = [0u8; 1024];
    let memory_ptr = memory.as_mut_ptr() as usize;

    {
        let mut pool = LpAllocator::new(memory_ptr, 1024).unwrap();
        let old_layout = Layout::from_size_align(32, 8).unwrap();

        let old_block = alloc_for(&mut pool, old_layout).unwrap();
        let old_ptr = old_block.as_ptr();

        // Grow to block_size (64)
        let new_block = grow(&mut pool, old_ptr, old_layout, 64).unwrap();
        assert_eq!(pool.used_blocks(), 1);
        assert_eq!(new_block.len(), 64);
    }
}

#[test]
fn resize_test_grow_multiple_times() {
    let mut memory = [0u8; 1024];
    let memory_ptr = memory.as_mut_ptr() as usize;

    {
        let mut pool = LpAllocator::new(memory_ptr, 1024).unwrap();
        let mut layout = Layout::from_size_align(16, 8).unwrap();

        let mut block = alloc_for(&mut pool, layout).unwrap();
        let mut ptr = block.as_ptr();

        // Grow multiple times
        block = grow(&mut pool, ptr, layout, 32).unwrap();
        ptr = block.as_ptr();
        layout = Layout::from_size_align(32, 8).unwrap();

        block = grow(&mut pool, ptr, layout, 48).unwrap();
        ptr = block.as_ptr();
        layout = Layout::from_size_align(48, 8).unwrap();

        block = grow(&mut pool, ptr, layout, 64).unwrap();
        assert_eq!(block.len(), 64);
        assert_eq!(pool.used_blocks(), 1);
    }
}

#[test]
fn resize_test_grow_error_cases() {
    let mut memory = [0u8; 1024];
    let memory_ptr = memory.as_mut_ptr() as usize;

    {
        let mut pool = LpAllocator::new(memory_ptr, 1024).unwrap();
        let layout = Layout::from_size_align(32, 8).unwrap();

        let block = alloc_for(&mut pool, layout).unwrap();
        let ptr = block.as_ptr();

        // Grow to same size should fail
        assert!(matches!(
            grow(&mut pool, ptr, layout, 32),
            Err(AllocError::InvalidLayout)
        ));

        // Grow to smaller size should fail
        assert!(matches!(
            grow(&mut pool, ptr, layout, 16),
            Err(AllocError::InvalidLayout)
        ));

        // Grow beyond pool capacity should fail
        assert!(matches!(
            grow(&mut pool, ptr, layout, 2000),
            Err(AllocError::PoolExhausted)
        ));
    }
}

#[test]
fn resize_test_shrink_multiple_times() {
    let mut memory = [0u8; 1024];
    let memory_ptr = memory.as_mut_ptr() as usize;

    {
        let mut pool = LpAllocator::new(memory_ptr, 1024).unwrap();
        let mut layout = Layout::from_size_align(64, 8).unwrap();

        let mut block = alloc_for(&mut pool, layout).unwrap();
        let mut ptr = block.as_ptr();

        // Shrink multiple times
        block = shrink(&mut pool, ptr, layout, 48).unwrap();
        ptr = block.as_ptr();
        layout = Layout::from_size_align(48, 8).unwrap();

        block = shrink(&mut pool, ptr, layout, 32).unwrap();
        ptr = block.as_ptr();
        layout = Layout::from_size_align(32, 8).unwrap();

        block = shrink(&mut pool, ptr, layout, 16).unwrap();
        // With variable-size allocator, returned slice has requested size
        assert_eq!(block.len(), 16); // requested size
        assert_eq!(pool.used_blocks(), 1);
    }
}

#[test]
fn resize_test_shrink_error_cases() {
    let mut memory = [0u8; 1024];
    let memory_ptr = memory.as_mut_ptr() as usize;

    {
        let mut pool = LpAllocator::new(memory_ptr, 1024).unwrap();
        let layout = Layout::from_size_align(32, 8).unwrap();

        let block = alloc_for(&mut pool, layout).unwrap();
        let ptr = block.as_ptr();

        // Shrink to same size should fail
        assert!(matches!(
            shrink(&mut pool, ptr, layout, 32),
            Err(AllocError::InvalidLayout)
        ));

        // Shrink to larger size should fail
        assert!(matches!(
            shrink(&mut pool, ptr, layout, 48),
            Err(AllocError::InvalidLayout)
        ));
    }
}

#[test]
fn resize_test_grow_then_shrink() {
    let mut memory = [0u8; 1024];
    let memory_ptr = memory.as_mut_ptr() as usize;

    {
        let mut pool = LpAllocator::new(memory_ptr, 1024).unwrap();
        let mut layout = Layout::from_size_align(16, 8).unwrap();

        let mut block = alloc_for(&mut pool, layout).unwrap();
        let mut ptr = block.as_ptr();

        // Grow
        block = grow(&mut pool, ptr, layout, 48).unwrap();
        ptr = block.as_ptr();
        layout = Layout::from_size_align(48, 8).unwrap();

        // Shrink back
        block = shrink(&mut pool, ptr, layout, 32).unwrap();
        ptr = block.as_ptr();
        layout = Layout::from_size_align(32, 8).unwrap();

        // Grow again
        block = grow(&mut pool, ptr, layout, 64).unwrap();
        assert_eq!(block.len(), 64);
        assert_eq!(pool.used_blocks(), 1);
    }
}

#[test]
fn resize_test_grow_pool_exhausted() {
    let mut memory = [0u8; 1024]; // Larger pool for 32-byte headers
    let memory_ptr = memory.as_mut_ptr() as usize;

    {
        let mut pool = LpAllocator::new(memory_ptr, 1024).unwrap();
        let layout = Layout::from_size_align(32, 8).unwrap();

        // Fill most of the pool
        let _block1 = alloc_for(&mut pool, Layout::from_size_align(400, 8).unwrap())
            .unwrap();
        let _block2 = alloc_for(&mut pool, Layout::from_size_align(200, 8).unwrap())
            .unwrap();

        // Allocate a small block
        let block3 = alloc_for(&mut pool, layout).unwrap();
        let ptr3 = block3.as_ptr();

        // Try to grow to 600 bytes - should fail (not enough space)
        assert!(matches!(
            grow(&mut pool, ptr3, layout, 600),
            Err(AllocError::PoolExhausted)
        ));
    }
}

#[test]
fn resize_test_invalid_grow_same_size() {
    let mut memory = [0u8; 1024];
    let memory_ptr = memory.as_mut_ptr() as usize;

    {
        let mut pool = LpAllocator::new(memory_ptr, 1024).unwrap();

        let layout = Layout::from_size_align(32, 8).unwrap();
        let ptr = alloc_for(&mut pool, layout).unwrap();
        let data_ptr = ptr.as_ptr();

        // Try to "grow" to same size
        let result = grow(&mut pool, data_ptr, layout, 32);
        assert!(result.is_err(), "Growing to same size should fail");

        // Clean up
        dealloc(&mut pool, data_ptr, layout);
    }
}

#[test]
fn resize_test_invalid_shrink_same_size() {
    let mut memory = [0u8; 1024];
    let memory_ptr = memory.as_mut_ptr() as usize;

    {
        let mut pool = LpAllocator::new(memory_ptr, 1024).unwrap();

        let layout = Layout::from_size_align(32, 8).unwrap();
        let ptr = alloc_for(&mut pool, layout).unwrap();
        let data_ptr = ptr.as_ptr();

        // Try to "shrink" to same size
        let result = shrink(&mut pool, data_ptr, layout, 32);
        assert!(result.is_err(), "Shrinking to same size should fail");

        // Clean up
        dealloc(&mut pool, data_ptr, layout);
    }
}

#[test]
fn test_stats() {
    let mut memory = [0u8; 1024];
    let memory_ptr = memory.as_mut_ptr() as usize;

    {
        let mut pool = LpAllocator::new(memory_ptr, 1024).unwrap();
        assert_eq!(pool.capacity(), 1024);
        assert_eq!(pool.used_bytes(), 0);
        assert_eq!(pool.used_blocks(), 0);
        assert_eq!(pool.free_blocks(), 1); // One large free block

        let layout = Layout::from_size_align(32, 8).unwrap();
        let _ptr1 = alloc_for(&mut pool, layout).unwrap();
        assert_eq!(pool.used_blocks(), 1);
        assert!(pool.used_bytes() > 0);

        let _ptr2 = alloc_for(&mut pool, layout).unwrap();
        assert_eq!(pool.used_blocks(), 2);
    }
}

#[test]
fn pool_test_pool_creation() {
    let mut memory = [0u8; 1024];
    let memory_ptr = memory.as_mut_ptr() as usize;

    {
        let pool = LpAllocator::new(memory_ptr, 1024).unwrap();
        assert_eq!(pool.capacity(), 1024);
        assert_eq!(pool.used_bytes(), 0);
    }
}

#[test]
fn pool_test_grow_same_block_size() {
    let mut memory = [0u8; 1024];
    let memory_ptr = memory.as_mut_ptr() as usize;

    {
        let mut pool = LpAllocator::new(memory_ptr, 1024).unwrap();
        let old_layout = Layout::from_size_align(32, 8).unwrap();

        let old_block = alloc_for(&mut pool, old_layout).unwrap();
        let old_ptr = old_block.as_ptr();

        // Grow to block_size (64)
        let new_block = grow(&mut pool, old_ptr, old_layout, 64).unwrap();
        assert_eq!(pool.used_blocks(), 1);
        assert_eq!(new_block.len(), 64);
    }
}

#[test]
fn pool_test_grow_multiple_times() {
    let mut memory = [0u8; 1024];
    let memory_ptr = memory.as_mut_ptr() as usize;

    {
        let mut pool = LpAllocator::new(memory_ptr, 1024).unwrap();
        let mut layout = Layout::from_size_align(16, 8).unwrap();

        let mut block = alloc_for(&mut pool, layout).unwrap();
        let mut ptr = block.as_ptr();

        // Grow multiple times
        block = grow(&mut pool, ptr, layout, 32).unwrap();
        ptr = block.as_ptr();
        layout = Layout::from_size_align(32, 8).unwrap();

        block = grow(&mut pool, ptr, layout, 48).unwrap();
        ptr = block.as_ptr();
        layout = Layout::from_size_align(48, 8).unwrap();

        block = grow(&mut pool, ptr, layout, 64).unwrap();
        assert_eq!(block.len(), 64);
        assert_eq!(pool.used_blocks(), 1);
    }
}

#[test]
fn pool_test_grow_error_cases() {
    let mut memory = [0u8; 1024];
    let memory_ptr = memory.as_mut_ptr() as usize;

    {
        let mut pool = LpAllocator::new(memory_ptr, 1024).unwrap();
        let layout = Layout::from_size_align(32, 8).unwrap();

        let block = alloc_for(&mut pool, layout).unwrap();
        let ptr = block.as_ptr();

        // Grow to same size should fail
        assert!(matches!(
            grow(&mut pool, ptr, layout, 32),
            Err(AllocError::InvalidLayout)
        ));

        // Grow to smaller size should fail
        assert!(matches!(
            grow(&mut pool, ptr, layout, 16),
            Err(AllocError::InvalidLayout)
        ));

        // Grow beyond pool capacity should fail
        assert!(matches!(
            grow(&mut pool, ptr, layout, 2000),
            Err(AllocError::PoolExhausted)
        ));
    }
}

#[test]
fn pool_test_shrink_multiple_times() {
    let mut memory = [0u8; 1024];
    let memory_ptr = memory.as_mut_ptr() as usize;

    {
        let mut pool = LpAllocator::new(memory_ptr, 1024).unwrap();
        let mut layout = Layout::from_size_align(64, 8).unwrap();

        let mut block = alloc_for(&mut pool, layout).unwrap();
        let mut ptr = block.as_ptr();

        // Shrink multiple times
        block = shrink(&mut pool, ptr, layout, 48).unwrap();
        ptr = block.as_ptr();
        layout = Layout::from_size_align(48, 8).unwrap();

        block = shrink(&mut pool, ptr, layout, 32).unwrap();
        ptr = block.as_ptr();
        layout = Layout::from_size_align(32, 8).unwrap();

        block = shrink(&mut pool, ptr, layout, 16).unwrap();
        // With variable-size allocator, returned slice has requested size
        assert_eq!(block.len(), 16); // requested size
        assert_eq!(pool.used_blocks(), 1);
    }
}

#[test]
fn pool_test_shrink_error_cases() {
    let mut memory = [0u8; 1024];
    let memory_ptr = memory.as_mut_ptr() as usize;

    {
        let mut pool = LpAllocator::new(memory_ptr, 1024).unwrap();
        let layout = Layout::from_size_align(32, 8).unwrap();

        let block = alloc_for(&mut pool, layout).unwrap();
        let ptr = block.as_ptr();

        // Shrink to same size should fail
        assert!(matches!(
            shrink(&mut pool, ptr, layout, 32),
            Err(AllocError::InvalidLayout)
        ));

        // Shrink to larger size should fail
        assert!(matches!(
            shrink(&mut pool, ptr, layout, 48),
            Err(AllocError::InvalidLayout)
        ));
    }
}

#[test]
fn pool_test_grow_then_shrink() {
    let mut memory = [0u8; 1024];
    let memory_ptr = memory.as_mut_ptr() as usize;

    {
        let mut pool = LpAllocator::new(memory_ptr, 1024).unwrap();
        let mut layout = Layout::from_size_align(16, 8).unwrap();

        let mut block = alloc_for(&mut pool, layout).unwrap();
        let mut ptr = block.as_ptr();

        // Grow
        block = grow(&mut pool, ptr, layout, 48).unwrap();
        ptr = block.as_ptr();
        layout = Layout::from_size_align(48, 8).unwrap();

        // Shrink back
        block = shrink(&mut pool, ptr, layout, 32).unwrap();
        ptr = block.as_ptr();
        layout = Layout::from_size_align(32, 8).unwrap();

        // Grow again
        block = grow(&mut pool, ptr, layout, 64).unwrap();
        assert_eq!(block.len(), 64);
        assert_eq!(pool.used_blocks(), 1);
    }
}

#[test]
fn pool_test_grow_pool_exhausted() {
    let mut memory = [0u8; 1024]; // Larger pool for 32-byte headers
    let memory_ptr = memory.as_mut_ptr() as usize;

    {
        let mut pool = LpAllocator::new(memory_ptr, 1024).unwrap();
        let layout = Layout::from_size_align(32, 8).unwrap();

        // Fill most of the pool
        let _block1 = alloc_for(&mut pool, Layout::from_size_align(400, 8).unwrap())
            .unwrap();
        let _block2 = alloc_for(&mut pool, Layout::from_size_align(200, 8).unwrap())
            .unwrap();

        // Allocate a small block
        let block3 = alloc_for(&mut pool, layout).unwrap();
        let ptr3 = block3.as_ptr();

        // Try to grow to 600 bytes - should fail (not enough space)
        assert!(matches!(
            grow(&mut pool, ptr3, layout, 600),
            Err(AllocError::PoolExhausted)
        ));
    }
}

#[test]
fn pool_test_block_alignment() {
    // Test with properly aligned memory
    let mut memory = [0u8; 8192];
    let memory_ptr = {
        let addr = memory.as_mut_ptr() as usize;
        let aligned_addr = (addr + 31) & !31; // Align to 32 bytes
        aligned_addr
    };
    let size = 8192 - (memory_ptr - memory.as_mut_ptr() as usize);

    {
        let mut pool = LpAllocator::new(memory_ptr, size).unwrap();

        // Request alignment of 16 - should work with 32-byte aligned pool
        let layout = Layout::from_size_align(32, 16).unwrap();
        let block = alloc_for(&mut pool, layout).unwrap();
        let block_ptr = block.as_ptr() ;

        assert_eq!(block_ptr % 16, 0, "Block should be aligned to 16 bytes");

        // Also test with alignment 8
        let layout2 = Layout::from_size_align(32, 8).unwrap();
        let block2 = alloc_for(&mut pool, layout2).unwrap();
        let block2_ptr = block2.as_ptr() ;
        assert_eq!(block2_ptr % 8, 0, "Block should be aligned to 8 bytes");
    }
}

#[test]
fn pool_test_pool_ensures_alignment() {
    // Test with unaligned memory - pool should skip blocks that don't meet alignment
    let mut memory = [0u8; 2048];
    // Start at offset 1 to force misalignment
    let unaligned_ptr = memory.as_mut_ptr() as usize + 1;

    {
        // Create pool with block_size 64, but memory starts at offset 1
        let mut pool = LpAllocator::new(unaligned_ptr, 2047).unwrap();

        // Request alignment of 16
        let layout = Layout::from_size_align(32, 16).unwrap();

        // Pool should find a block that IS aligned to 16, even if first block isn't
        // This tests that the pool skips misaligned blocks
        let result = alloc_for(&mut pool, layout);

        if let Ok(block) = result {
            let block_ptr = block.as_ptr() ;
            assert_eq!(
                block_ptr % 16,
                0,
                "Pool should return aligned block even from unaligned memory"
            );
        } else {
            // If it fails, that's also acceptable - means pool correctly rejects
            // when no aligned blocks are available
        }
    }
}

#[test]
fn pool_test_pool_alignment_with_different_requirements() {
    let mut memory = [0u8; 4096]; // Larger pool for multiple alloc/dealloc cycles
                                  // Align memory to 64 bytes to ensure blocks are aligned
    let memory_ptr = {
        let addr = memory.as_mut_ptr() as usize;
        let aligned_addr = (addr + 63) & !63;
        aligned_addr
    };
    let size = 4096 - (memory_ptr - memory.as_mut_ptr() as usize);

    {
        let mut pool = LpAllocator::new(memory_ptr, size).unwrap();

        // Test various alignment requirements (up to 32 - header natural alignment limit)
        for align in [1, 2, 4, 8, 16, 32] {
            let layout = Layout::from_size_align(32, align).unwrap();
            let block = alloc_for(&mut pool, layout).unwrap();
            let block_ptr = block.as_ptr() ;
            assert_eq!(
                block_ptr % align,
                0,
                "Block should be aligned to {} bytes, got offset {}",
                align,
                block_ptr % align
            );

            // Deallocate for next test
            dealloc(&mut pool, block.as_ptr(), layout);
        }
    }
}

#[test]
fn pool_test_pool_skips_misaligned_blocks() {
    // Create memory where first block is misaligned but later blocks are aligned
    let mut memory = [0u8; 2048];
    // Start at offset 8 (not aligned to 16)
    let memory_ptr = memory.as_mut_ptr() as usize + 8;

    {
        let mut pool = LpAllocator::new(memory_ptr, 2040).unwrap();

        // Request alignment of 16
        let layout = Layout::from_size_align(32, 16).unwrap();

        // First block would be at offset 8, which is not aligned to 16
        // Pool should skip it and find a block that IS aligned
        let result = alloc_for(&mut pool, layout);

        if let Ok(block) = result {
            let block_ptr = block.as_ptr() ;
            assert_eq!(
                block_ptr % 16,
                0,
                "Pool should skip misaligned blocks and return aligned one"
            );
        }
    }
}

#[test]
fn pool_test_alignment_check_should_verify_alignment() {
    // Test with a case where align() < block_size but block might not be aligned
    let mut memory = [0u8; 1024 + 1];
    let memory_ptr = memory.as_mut_ptr() as usize + 1;

    {
        let mut pool = LpAllocator::new(memory_ptr, 1024).unwrap();

        // Request alignment of 16, block_size is 64
        // align() = 16, block_size = 64, so 16 <= 64 passes the current check
        // But if the block isn't actually aligned to 16, this is wrong
        let layout = Layout::from_size_align(32, 16).unwrap();
        let result = alloc_for(&mut pool, layout);

        // Should succeed AND the returned block should be aligned
        let block = result.expect("Allocation should succeed");
        let block_ptr = block.as_ptr() ;
        assert_eq!(
            block_ptr % 16,
            0,
            "Returned block must be aligned to requested alignment"
        );
    }
}

#[test]
fn pool_test_variable_size_allocations() {
    let mut memory = [0u8; 4096];
    let memory_ptr = memory.as_mut_ptr() as usize;

    {
        let mut pool = LpAllocator::new(memory_ptr, 4096).unwrap();

        // Allocate various sizes
        let layout_8 = Layout::from_size_align(8, 8).unwrap();
        let layout_32 = Layout::from_size_align(32, 8).unwrap();
        let layout_128 = Layout::from_size_align(128, 8).unwrap();
        let layout_512 = Layout::from_size_align(512, 8).unwrap();

        let ptr1 = alloc_for(&mut pool, layout_8).unwrap();
        assert_eq!(ptr1.len(), 8);

        let ptr2 = alloc_for(&mut pool, layout_32).unwrap();
        assert_eq!(ptr2.len(), 32);

        let ptr3 = alloc_for(&mut pool, layout_128).unwrap();
        assert_eq!(ptr3.len(), 128);

        let ptr4 = alloc_for(&mut pool, layout_512).unwrap();
        assert_eq!(ptr4.len(), 512);

        // All should fit in 4096 bytes
        assert!(pool.used_bytes() < 4096);
    }
}

#[test]
fn pool_test_block_splitting() {
    let mut memory = [0u8; 1024];
    let memory_ptr = memory.as_mut_ptr() as usize;

    {
        let mut pool = LpAllocator::new(memory_ptr, 1024).unwrap();

        // First allocation should split the large free block
        let layout_32 = Layout::from_size_align(32, 8).unwrap();
        let ptr1 = alloc_for(&mut pool, layout_32).unwrap();
        assert!(ptr1.len() >= 32);

        // Should still have plenty of free memory
        let available = pool.capacity() - pool.used_bytes();
        assert!(
            available > 900,
            "Should have split block, got {} free",
            available
        );

        // Allocate another small block
        let ptr2 = alloc_for(&mut pool, layout_32).unwrap();
        assert!(ptr2.len() >= 32);

        // Both allocations should fit without using entire pool
        assert!(pool.used_bytes() < 200);
    }
}

#[test]
fn pool_test_block_coalescing() {
    let mut memory = [0u8; 1024];
    let memory_ptr = memory.as_mut_ptr() as usize;

    {
        let mut pool = LpAllocator::new(memory_ptr, 1024).unwrap();

        let layout_32 = Layout::from_size_align(32, 8).unwrap();

        // Allocate three blocks
        let ptr1 = alloc_for(&mut pool, layout_32).unwrap();
        let ptr2 = alloc_for(&mut pool, layout_32).unwrap();
        let _ptr3 = alloc_for(&mut pool, layout_32).unwrap();

        // Deallocate middle block
        dealloc(&mut pool, ptr2.as_ptr(), layout_32);

        // Deallocate first block (should coalesce with middle)
        dealloc(&mut pool, ptr1.as_ptr(), layout_32);

        // Now we should be able to allocate a larger block
        // (larger than 32 but smaller than 64) if coalescing worked
        let layout_48 = Layout::from_size_align(48, 8).unwrap();
        let large_ptr = alloc_for(&mut pool, layout_48);
        assert!(
            large_ptr.is_ok(),
            "Should be able to allocate 48 bytes after coalescing"
        );
    }
}

#[test]
fn pool_test_large_allocation() {
    let mut memory = [0u8; 8192];
    let memory_ptr = memory.as_mut_ptr() as usize;

    {
        let mut pool = LpAllocator::new(memory_ptr, 8192).unwrap();

        // Allocate most of the pool
        let layout_large = Layout::from_size_align(7000, 8).unwrap();
        let ptr = alloc_for(&mut pool, layout_large);
        assert!(
            ptr.is_ok(),
            "Should be able to allocate 7000 bytes from 8192 byte pool"
        );

        let used = pool.used_bytes();
        assert!(used >= 7000, "Should have allocated at least 7000 bytes");
    }
}

#[test]
fn pool_test_mixed_size_allocations() {
    let mut memory = [0u8; 2048];
    let memory_ptr = memory.as_mut_ptr() as usize;

    {
        let mut pool = LpAllocator::new(memory_ptr, 2048).unwrap();

        // Allocate blocks of different sizes
        let sizes = [16, 64, 8, 128, 32, 256, 24];
        let mut ptrs = Vec::new();

        for size in sizes.iter() {
            let layout = Layout::from_size_align(*size, 8).unwrap();
            let ptr = alloc_for(&mut pool, layout).unwrap();
            ptrs.push((ptr, layout));
        }

        // All allocations should fit
        assert!(
            pool.used_bytes() < 2048,
            "All allocations should fit in pool"
        );

        // Deallocate some blocks
        for (ptr, layout) in ptrs.iter().take(3) {
            dealloc(&mut pool, ptr.as_ptr(), *layout);
        }

        // Should be able to allocate more
        let layout_new = Layout::from_size_align(50, 8).unwrap();
        let new_ptr = alloc_for(&mut pool, layout_new);
        assert!(new_ptr.is_ok(), "Should be able to reuse freed space");
    }
}

#[test]
fn pool_test_allocation_efficiency() {
    let mut memory = [0u8; 4096];
    let memory_ptr = memory.as_mut_ptr() as usize;

    {
        let mut pool = LpAllocator::new(memory_ptr, 4096).unwrap();

        // Allocate many small blocks
        let layout = Layout::from_size_align(16, 8).unwrap();
        let mut count = 0;

        while alloc_for(&mut pool, layout).is_ok() {
            count += 1;
        }

        // With variable-size allocator, we should be able to fit many 16-byte allocations
        // Old fixed-size with 64-byte blocks: 4096/64 = 64 blocks
        // New variable-size: ~4096/(16+32_byte_header) ≈ 85 blocks
        assert!(
            count > 70,
            "Should fit at least 70 small allocations, got {}",
            count
        );
    }
}

#[test]
fn pool_test_invalid_grow_same_size() {
    let mut memory = [0u8; 1024];
    let memory_ptr = memory.as_mut_ptr() as usize;

    {
        let mut pool = LpAllocator::new(memory_ptr, 1024).unwrap();

        let layout = Layout::from_size_align(32, 8).unwrap();
        let ptr = alloc_for(&mut pool, layout).unwrap();
        let data_ptr = ptr.as_ptr();

        // Try to "grow" to same size
        let result = grow(&mut pool, data_ptr, layout, 32);
        assert!(result.is_err(), "Growing to same size should fail");

        // Clean up
        dealloc(&mut pool, data_ptr, layout);
    }
}

#[test]
fn pool_test_invalid_shrink_same_size() {
    let mut memory = [0u8; 1024];
    let memory_ptr = memory.as_mut_ptr() as usize;

    {
        let mut pool = LpAllocator::new(memory_ptr, 1024).unwrap();

        let layout = Layout::from_size_align(32, 8).unwrap();
        let ptr = alloc_for(&mut pool, layout).unwrap();
        let data_ptr = ptr.as_ptr();

        // Try to "shrink" to same size
        let result = shrink(&mut pool, data_ptr, layout, 32);
        assert!(result.is_err(), "Shrinking to same size should fail");

        // Clean up
        dealloc(&mut pool, data_ptr, layout);
    }
}

#[test]
fn pool_test_pool_exhaustion_and_recovery() {
    let mut memory = [0u8; 1024];
    let memory_ptr = memory.as_mut_ptr() as usize;

    {
        let mut pool = LpAllocator::new(memory_ptr, 1024).unwrap();

        let layout = Layout::from_size_align(256, 8).unwrap();

        // Allocate until exhausted
        let ptr1 = alloc_for(&mut pool, layout).unwrap();
        let ptr2 = alloc_for(&mut pool, layout).unwrap();
        let ptr3 = alloc_for(&mut pool, layout).unwrap();

        // Next allocation should fail (pool exhausted)
        let result = alloc_for(&mut pool, layout);
        assert!(result.is_err(), "Should fail when pool exhausted");

        // Deallocate one block
        dealloc(&mut pool, ptr2.as_ptr(), layout);

        // Should be able to allocate again
        let ptr4 = alloc_for(&mut pool, layout);
        assert!(ptr4.is_ok(), "Should succeed after freeing memory");

        // Clean up
        dealloc(&mut pool, ptr1.as_ptr(), layout);
        dealloc(&mut pool, ptr3.as_ptr(), layout);
        dealloc(&mut pool, 
            ptr4.unwrap().as_ptr(),
            layout,
        );
    }
}

#[test]
fn pool_test_zero_size_allocation() {
    let mut memory = [0u8; 1024];
    let memory_ptr = memory.as_mut_ptr() as usize;

    {
        let mut pool = LpAllocator::new(memory_ptr, 1024).unwrap();

        let layout = Layout::from_size_align(0, 1).unwrap();
        let result = alloc_for(&mut pool, layout);

        // Zero-size allocations should either succeed (with a valid pointer)
        // or fail gracefully - both are acceptable behaviors
        if let Ok(ptr) = result {
            // If it succeeds, pointer should be non-null
            // Verify NonNull invariant (always non-null by construction)
            // And deallocate should work
            dealloc(&mut pool, ptr.as_ptr(), layout);
        }
        // If it fails, that's also acceptable
    }
}

#[test]
fn pool_test_memory_leak_detection() {
    let mut memory = [0u8; 2048];
    let memory_ptr = memory.as_mut_ptr() as usize;

    {
        let mut pool = LpAllocator::new(memory_ptr, 2048).unwrap();

        let initial_used = pool.used_bytes();
        assert_eq!(initial_used, 0, "Pool should start empty");

        // Allocate and deallocate
        let layout = Layout::from_size_align(64, 8).unwrap();
        let ptr1 = alloc_for(&mut pool, layout).unwrap();
        let used_after_alloc = pool.used_bytes();
        assert!(used_after_alloc > 0, "Should track used bytes");

        dealloc(&mut pool, ptr1.as_ptr(), layout);
        let used_after_dealloc = pool.used_bytes();

        assert_eq!(
            used_after_dealloc, initial_used,
            "All memory should be freed after deallocation"
        );
    }
}

#[test]
fn pool_test_fragmentation_handling() {
    let mut memory = [0u8; 2048];
    let memory_ptr = memory.as_mut_ptr() as usize;

    {
        let mut pool = LpAllocator::new(memory_ptr, 2048).unwrap();

        let layout_small = Layout::from_size_align(32, 8).unwrap();
        let layout_medium = Layout::from_size_align(64, 8).unwrap();

        // Create fragmentation pattern: alloc, alloc, dealloc first, alloc
        let ptr1 = alloc_for(&mut pool, layout_small).unwrap();
        let ptr2 = alloc_for(&mut pool, layout_small).unwrap();
        let ptr3 = alloc_for(&mut pool, layout_small).unwrap();

        // Free middle block
        dealloc(&mut pool, 
            ptr2.as_ptr(),
            layout_small,
        );

        // Try to allocate medium - should work despite fragmentation
        let ptr_medium = alloc_for(&mut pool, layout_medium);
        assert!(ptr_medium.is_ok(), "Should handle fragmentation");

        // Clean up
        dealloc(&mut pool, 
            ptr1.as_ptr(),
            layout_small,
        );
        dealloc(&mut pool, 
            ptr3.as_ptr(),
            layout_small,
        );
        if let Ok(pm) = ptr_medium {
            dealloc(&mut pool, pm.as_ptr(), layout_medium);
        }
    }
}

#[test]
fn pool_test_allocation_alignment_boundary() {
    let mut memory = [0u8; 2048];
    let memory_ptr = memory.as_mut_ptr() as usize;

    {
        let mut pool = LpAllocator::new(memory_ptr, 2048).unwrap();

        // Test allocation at various alignment boundaries
        for align_power in 0..5 {
            let align = 1 << align_power; // 1, 2, 4, 8, 16
            let layout = Layout::from_size_align(32, align).unwrap();

            let ptr = alloc_for(&mut pool, layout)
                .expect("Should allocate with various alignments");
            let addr = ptr.as_ptr();

            assert_eq!(
                addr % align,
                0,
                "Allocation should be aligned to {} bytes",
                align
            );

            dealloc(&mut pool, ptr.as_ptr(), layout);
        }
    }
}

#[test]
fn pool_test_rapid_alloc_dealloc_cycles() {
    let mut memory = [0u8; 4096];
    let memory_ptr = memory.as_mut_ptr() as usize;

    {
        let mut pool = LpAllocator::new(memory_ptr, 4096).unwrap();

        let layout = Layout::from_size_align(64, 8).unwrap();

        // Rapid allocation/deallocation cycles
        for _ in 0..100 {
            let ptr = alloc_for(&mut pool, layout).expect("Should allocate");
            dealloc(&mut pool, ptr.as_ptr(), layout);
        }

        // Pool should be in consistent state
        let used = pool.used_bytes();
        assert_eq!(used, 0, "All memory should be freed after cycles");

        // Should still be able to allocate
        let final_ptr = alloc_for(&mut pool, layout);
        assert!(
            final_ptr.is_ok(),
            "Pool should still work after many cycles"
        );
    }
}

#[test]
fn pool_test_alignment_check_bug() {
    let mut memory = [0u8; 1024];
    let memory_ptr = memory.as_mut_ptr() as usize;

    {
        let mut pool = LpAllocator::new(memory_ptr, 1024).unwrap();

        // This should work: alignment 8, size 32, block_size 64
        // But current code rejects it if align() > block_size, which is wrong
        let layout = Layout::from_size_align(32, 8).unwrap();
        assert!(layout.align() <= 8); // 8 <= 64, should work
        let result = alloc_for(&mut pool, layout);
        assert!(
            result.is_ok(),
            "Valid allocation with align=8, block_size=64 should succeed"
        );
    }
}

#[test]
fn pool_test_allocate_deallocate() {
    let mut memory = [0u8; 1024];
    let memory_ptr = memory.as_mut_ptr() as usize;

    {
        let mut pool = LpAllocator::new(memory_ptr, 1024).unwrap();
        let layout = Layout::from_size_align(32, 8).unwrap();

        let ptr1 = alloc_for(&mut pool, layout).unwrap();
        assert_eq!(pool.used_blocks(), 1);

        let ptr2 = alloc_for(&mut pool, layout).unwrap();
        assert_eq!(pool.used_blocks(), 2);

        dealloc(&mut pool, ptr1.as_ptr(), layout);
        assert_eq!(pool.used_blocks(), 1);

        dealloc(&mut pool, ptr2.as_ptr(), layout);
        assert_eq!(pool.used_blocks(), 0);
    }
}

#[test]
fn pool_test_reset() {
    let mut memory = [0u8; 1024];
    let memory_ptr = memory.as_mut_ptr() as usize;

    {
        let mut pool = LpAllocator::new(memory_ptr, 1024).unwrap();
        let layout = Layout::from_size_align(32, 8).unwrap();

        let _ptr1 = alloc_for(&mut pool, layout).unwrap();
        let _ptr2 = alloc_for(&mut pool, layout).unwrap();
        assert_eq!(pool.used_blocks(), 2);

        pool.reset();
        assert_eq!(pool.used_blocks(), 0);

        // Should be able to allocate again
        let _ptr3 = alloc_for(&mut pool, layout).unwrap();
        assert_eq!(pool.used_blocks(), 1);
    }
}

#[test]
fn pool_test_block_header_validation() {
    let mut memory = [0u8; 1024];
    let memory_ptr = memory.as_mut_ptr() as usize;

    {
        let mut pool = LpAllocator::new(memory_ptr, 1024).unwrap();

        let layout = Layout::from_size_align(64, 8).unwrap();
        let ptr = alloc_for(&mut pool, layout).unwrap();

        // Get block pointer and verify header is valid
        let block_ptr = pool.block_ptr_from_data(ptr.as_ptr()).unwrap();
        let header = pool.read_header(block_ptr).unwrap();

        assert!(header.is_valid(), "Block header should be valid");
        assert!(header.is_allocated, "Block should be marked as allocated");
        assert!(
            header.size >= layout.size(),
            "Block size should accommodate requested size"
        );

        // Clean up
        dealloc(&mut pool, ptr.as_ptr(), layout);

        // After deallocation, block should be marked as free
        let header_after = pool.read_header(block_ptr).unwrap();
        assert!(header_after.is_valid(), "Header should still be valid");
        assert!(!header_after.is_allocated, "Block should be marked as free");
    }
}

#[test]
fn deallocate_test_block_header_validation() {
    let mut memory = [0u8; 1024];
    let memory_ptr = memory.as_mut_ptr() as usize;

    {
        let mut pool = LpAllocator::new(memory_ptr, 1024).unwrap();

        let layout = Layout::from_size_align(64, 8).unwrap();
        let ptr = alloc_for(&mut pool, layout).unwrap();

        // Get block pointer and verify header is valid
        let block_ptr = pool.block_ptr_from_data(ptr.as_ptr()).unwrap();
        let header = pool.read_header(block_ptr).unwrap();

        assert!(header.is_valid(), "Block header should be valid");
        assert!(header.is_allocated, "Block should be marked as allocated");
        assert!(
            header.size >= layout.size(),
            "Block size should accommodate requested size"
        );

        // Clean up
        dealloc(&mut pool, ptr.as_ptr(), layout);

        // After deallocation, block should be marked as free
        let header_after = pool.read_header(block_ptr).unwrap();
        assert!(header_after.is_valid(), "Header should still be valid");
        assert!(!header_after.is_allocated, "Block should be marked as free");
    }
}

#[test]
fn resize_test_grow() {
    let mut memory = vec![0u8; 1024];
    let base = memory.as_ptr() as usize;

    {
        let mut pool = LpAllocator::new(base, 1024).unwrap();
        let old_layout = Layout::from_size_align(32, 8).unwrap();

        // Allocate initial block
        let old_block = alloc_for(&mut pool, old_layout).unwrap();
        let old_ptr = old_block.as_ptr();

        // Write some data
        for i in 0..32 {
            memory[old_ptr - base + i] = 0x42;
        }

        // Grow to larger size
        let new_size = 48;
        let new_block = grow_in(&mut pool, &mut memory, old_ptr, old_layout, new_size).unwrap();
        let new_ptr = new_block.as_ptr();

        // Verify data was copied
        for i in 0..32 {
            assert_eq!(memory[new_ptr - base + i], 0x42);
        }

        // Old block should be deallocated
        assert_eq!(pool.used_blocks(), 1);
    }
}

#[test]
fn resize_test_shrink() {
    let mut memory = vec![0u8; 1024];
    let base = memory.as_ptr() as usize;

    {
        let mut pool = LpAllocator::new(base, 1024).unwrap();
        let old_layout = Layout::from_size_align(48, 8).unwrap();

        // Allocate initial block
        let old_block = alloc_for(&mut pool, old_layout).unwrap();
        let old_ptr = old_block.as_ptr();

        // Write some data
        for i in 0..48 {
            memory[old_ptr - base + i] = 0x42;
        }

        // Shrink to smaller size
        let new_size = 32;
        let new_block = shrink_in(&mut pool, &mut memory, old_ptr, old_layout, new_size).unwrap();
        let new_ptr = new_block.as_ptr();

        // Verify data was copied (only first 32 bytes)
        for i in 0..32 {
            assert_eq!(memory[new_ptr - base + i], 0x42);
        }

        // Old block should be deallocated
        assert_eq!(pool.used_blocks(), 1);
    }
}

#[test]
fn resize_test_data_preservation_during_grow() {
    let mut memory = vec![0u8; 4096];
    let base = memory.as_ptr() as usize;

    {
        let mut pool = LpAllocator::new(base, 4096).unwrap();

        let old_layout = Layout::from_size_align(32, 8).unwrap();
        let ptr = alloc_for(&mut pool, old_layout).unwrap();
        let data_ptr = ptr.as_ptr();

        // Write test data
        let test_data: &[u8] = &[1, 2, 3, 4, 5, 6, 7, 8];
        for (i, &b) in test_data.iter().enumerate() {
            memory[data_ptr - base + i] = b;
        }

        // Grow allocation
        let grown = grow_in(&mut pool, &mut memory, data_ptr, old_layout, 64).unwrap();
        let grown_ptr = grown.as_ptr();

        // Verify data was preserved
        for (i, &expected_val) in test_data.iter().enumerate() {
            assert_eq!(
                memory[grown_ptr - base + i],
                expected_val,
                "Data corrupted at byte {}",
                i
            );
        }

        // Clean up
        let new_layout = Layout::from_size_align(64, 8).unwrap();
        dealloc(&mut pool, grown_ptr, new_layout);
    }
}

#[test]
fn resize_test_data_preservation_during_shrink() {
    let mut memory = vec![0u8; 4096];
    let base = memory.as_ptr() as usize;

    {
        let mut pool = LpAllocator::new(base, 4096).unwrap();

        let old_layout = Layout::from_size_align(128, 8).unwrap();
        let ptr = alloc_for(&mut pool, old_layout).unwrap();
        let data_ptr = ptr.as_ptr();

        // Write test data (more than new size to test partial copy)
        let test_data: &[u8] = &[1, 2, 3, 4, 5, 6, 7, 8, 9, 10];
        for (i, &b) in test_data.iter().enumerate() {
            memory[data_ptr - base + i] = b;
        }

        // Shrink allocation
        let shrunk = shrink_in(&mut pool, &mut memory, data_ptr, old_layout, 16).unwrap();
        let shrunk_ptr = shrunk.as_ptr();

        // Verify data was preserved (up to new size)
        for (i, &expected_val) in test_data.iter().enumerate().take(16) {
            assert_eq!(
                memory[shrunk_ptr - base + i],
                expected_val,
                "Data corrupted at byte {}",
                i
            );
        }

        // Clean up
        let new_layout = Layout::from_size_align(16, 8).unwrap();
        dealloc(&mut pool, shrunk_ptr, new_layout);
    }
}

#[test]
fn pool_test_grow() {
    let mut memory = vec![0u8; 1024];
    let base = memory.as_ptr() as usize;

    {
        let mut pool = LpAllocator::new(base, 1024).unwrap();
        let old_layout = Layout::from_size_align(32, 8).unwrap();

        // Allocate initial block
        let old_block = alloc_for(&mut pool, old_layout).unwrap();
        let old_ptr = old_block.as_ptr();

        // Write some data
        for i in 0..32 {
            memory[old_ptr - base + i] = 0x42;
        }

        // Grow to larger size
        let new_size = 48;
        let new_block = grow_in(&mut pool, &mut memory, old_ptr, old_layout, new_size).unwrap();
        let new_ptr = new_block.as_ptr();

        // Verify data was copied
        for i in 0..32 {
            assert_eq!(memory[new_ptr - base + i], 0x42);
        }

        // Old block should be deallocated
        assert_eq!(pool.used_blocks(), 1);
    }
}

#[test]
fn pool_test_shrink() {
    let mut memory = vec![0u8; 1024];
    let base = memory.as_ptr() as usize;

    {
        let mut pool = LpAllocator::new(base, 1024).unwrap();
        let old_layout = Layout::from_size_align(48, 8).unwrap();

        // Allocate initial block
        let old_block = alloc_for(&mut pool, old_layout).unwrap();
        let old_ptr = old_block.as_ptr();

        // Write some data
        for i in 0..48 {
            memory[old_ptr - base + i] = 0x42;
        }

        // Shrink to smaller size
        let new_size = 32;
        let new_block = shrink_in(&mut pool, &mut memory, old_ptr, old_layout, new_size).unwrap();
        let new_ptr = new_block.as_ptr();

        // Verify data was copied (only first 32 bytes)
        for i in 0..32 {
            assert_eq!(memory[new_ptr - base + i], 0x42);
        }

        // Old block should be deallocated
        assert_eq!(pool.used_blocks(), 1);
    }
}

#[test]
fn pool_test_data_preservation_during_grow() {
    let mut memory = vec![0u8; 4096];
    let base = memory.as_ptr() as usize;

    {
        let mut pool = LpAllocator::new(base, 4096).unwrap();

        let old_layout = Layout::from_size_align(32, 8).unwrap();
        let ptr = alloc_for(&mut pool, old_layout).unwrap();
        let data_ptr = ptr.as_ptr();

        // Write test data
        let test_data: &[u8] = &[1, 2, 3, 4, 5, 6, 7, 8];
        for (i, &b) in test_data.iter().enumerate() {
            memory[data_ptr - base + i] = b;
        }

        // Grow allocation
        let grown = grow_in(&mut pool, &mut memory, data_ptr, old_layout, 64).unwrap();
        let grown_ptr = grown.as_ptr();

        // Verify data was preserved
        for (i, &expected_val) in test_data.iter().enumerate() {
            assert_eq!(
                memory[grown_ptr - base + i],
                expected_val,
                "Data corrupted at byte {}",
                i
            );
        }

        // Clean up
        let new_layout = Layout::from_size_align(64, 8).unwrap();
        dealloc(&mut pool, grown_ptr, new_layout);
    }
}

#[test]
fn pool_test_data_preservation_during_shrink() {
    let mut memory = vec![0u8; 4096];
    let base = memory.as_ptr() as usize;

    {
        let mut pool = LpAllocator::new(base, 4096).unwrap();

        let old_layout = Layout::from_size_align(128, 8).unwrap();
        let ptr = alloc_for(&mut pool, old_layout).unwrap();
        let data_ptr = ptr.as_ptr();

        // Write test data (more than new size to test partial copy)
        let test_data: &[u8] = &[1, 2, 3, 4, 5, 6, 7, 8, 9, 10];
        for (i, &b) in test_data.iter().enumerate() {
            memory[data_ptr - base + i] = b;
        }

        // Shrink allocation
        let shrunk = shrink_in(&mut pool, &mut memory, data_ptr, old_layout, 16).unwrap();
        let shrunk_ptr = shrunk.as_ptr();

        // Verify data was preserved (up to new size)
        for (i, &expected_val) in test_data.iter().enumerate().take(16) {
            assert_eq!(
                memory[shrunk_ptr - base + i],
                expected_val,
                "Data corrupted at byte {}",
                i
            );
        }

        // Clean up
        let new_layout = Layout::from_size_align(16, 8).unwrap();
        dealloc(&mut pool, shrunk_ptr, new_layout);
    }
}

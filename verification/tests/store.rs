use lp_core::collections::PoolBTreeMap;
use lp_core::pool::block_header::{BlockHeader, HEADER_ALIGN, HEADER_SIZE, MIN_BLOCK_SIZE};
use lp_core::pool::guards::GuardDepths;
use lp_core::pool::{AllocError, LpAllocator, LpMemoryPool, PoolStats};

#[test]
fn test_guard_depth() {
    let mut depths = GuardDepths::new();
    assert_eq!(depths.guard_depth(), 0);
    depths.enter_global_alloc_guard();
    assert_eq!(depths.guard_depth(), 1);
    depths.enter_global_alloc_guard();
    assert_eq!(depths.guard_depth(), 2);
    depths.exit_global_alloc_guard();
    assert_eq!(depths.guard_depth(), 1);
    depths.exit_global_alloc_guard();
    assert_eq!(depths.guard_depth(), 0);
}

#[test]
fn test_allow_depth() {
    let mut depths = GuardDepths::new();
    assert_eq!(depths.allow_depth(), 0);
    depths.enter_global_alloc_allowance();
    assert_eq!(depths.allow_depth(), 1);
    depths.enter_global_alloc_allowance();
    assert_eq!(depths.allow_depth(), 2);
    depths.exit_global_alloc_allowance();
    assert_eq!(depths.allow_depth(), 1);
    depths.exit_global_alloc_allowance();
    assert_eq!(depths.allow_depth(), 0);
}

#[test]
fn test_guard_active() {
    let mut depths = GuardDepths::new();
    assert!(!depths.global_alloc_guard_active());
    depths.enter_global_alloc_guard();
    assert!(depths.global_alloc_guard_active());
}

#[test]
fn test_allowance_active() {
    let mut depths = GuardDepths::new();
    assert!(!depths.global_alloc_allowance_active());
    depths.enter_global_alloc_allowance();
    assert!(depths.global_alloc_allowance_active());
}

#[test]
fn guard_exit_at_zero_stays_zero() {
    let mut depths = GuardDepths::new();
    depths.exit_global_alloc_guard();
    depths.exit_global_alloc_allowance();
    assert_eq!(depths.guard_depth(), 0);
    assert_eq!(depths.allow_depth(), 0);
}

#[test]
fn guard_enter_saturates() {
    let mut depths = GuardDepths { guard: u32::MAX, allow: u32::MAX };
    depths.enter_global_alloc_guard();
    depths.enter_global_alloc_allowance();
    assert_eq!(depths.guard_depth(), u32::MAX);
    assert_eq!(depths.allow_depth(), u32::MAX);
    depths.force_clear_global_alloc_guard();
    assert_eq!(depths, GuardDepths::new());
}

#[test]
fn test_set_and_get_allocator() {
    let mut memory = [0u8; 1024];
    let memory_ptr = memory.as_mut_ptr() as usize;
    let allocator = LpAllocator::new(memory_ptr, 1024).unwrap();

    let mut store = LpMemoryPool::empty();
    store.set_allocator(allocator);
    assert!(store.allocator_exists());
    assert_eq!(store.capacity().unwrap(), 1024);
}

#[test]
fn memory_pool_stats_track_allocations() {
    let mut memory = [0u8; 1024];
    let base = memory.as_mut_ptr() as usize;
    let pool = LpMemoryPool::new(base, 1024).unwrap();
    assert_eq!(
        pool.stats().unwrap(),
        PoolStats { used_bytes: 0, capacity: 1024, used_blocks: 0, free_blocks: 1 }
    );
    assert_eq!(pool.available_bytes().unwrap(), 1024);
    assert_eq!(pool.used_bytes().unwrap(), 0);
}

#[test]
fn memory_pool_empty_slot_is_exhausted() {
    let pool = LpMemoryPool::empty();
    assert!(!pool.allocator_exists());
    assert_eq!(pool.stats(), Err(AllocError::PoolExhausted));
    assert_eq!(pool.used_bytes(), Err(AllocError::PoolExhausted));
    assert_eq!(pool.capacity(), Err(AllocError::PoolExhausted));
    assert_eq!(pool.available_bytes(), Err(AllocError::PoolExhausted));
}

#[test]
fn memory_pool_too_small_is_invalid() {
    let mut memory = [0u8; 64];
    let base = memory.as_mut_ptr() as usize;
    assert!(matches!(LpMemoryPool::new(base, MIN_BLOCK_SIZE - 1), Err(AllocError::InvalidLayout)));
    assert!(LpMemoryPool::new(base, MIN_BLOCK_SIZE).is_ok());
}

#[test]
fn btree_map_test_btree_map_new() {
    let map = PoolBTreeMap::<i32, i32>::new();
    assert_eq!(map.len(), 0);
}

#[test]
fn btree_map_test_btree_map_insert() {
    let mut map = PoolBTreeMap::new();
    assert_eq!(map.try_insert(1, 10).unwrap(), None);
    assert_eq!(map.try_insert(2, 20).unwrap(), None);
    assert_eq!(map.len(), 2);
}

#[test]
fn btree_map_test_btree_map_insert_replace() {
    let mut map = PoolBTreeMap::new();
    map.try_insert(1, 10).unwrap();
    assert_eq!(map.try_insert(1, 100).unwrap(), Some(10));
    assert_eq!(map.len(), 1);
    assert_eq!(map.get(&1), Some(&100));
}

#[test]
fn btree_map_test_btree_map_get() {
    let mut map = PoolBTreeMap::new();
    map.try_insert(1, 10).unwrap();
    map.try_insert(2, 20).unwrap();

    assert_eq!(map.get(&1), Some(&10));
    assert_eq!(map.get(&2), Some(&20));
    assert_eq!(map.get(&3), None);
}

#[test]
fn btree_map_test_btree_map_string_keys() {
    let mut map = PoolBTreeMap::new();
    map.try_insert(String::from("a"), 1).unwrap();
    map.try_insert(String::from("b"), 2).unwrap();

    assert_eq!(map.get(&String::from("a")), Some(&1));
    assert_eq!(map.get(&String::from("b")), Some(&2));
}

#[test]
fn test_header_size() {
    // The header that starts every block is 32 bytes.
    let header_size = HEADER_SIZE;
    assert_eq!(header_size, 32, "Header size changed: {}", header_size);
}

#[test]
fn test_data_size() {
    let header = BlockHeader::new(64, false);
    let data_size = header.data_size();
    assert_eq!(data_size, 64 - HEADER_SIZE);
}

#[test]
fn test_total_size_for_allocation() {
    let data_size = 32;
    let total = BlockHeader::total_size_for_allocation(data_size);
    assert_eq!(total, HEADER_SIZE + data_size);
}

#[test]
fn test_align_size() {
    let align = HEADER_ALIGN;
    assert_eq!(BlockHeader::align_size(0), 0);
    assert_eq!(BlockHeader::align_size(1), align);
    assert_eq!(BlockHeader::align_size(align), align);
    assert_eq!(BlockHeader::align_size(align + 1), align * 2);
}

#[test]
fn test_min_block_size() {
    let min_size = MIN_BLOCK_SIZE;
    assert!(min_size >= HEADER_SIZE);
    assert!(min_size >= HEADER_SIZE + core::mem::size_of::<usize>());
}

#[test]
fn header_validity_and_small_blocks() {
    let header = BlockHeader::new_with_offset(40, true, 40);
    assert!(header.is_valid());
    assert_eq!(header.data_offset, 40);
    assert!(header.is_allocated);
    let small = BlockHeader::new(16, false);
    assert!(!small.is_valid());
    assert_eq!(small.data_size(), 0);
}

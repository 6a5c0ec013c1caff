use lp_core::collections::{LpBTreeMap, LpBox, LpString, LpVec, PoolString, PoolVec};
use lp_core::collections::key::KeyOrder;
use lp_core::collections::text_order::compare_text;
use lp_core::pool::{AllocError, AllocStats, LpAllocator};
use lp_core::vm::opcodes::LpsOpCode;

const BASE: usize = 0x1_0000;

#[test]
fn freeing_everything_leaves_one_free_block() {
    let mut pool = LpAllocator::new(BASE, 4096).unwrap();
    let a = pool.allocate(100, 8).unwrap();
    let b = pool.allocate(50, 16).unwrap();
    let c = pool.allocate(10, 8).unwrap();
    assert_eq!(pool.used_blocks(), 3);
    // free the middle one first, then the outer ones
    pool.deallocate(b.addr);
    pool.deallocate(a.addr);
    pool.deallocate(c.addr);
    assert_eq!(pool.used_bytes(), 0);
    assert_eq!(pool.used_blocks(), 0);
    assert_eq!(pool.free_blocks(), 1);
    // the whole region is one block again
    let whole = pool.allocate(4096 - 40, 8).unwrap();
    assert_eq!(whole.addr, BASE + 40);
}

#[test]
fn alloc_then_dealloc_restores_used_bytes() {
    let mut pool = LpAllocator::new(BASE, 2048).unwrap();
    let first = pool.allocate(24, 8).unwrap();
    let before = pool.used_bytes();
    let second = pool.allocate(200, 32).unwrap();
    assert!(pool.used_bytes() > before);
    pool.deallocate(second.addr);
    assert_eq!(pool.used_bytes(), before);
    pool.deallocate(first.addr);
    assert_eq!(pool.used_bytes(), 0);
}

#[test]
fn allocation_layout_is_exact() {
    // a block holds the 32-byte header, the 8-byte back link, and the data
    let mut pool = LpAllocator::new(BASE, 1024).unwrap();
    let a = pool.allocate(16, 8).unwrap();
    assert_eq!(a.addr, BASE + 40);
    assert_eq!(a.len, 16);
    assert_eq!(pool.used_bytes(), 56);
    let b = pool.allocate(16, 64).unwrap();
    // the next block starts at offset 56; its data is rounded up to 64
    assert_eq!(b.addr % 64, 0);
    assert_eq!(b.addr, BASE + 128);
    assert_eq!(pool.used_bytes(), 56 + (128 - 56) + 16);
}

#[test]
fn small_remainder_is_not_split_off() {
    let mut pool = LpAllocator::new(BASE, 100).unwrap();
    // 40 + 30 = 70 bytes needed; the 30 left are less than a minimum block
    let a = pool.allocate(30, 8).unwrap();
    assert_eq!(pool.used_bytes(), 100);
    assert_eq!(pool.free_blocks(), 0);
    assert_eq!(pool.allocate(0, 1), Err(AllocError::PoolExhausted));
    pool.deallocate(a.addr);
    assert_eq!(pool.free_blocks(), 1);
}

#[test]
fn too_small_region_is_invalid() {
    assert!(matches!(LpAllocator::new(BASE, 39), Err(AllocError::InvalidLayout)));
    assert!(LpAllocator::new(BASE, 40).is_ok());
}

#[test]
fn exhausted_pool_reports_pool_exhausted() {
    let mut pool = LpAllocator::new(BASE, 4096).unwrap();
    assert_eq!(pool.allocate(5000, 8), Err(AllocError::PoolExhausted));
    assert_eq!(pool.used_bytes(), 0);
}

#[test]
fn oversized_request_is_invalid_layout() {
    let mut pool = LpAllocator::new(BASE, 4096).unwrap();
    assert_eq!(pool.allocate(usize::MAX - 10, 8), Err(AllocError::InvalidLayout));
    assert_eq!(pool.used_bytes(), 0);
}

#[test]
fn address_overflow_is_invalid_layout() {
    let mut pool = LpAllocator::new(usize::MAX - 4096, 4096).unwrap();
    assert_eq!(pool.allocate(8, 1 << 20), Err(AllocError::InvalidLayout));
    assert_eq!(pool.used_bytes(), 0);
}

#[test]
fn far_alignment_is_invalid_layout() {
    // the back link would lie more than 65535 bytes into the block
    let mut pool = LpAllocator::new(BASE, 1 << 21).unwrap();
    assert_eq!(pool.allocate(8, 1 << 20), Err(AllocError::InvalidLayout));
    assert_eq!(pool.used_bytes(), 0);
}

#[test]
fn grow_beyond_isize_is_invalid_layout() {
    let mut pool = LpAllocator::new(BASE, 1024).unwrap();
    let a = pool.allocate(8, 8).unwrap();
    assert_eq!(pool.grow(a.addr, 8, 8, usize::MAX), Err(AllocError::InvalidLayout));
    assert_eq!(pool.used_blocks(), 1);
    assert_eq!(pool.shrink(a.addr, 8, 8, 8), Err(AllocError::InvalidLayout));
}

#[test]
fn grow_moves_to_new_block_and_frees_old() {
    let mut pool = LpAllocator::new(BASE, 1024).unwrap();
    let a = pool.allocate(16, 8).unwrap();
    let b = pool.grow(a.addr, 16, 8, 64).unwrap();
    assert_ne!(a.addr, b.addr);
    assert_eq!(b.len, 64);
    assert!(!pool.is_allocated(a.addr));
    assert!(pool.is_allocated(b.addr));
    assert_eq!(pool.used_blocks(), 1);
}

#[test]
fn error_messages() {
    assert_eq!(AllocError::PoolExhausted.message(), "Pool exhausted - no more blocks available");
    assert_eq!(
        AllocError::InvalidLayout.message(),
        "Invalid layout - alignment or size requirements invalid"
    );
    assert_eq!(AllocError::OutOfMemory { requested: 1, available: 0 }.message(), "Out of memory");
}

#[test]
fn map_remove_node_with_two_children() {
    let mut pool = LpAllocator::new(BASE, 8192).unwrap();
    let mut map = LpBTreeMap::new();
    for k in [50, 30, 70, 60, 80, 65] {
        map.try_insert(&mut pool, k, k * 10).unwrap();
    }
    let used = pool.used_bytes();
    // 70 has two children; its successor 80 has none
    assert_eq!(map.try_remove(&mut pool, &70).unwrap(), Some(700));
    assert!(pool.used_bytes() < used);
    assert_eq!(map.len(), 5);
    assert_eq!(map.get(&70), None);
    for k in [50, 30, 60, 80, 65] {
        assert_eq!(map.get(&k), Some(&(k * 10)));
    }
    // 50 has two children; its successor 60 has a right child
    assert_eq!(map.try_remove(&mut pool, &50).unwrap(), Some(500));
    for k in [30, 60, 80, 65] {
        assert_eq!(map.get(&k), Some(&(k * 10)));
    }
    assert_eq!(map.try_remove(&mut pool, &50).unwrap(), None);
    map.clear(&mut pool);
    assert_eq!(pool.used_bytes(), 0);
    assert!(map.is_empty());
}

#[test]
fn map_insert_fails_when_pool_is_exhausted() {
    let mut pool = LpAllocator::new(BASE, 128).unwrap();
    let mut map = LpBTreeMap::new();
    let mut inserted = 0;
    let mut last = Ok(None);
    for k in 0..100i64 {
        last = map.try_insert(&mut pool, k, k);
        if last.is_err() {
            break;
        }
        inserted += 1;
    }
    assert_eq!(last, Err(AllocError::PoolExhausted));
    assert_eq!(map.len(), inserted);
    assert!(!map.contains_key(&(inserted as i64)));
    // an existing key is still replaced without allocating
    assert_eq!(map.try_insert(&mut pool, 0, 7), Ok(Some(0)));
}

#[test]
fn vec_of_zero_sized_items_cannot_grow_past_first_buffer() {
    let mut pool = LpAllocator::new(BASE, 1024).unwrap();
    let mut v: LpVec<()> = LpVec::new();
    for _ in 0..4 {
        v.try_push(&mut pool, ()).unwrap();
    }
    assert_eq!(v.capacity(), 4);
    assert_eq!(v.try_push(&mut pool, ()), Err(AllocError::InvalidLayout));
    assert_eq!(v.len(), 4);
}

#[test]
fn vec_reserve_overflow_is_invalid_layout() {
    let mut pool = LpAllocator::new(BASE, 1024).unwrap();
    let mut v: LpVec<u64> = LpVec::new();
    assert_eq!(v.try_reserve(&mut pool, usize::MAX), Err(AllocError::InvalidLayout));
    assert_eq!(v.capacity(), 0);
    assert_eq!(pool.used_bytes(), 0);
}

#[test]
fn vec_growth_doubles_capacity() {
    let mut pool = LpAllocator::new(BASE, 4096).unwrap();
    let mut v = LpVec::new();
    let mut caps = Vec::new();
    for i in 0..9u32 {
        v.try_push(&mut pool, i).unwrap();
        caps.push(v.capacity());
    }
    assert_eq!(caps, vec![4, 4, 4, 4, 8, 8, 8, 8, 16]);
    assert_eq!(pool.used_blocks(), 1);
    let items = v.free(&mut pool);
    assert_eq!(items, (0..9).collect::<Vec<u32>>());
    assert_eq!(pool.used_bytes(), 0);
}

#[test]
fn string_order_is_bytewise() {
    let mut pool = LpAllocator::new(BASE, 4096).unwrap();
    let app = LpString::try_from_str(&mut pool, "app").unwrap();
    let apple = LpString::try_from_str(&mut pool, "apple").unwrap();
    let upper = LpString::try_from_str(&mut pool, "Apple").unwrap();
    assert!(app < apple);
    assert!(upper < app);
    assert!(apple > upper);
    assert_eq!(apple, "apple");
    assert_eq!(apple.as_bytes(), b"apple");
    assert!(app != apple);
}

#[test]
fn pool_vec_moves_to_a_new_buffer_when_full() {
    let mut pool = LpAllocator::new(BASE, 4096).unwrap();
    let mut v: PoolVec<u32> = PoolVec::new();
    assert_eq!(v.capacity(), 0);
    for i in 0..5u32 {
        v.try_push(&mut pool, i * 10).unwrap();
    }
    assert_eq!(v.len(), 5);
    assert_eq!(v.capacity(), 8);
    // the old buffer was given back: only one allocation is live
    assert_eq!(pool.used_blocks(), 1);
    assert_eq!(v.get(4), Some(&40));
    assert_eq!(v.get(5), None);
    *v.get_mut(0).unwrap() = 7;
    assert_eq!(v.as_slice(), &[7, 10, 20, 30, 40]);
}

#[test]
fn pool_vec_reserve_never_shrinks() {
    let mut pool = LpAllocator::new(BASE, 4096).unwrap();
    let mut v: PoolVec<u64> = PoolVec::new();
    v.try_reserve(&mut pool, 10).unwrap();
    assert_eq!(v.capacity(), 10);
    let used = pool.used_bytes();
    v.try_reserve(&mut pool, 3).unwrap();
    assert_eq!(v.capacity(), 10);
    assert_eq!(pool.used_bytes(), used);
    assert_eq!(v.try_reserve(&mut pool, usize::MAX), Err(AllocError::InvalidLayout));
    assert_eq!(v.capacity(), 10);
}

#[test]
fn pool_vec_push_fails_when_pool_is_full() {
    let mut pool = LpAllocator::new(BASE, 96).unwrap();
    let mut v: PoolVec<u64> = PoolVec::new();
    for i in 0..4u64 {
        v.try_push(&mut pool, i).unwrap();
    }
    assert!(matches!(v.try_push(&mut pool, 4), Err(AllocError::PoolExhausted)));
    assert_eq!(v.len(), 4);
    assert_eq!(v.capacity(), 4);
}

#[test]
fn pool_string_appends_bytes() {
    let mut pool = LpAllocator::new(BASE, 4096).unwrap();
    let mut s = PoolString::new();
    assert_eq!(s.len(), 0);
    s.try_push_str(&mut pool, "hello").unwrap();
    s.try_push_str(&mut pool, ", pool").unwrap();
    assert_eq!(s.len(), 11);
    assert_eq!(s.as_bytes(), b"hello, pool");
}

#[test]
fn vec_iter_mut_len_counts_down() {
    let mut pool = LpAllocator::new(BASE, 4096).unwrap();
    let mut v = LpVec::new();
    v.try_push(&mut pool, 5u8).unwrap();
    v.try_push(&mut pool, 6u8).unwrap();
    let mut it = v.iter_mut();
    assert_eq!(it.len(), 2);
    assert_eq!(it.size_hint(), (2, Some(2)));
    *it.next().unwrap() = 50;
    assert_eq!(it.len(), 1);
    assert!(it.next().is_some());
    assert!(it.next().is_none());
    assert_eq!(it.len(), 0);
    assert_eq!(v.get(0), Some(&50));
    assert_eq!(v.get(1), Some(&6));
}

#[test]
fn box_clone_takes_new_storage() {
    let mut pool = LpAllocator::new(BASE, 4096).unwrap();
    let a = LpBox::try_new(&mut pool, 17u64).unwrap();
    let b = a.try_clone(&mut pool).unwrap();
    assert_eq!(*a, *b);
    assert_ne!(a.addr(), b.addr());
    assert_eq!(pool.used_blocks(), 2);
    assert_eq!(b.free(&mut pool), 17);
    assert_eq!(a.free(&mut pool), 17);
    assert_eq!(pool.used_bytes(), 0);
}

#[test]
fn box_fails_when_pool_is_full() {
    let mut pool = LpAllocator::new(BASE, 64).unwrap();
    let big = LpBox::try_new(&mut pool, [0u8; 100]);
    assert!(matches!(big, Err(AllocError::PoolExhausted)));
    assert_eq!(pool.used_bytes(), 0);
    let small = LpBox::try_new(&mut pool, 1u8).unwrap();
    assert!(pool.used_bytes() > 0);
    small.free(&mut pool);
    assert_eq!(pool.used_bytes(), 0);
}

#[test]
fn alloc_then_free_restores_the_pool() {
    let mut pool = LpAllocator::new(BASE, 4096).unwrap();
    let keep = pool.allocate(64, 8).unwrap();
    let used = pool.used_bytes();
    let free_blocks = pool.free_blocks();
    let a = pool.allocate(100, 16).unwrap();
    assert!(pool.used_bytes() > used);
    pool.deallocate(a.addr);
    assert_eq!(pool.used_bytes(), used);
    assert_eq!(pool.free_blocks(), free_blocks);
    assert_eq!(pool.used_blocks(), 1);
    // the same request is served from the same place again
    let b = pool.allocate(100, 16).unwrap();
    assert_eq!(b.addr, a.addr);
    assert!(pool.is_allocated(keep.addr));
}

#[test]
fn error_text_names_the_numbers() {
    let e = AllocError::OutOfMemory { requested: 1024, available: 7 };
    assert_eq!(e.to_string(), "Out of memory: requested 1024 bytes, 7 available");
    let z = AllocError::OutOfMemory { requested: 0, available: 18446744073709551615 };
    assert_eq!(z.to_string(), "Out of memory: requested 0 bytes, 18446744073709551615 available");
    assert_eq!(AllocError::PoolExhausted.to_string(), "Pool exhausted - no more blocks available");
    assert_eq!(
        AllocError::InvalidLayout.to_string(),
        "Invalid layout - alignment or size requirements invalid"
    );
}

#[test]
fn stats_record_then_remove_restores() {
    let mut stats = AllocStats::new();
    stats.record("u32", None, 4);
    stats.record("u32", None, 4);
    stats.record("Vec<u8>", Some("render"), 64);
    assert_eq!(stats.get("u32", None), Some((2, 8)));
    assert_eq!(stats.get("Vec<u8>", Some("render")), Some((1, 64)));
    assert_eq!(stats.get("Vec<u8>", None), None);
    stats.record("u32", Some("a"), 4);
    stats.remove("u32", Some("a"), 4);
    assert_eq!(stats.get("u32", Some("a")), None);
    stats.remove("u32", None, 10);
    assert_eq!(stats.get("u32", None), Some((1, 0)));
    stats.remove("u32", None, 4);
    assert_eq!(stats.get("u32", None), None);
    // removing what was never recorded changes nothing
    stats.remove("f64", None, 8);
    assert_eq!(stats.totals(), Some((1, 64)));
}

#[test]
fn stats_report_is_in_key_order_with_totals() {
    let mut stats = AllocStats::new();
    stats.record("b", None, 1);
    stats.record("a", Some("z"), 2);
    stats.record("a", None, 3);
    stats.record("a", Some("y"), 4);
    stats.record("b", None, 5);
    let (rows, count, bytes) = stats.report();
    let keys: Vec<(String, Option<String>, usize, usize)> = rows
        .into_iter()
        .map(|r| (r.type_label, r.scope, r.count, r.total_bytes))
        .collect();
    assert_eq!(
        keys,
        vec![
            ("a".to_string(), None, 1, 3),
            ("a".to_string(), Some("y".to_string()), 1, 4),
            ("a".to_string(), Some("z".to_string()), 1, 2),
            ("b".to_string(), None, 2, 6),
        ]
    );
    assert_eq!((count, bytes), (5, 15));
}

#[test]
fn text_order_is_by_character() {
    assert_eq!(compare_text("apple", "apples"), KeyOrder::Less);
    assert_eq!(compare_text("b", "apple"), KeyOrder::Greater);
    assert_eq!(compare_text("Zebra", "apple"), KeyOrder::Less);
    assert_eq!(compare_text("same", "same"), KeyOrder::Equal);
    assert_eq!(compare_text("", "a"), KeyOrder::Less);
}

#[test]
fn opcode_names_ignore_payload_and_tell_variants_apart() {
    assert_eq!(LpsOpCode::Perlin3(1).name(), LpsOpCode::Perlin3(4).name());
    assert_eq!(LpsOpCode::Perlin3(2).name(), "Perlin3");
    assert_eq!(LpsOpCode::Swizzle3to2(0, 1).name(), "Swizzle3to2");
    assert_ne!(LpsOpCode::Dup1.name(), LpsOpCode::Dup2.name());
    assert_ne!(LpsOpCode::Drop1.name(), LpsOpCode::Dup1.name());
}

#[test]
fn string_keyed_map_replaces_equal_text_and_orders_by_text() {
    let mut pool = LpAllocator::new(BASE, 8192).unwrap();
    let mut map: LpBTreeMap<String, u32> = LpBTreeMap::new();
    for (k, v) in [("pear", 1u32), ("apple", 2), ("fig", 3), ("apples", 4)] {
        assert_eq!(map.try_insert(&mut pool, k.to_string(), v), Ok(None));
    }
    assert_eq!(map.try_insert(&mut pool, "fig".to_string(), 30), Ok(Some(3)));
    assert_eq!(map.len(), 4);
    assert_eq!(map.get(&"fig".to_string()), Some(&30));
    assert_eq!(map.try_remove(&mut pool, &"apple".to_string()), Ok(Some(2)));
    assert_eq!(map.get(&"apple".to_string()), None);
    assert_eq!(map.get(&"apples".to_string()), Some(&4));
    assert!(!map.contains_key(&"grape".to_string()));
    map.clear(&mut pool);
    assert_eq!(pool.used_bytes(), 0);
}

use std::cell::Cell;
use std::rc::Rc;

use lp_core::collections::{LpBTreeMap, LpBox, LpString, LpVec};
use lp_core::pool::{AllocError, LpAllocator};

/// A pool over `memory`.
fn setup_pool(memory: &mut [u8]) -> LpAllocator {
    let len = memory.len();
    LpAllocator::new(memory.as_mut_ptr() as usize, len).unwrap()
}

#[test]
fn map_test_btree_map_new() {
    let mut memory = [0u8; 16384];
    let mut pool = setup_pool(&mut memory);
    let result: Result<(), AllocError> = (|| {
        let map = LpBTreeMap::<i32, i32>::new();
        assert_eq!(map.len(), 0);
        assert!(map.is_empty());
        Ok(())
    })();
    result.unwrap();
}

#[test]
fn test_btree_map_is_empty() {
    let mut memory = [0u8; 16384];
    let mut pool = setup_pool(&mut memory);
    let result: Result<(), AllocError> = (|| {
        let mut map = LpBTreeMap::new();
        assert!(map.is_empty());

        map.try_insert(&mut pool, 1, 10)?;
        assert!(!map.is_empty());

        map.try_remove(&mut pool, &1)?;
        assert!(map.is_empty());

        Ok(())
    })();
    result.unwrap();
}

#[test]
fn test_btree_map_contains_key() {
    let mut memory = [0u8; 16384];
    let mut pool = setup_pool(&mut memory);
    let result: Result<(), AllocError> = (|| {
        let mut map = LpBTreeMap::new();
        assert!(!map.contains_key(&1));

        map.try_insert(&mut pool, 1, 10)?;
        assert!(map.contains_key(&1));
        assert!(!map.contains_key(&2));

        Ok(())
    })();
    result.unwrap();
}

#[test]
fn test_btree_map_drop_order() {
    /// Counts how many of its kind were dropped.
    struct DropCounter(Rc<Cell<usize>>);
    impl Drop for DropCounter {
        fn drop(&mut self) {
            self.0.set(self.0.get() + 1);
        }
    }

    let drop_count = Rc::new(Cell::new(0usize));
    let mut memory = [0u8; 16384];
    let mut pool = setup_pool(&mut memory);

    let result: Result<(), AllocError> = (|| {
        {
            let mut map = LpBTreeMap::new();
            map.try_insert(&mut pool, 1, DropCounter(drop_count.clone()))?;
            map.try_insert(&mut pool, 2, DropCounter(drop_count.clone()))?;
            map.try_insert(&mut pool, 3, DropCounter(drop_count.clone()))?;
        }

        assert_eq!(drop_count.get(), 3);
        Ok(())
    })();
    result.unwrap();
}

#[test]
fn map_get_test_btree_map_get() {
    let mut memory = [0u8; 16384];
    let mut pool = setup_pool(&mut memory);
    let result: Result<(), AllocError> = (|| {
        let mut map = LpBTreeMap::new();
        map.try_insert(&mut pool, 1, 10)?;
        map.try_insert(&mut pool, 2, 20)?;
        map.try_insert(&mut pool, 3, 30)?;

        assert_eq!(map.get(&1), Some(&10));
        assert_eq!(map.get(&2), Some(&20));
        assert_eq!(map.get(&3), Some(&30));
        assert_eq!(map.get(&4), None);

        Ok(())
    })();
    result.unwrap();
}

#[test]
fn map_insert_test_btree_map_insert() {
    let mut memory = [0u8; 16384];
    let mut pool = setup_pool(&mut memory);
    let result: Result<(), AllocError> = (|| {
        let mut map = LpBTreeMap::new();
        assert_eq!(map.try_insert(&mut pool, 1, 10)?, None);
        assert_eq!(map.len(), 1);
        assert_eq!(map.get(&1), Some(&10));

        Ok(())
    })();
    result.unwrap();
}

#[test]
fn map_insert_test_btree_map_insert_replace() {
    let mut memory = [0u8; 16384];
    let mut pool = setup_pool(&mut memory);
    let result: Result<(), AllocError> = (|| {
        let mut map = LpBTreeMap::new();
        assert_eq!(map.try_insert(&mut pool, 1, 10)?, None);
        assert_eq!(map.try_insert(&mut pool, 1, 20)?, Some(10));
        assert_eq!(map.len(), 1);
        assert_eq!(map.get(&1), Some(&20));

        Ok(())
    })();
    result.unwrap();
}

#[test]
fn test_btree_map_with_scope() {
    let mut memory = [0u8; 16384];
    let mut pool = setup_pool(&mut memory);
    let result: Result<(), AllocError> = (|| {
        let mut map = LpBTreeMap::new_with_scope(Some("test_scope"));
        map.try_insert(&mut pool, 1, 10)?;
        map.try_insert(&mut pool, 2, 20)?;
        assert_eq!(map.len(), 2);
        Ok(())
    })();
    result.unwrap();
}

#[test]
fn test_btree_map_duplicate_key_replacement() {
    let mut memory = [0u8; 16384];
    let mut pool = setup_pool(&mut memory);
    let result: Result<(), AllocError> = (|| {
        let mut map = LpBTreeMap::new();
        map.try_insert(&mut pool, 1, 10)?;
        map.try_insert(&mut pool, 2, 20)?;
        map.try_insert(&mut pool, 3, 30)?;

        let old = map.try_insert(&mut pool, 2, 200)?;
        assert_eq!(old, Some(20));
        assert_eq!(map.get(&2), Some(&200));
        assert_eq!(map.len(), 3);

        Ok(())
    })();
    result.unwrap();
}

#[test]
fn test_btree_map_many_insertions() {
    let mut memory = [0u8; 16384];
    let mut pool = setup_pool(&mut memory);
    let result: Result<(), AllocError> = (|| {
        let mut map = LpBTreeMap::new();

        for i in 0..100 {
            map.try_insert(&mut pool, i, i * 10)?;
        }

        assert_eq!(map.len(), 100);
        for i in 0..100 {
            assert_eq!(map.get(&i), Some(&(i * 10)));
        }

        Ok(())
    })();
    result.unwrap();
}

#[test]
fn test_btree_map_degenerate_sorted_insertion() {
    let mut memory = [0u8; 16384];
    let mut pool = setup_pool(&mut memory);
    let result: Result<(), AllocError> = (|| {
        let mut map = LpBTreeMap::new();

        // Insert in sorted order (creates degenerate tree)
        for i in 0..50 {
            map.try_insert(&mut pool, i, i)?;
        }

        assert_eq!(map.len(), 50);
        for i in 0..50 {
            assert_eq!(map.get(&i), Some(&i));
        }

        Ok(())
    })();
    result.unwrap();
}

#[test]
fn test_btree_map_reverse_sorted_insertion() {
    let mut memory = [0u8; 16384];
    let mut pool = setup_pool(&mut memory);
    let result: Result<(), AllocError> = (|| {
        let mut map = LpBTreeMap::new();

        // Insert in reverse sorted order (creates degenerate tree)
        for i in (0..50).rev() {
            map.try_insert(&mut pool, i, i)?;
        }

        assert_eq!(map.len(), 50);
        for i in 0..50 {
            assert_eq!(map.get(&i), Some(&i));
        }

        Ok(())
    })();
    result.unwrap();
}

#[test]
fn test_btree_map_remove() {
    let mut memory = [0u8; 16384];
    let mut pool = setup_pool(&mut memory);
    let result: Result<(), AllocError> = (|| {
        let mut map = LpBTreeMap::new();
        map.try_insert(&mut pool, 1, 10)?;
        map.try_insert(&mut pool, 2, 20)?;
        map.try_insert(&mut pool, 3, 30)?;

        assert_eq!(map.try_remove(&mut pool, &2)?, Some(20));
        assert_eq!(map.len(), 2);
        assert_eq!(map.get(&2), None);
        assert_eq!(map.get(&1), Some(&10));
        assert_eq!(map.get(&3), Some(&30));

        Ok(())
    })();
    result.unwrap();
}

#[test]
fn test_btree_map_remove_all_verify_memory() {
    let mut memory = [0u8; 16384];
    let mut pool = setup_pool(&mut memory);
    let before = pool.used_bytes();

    let result: Result<(), AllocError> = (|| {
        let mut map = LpBTreeMap::new();
        map.try_insert(&mut pool, 1, 10)?;
        map.try_insert(&mut pool, 2, 20)?;
        map.try_insert(&mut pool, 3, 30)?;

        map.try_remove(&mut pool, &1)?;
        map.try_remove(&mut pool, &2)?;
        map.try_remove(&mut pool, &3)?;

        let after = pool.used_bytes();
        assert_eq!(
            after, before,
            "Memory should be freed after removing all nodes"
        );

        Ok(())
    })();
    result.unwrap();
}

#[test]
fn test_btree_map_remove_from_various_positions() {
    let mut memory = [0u8; 16384];
    let mut pool = setup_pool(&mut memory);
    let result: Result<(), AllocError> = (|| {
        let mut map = LpBTreeMap::new();
        map.try_insert(&mut pool, 5, 50)?;
        map.try_insert(&mut pool, 3, 30)?;
        map.try_insert(&mut pool, 7, 70)?;
        map.try_insert(&mut pool, 1, 10)?;
        map.try_insert(&mut pool, 9, 90)?;
        map.try_insert(&mut pool, 4, 40)?;
        map.try_insert(&mut pool, 6, 60)?;

        // Remove leaf
        assert_eq!(map.try_remove(&mut pool, &1)?, Some(10));
        // Remove node with one child
        assert_eq!(map.try_remove(&mut pool, &9)?, Some(90));
        // Remove node with two children
        assert_eq!(map.try_remove(&mut pool, &5)?, Some(50));

        assert_eq!(map.len(), 4);
        assert_eq!(map.get(&3), Some(&30));
        assert_eq!(map.get(&7), Some(&70));
        assert_eq!(map.get(&4), Some(&40));
        assert_eq!(map.get(&6), Some(&60));

        Ok(())
    })();
    result.unwrap();
}

#[test]
fn test_btree_map_empty_operations() {
    let mut memory = [0u8; 16384];
    let mut pool = setup_pool(&mut memory);
    let result: Result<(), AllocError> = (|| {
        let mut map = LpBTreeMap::<i32, i32>::new();
        assert_eq!(map.try_remove(&mut pool, &1)?, None);
        assert_eq!(map.len(), 0);

        Ok(())
    })();
    result.unwrap();
}

#[test]
fn test_btree_map_single_element_operations() {
    let mut memory = [0u8; 16384];
    let mut pool = setup_pool(&mut memory);
    let result: Result<(), AllocError> = (|| {
        let mut map = LpBTreeMap::new();
        map.try_insert(&mut pool, 1, 10)?;

        assert_eq!(map.try_remove(&mut pool, &1)?, Some(10));
        assert_eq!(map.len(), 0);
        assert!(map.is_empty());

        Ok(())
    })();
    result.unwrap();
}

#[test]
fn test_btree_map_interleaved_insert_remove() {
    let mut memory = [0u8; 16384];
    let mut pool = setup_pool(&mut memory);
    let result: Result<(), AllocError> = (|| {
        let mut map = LpBTreeMap::new();

        map.try_insert(&mut pool, 1, 10)?;
        map.try_insert(&mut pool, 2, 20)?;
        map.try_remove(&mut pool, &1)?;
        map.try_insert(&mut pool, 3, 30)?;
        map.try_remove(&mut pool, &2)?;
        map.try_insert(&mut pool, 4, 40)?;

        assert_eq!(map.len(), 2);
        assert_eq!(map.get(&3), Some(&30));
        assert_eq!(map.get(&4), Some(&40));

        Ok(())
    })();
    result.unwrap();
}

#[test]
fn test_string_new() {
    let mut memory = [0u8; 16384];
    let mut pool = setup_pool(&mut memory);
    let result: Result<(), AllocError> = (|| {
        let s = LpString::new();
        assert_eq!(s.len(), 0);
        assert_eq!(s.as_bytes(), b"");
        Ok(())
    })();
    result.unwrap();
}

#[test]
fn test_string_push_str() {
    let mut memory = [0u8; 16384];
    let mut pool = setup_pool(&mut memory);
    let result: Result<(), AllocError> = (|| {
        let mut s = LpString::new();
        s.try_push_str(&mut pool, "hello")?;
        assert_eq!(s.len(), 5);
        assert_eq!(s.as_bytes(), b"hello");
        Ok(())
    })();
    result.unwrap();
}

#[test]
fn test_string_multiple_push() {
    let mut memory = [0u8; 16384];
    let mut pool = setup_pool(&mut memory);
    let result: Result<(), AllocError> = (|| {
        let mut s = LpString::new();
        s.try_push_str(&mut pool, "hello")?;
        s.try_push_str(&mut pool, " ")?;
        s.try_push_str(&mut pool, "world")?;
        assert_eq!(s.as_bytes(), b"hello world");
        assert_eq!(s.len(), 11);
        Ok(())
    })();
    result.unwrap();
}

#[test]
fn test_string_empty() {
    let mut memory = [0u8; 16384];
    let mut pool = setup_pool(&mut memory);
    let result: Result<(), AllocError> = (|| {
        let mut s = LpString::new();
        s.try_push_str(&mut pool, "")?;
        assert_eq!(s.len(), 0);
        assert_eq!(s.as_bytes(), b"");
        Ok(())
    })();
    result.unwrap();
}

#[test]
fn test_string_with_scope() {
    let mut memory = [0u8; 16384];
    let mut pool = setup_pool(&mut memory);
    let result: Result<(), AllocError> = (|| {
        let mut s = LpString::new_with_scope(Some("test_scope"));
        s.try_push_str(&mut pool, "hello")?;
        assert_eq!(s.as_bytes(), b"hello");
        Ok(())
    })();
    result.unwrap();
}

#[test]
fn test_string_try_from_str() {
    let mut memory = [0u8; 16384];
    let mut pool = setup_pool(&mut memory);
    let result: Result<(), AllocError> = (|| {
        let s = LpString::try_from_str(&mut pool, "hello")?;
        assert_eq!(s.as_bytes(), b"hello");

        let s2 = LpString::try_from_str(&mut pool, "world")?;
        assert_eq!(s2.as_bytes(), b"world");
        Ok(())
    })();
    result.unwrap();
}

#[test]
fn test_string_equality() {
    let mut memory = [0u8; 16384];
    let mut pool = setup_pool(&mut memory);
    let result: Result<(), AllocError> = (|| {
        let s1 = LpString::try_from_str(&mut pool, "hello")?;
        let s2 = LpString::try_from_str(&mut pool, "hello")?;
        let s3 = LpString::try_from_str(&mut pool, "world")?;

        assert_eq!(s1, s2);
        assert_ne!(s1, s3);
        Ok(())
    })();
    result.unwrap();
}

#[test]
fn test_string_ordering() {
    let mut memory = [0u8; 16384];
    let mut pool = setup_pool(&mut memory);
    let result: Result<(), AllocError> = (|| {
        let s1 = LpString::try_from_str(&mut pool, "apple")?;
        let s2 = LpString::try_from_str(&mut pool, "banana")?;
        let s3 = LpString::try_from_str(&mut pool, "cherry")?;

        assert!(s1 < s2);
        assert!(s2 < s3);
        assert!(s1 < s3);
        Ok(())
    })();
    result.unwrap();
}

#[test]
fn test_string_eq_str() {
    let mut memory = [0u8; 16384];
    let mut pool = setup_pool(&mut memory);
    let result: Result<(), AllocError> = (|| {
        let s = LpString::try_from_str(&mut pool, "hello")?;
        assert_eq!(s, "hello");
        assert_ne!(s, "world");
        Ok(())
    })();
    result.unwrap();
}

#[test]
fn test_vec_new() {
    let mut memory = [0u8; 16384];
    let mut pool = setup_pool(&mut memory);
    let result: Result<(), AllocError> = (|| {
        let vec = LpVec::<i32>::new();
        assert_eq!(vec.len(), 0);
        assert_eq!(vec.capacity(), 0);
        Ok(())
    })();
    result.unwrap();
}

#[test]
fn test_vec_push() {
    let mut memory = [0u8; 16384];
    let mut pool = setup_pool(&mut memory);
    let result: Result<(), AllocError> = (|| {
        let mut vec = LpVec::new();
        vec.try_push(&mut pool, 1)?;
        vec.try_push(&mut pool, 2)?;
        vec.try_push(&mut pool, 3)?;
        assert_eq!(vec.len(), 3);
        assert!(vec.capacity() >= 3);
        Ok(())
    })();
    result.unwrap();
}

#[test]
fn test_vec_get() {
    let mut memory = [0u8; 16384];
    let mut pool = setup_pool(&mut memory);
    let result: Result<(), AllocError> = (|| {
        let mut vec = LpVec::new();
        vec.try_push(&mut pool, 10)?;
        vec.try_push(&mut pool, 20)?;
        vec.try_push(&mut pool, 30)?;
        
        assert_eq!(vec.get(0), Some(&10));
        assert_eq!(vec.get(1), Some(&20));
        assert_eq!(vec.get(2), Some(&30));
        assert_eq!(vec.get(3), None);
        
        Ok(())
    })();
    result.unwrap();
}

#[test]
fn test_vec_growth() {
    let mut memory = [0u8; 16384];
    let mut pool = setup_pool(&mut memory);
    let result: Result<(), AllocError> = (|| {
        let mut vec = LpVec::new();
        
        // Push more than initial capacity (4)
        for i in 0..10 {
            vec.try_push(&mut pool, i)?;
        }
        
        assert_eq!(vec.len(), 10);
        assert!(vec.capacity() >= 10);
        
        // Verify all values
        for i in 0..10 {
            assert_eq!(vec.get(i), Some(&i));
        }
        
        Ok(())
    })();
    result.unwrap();
}

#[test]
fn test_vec_reserve() {
    let mut memory = [0u8; 16384];
    let mut pool = setup_pool(&mut memory);
    let result: Result<(), AllocError> = (|| {
        let mut vec = LpVec::new();
        vec.try_reserve(&mut pool, 20)?;
        assert!(vec.capacity() >= 20);
        
        // Should be able to push without reallocating
        let old_cap = vec.capacity();
        vec.try_push(&mut pool, 1)?;
        assert_eq!(vec.capacity(), old_cap);
        
        Ok(())
    })();
    result.unwrap();
}

#[test]
fn test_vec_with_scope() {
    let mut memory = [0u8; 16384];
    let mut pool = setup_pool(&mut memory);
    let result: Result<(), AllocError> = (|| {
        let mut vec = LpVec::<i32>::new_with_scope(Some("test_scope"));
        vec.try_push(&mut pool, 1)?;
        vec.try_push(&mut pool, 2)?;
        assert_eq!(vec.len(), 2);
        Ok(())
    })();
    result.unwrap();
}

#[test]
fn test_vec_is_empty() {
    let mut memory = [0u8; 16384];
    let mut pool = setup_pool(&mut memory);
    let result: Result<(), AllocError> = (|| {
        let vec = LpVec::<i32>::new();
        assert!(vec.is_empty());
        
        let mut vec2 = LpVec::new();
        vec2.try_push(&mut pool, 1)?;
        assert!(!vec2.is_empty());
        Ok(())
    })();
    result.unwrap();
}

#[test]
fn test_vec_iter() {
    let mut memory = [0u8; 16384];
    let mut pool = setup_pool(&mut memory);
    let result: Result<(), AllocError> = (|| {
        let mut vec = LpVec::new();
        vec.try_push(&mut pool, 1)?;
        vec.try_push(&mut pool, 2)?;
        vec.try_push(&mut pool, 3)?;

        let mut sum: i32 = 0;
        let mut iter = vec.iter();
        while let Some(v) = iter.next() {
            sum += *v;
        }
        assert_eq!(sum, 6);

        let mut collected = Vec::new();
        let mut iter = vec.iter();
        while let Some(v) = iter.next() {
            collected.push(v);
        }
        let expected = vec![&1, &2, &3];
        assert_eq!(collected, expected);
        Ok(())
    })();
    result.unwrap();
}

#[test]
fn test_vec_iter_mut() {
    let mut memory = [0u8; 16384];
    let mut pool = setup_pool(&mut memory);
    let result: Result<(), AllocError> = (|| {
        let mut vec = LpVec::new();
        vec.try_push(&mut pool, 1)?;
        vec.try_push(&mut pool, 2)?;
        vec.try_push(&mut pool, 3)?;

        let mut iter = vec.iter_mut();
        while let Some(val) = iter.next() {
            *val *= 10;
        }

        assert_eq!(vec.get(0), Some(&10));
        assert_eq!(vec.get(1), Some(&20));
        assert_eq!(vec.get(2), Some(&30));
        Ok(())
    })();
    result.unwrap();
}

#[test]
fn test_vec_iter_rev() {
    let mut memory = [0u8; 16384];
    let mut pool = setup_pool(&mut memory);
    let result: Result<(), AllocError> = (|| {
        let mut vec = LpVec::new();
        vec.try_push(&mut pool, 1)?;
        vec.try_push(&mut pool, 2)?;
        vec.try_push(&mut pool, 3)?;

        let mut collected = Vec::new();
        let mut iter = vec.iter();
        while let Some(v) = iter.next_back() {
            collected.push(*v);
        }
        let expected = vec![3, 2, 1];
        assert_eq!(collected, expected);
        Ok(())
    })();
    result.unwrap();
}

#[test]
fn test_vec_iterator_exactsize() {
    let mut memory = [0u8; 16384];
    let mut pool = setup_pool(&mut memory);
    let result: Result<(), AllocError> = (|| {
        let mut vec = LpVec::new();
        vec.try_push(&mut pool, 1)?;
        vec.try_push(&mut pool, 2)?;
        vec.try_push(&mut pool, 3)?;

        let mut iter = vec.iter();
        assert_eq!(iter.len(), 3);

        iter.next();
        assert_eq!(iter.len(), 2);

        iter.next();
        assert_eq!(iter.len(), 1);

        iter.next();
        assert_eq!(iter.len(), 0);

        assert_eq!(iter.next(), None);

        Ok(())
    })();
    result.unwrap();
}

#[test]
fn test_vec_iterator_double_ended() {
    let mut memory = [0u8; 16384];
    let mut pool = setup_pool(&mut memory);
    let result: Result<(), AllocError> = (|| {
        let mut vec = LpVec::new();
        vec.try_push(&mut pool, 1)?;
        vec.try_push(&mut pool, 2)?;
        vec.try_push(&mut pool, 3)?;
        vec.try_push(&mut pool, 4)?;

        let mut iter = vec.iter();

        // Alternate between next and next_back
        assert_eq!(iter.next(), Some(&1));
        assert_eq!(iter.next_back(), Some(&4));
        assert_eq!(iter.next(), Some(&2));
        assert_eq!(iter.next_back(), Some(&3));
        assert_eq!(iter.next(), None);
        assert_eq!(iter.next_back(), None);

        Ok(())
    })();
    result.unwrap();
}

#[test]
fn test_vec_iterator_empty() {
    let mut memory = [0u8; 16384];
    let mut pool = setup_pool(&mut memory);
    let result: Result<(), AllocError> = (|| {
        let vec = LpVec::<i32>::new();
        let mut iter = vec.iter();

        assert_eq!(iter.len(), 0);
        assert_eq!(iter.next(), None);
        assert_eq!(iter.next_back(), None);

        Ok(())
    })();
    result.unwrap();
}

#[test]
fn test_vec_iterator_single_element() {
    let mut memory = [0u8; 16384];
    let mut pool = setup_pool(&mut memory);
    let result: Result<(), AllocError> = (|| {
        let mut vec = LpVec::new();
        vec.try_push(&mut pool, 42)?;

        let mut iter = vec.iter();
        assert_eq!(iter.len(), 1);
        assert_eq!(iter.next(), Some(&42));
        assert_eq!(iter.len(), 0);
        assert_eq!(iter.next(), None);

        Ok(())
    })();
    result.unwrap();
}

#[test]
fn test_btree_map_clear() {
    let mut memory = [0u8; 16384];
    let mut pool = setup_pool(&mut memory);
    let result: Result<(), AllocError> = (|| {
        let mut map = LpBTreeMap::new();
        map.try_insert(&mut pool, 1, 10)?;
        map.try_insert(&mut pool, 2, 20)?;
        map.try_insert(&mut pool, 3, 30)?;

        assert_eq!(map.len(), 3);
        map.clear(&mut pool);
        assert_eq!(map.len(), 0);
        assert!(map.is_empty());

        Ok(())
    })();
    result.unwrap();
}

#[test]
fn test_btree_map_clear_verify_memory() {
    let mut memory = [0u8; 16384];
    let mut pool = setup_pool(&mut memory);
    let before = pool.used_bytes();

    let result: Result<(), AllocError> = (|| {
        let mut map = LpBTreeMap::new();
        map.try_insert(&mut pool, 1, 10)?;
        map.try_insert(&mut pool, 2, 20)?;
        map.try_insert(&mut pool, 3, 30)?;

        map.clear(&mut pool);

        let after = pool.used_bytes();
        assert_eq!(after, before, "Memory should be freed after clear");

        Ok(())
    })();
    result.unwrap();
}

#[test]
fn test_btree_map_reinsert_after_clear() {
    let mut memory = [0u8; 16384];
    let mut pool = setup_pool(&mut memory);
    let result: Result<(), AllocError> = (|| {
        let mut map = LpBTreeMap::new();
        map.try_insert(&mut pool, 1, 10)?;
        map.try_insert(&mut pool, 2, 20)?;
        map.clear(&mut pool);

        map.try_insert(&mut pool, 3, 30)?;
        map.try_insert(&mut pool, 4, 40)?;
        assert_eq!(map.len(), 2);
        assert_eq!(map.get(&3), Some(&30));
        assert_eq!(map.get(&4), Some(&40));

        Ok(())
    })();
    result.unwrap();
}

#[test]
fn test_btree_map_get_mut() {
    let mut memory = [0u8; 16384];
    let mut pool = setup_pool(&mut memory);
    let result: Result<(), AllocError> = (|| {
        let mut map = LpBTreeMap::new();
        map.try_insert(&mut pool, 1, 10)?;
        map.try_insert(&mut pool, 2, 20)?;

        if let Some(val) = map.get_mut(&1) {
            *val = 100;
        }

        assert_eq!(map.get(&1), Some(&100));
        assert_eq!(map.get(&2), Some(&20));

        Ok(())
    })();
    result.unwrap();
}

#[test]
fn test_btree_map_get_mut_multiple() {
    let mut memory = [0u8; 16384];
    let mut pool = setup_pool(&mut memory);
    let result: Result<(), AllocError> = (|| {
        let mut map = LpBTreeMap::new();
        map.try_insert(&mut pool, 1, 10)?;
        map.try_insert(&mut pool, 2, 20)?;
        map.try_insert(&mut pool, 3, 30)?;

        *map.get_mut(&1).unwrap() = 100;
        *map.get_mut(&2).unwrap() = 200;
        *map.get_mut(&3).unwrap() = 300;

        assert_eq!(map.get(&1), Some(&100));
        assert_eq!(map.get(&2), Some(&200));
        assert_eq!(map.get(&3), Some(&300));

        Ok(())
    })();
    result.unwrap();
}

#[test]
fn test_vec_get_mut() {
    let mut memory = [0u8; 16384];
    let mut pool = setup_pool(&mut memory);
    let result: Result<(), AllocError> = (|| {
        let mut vec = LpVec::new();
        vec.try_push(&mut pool, 10)?;
        vec.try_push(&mut pool, 20)?;
        
        if let Some(val) = vec.get_mut(0) {
            *val = 100;
        }
        
        assert_eq!(vec.get(0), Some(&100));
        assert_eq!(vec.get(1), Some(&20));
        
        Ok(())
    })();
    result.unwrap();
}

#[test]
fn test_pool_box_new() {
    let mut memory = [0u8; 16384];
    let mut pool = setup_pool(&mut memory);
    let boxed = LpBox::try_new(&mut pool, 42i32).unwrap();
    assert_eq!(*boxed, 42);
}

#[test]
fn test_pool_box_deref() {
    let mut memory = [0u8; 16384];
    let mut pool = setup_pool(&mut memory);
    let boxed = LpBox::try_new(&mut pool, 100i32).unwrap();
    assert_eq!(*boxed, 100);
}

#[test]
fn test_pool_box_deref_mut() {
    let mut memory = [0u8; 16384];
    let mut pool = setup_pool(&mut memory);
    let mut boxed = LpBox::try_new(&mut pool, 50i32).unwrap();
    *boxed = 200;
    assert_eq!(*boxed, 200);
}

#[test]
fn test_pool_box_as_ref() {
    let mut memory = [0u8; 16384];
    let mut pool = setup_pool(&mut memory);
    let boxed = LpBox::try_new(&mut pool, 99i32).unwrap();
    let val = boxed.as_ref();
    assert_eq!(*val, 99);
}

#[test]
fn test_pool_box_as_mut() {
    let mut memory = [0u8; 16384];
    let mut pool = setup_pool(&mut memory);
    let mut boxed = LpBox::try_new(&mut pool, 1i32).unwrap();
    *boxed.as_mut() = 999;
    assert_eq!(*boxed, 999);
}

#[test]
fn test_pool_box_with_scope() {
    let mut memory = [0u8; 16384];
    let mut pool = setup_pool(&mut memory);
    let boxed = LpBox::try_new_with_scope(&mut pool, 42i32, Some("test_scope")).unwrap();
    assert_eq!(*boxed, 42);
}

#[test]
fn test_pool_box_drop() {
    let mut memory = [0u8; 16384];
    let mut pool = setup_pool(&mut memory);
    let before = pool.used_bytes();

    {
        let boxed = LpBox::try_new(&mut pool, 42i32).unwrap();
        let during = pool.used_bytes();
        assert!(during > before);
        boxed.free(&mut pool);
    }

    // After the box is freed, its memory is back in the pool
    let after = pool.used_bytes();
    assert_eq!(after, before);
}

#[test]
fn test_pool_box_string() {
    let mut memory = [0u8; 16384];
    let mut pool = setup_pool(&mut memory);
    let value = String::from("hello");
    let boxed = LpBox::try_new(&mut pool, value).unwrap();
    assert_eq!(*boxed, "hello");
}

#[test]
fn test_drop_before_deallocate() {
    /// Type that checks its own data during drop
    struct DropChecker {
        sentinel: u32,
        dropped: Rc<Cell<bool>>,
    }

    impl Drop for DropChecker {
        fn drop(&mut self) {
            assert_eq!(
                self.sentinel, 0xDEADBEEF,
                "Drop accessed freed memory - sentinel corrupted!"
            );
            self.dropped.set(true);
        }
    }

    let mut memory = [0u8; 16384];
    let mut pool = setup_pool(&mut memory);
    let drop_called = Rc::new(Cell::new(false));

    {
        let boxed = LpBox::try_new(
            &mut pool,
            DropChecker {
                sentinel: 0xDEADBEEF,
                dropped: drop_called.clone(),
            },
        )
        .unwrap();
        let value = boxed.free(&mut pool);
        drop(value);
    }

    // Verify drop was called
    assert!(drop_called.get(), "Drop was not called!");
}

#[test]
fn test_box_large_type() {
    #[derive(Clone, Copy)]
    struct Large([u64; 16]); // 128 bytes

    let mut memory = [0u8; 16384];
    let mut pool = setup_pool(&mut memory);
    let boxed = LpBox::try_new(&mut pool, Large([0x42; 16])).unwrap();
    assert_eq!(boxed.0[0], 0x42);
    assert_eq!(boxed.0[15], 0x42);
}

#[test]
fn test_box_zst() {
    // Zero-sized types
    let mut memory = [0u8; 16384];
    let mut pool = setup_pool(&mut memory);
    let boxed = LpBox::try_new(&mut pool, ()).unwrap();
    assert_eq!(*boxed, ());
}

#[test]
fn test_box_aligned_type() {
    struct Aligned8(u64);

    let mut memory = [0u8; 16384];
    let mut pool = setup_pool(&mut memory);
    let boxed = LpBox::try_new(&mut pool, Aligned8(42)).unwrap();
    assert_eq!(boxed.0, 42);

    // Verify alignment of its storage in the pool
    assert_eq!(boxed.addr() % std::mem::align_of::<Aligned8>(), 0, "Should be aligned");
    assert_eq!(boxed.addr() % 8, 0, "Should be aligned to 8 bytes");
}

#[test]
fn test_box_with_drop_order() {
    struct DropOrderChecker(usize, Rc<Cell<usize>>);

    impl Drop for DropOrderChecker {
        fn drop(&mut self) {
            let order = self.1.get();
            self.1.set(order + 1);
            assert_eq!(
                order, self.0,
                "Drop called out of order: expected {}, got {}",
                self.0, order
            );
        }
    }

    let mut memory = [0u8; 16384];
    let mut pool = setup_pool(&mut memory);
    let drop_order = Rc::new(Cell::new(0usize));

    {
        let _box1 = LpBox::try_new(&mut pool, DropOrderChecker(2, drop_order.clone())).unwrap(); // Dropped first (LIFO)
        let _box2 = LpBox::try_new(&mut pool, DropOrderChecker(1, drop_order.clone())).unwrap(); // Dropped second
        let _box3 = LpBox::try_new(&mut pool, DropOrderChecker(0, drop_order.clone())).unwrap(); // Dropped last
    }

    assert_eq!(drop_order.get(), 3);
}

#[test]
fn test_box_mutation() {
    let mut memory = [0u8; 16384];
    let mut pool = setup_pool(&mut memory);
    let mut boxed = LpBox::try_new(&mut pool, 10i32).unwrap();

    assert_eq!(*boxed, 10);

    *boxed = 20;
    assert_eq!(*boxed, 20);

    *boxed += 5;
    assert_eq!(*boxed, 25);
}

#[test]
fn test_box_deref_coercion() {
    let mut memory = [0u8; 16384];
    let mut pool = setup_pool(&mut memory);
    let boxed = LpBox::try_new(&mut pool, String::from("hello")).unwrap();

    // Deref coercion: LpBox<String> -> &str
    let s: &str = &boxed;
    assert_eq!(s, "hello");
    assert_eq!(s.len(), 5);
}

#[test]
fn test_box_as_ref_as_mut() {
    let mut memory = [0u8; 16384];
    let mut pool = setup_pool(&mut memory);
    let mut boxed = LpBox::try_new(&mut pool, 100i32).unwrap();

    let r = boxed.as_ref();
    assert_eq!(*r, 100);

    let m = boxed.as_mut();
    *m = 200;
    assert_eq!(*boxed, 200);
}

#[test]
fn test_box_tuple() {
    // Box containing tuple
    let mut memory = [0u8; 16384];
    let mut pool = setup_pool(&mut memory);
    let boxed = LpBox::try_new(&mut pool, (1, 2, 3)).unwrap();
    assert_eq!(boxed.0, 1);
    assert_eq!(boxed.1, 2);
    assert_eq!(boxed.2, 3);
}

#[test]
fn test_box_multiple_allocations() {
    let mut memory = [0u8; 16384];
    let mut pool = setup_pool(&mut memory);
    let box1 = LpBox::try_new(&mut pool, 1i32).unwrap();
    let box2 = LpBox::try_new(&mut pool, 2i32).unwrap();
    let box3 = LpBox::try_new(&mut pool, 3i32).unwrap();

    assert_eq!(*box1, 1);
    assert_eq!(*box2, 2);
    assert_eq!(*box3, 3);

    // Verify they're different allocations
    let ptr1 = box1.addr();
    let ptr2 = box2.addr();
    let ptr3 = box3.addr();

    assert_ne!(ptr1, ptr2);
    assert_ne!(ptr2, ptr3);
    assert_ne!(ptr1, ptr3);
}

#[test]
fn test_box_with_scope() {
    let mut memory = [0u8; 16384];
    let mut pool = setup_pool(&mut memory);
    let boxed = LpBox::try_new_with_scope(&mut pool, 42i32, Some("test_scope")).unwrap();
    assert_eq!(*boxed, 42);
}

#[test]
fn test_box_memory_is_freed() {
    let mut memory = [0u8; 16384];
    let mut pool = setup_pool(&mut memory);
    let before = pool.used_bytes();

    {
        let box1 = LpBox::try_new(&mut pool, [0u8; 64]).unwrap();
        let box2 = LpBox::try_new(&mut pool, [0u8; 64]).unwrap();
        box2.free(&mut pool);
        box1.free(&mut pool);
    }

    let after = pool.used_bytes();
    assert_eq!(after, before, "Memory should be freed after boxes drop");
}

#[test]
fn test_box_array() {
    let mut memory = [0u8; 16384];
    let mut pool = setup_pool(&mut memory);
    let boxed = LpBox::try_new(&mut pool, [1, 2, 3, 4, 5]).unwrap();

    assert_eq!(boxed[0], 1);
    assert_eq!(boxed[4], 5);
    assert_eq!(boxed.len(), 5);
}

#[test]
fn test_btree_map_complex_keys_with_drop() {
    /// Counts how many of its kind were dropped.
    struct DropCounter(i32, Rc<Cell<usize>>);
    impl Drop for DropCounter {
        fn drop(&mut self) {
            self.1.set(self.1.get() + 1);
        }
    }

    let drop_count = Rc::new(Cell::new(0usize));
    let mut memory = [0u8; 16384];
    let mut pool = setup_pool(&mut memory);

    let result: Result<(), AllocError> = (|| {
        let mut map = LpBTreeMap::new();
        map.try_insert(&mut pool, 1, DropCounter(10, drop_count.clone()))?;
        map.try_insert(&mut pool, 2, DropCounter(20, drop_count.clone()))?;
        map.try_insert(&mut pool, 3, DropCounter(30, drop_count.clone()))?;

        let removed = map.try_remove(&mut pool, &2)?;
        assert!(removed.is_some());
        assert_eq!(removed.as_ref().unwrap().0, 20);
        // removed drops here implicitly at end of scope
        Ok(())
    })();
    result.unwrap();

    // Verify at least one drop was called (the removed one)
    assert!(drop_count.get() >= 1);
}

#[test]
fn test_btree_map_string_keys() {
    let mut memory = [0u8; 16384];
    let mut pool = setup_pool(&mut memory);
    let result: Result<(), AllocError> = (|| {
        let mut map = LpBTreeMap::new();
        let k1 = String::from("key1");
        let k2 = String::from("key2");

        let k1_clone = k1.clone();
        let k2_clone = k2.clone();
        map.try_insert(&mut pool, k1_clone, 10)?;
        map.try_insert(&mut pool, k2_clone, 20)?;

        let k1_ref = k1.clone();
        let k2_ref = k2.clone();
        assert_eq!(map.get(&k1_ref), Some(&10));
        assert_eq!(map.get(&k2_ref), Some(&20));

        Ok(())
    })();
    result.unwrap();
}

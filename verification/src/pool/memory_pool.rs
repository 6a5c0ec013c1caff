//! A memory pool: the slot that holds the active allocator, and the statistics read
//! from it.
use vstd::prelude::*;

use super::allocator::{
    alloc_spec, dealloc_spec, is_allocation, lemma_used_within_region, resize_spec, slice_of,
    LpAllocator, PoolSlice,
};
use super::error::AllocError;
use super::layout::alloc_count;

verus! {

/// Statistics about pool usage.
#[derive(Clone, Copy, Debug, PartialEq, Eq, Structural)]
pub struct PoolStats {
    pub used_bytes: usize,
    pub capacity: usize,
    pub used_blocks: usize,
    pub free_blocks: usize,
}

/// A memory pool: the slot of the active allocator, empty until one is set.
pub struct LpMemoryPool {
    allocator: Option<LpAllocator>,
}

impl LpMemoryPool {
    /// The allocator in the slot, if any.
    pub closed spec fn active(&self) -> Option<LpAllocator> {
        self.allocator
    }

    /// The allocator in the slot, if any, is well formed.
    pub open spec fn wf(&self) -> bool {
        self.active() matches Some(a) ==> a.wf()
    }

    /// A pool with an empty slot.
    pub fn empty() -> (r: LpMemoryPool)
        ensures
            r.active() is None,
            r.wf(),
    {
        LpMemoryPool { allocator: None }
    }

    /// A pool over `size` bytes at address `memory`, with a fresh allocator in its slot.
    pub fn new(memory: usize, size: usize) -> (r: Result<LpMemoryPool, AllocError>)
        requires
            memory + size <= usize::MAX,
        ensures
            r is Err <==> size < super::block_header::MIN_BLOCK_SIZE,
            r matches Err(e) ==> e == AllocError::InvalidLayout,
            r matches Ok(p) ==> (p.wf() && (p.active() matches Some(a) && a.base_addr() == memory
                && a.cap() == size && a.used() == 0)),
    {
        match LpAllocator::new(memory, size) {
            Ok(a) => Ok(LpMemoryPool { allocator: Some(a) }),
            Err(e) => Err(e),
        }
    }

    /// Put `allocator` in the slot, replacing what was there.
    pub fn set_allocator(&mut self, allocator: LpAllocator)
        requires
            allocator.wf(),
        ensures
            final(self).active() == Some(allocator),
            final(self).wf(),
    {
        self.allocator = Some(allocator);
    }

    /// Take the allocator out of the slot, leaving it empty.
    pub fn take_allocator(&mut self) -> (r: Option<LpAllocator>)
        requires
            old(self).wf(),
        ensures
            r == old(self).active(),
            r matches Some(a) ==> a.wf(),
            final(self).active() is None,
            final(self).wf(),
    {
        self.allocator.take()
    }

    /// Run `f` on the allocator in the slot; `PoolExhausted` when the slot is empty.
    pub fn with_allocator<F, R>(&self, f: F) -> (r: Result<R, AllocError>)
        where
            F: FnOnce(&LpAllocator) -> Result<R, AllocError>,
        requires
            self.active() matches Some(a) ==> f.requires((&a,)),
        ensures
            self.active() is None ==> r == Err::<R, AllocError>(AllocError::PoolExhausted),
            self.active() matches Some(a) ==> f.ensures((&a,), r),
    {
        match &self.allocator {
            None => Err(AllocError::PoolExhausted),
            Some(a) => f(a),
        }
    }

    /// The slot holds an allocator.
    pub fn allocator_exists(&self) -> (r: bool)
        ensures
            r == self.active() is Some,
    {
        self.allocator.is_some()
    }

    /// Current usage statistics; `PoolExhausted` when the slot is empty.
    pub fn stats(&self) -> (r: Result<PoolStats, AllocError>)
        requires
            self.wf(),
        ensures
            self.active() is None ==> r == Err::<PoolStats, AllocError>(AllocError::PoolExhausted),
            self.active() matches Some(a) ==> r == Ok::<PoolStats, AllocError>(
                PoolStats {
                    used_bytes: a.used() as usize,
                    capacity: a.cap() as usize,
                    used_blocks: alloc_count(a.block_seq()) as usize,
                    free_blocks: a.free_seq().len() as usize,
                },
            ),
    {
        match &self.allocator {
            None => Err(AllocError::PoolExhausted),
            Some(a) => Ok(
                PoolStats {
                    used_bytes: a.used_bytes(),
                    capacity: a.capacity(),
                    used_blocks: a.used_blocks(),
                    free_blocks: a.free_blocks(),
                },
            ),
        }
    }

    /// Bytes in allocated blocks, headers included.
    pub fn used_bytes(&self) -> (r: Result<usize, AllocError>)
        requires
            self.wf(),
        ensures
            self.active() is None ==> r == Err::<usize, AllocError>(AllocError::PoolExhausted),
            self.active() matches Some(a) ==> r == Ok::<usize, AllocError>(a.used() as usize),
    {
        match self.stats() {
            Ok(s) => Ok(s.used_bytes),
            Err(e) => Err(e),
        }
    }

    /// Size of the region in bytes.
    pub fn capacity(&self) -> (r: Result<usize, AllocError>)
        requires
            self.wf(),
        ensures
            self.active() is None ==> r == Err::<usize, AllocError>(AllocError::PoolExhausted),
            self.active() matches Some(a) ==> r == Ok::<usize, AllocError>(a.cap() as usize),
    {
        match self.stats() {
            Ok(s) => Ok(s.capacity),
            Err(e) => Err(e),
        }
    }

    /// Bytes of the region not in allocated blocks.
    pub fn available_bytes(&self) -> (r: Result<usize, AllocError>)
        requires
            self.wf(),
        ensures
            self.active() is None ==> r == Err::<usize, AllocError>(AllocError::PoolExhausted),
            self.active() matches Some(a) ==> r == Ok::<usize, AllocError>((a.cap() - a.used()) as usize),
    {
        match &self.allocator {
            None => Err(AllocError::PoolExhausted),
            Some(a) => {
                proof {
                    lemma_used_within_region(a.base_addr(), a.cap(), a.view());
                }
                Ok(a.capacity() - a.used_bytes())
            },
        }
    }

    /// Allocate from the allocator in the slot; `PoolExhausted` when the slot is empty.
    pub fn allocate(&mut self, size: usize, align: usize) -> (r: Result<PoolSlice, AllocError>)
        requires
            old(self).wf(),
            align > 0,
        ensures
            final(self).wf(),
            old(self).active() is None ==> r == Err::<PoolSlice, AllocError>(AllocError::PoolExhausted)
                && final(self).active() is None,
            old(self).active() matches Some(a) ==> (final(self).active() matches Some(b) && {
                let (ar, q) = alloc_spec(a.base_addr(), a.view(), size as int, align as int);
                &&& r == slice_of(ar, size)
                &&& b.view() == q
                &&& b.base_addr() == a.base_addr()
                &&& b.cap() == a.cap()
            }),
    {
        match &mut self.allocator {
            None => Err(AllocError::PoolExhausted),
            Some(a) => a.allocate(size, align),
        }
    }

    /// `data` is the data address of an allocation of the allocator in the slot.
    pub fn is_allocated(&self, data: usize) -> (r: bool)
        requires
            self.wf(),
        ensures
            self.active() is None ==> !r,
            self.active() matches Some(a) ==> r == is_allocation(a.base_addr(), a.view(), data as int),
    {
        match &self.allocator {
            None => false,
            Some(a) => a.is_allocated(data),
        }
    }

    /// Free the allocation at `data` in the allocator in the slot.
    pub fn deallocate(&mut self, data: usize)
        requires
            old(self).wf(),
            old(self).active() matches Some(a) && is_allocation(a.base_addr(), a.view(), data as int),
        ensures
            final(self).wf(),
            old(self).active() matches Some(a) ==> (final(self).active() matches Some(b)
                && b.view() == dealloc_spec(a.base_addr(), a.view(), data as int)
                && b.base_addr() == a.base_addr() && b.cap() == a.cap()),
    {
        match &mut self.allocator {
            None => {},
            Some(a) => a.deallocate(data),
        }
    }

    /// Move the allocation at `data` (of `old_size` bytes) to one of `new_size > old_size`
    /// bytes in the allocator in the slot.
    pub fn grow(&mut self, data: usize, old_size: usize, align: usize, new_size: usize) -> (r: Result<PoolSlice, AllocError>)
        requires
            old(self).wf(),
            old(self).active() matches Some(a) && is_allocation(a.base_addr(), a.view(), data as int),
            align > 0,
        ensures
            final(self).wf(),
            old(self).active() matches Some(a) ==> (final(self).active() matches Some(b)
                && b.base_addr() == a.base_addr() && b.cap() == a.cap() && (if new_size <= old_size {
                r == Err::<PoolSlice, AllocError>(AllocError::InvalidLayout) && b.view() == a.view()
            } else {
                r == slice_of(resize_spec(a.base_addr(), a.view(), data as int, new_size as int, align as int).0, new_size)
                    && b.view() == resize_spec(a.base_addr(), a.view(), data as int, new_size as int, align as int).1
            })),
    {
        match &mut self.allocator {
            None => Err(AllocError::PoolExhausted),
            Some(a) => a.grow(data, old_size, align, new_size),
        }
    }

    /// Move the allocation at `data` (of `old_size` bytes) to one of `new_size < old_size`
    /// bytes in the allocator in the slot.
    pub fn shrink(&mut self, data: usize, old_size: usize, align: usize, new_size: usize) -> (r: Result<PoolSlice, AllocError>)
        requires
            old(self).wf(),
            old(self).active() matches Some(a) && is_allocation(a.base_addr(), a.view(), data as int),
            align > 0,
        ensures
            final(self).wf(),
            old(self).active() matches Some(a) ==> (final(self).active() matches Some(b)
                && b.base_addr() == a.base_addr() && b.cap() == a.cap() && (if new_size >= old_size {
                r == Err::<PoolSlice, AllocError>(AllocError::InvalidLayout) && b.view() == a.view()
            } else {
                r == slice_of(resize_spec(a.base_addr(), a.view(), data as int, new_size as int, align as int).0, new_size)
                    && b.view() == resize_spec(a.base_addr(), a.view(), data as int, new_size as int, align as int).1
            })),
    {
        match &mut self.allocator {
            None => Err(AllocError::PoolExhausted),
            Some(a) => a.shrink(data, old_size, align, new_size),
        }
    }
}

} // verus!

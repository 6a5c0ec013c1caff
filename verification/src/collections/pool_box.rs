//! A box whose storage is an allocation of a pool. The pool keeps no memory contents,
//! so the value is held here, while an allocation of the value's size and alignment
//! is taken from the pool when the box is made and given back when it is freed.
use vstd::prelude::*;

use crate::pool::allocator::{alloc_spec, dealloc_spec, is_allocation, lemma_alloc_spec, LpAllocator};
use crate::pool::error::AllocError;

verus! {

/// A box whose storage is allocated from a pool.
#[derive(Debug)]
pub struct LpBox<T> {
    value: T,
    data: usize,
}

/// Another name for `LpBox`.
pub type PoolBox<T> = LpBox<T>;

impl<T> LpBox<T> {
    /// The boxed value.
    pub closed spec fn value_of(&self) -> T {
        self.value
    }

    /// Address of the box's allocation.
    pub closed spec fn data_addr(&self) -> int {
        self.data as int
    }

    /// The box's storage is an allocation of `pool`.
    pub open spec fn storage_in(&self, pool: &LpAllocator) -> bool {
        is_allocation(pool.base_addr(), pool.view(), self.data_addr())
    }

    /// Move `value` into a box whose storage, of the size and alignment of `T`, is
    /// allocated from `pool`. When the pool cannot serve the request, its error comes
    /// back and the pool is unchanged.
    pub fn try_new(pool: &mut LpAllocator, value: T) -> (r: Result<LpBox<T>, AllocError>)
        requires
            old(pool).wf(),
        ensures
            final(pool).wf(),
            final(pool).base_addr() == old(pool).base_addr(),
            final(pool).cap() == old(pool).cap(),
            ({
                let (ar, aq) = alloc_spec(
                    old(pool).base_addr(),
                    old(pool).view(),
                    vstd::layout::size_of::<T>() as int,
                    vstd::layout::align_of::<T>() as int,
                );
                &&& final(pool).view() == aq
                &&& match ar {
                    Ok(d) => r matches Ok(b) && b.value_of() == value && b.data_addr() == d
                        && b.storage_in(final(pool)),
                    Err(e) => r == Err::<LpBox<T>, AllocError>(e),
                }
            }),
    {
        vstd::layout::layout_for_type_is_valid::<T>();
        let size = core::mem::size_of::<T>();
        let align = core::mem::align_of::<T>();
        proof {
            lemma_alloc_spec(pool.base_addr(), pool.cap(), pool.view(), size as int, align as int, 0);
        }
        match pool.allocate_addr(size, align) {
            Ok(d) => Ok(LpBox { value, data: d }),
            Err(e) => Err(e),
        }
    }

    /// The same as `try_new`: the scope would name the allocation in the allocation
    /// statistics by type and scope (`AllocStats`), which its caller keeps.
    pub fn try_new_with_scope(
        pool: &mut LpAllocator,
        value: T,
        scope: Option<&'static str>,
    ) -> (r: Result<LpBox<T>, AllocError>)
        requires
            old(pool).wf(),
        ensures
            final(pool).wf(),
            final(pool).base_addr() == old(pool).base_addr(),
            final(pool).cap() == old(pool).cap(),
            ({
                let (ar, aq) = alloc_spec(
                    old(pool).base_addr(),
                    old(pool).view(),
                    vstd::layout::size_of::<T>() as int,
                    vstd::layout::align_of::<T>() as int,
                );
                &&& final(pool).view() == aq
                &&& match ar {
                    Ok(d) => r matches Ok(b) && b.value_of() == value && b.data_addr() == d
                        && b.storage_in(final(pool)),
                    Err(e) => r == Err::<LpBox<T>, AllocError>(e),
                }
            }),
    {
        Self::try_new(pool, value)
    }

    /// The boxed value.
    pub fn as_ref(&self) -> (r: &T)
        ensures
            *r == self.value_of(),
    {
        &self.value
    }

    /// The boxed value, to change in place.
    pub fn as_mut(&mut self) -> (r: &mut T)
        ensures
            *r == old(self).value_of(),
            final(self).value_of() == *final(r),
            final(self).data_addr() == old(self).data_addr(),
    {
        &mut self.value
    }

    /// Address of the box's storage in the pool.
    pub fn addr(&self) -> (r: usize)
        ensures
            r == self.data_addr(),
    {
        self.data
    }

    /// Give the storage back to `pool` and return the value.
    pub fn free(self, pool: &mut LpAllocator) -> (r: T)
        requires
            old(pool).wf(),
            self.storage_in(old(pool)),
        ensures
            r == self.value_of(),
            final(pool).wf(),
            final(pool).base_addr() == old(pool).base_addr(),
            final(pool).cap() == old(pool).cap(),
            final(pool).view() == dealloc_spec(old(pool).base_addr(), old(pool).view(), self.data_addr()),
    {
        pool.deallocate(self.data);
        self.value
    }
}

impl<T: Clone> LpBox<T> {
    /// A new box, allocated from `pool`, holding a clone of the value.
    pub fn try_clone(&self, pool: &mut LpAllocator) -> (r: Result<LpBox<T>, AllocError>)
        requires
            old(pool).wf(),
        ensures
            final(pool).wf(),
            final(pool).base_addr() == old(pool).base_addr(),
            final(pool).cap() == old(pool).cap(),
            ({
                let (ar, aq) = alloc_spec(
                    old(pool).base_addr(),
                    old(pool).view(),
                    vstd::layout::size_of::<T>() as int,
                    vstd::layout::align_of::<T>() as int,
                );
                &&& final(pool).view() == aq
                &&& match ar {
                    Ok(d) => r matches Ok(b) && cloned::<T>(self.value_of(), b.value_of())
                        && b.data_addr() == d && b.storage_in(final(pool)),
                    Err(e) => r == Err::<LpBox<T>, AllocError>(e),
                }
            }),
    {
        let value = self.value.clone();
        Self::try_new(pool, value)
    }
}

impl<T> core::ops::Deref for LpBox<T> {
    type Target = T;

    fn deref(&self) -> (r: &T)
        ensures
            *r == self.value_of(),
    {
        &self.value
    }
}

impl<T> core::ops::DerefMut for LpBox<T> {
    fn deref_mut(&mut self) -> (r: &mut T)
        ensures
            *r == old(self).value_of(),
            final(self).value_of() == *final(r),
            final(self).data_addr() == old(self).data_addr(),
    {
        &mut self.value
    }
}

} // verus!

//! A growable array whose buffer is an allocation of a pool. The pool keeps no memory
//! contents, so the elements are held here, while the buffer's allocation is charged
//! to the pool exactly as the array grows.
use vstd::prelude::*;

use crate::pool::allocator::{
    alloc_spec, dealloc_spec, is_allocation, layout_ok, lemma_alloc_spec, lemma_dealloc_spec,
    resize_spec, LpAllocator, PoolView,
};
use crate::pool::error::AllocError;

verus! {

/// Size in bytes of a buffer of `n` elements of `T`.
pub open spec fn buffer_size<T>(n: int) -> int {
    n * vstd::layout::size_of::<T>()
}

/// Alignment of a buffer of elements of `T`.
pub open spec fn buffer_align<T>() -> int {
    vstd::layout::align_of::<T>() as int
}

/// Capacity that a full array of capacity `cap` grows to.
pub open spec fn grown_capacity(cap: int) -> int {
    if cap == 0 { 4 } else { cap * 2 }
}

/// What making room for `new_cap` elements in an array of capacity `cap` whose buffer
/// (if `cap > 0`) is the allocation at `data` of the pool at `base` in state `p`
/// returns, and the capacity, buffer address and pool after it. Nothing changes when
/// the buffer already holds `new_cap` elements or on an error.
pub open spec fn reserve_spec<T>(base: int, p: PoolView, cap: int, data: int, new_cap: int) -> (
    Result<(), AllocError>,
    int,
    int,
    PoolView,
) {
    let bytes = buffer_size::<T>(new_cap);
    let old_bytes = buffer_size::<T>(cap);
    let align = buffer_align::<T>();
    if new_cap <= cap {
        (Ok(()), cap, data, p)
    } else if !layout_ok(bytes, align) || (cap > 0 && bytes <= old_bytes) {
        (Err(AllocError::InvalidLayout), cap, data, p)
    } else if cap > 0 {
        match resize_spec(base, p, data, bytes, align) {
            (Ok(d), q) => (Ok(()), new_cap, d as int, q),
            (Err(e), _) => (Err(e), cap, data, p),
        }
    } else {
        match alloc_spec(base, p, bytes, align) {
            (Ok(d), q) => (Ok(()), new_cap, d as int, q),
            (Err(e), _) => (Err(e), cap, data, p),
        }
    }
}

/// A growable array whose buffer is allocated from a pool.
#[derive(Debug)]
pub struct LpVec<T> {
    items: Vec<T>,
    capacity: usize,
    data: usize,
}

impl<T> LpVec<T> {
    /// The elements.
    pub closed spec fn view(&self) -> Seq<T> {
        self.items@
    }

    /// Number of elements the buffer holds.
    pub closed spec fn cap(&self) -> int {
        self.capacity as int
    }

    /// Address of the buffer's allocation (meaningful when the capacity is positive).
    pub closed spec fn data_addr(&self) -> int {
        self.data as int
    }

    /// The elements fit in the buffer.
    pub open spec fn wf(&self) -> bool {
        self.view().len() <= self.cap()
    }

    /// The buffer, when there is one, is an allocation of `pool`.
    pub open spec fn buffer_in(&self, pool: &LpAllocator) -> bool {
        self.cap() > 0 ==> is_allocation(pool.base_addr(), pool.view(), self.data_addr())
    }

    /// An empty array without a buffer.
    pub fn new() -> (r: LpVec<T>)
        ensures
            r.wf(),
            r.view() == Seq::<T>::empty(),
            r.cap() == 0,
            r.data_addr() == 0,
    {
        LpVec { items: Vec::new(), capacity: 0, data: 0 }
    }

    /// An empty array without a buffer; the scope would name the array in the
    /// allocation statistics by type and scope (`AllocStats`), which its caller keeps.
    pub fn new_with_scope(_scope: Option<&'static str>) -> (r: LpVec<T>)
        ensures
            r.wf(),
            r.view() == Seq::<T>::empty(),
            r.cap() == 0,
    {
        LpVec::new()
    }

    /// Number of elements.
    pub fn len(&self) -> (r: usize)
        ensures
            r == self.view().len(),
    {
        self.items.len()
    }

    /// Number of elements the buffer holds.
    pub fn capacity(&self) -> (r: usize)
        ensures
            r == self.cap(),
    {
        self.capacity
    }

    /// The array has no elements.
    pub fn is_empty(&self) -> (r: bool)
        ensures
            r == (self.view().len() == 0),
    {
        self.items.len() == 0
    }

    /// The element at `index`, if there is one.
    pub fn get(&self, index: usize) -> (r: Option<&T>)
        ensures
            r == (if index < self.view().len() {
                Some(&self.view()[index as int])
            } else {
                None
            }),
    {
        if index < self.items.len() {
            Some(&self.items[index])
        } else {
            None
        }
    }

    /// The element at `index`, to change in place, if there is one.
    pub fn get_mut(&mut self, index: usize) -> (r: Option<&mut T>)
        ensures
            index < old(self).view().len() ==> (r matches Some(e) && *e == old(self).view()[index as int]
                && final(self).view() == old(self).view().update(index as int, *final(e))),
            index >= old(self).view().len() ==> r is None && final(self).view() == old(self).view(),
            final(self).cap() == old(self).cap(),
            final(self).data_addr() == old(self).data_addr(),
    {
        if index < self.items.len() {
            Some(&mut self.items[index])
        } else {
            None
        }
    }

    /// Make room for `new_cap` elements. Nothing happens when the buffer already holds
    /// that many; otherwise a buffer of `new_cap` elements is allocated from `pool` (the
    /// old one, if any, moves there and is freed). On an error nothing changes.
    pub fn try_reserve(&mut self, pool: &mut LpAllocator, new_cap: usize) -> (r: Result<(), AllocError>)
        requires
            old(self).wf(),
            old(pool).wf(),
            old(self).buffer_in(old(pool)),
        ensures
            final(self).wf(),
            final(pool).wf(),
            final(self).buffer_in(final(pool)),
            final(pool).base_addr() == old(pool).base_addr(),
            final(pool).cap() == old(pool).cap(),
            final(self).view() == old(self).view(),
            ({
                let (rr, c, d, q) = reserve_spec::<T>(
                    old(pool).base_addr(),
                    old(pool).view(),
                    old(self).cap(),
                    old(self).data_addr(),
                    new_cap as int,
                );
                &&& r == rr
                &&& final(self).cap() == c
                &&& final(self).data_addr() == d
                &&& final(pool).view() == q
            }),
    {
        if new_cap <= self.capacity {
            return Ok(());
        }
        vstd::layout::layout_for_type_is_valid::<T>();
        let size = core::mem::size_of::<T>();
        let align = core::mem::align_of::<T>();
        let bytes = match new_cap.checked_mul(size) {
            Some(b) => b,
            None => {
                proof {
                    assert(new_cap * size > isize::MAX) by (nonlinear_arith)
                        requires
                            new_cap * size > usize::MAX,
                    ;
                }
                return Err(AllocError::InvalidLayout);
            },
        };
        let max = isize::MAX as usize;
        if align - 1 > max || bytes > max - (align - 1) {
            return Err(AllocError::InvalidLayout);
        }
        let ghost base = pool.base_addr();
        let ghost cap = pool.cap();
        let ghost p = pool.view();
        if self.capacity > 0 {
            assert(self.capacity * size <= new_cap * size) by (nonlinear_arith)
                requires
                    self.capacity <= new_cap,
            ;
            let old_bytes = self.capacity * size;
            proof {
                lemma_alloc_spec(base, cap, p, bytes as int, align as int, self.data as int);
            }
            match pool.grow(self.data, old_bytes, align, bytes) {
                Ok(slice) => {
                    let d = slice.addr;
                    proof {
                        let q = alloc_spec(base, p, bytes as int, align as int).1;
                        lemma_alloc_spec(base, cap, p, bytes as int, align as int, 0);
                        lemma_dealloc_spec(base, cap, q, self.data as int, d as int);
                    }
                    self.data = d;
                    self.capacity = new_cap;
                    Ok(())
                },
                Err(e) => Err(e),
            }
        } else {
            proof {
                lemma_alloc_spec(base, cap, p, bytes as int, align as int, 0);
            }
            match pool.allocate_addr(bytes, align) {
                Ok(d) => {
                    self.data = d;
                    self.capacity = new_cap;
                    Ok(())
                },
                Err(e) => Err(e),
            }
        }
    }

    /// Append `item`, growing a full buffer to twice its capacity (four elements for
    /// the first buffer). On an error the array and the pool are unchanged.
    pub fn try_push(&mut self, pool: &mut LpAllocator, item: T) -> (r: Result<(), AllocError>)
        requires
            old(self).wf(),
            old(pool).wf(),
            old(self).buffer_in(old(pool)),
            old(self).view().len() < old(self).cap() || old(self).cap() <= usize::MAX / 2,
        ensures
            final(self).wf(),
            final(pool).wf(),
            final(self).buffer_in(final(pool)),
            final(pool).base_addr() == old(pool).base_addr(),
            final(pool).cap() == old(pool).cap(),
            r is Ok ==> final(self).view() == old(self).view().push(item),
            r is Err ==> final(self).view() == old(self).view(),
            old(self).view().len() < old(self).cap() ==> r is Ok && final(self).cap() == old(
                self,
            ).cap() && final(self).data_addr() == old(self).data_addr() && final(pool).view()
                == old(pool).view(),
            old(self).view().len() >= old(self).cap() ==> ({
                let (rr, c, d, q) = reserve_spec::<T>(
                    old(pool).base_addr(),
                    old(pool).view(),
                    old(self).cap(),
                    old(self).data_addr(),
                    grown_capacity(old(self).cap()),
                );
                &&& r == rr
                &&& final(self).cap() == c
                &&& final(self).data_addr() == d
                &&& final(pool).view() == q
            }),
    {
        if self.items.len() >= self.capacity {
            let new_cap = if self.capacity == 0 {
                4
            } else {
                self.capacity * 2
            };
            match self.try_reserve(pool, new_cap) {
                Ok(()) => {},
                Err(e) => {
                    return Err(e);
                },
            }
        }
        self.items.push(item);
        Ok(())
    }

    /// The buffer, when there is one, is an allocation of `pool`.
    pub fn is_backed_by(&self, pool: &LpAllocator) -> (r: bool)
        requires
            pool.wf(),
        ensures
            r == self.buffer_in(pool),
    {
        self.capacity == 0 || pool.is_allocated(self.data)
    }

    /// The elements as a slice.
    pub(crate) fn as_raw_slice(&self) -> (r: &[T])
        ensures
            r@ == self.view(),
    {
        self.items.as_slice()
    }

    /// Give the buffer back to `pool` and return the elements.
    pub fn free(self, pool: &mut LpAllocator) -> (r: Vec<T>)
        requires
            self.wf(),
            old(pool).wf(),
            self.buffer_in(old(pool)),
        ensures
            r@ == self.view(),
            final(pool).wf(),
            final(pool).base_addr() == old(pool).base_addr(),
            final(pool).cap() == old(pool).cap(),
            self.cap() > 0 ==> final(pool).view() == dealloc_spec(
                old(pool).base_addr(),
                old(pool).view(),
                self.data_addr(),
            ),
            self.cap() == 0 ==> final(pool).view() == old(pool).view(),
    {
        if self.capacity > 0 {
            pool.deallocate(self.data);
        }
        self.items
    }

    /// An iterator over the elements, front to back.
    pub fn iter(&self) -> (r: LpVecIter<'_, T>)
        ensures
            r.vec_view() == self.view(),
            r.start_of() == 0,
            r.end_of() == self.view().len(),
    {
        LpVecIter { vec: self, start: 0, end: self.items.len() }
    }

    /// An iterator over the elements that hands out each one for writing, front to back.
    pub fn iter_mut(&mut self) -> (r: LpVecIterMut<'_, T>)
        ensures
            r.remaining() == old(self).view(),
            final(self).view() == final(r.rest)@,
            final(self).cap() == old(self).cap(),
            final(self).data_addr() == old(self).data_addr(),
    {
        LpVecIterMut { rest: self.items.as_mut_slice() }
    }
}

impl<T> Default for LpVec<T> {
    /// The same as `new`.
    fn default() -> (r: LpVec<T>)
        ensures
            r.wf(),
            r.view() == Seq::<T>::empty(),
            r.cap() == 0,
    {
        LpVec::new()
    }
}

/// An iterator over the elements of an array, from both ends.
pub struct LpVecIter<'a, T> {
    vec: &'a LpVec<T>,
    start: usize,
    end: usize,
}

impl<'a, T> LpVecIter<'a, T> {
    /// The elements of the array.
    pub closed spec fn vec_view(&self) -> Seq<T> {
        self.vec.view()
    }

    /// Index of the next element from the front.
    pub closed spec fn start_of(&self) -> int {
        self.start as int
    }

    /// One past the index of the next element from the back.
    pub closed spec fn end_of(&self) -> int {
        self.end as int
    }

    /// The element at the front of what is left, if any.
    pub fn next(&mut self) -> (r: Option<&'a T>)
        requires
            old(self).end_of() <= old(self).vec_view().len(),
        ensures
            final(self).vec_view() == old(self).vec_view(),
            final(self).end_of() == old(self).end_of(),
            old(self).start_of() < old(self).end_of() ==> r == Some(
                &old(self).vec_view()[old(self).start_of()],
            ) && final(self).start_of() == old(self).start_of() + 1,
            old(self).start_of() >= old(self).end_of() ==> r is None && final(self).start_of()
                == old(self).start_of(),
    {
        if self.start < self.end {
            let item = self.vec.get(self.start);
            self.start = self.start + 1;
            item
        } else {
            None
        }
    }

    /// The element at the back of what is left, if any.
    pub fn next_back(&mut self) -> (r: Option<&'a T>)
        requires
            old(self).end_of() <= old(self).vec_view().len(),
        ensures
            final(self).vec_view() == old(self).vec_view(),
            final(self).start_of() == old(self).start_of(),
            old(self).start_of() < old(self).end_of() ==> r == Some(
                &old(self).vec_view()[old(self).end_of() - 1],
            ) && final(self).end_of() == old(self).end_of() - 1,
            old(self).start_of() >= old(self).end_of() ==> r is None && final(self).end_of()
                == old(self).end_of(),
    {
        if self.start < self.end {
            self.end = self.end - 1;
            self.vec.get(self.end)
        } else {
            None
        }
    }

    /// Number of elements left.
    pub fn len(&self) -> (r: usize)
        ensures
            r == (if self.start_of() < self.end_of() {
                self.end_of() - self.start_of()
            } else {
                0
            }),
    {
        self.end.saturating_sub(self.start)
    }

    /// Lower and upper bound of the number of elements left (both exact).
    pub fn size_hint(&self) -> (r: (usize, Option<usize>))
        ensures
            r.0 == (if self.start_of() < self.end_of() {
                self.end_of() - self.start_of()
            } else {
                0
            }),
            r.1 == Some(r.0),
    {
        let remaining = self.end.saturating_sub(self.start);
        (remaining, Some(remaining))
    }
}

/// An iterator that hands out each element of an array for writing, front to back.
pub struct LpVecIterMut<'a, T> {
    pub rest: &'a mut [T],
}

impl<'a, T> LpVecIterMut<'a, T> {
    /// The elements not yet handed out.
    pub closed spec fn remaining(&self) -> Seq<T> {
        self.rest@
    }

    /// The next element, if any.
    pub fn next(&mut self) -> (r: Option<&'a mut T>)
        ensures
            old(self).remaining().len() == 0 ==> r is None && final(self).remaining().len() == 0
                && final(old(self).rest)@ == final(final(self).rest)@,
            old(self).remaining().len() > 0 ==> r is Some && *r.unwrap() == old(self).remaining()[0]
                && final(self).remaining() == old(self).remaining().drop_first()
                && final(old(self).rest)@ == seq![*final(r.unwrap())] + final(final(self).rest)@,
    {
        let mut rest: &'a mut [T] = &mut [];
        std::mem::swap(&mut rest, &mut self.rest);
        if rest.len() == 0 {
            None
        } else {
            let (first, tail) = rest.split_at_mut(1);
            self.rest = tail;
            Some(&mut first[0])
        }
    }

    /// Number of elements left.
    pub fn len(&self) -> (r: usize)
        ensures
            r == self.remaining().len(),
    {
        self.rest.len()
    }

    /// Lower and upper bound of the number of elements left (both exact).
    pub fn size_hint(&self) -> (r: (usize, Option<usize>))
        ensures
            r.0 == self.remaining().len(),
            r.1 == Some(r.0),
    {
        let remaining = self.rest.len();
        (remaining, Some(remaining))
    }
}

} // verus!

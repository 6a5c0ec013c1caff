//! A pool-backed array and string whose buffer grows by allocating a new buffer and
//! freeing the old one (rather than through the pool's `grow`).
use vstd::prelude::*;
use vstd::string::StringSliceAdditionalSpecFns;

use super::vec::{buffer_align, buffer_size, grown_capacity};
use crate::pool::allocator::{
    alloc_spec, dealloc_spec, is_allocation, layout_ok, lemma_alloc_spec, lemma_dealloc_spec,
    LpAllocator, PoolView,
};
use crate::pool::error::AllocError;

verus! {

/// What making room for `new_cap` elements in an array of capacity `cap` whose buffer
/// (if `cap > 0`) is the allocation at `data` of the pool at `base` in state `p`
/// returns, and the capacity, buffer address and pool after it: a new buffer is
/// allocated, then the old one is freed. Nothing changes when the buffer already holds
/// `new_cap` elements or on an error.
pub open spec fn move_reserve_spec<T>(base: int, p: PoolView, cap: int, data: int, new_cap: int) -> (
    Result<(), AllocError>,
    int,
    int,
    PoolView,
) {
    let bytes = buffer_size::<T>(new_cap);
    let align = buffer_align::<T>();
    if new_cap <= cap {
        (Ok(()), cap, data, p)
    } else if !layout_ok(bytes, align) {
        (Err(AllocError::InvalidLayout), cap, data, p)
    } else {
        match alloc_spec(base, p, bytes, align) {
            (Ok(d), q) => (
                Ok(()),
                new_cap,
                d as int,
                if cap > 0 {
                    dealloc_spec(base, q, data)
                } else {
                    q
                },
            ),
            (Err(e), _) => (Err(e), cap, data, p),
        }
    }
}

/// Appending `bytes` one at a time to a `PoolVec` of length `len` and capacity `cap`
/// whose buffer (if `cap > 0`) is the allocation at `data` of the pool at `base` in
/// state `p`, where a full array first moves to a buffer twice as large (four bytes for
/// the first one): what comes back, how many bytes were appended, and the capacity,
/// buffer address and pool after it. The first error stops the appending.
pub open spec fn move_push_bytes_spec(base: int, p: PoolView, len: int, cap: int, data: int, bytes: Seq<u8>) -> (
    Result<(), AllocError>,
    nat,
    int,
    int,
    PoolView,
)
    decreases bytes.len(),
{
    if bytes.len() == 0 {
        (Ok(()), 0, cap, data, p)
    } else if len < cap {
        let (r, k, c, d, q) = move_push_bytes_spec(base, p, len + 1, cap, data, bytes.drop_first());
        (r, k + 1, c, d, q)
    } else {
        let (rr, c1, d1, q1) = move_reserve_spec::<u8>(base, p, cap, data, grown_capacity(cap));
        if rr is Err {
            (rr, 0, cap, data, p)
        } else {
            let (r, k, c, d, q) = move_push_bytes_spec(base, q1, len + 1, c1, d1, bytes.drop_first());
            (r, k + 1, c, d, q)
        }
    }
}

/// A growable array whose buffer is allocated from a pool.
#[derive(Debug)]
pub struct PoolVec<T> {
    items: Vec<T>,
    capacity: usize,
    data: usize,
}

impl<T> PoolVec<T> {
    /// The elements.
    pub closed spec fn view(&self) -> Seq<T> {
        self.items@
    }

    /// Number of elements the buffer holds.
    pub closed spec fn cap(&self) -> int {
        self.capacity as int
    }

    /// Address of the buffer's allocation (meaningful when the capacity is positive).
    pub closed spec fn data_addr(&self) -> int {
        self.data as int
    }

    /// The elements fit in the buffer.
    pub open spec fn wf(&self) -> bool {
        self.view().len() <= self.cap()
    }

    /// The buffer, when there is one, is an allocation of `pool`.
    pub open spec fn buffer_in(&self, pool: &LpAllocator) -> bool {
        self.cap() > 0 ==> is_allocation(pool.base_addr(), pool.view(), self.data_addr())
    }

    /// An empty array without a buffer.
    pub fn new() -> (r: PoolVec<T>)
        ensures
            r.wf(),
            r.view() == Seq::<T>::empty(),
            r.cap() == 0,
            r.data_addr() == 0,
    {
        PoolVec { items: Vec::new(), capacity: 0, data: 0 }
    }

    /// Number of elements.
    pub fn len(&self) -> (r: usize)
        ensures
            r == self.view().len(),
    {
        self.items.len()
    }

    /// Number of elements the buffer holds.
    pub fn capacity(&self) -> (r: usize)
        ensures
            r == self.cap(),
    {
        self.capacity
    }

    /// The element at `index`, if there is one.
    pub fn get(&self, index: usize) -> (r: Option<&T>)
        ensures
            r == (if index < self.view().len() {
                Some(&self.view()[index as int])
            } else {
                None
            }),
    {
        if index < self.items.len() {
            Some(&self.items[index])
        } else {
            None
        }
    }

    /// The element at `index`, to change in place, if there is one.
    pub fn get_mut(&mut self, index: usize) -> (r: Option<&mut T>)
        ensures
            index < old(self).view().len() ==> (r matches Some(e) && *e == old(self).view()[index as int]
                && final(self).view() == old(self).view().update(index as int, *final(e))),
            index >= old(self).view().len() ==> r is None && final(self).view() == old(self).view(),
            final(self).cap() == old(self).cap(),
            final(self).data_addr() == old(self).data_addr(),
    {
        if index < self.items.len() {
            Some(&mut self.items[index])
        } else {
            None
        }
    }

    /// Make room for `new_cap` elements: allocate a buffer of `new_cap` elements from
    /// `pool`, then free the old one, if any. On an error nothing changes.
    pub fn try_reserve(&mut self, pool: &mut LpAllocator, new_cap: usize) -> (r: Result<(), AllocError>)
        requires
            old(self).wf(),
            old(pool).wf(),
            old(self).buffer_in(old(pool)),
        ensures
            final(self).wf(),
            final(pool).wf(),
            final(self).buffer_in(final(pool)),
            final(pool).base_addr() == old(pool).base_addr(),
            final(pool).cap() == old(pool).cap(),
            final(self).view() == old(self).view(),
            ({
                let (rr, c, d, q) = move_reserve_spec::<T>(
                    old(pool).base_addr(),
                    old(pool).view(),
                    old(self).cap(),
                    old(self).data_addr(),
                    new_cap as int,
                );
                &&& r == rr
                &&& final(self).cap() == c
                &&& final(self).data_addr() == d
                &&& final(pool).view() == q
            }),
    {
        if new_cap <= self.capacity {
            return Ok(());
        }
        vstd::layout::layout_for_type_is_valid::<T>();
        let size = core::mem::size_of::<T>();
        let align = core::mem::align_of::<T>();
        let bytes = match new_cap.checked_mul(size) {
            Some(b) => b,
            None => {
                proof {
                    assert(new_cap * size > isize::MAX) by (nonlinear_arith)
                        requires
                            new_cap * size > usize::MAX,
                    ;
                }
                return Err(AllocError::InvalidLayout);
            },
        };
        let max = isize::MAX as usize;
        if align - 1 > max || bytes > max - (align - 1) {
            return Err(AllocError::InvalidLayout);
        }
        let ghost base = pool.base_addr();
        let ghost cap = pool.cap();
        let ghost p = pool.view();
        proof {
            lemma_alloc_spec(base, cap, p, bytes as int, align as int, self.data as int);
        }
        match pool.allocate_addr(bytes, align) {
            Ok(d) => {
                if self.capacity > 0 {
                    proof {
                        let q = alloc_spec(base, p, bytes as int, align as int).1;
                        lemma_dealloc_spec(base, cap, q, self.data as int, d as int);
                    }
                    pool.deallocate(self.data);
                }
                self.data = d;
                self.capacity = new_cap;
                Ok(())
            },
            Err(e) => Err(e),
        }
    }

    /// Append `item`, growing a full buffer to twice its capacity (four elements for
    /// the first buffer). On an error the array and the pool are unchanged.
    pub fn try_push(&mut self, pool: &mut LpAllocator, item: T) -> (r: Result<(), AllocError>)
        requires
            old(self).wf(),
            old(pool).wf(),
            old(self).buffer_in(old(pool)),
            old(self).view().len() < old(self).cap() || old(self).cap() <= usize::MAX / 2,
        ensures
            final(self).wf(),
            final(pool).wf(),
            final(self).buffer_in(final(pool)),
            final(pool).base_addr() == old(pool).base_addr(),
            final(pool).cap() == old(pool).cap(),
            r is Ok ==> final(self).view() == old(self).view().push(item),
            r is Err ==> final(self).view() == old(self).view(),
            old(self).view().len() < old(self).cap() ==> r is Ok && final(self).cap() == old(
                self,
            ).cap() && final(self).data_addr() == old(self).data_addr() && final(pool).view()
                == old(pool).view(),
            old(self).view().len() >= old(self).cap() ==> ({
                let (rr, c, d, q) = move_reserve_spec::<T>(
                    old(pool).base_addr(),
                    old(pool).view(),
                    old(self).cap(),
                    old(self).data_addr(),
                    grown_capacity(old(self).cap()),
                );
                &&& r == rr
                &&& final(self).cap() == c
                &&& final(self).data_addr() == d
                &&& final(pool).view() == q
            }),
    {
        if self.items.len() >= self.capacity {
            let new_cap = if self.capacity == 0 {
                4
            } else {
                self.capacity * 2
            };
            match self.try_reserve(pool, new_cap) {
                Ok(()) => {},
                Err(e) => {
                    return Err(e);
                },
            }
        }
        self.items.push(item);
        Ok(())
    }

    /// The elements as a slice.
    pub fn as_slice(&self) -> (r: &[T])
        ensures
            r@ == self.view(),
    {
        self.items.as_slice()
    }
}

/// A string whose bytes are kept in a `PoolVec`.
#[derive(Debug)]
pub struct PoolString {
    vec: PoolVec<u8>,
}

impl PoolString {
    /// The bytes of the string.
    pub closed spec fn view(&self) -> Seq<u8> {
        self.vec.view()
    }

    /// The byte array behind the string.
    pub closed spec fn bytes(&self) -> PoolVec<u8> {
        self.vec
    }

    /// An empty string.
    pub fn new() -> (r: PoolString)
        ensures
            r.bytes().wf(),
            r.view() == Seq::<u8>::empty(),
            r.bytes().cap() == 0,
            r.bytes().data_addr() == 0,
    {
        PoolString { vec: PoolVec::new() }
    }

    /// Append the bytes of `s`, one at a time. On an error the bytes appended before it
    /// stay.
    pub fn try_push_str(&mut self, pool: &mut LpAllocator, s: &str) -> (r: Result<(), AllocError>)
        requires
            old(self).bytes().wf(),
            old(pool).wf(),
            old(self).bytes().buffer_in(old(pool)),
            old(self).bytes().cap() + s.spec_bytes().len() <= usize::MAX / 2,
        ensures
            final(self).bytes().wf(),
            final(pool).wf(),
            final(self).bytes().buffer_in(final(pool)),
            final(pool).base_addr() == old(pool).base_addr(),
            final(pool).cap() == old(pool).cap(),
            ({
                let (rr, k, c, d, q) = move_push_bytes_spec(
                    old(pool).base_addr(),
                    old(pool).view(),
                    old(self).view().len() as int,
                    old(self).bytes().cap(),
                    old(self).bytes().data_addr(),
                    s.spec_bytes(),
                );
                &&& r == rr
                &&& k <= s.spec_bytes().len()
                &&& final(self).view() == old(self).view() + s.spec_bytes().take(k as int)
                &&& final(self).bytes().cap() == c
                &&& final(self).bytes().data_addr() == d
                &&& final(pool).view() == q
            }),
            r is Ok ==> final(self).view() == old(self).view() + s.spec_bytes(),
            old(self).view().len() + s.spec_bytes().len() <= old(self).bytes().cap() ==> r is Ok
                && final(pool).view() == old(pool).view(),
    {
        let bytes = s.as_bytes();
        let mut i: usize = 0;
        let ghost v0 = self.view();
        let ghost base = pool.base_addr();
        let ghost spec_r = move_push_bytes_spec(
            base,
            pool.view(),
            self.view().len() as int,
            self.bytes().cap(),
            self.bytes().data_addr(),
            bytes@,
        );
        proof {
            assert(bytes@.skip(0) =~= bytes@);
        }
        while i < bytes.len()
            invariant
                self.bytes().wf(),
                pool.wf(),
                self.bytes().buffer_in(pool),
                pool.base_addr() == base,
                base == old(pool).base_addr(),
                pool.cap() == old(pool).cap(),
                bytes@ == s.spec_bytes(),
                i <= bytes@.len(),
                self.view() == v0 + bytes@.take(i as int),
                v0 == old(self).view(),
                old(self).bytes().cap() + bytes@.len() <= usize::MAX / 2,
                old(self).view().len() <= old(self).bytes().cap(),
                old(self).view().len() + bytes@.len() <= old(self).bytes().cap() ==> (
                pool.view() == old(pool).view() && self.bytes().cap() == old(self).bytes().cap()),
                spec_r == move_push_bytes_spec(
                    old(pool).base_addr(),
                    old(pool).view(),
                    old(self).view().len() as int,
                    old(self).bytes().cap(),
                    old(self).bytes().data_addr(),
                    s.spec_bytes(),
                ),
                spec_r.1 >= i,
                move_push_bytes_spec(
                    base,
                    pool.view(),
                    self.view().len() as int,
                    self.bytes().cap(),
                    self.bytes().data_addr(),
                    bytes@.skip(i as int),
                ) == (spec_r.0, (spec_r.1 - i) as nat, spec_r.2, spec_r.3, spec_r.4),
            decreases bytes@.len() - i,
        {
            let b = bytes[i];
            proof {
                assert(bytes@.skip(i as int).drop_first() =~= bytes@.skip(i + 1));
            }
            match self.vec.try_push(pool, b) {
                Ok(()) => {},
                Err(e) => {
                    return Err(e);
                },
            }
            proof {
                assert(bytes@.take(i + 1) =~= bytes@.take(i as int).push(b));
            }
            i = i + 1;
        }
        proof {
            assert(bytes@.take(i as int) =~= bytes@);
            assert(bytes@.skip(i as int) =~= Seq::<u8>::empty());
        }
        Ok(())
    }

    /// Number of bytes.
    pub fn len(&self) -> (r: usize)
        ensures
            r == self.view().len(),
    {
        self.vec.len()
    }

    /// The bytes of the string.
    pub fn as_bytes(&self) -> (r: &[u8])
        ensures
            r@ == self.view(),
    {
        self.vec.as_slice()
    }
}

impl<T> Default for PoolVec<T> {
    /// The same as `new`.
    fn default() -> (r: PoolVec<T>)
        ensures
            r.wf(),
            r.view() == Seq::<T>::empty(),
            r.cap() == 0,
    {
        PoolVec::new()
    }
}

impl Default for PoolString {
    /// The same as `new`.
    fn default() -> (r: PoolString)
        ensures
            r.bytes().wf(),
            r.view() == Seq::<u8>::empty(),
            r.bytes().cap() == 0,
    {
        PoolString::new()
    }
}

} // verus!

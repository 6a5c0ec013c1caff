//! Moving an allocation together with its bytes, over the bytes of the pool's region.
use vstd::prelude::*;

use super::super::laws::{lemma_blocks_apart, lemma_request_in_block};
use super::super::layout::{data_block, holds_data, lemma_data_block, lemma_in_region};
use super::{
    alloc_block, alloc_spec, is_allocation, lemma_alloc_spec, resize_spec, slice_of, AllocError,
    LpAllocator, PoolSlice, PoolView,
};

verus! {

/// Bytes from the data address `data` of an allocation to the end of its block.
pub open spec fn data_room(base: int, p: PoolView, data: int) -> int {
    let b = alloc_block(base, p, data);
    b.offset + b.size - (data - base)
}

/// `n` is `o` with the `len` bytes at `from` copied to `to`, and every other byte kept.
pub open spec fn moved_bytes(o: Seq<u8>, n: Seq<u8>, from: int, to: int, len: int) -> bool {
    &&& n.len() == o.len()
    &&& forall|i: int| 0 <= i < len ==> #[trigger] n[to + i] == o[from + i]
    &&& forall|j: int| 0 <= j < n.len() && !(to <= j < to + len) ==> #[trigger] n[j] == o[j]
}

/// Copy the `len` bytes at `from` to `to` within `region`; the two ranges do not
/// overlap.
fn copy_within_region(region: &mut [u8], from: usize, to: usize, len: usize)
    requires
        from + len <= old(region)@.len(),
        to + len <= old(region)@.len(),
        from + len <= to || to + len <= from,
    ensures
        moved_bytes(old(region)@, final(region)@, from as int, to as int, len as int),
{
    let ghost o = region@;
    let mut i: usize = 0;
    while i < len
        invariant
            region@.len() == o.len(),
            o == old(region)@,
            i <= len,
            from + len <= o.len(),
            to + len <= o.len(),
            from + len <= to || to + len <= from,
            forall|k: int| 0 <= k < i ==> #[trigger] region@[to + k] == o[from + k],
            forall|j: int| 0 <= j < o.len() && !(to <= j < to + i) ==> #[trigger] region@[j] == o[j],
        decreases len - i,
    {
        let v = region[from + i];
        region[to + i] = v;
        i = i + 1;
    }
}

impl LpAllocator {
    /// Bytes from the data address `data` of an allocation to the end of its block: the
    /// most that the allocation can hold.
    pub fn data_room(&self, data: usize) -> (r: usize)
        requires
            self.wf(),
            is_allocation(self.base_addr(), self.view(), data as int),
        ensures
            r == data_room(self.base_addr(), self.view(), data as int),
    {
        let rel = data - self.base;
        let i = self.find_data_block(rel);
        let b = self.blocks[i];
        proof {
            lemma_in_region(self.blocks@, self.capacity as int, i as int);
        }
        b.offset + b.size - rel
    }

    /// The same move as `grow`, over the bytes of the pool's region (`region[0]` is the
    /// byte at the pool's base address): on success, the `old_size` bytes of the
    /// allocation are copied to the start of the new one, and no other byte changes;
    /// on an error the bytes are unchanged.
    pub fn grow_copying(
        &mut self,
        region: &mut [u8],
        data: usize,
        old_size: usize,
        align: usize,
        new_size: usize,
    ) -> (r: Result<PoolSlice, AllocError>)
        requires
            old(self).wf(),
            is_allocation(old(self).base_addr(), old(self).view(), data as int),
            align > 0,
            old(region)@.len() == old(self).cap(),
            old_size <= data_room(old(self).base_addr(), old(self).view(), data as int),
        ensures
            final(self).wf(),
            final(self).base_addr() == old(self).base_addr(),
            final(self).cap() == old(self).cap(),
            new_size <= old_size ==> r == Err::<PoolSlice, AllocError>(AllocError::InvalidLayout)
                && final(self).view() == old(self).view(),
            new_size > old_size ==> r == slice_of(
                resize_spec(
                    old(self).base_addr(),
                    old(self).view(),
                    data as int,
                    new_size as int,
                    align as int,
                ).0,
                new_size,
            ) && final(self).view() == resize_spec(
                old(self).base_addr(),
                old(self).view(),
                data as int,
                new_size as int,
                align as int,
            ).1,
            r is Err ==> final(region)@ == old(region)@,
            r matches Ok(s) ==> moved_bytes(
                old(region)@,
                final(region)@,
                data - old(self).base_addr(),
                s.addr - old(self).base_addr(),
                old_size as int,
            ),
    {
        let ghost base = self.base_addr();
        let ghost cap = self.cap();
        let ghost p = self.view();
        let r = self.grow(data, old_size, align, new_size);
        match r {
            Ok(s) => {
                proof {
                    lemma_disjoint_after_alloc(base, cap, p, data as int, old_size as int, new_size as int, align as int);
                }
                copy_within_region(region, data - self.base, s.addr - self.base, old_size);
                Ok(s)
            },
            Err(e) => Err(e),
        }
    }

    /// The same move as `shrink`, over the bytes of the pool's region (`region[0]` is
    /// the byte at the pool's base address): on success, the first `new_size` bytes of
    /// the allocation are copied to the new one, and no other byte changes; on an error
    /// the bytes are unchanged.
    pub fn shrink_copying(
        &mut self,
        region: &mut [u8],
        data: usize,
        old_size: usize,
        align: usize,
        new_size: usize,
    ) -> (r: Result<PoolSlice, AllocError>)
        requires
            old(self).wf(),
            is_allocation(old(self).base_addr(), old(self).view(), data as int),
            align > 0,
            old(region)@.len() == old(self).cap(),
            old_size <= data_room(old(self).base_addr(), old(self).view(), data as int),
        ensures
            final(self).wf(),
            final(self).base_addr() == old(self).base_addr(),
            final(self).cap() == old(self).cap(),
            new_size >= old_size ==> r == Err::<PoolSlice, AllocError>(AllocError::InvalidLayout)
                && final(self).view() == old(self).view(),
            new_size < old_size ==> r == slice_of(
                resize_spec(
                    old(self).base_addr(),
                    old(self).view(),
                    data as int,
                    new_size as int,
                    align as int,
                ).0,
                new_size,
            ) && final(self).view() == resize_spec(
                old(self).base_addr(),
                old(self).view(),
                data as int,
                new_size as int,
                align as int,
            ).1,
            r is Err ==> final(region)@ == old(region)@,
            r matches Ok(s) ==> moved_bytes(
                old(region)@,
                final(region)@,
                data - old(self).base_addr(),
                s.addr - old(self).base_addr(),
                new_size as int,
            ),
    {
        let ghost base = self.base_addr();
        let ghost cap = self.cap();
        let ghost p = self.view();
        let r = self.shrink(data, old_size, align, new_size);
        match r {
            Ok(s) => {
                proof {
                    lemma_disjoint_after_alloc(base, cap, p, data as int, new_size as int, new_size as int, align as int);
                }
                copy_within_region(region, data - self.base, s.addr - self.base, new_size);
                Ok(s)
            },
            Err(e) => Err(e),
        }
    }
}

/// When allocating `size` bytes succeeds while the allocation at `data` stays, the
/// first `len <= size` bytes of each (the old one holding `len` bytes) lie inside the
/// region and do not overlap.
proof fn lemma_disjoint_after_alloc(base: int, cap: int, p: PoolView, data: int, len: int, size: int, align: int)
    requires
        super::super::layout::pool_ok(base, cap, p.blocks, p.free, p.used),
        is_allocation(base, p, data),
        0 <= len <= size,
        len <= data_room(base, p, data),
        align > 0,
        alloc_spec(base, p, size, align).0 is Ok,
    ensures
        ({
            let d = alloc_spec(base, p, size, align).0->Ok_0 as int;
            &&& 0 <= data - base
            &&& data - base + len <= cap
            &&& 0 <= d - base
            &&& d - base + len <= cap
            &&& data - base + len <= d - base || d - base + len <= data - base
        }),
{
    lemma_alloc_spec(base, cap, p, size, align, data);
    lemma_request_in_block(base, cap, p, size, align);
    let (r, q) = alloc_spec(base, p, size, align);
    let d = r->Ok_0 as int;
    let jo0 = choose|j: int| 0 <= j < p.blocks.len() && holds_data(p.blocks[j], data - base) && p.blocks[j].allocated;
    lemma_data_block(p.blocks, cap, jo0, data - base);
    lemma_in_region(p.blocks, cap, jo0);
    let jo = choose|j: int| 0 <= j < q.blocks.len() && holds_data(q.blocks[j], data - base) && q.blocks[j].allocated;
    lemma_data_block(q.blocks, cap, jo, data - base);
    let jn = data_block(q.blocks, d - base);
    lemma_in_region(q.blocks, cap, jn);
    assert(jo != jn);
    lemma_blocks_apart(q.blocks, cap, jo, jn);
}

} // verus!

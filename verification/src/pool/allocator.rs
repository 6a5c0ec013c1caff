//! The pool allocator: first-fit allocation with block splitting, and deallocation
//! with coalescing of free neighbours.
//!
//! The block layout is that of the split allocator (allocate, deallocate, coalesce,
//! resize): a request's data area starts past the 32-byte header and an 8-byte
//! back-link word, rounded up to the request's alignment, and a block takes the bytes
//! up to the data area plus the request. The single-file allocator that puts the data
//! right after the 32-byte header is not followed: one of its own alignment tests
//! fails on that layout, while the split allocator's tests pass on the split layout.
use vstd::prelude::*;

mod contents;
mod headers;

pub use contents::{data_room, moved_bytes};

use super::block_header::{BACK_LINK_SIZE, HEADER_SIZE, MAX_DATA_OFFSET, MIN_BLOCK_SIZE};
use super::error::AllocError;
use super::layout::{
    alloc_blocks, alloc_count, alloc_free_list, alloc_sum, alloc_taken, apart, data_block,
    dealloc_blocks, dealloc_free_list, free_at, holds_data, index_of,
    lemma_alloc_keeps_invariant, lemma_alloc_sum_bound, lemma_data_block,
    lemma_dealloc_keeps_invariant, lemma_in_region, lemma_index_of, lemma_offset_unique,
    lemma_ordered, lemma_remove_value, merge_hi, merge_lo, pool_ok, remove_value, split_off,
    Block,
};

verus! {

/// `x` rounded up to a multiple of `a`.
pub open spec fn align_up(x: int, a: int) -> int {
    if a <= 1 {
        x
    } else {
        (x + a - 1) - (x + a - 1) % a
    }
}

/// Address of the data area that a request aligned to `align` gets in the block at
/// address `blk`: past the header and the back-link word, rounded up to `align`.
pub open spec fn data_addr(blk: int, align: int) -> int {
    align_up(blk + HEADER_SIZE + BACK_LINK_SIZE, align)
}

/// Bytes (header included) that a request of `size` bytes aligned to `align` takes
/// from the block at address `blk`.
pub open spec fn needed(blk: int, size: int, align: int) -> int {
    data_addr(blk, align) - blk + size
}

/// Offset from the block at `blk` to the back-link word of the request.
pub open spec fn link_offset(blk: int, align: int) -> int {
    data_addr(blk, align) - BACK_LINK_SIZE - blk
}

/// The address arithmetic of a request at the block at `blk` leaves the range of `usize`.
pub open spec fn request_overflows(blk: int, size: int, align: int) -> bool {
    ||| (align > 1 && blk + HEADER_SIZE + BACK_LINK_SIZE + align - 1 > usize::MAX)
    ||| needed(blk, size, align) > usize::MAX
}

/// The outcome of the first-fit walk over the free list from entry `k` on: the index of
/// the first entry whose block can hold the request, `-2` if the walk meets an entry at
/// which the request's address arithmetic overflows first, or `-1` if no entry fits.
pub open spec fn first_fit_from(
    base: int,
    bs: Seq<Block>,
    fl: Seq<usize>,
    size: int,
    align: int,
    k: int,
) -> int
    decreases fl.len() - k,
{
    if k < 0 || k >= fl.len() {
        -1
    } else if request_overflows(base + fl[k], size, align) {
        -2
    } else if needed(base + fl[k], size, align) <= bs[index_of(bs, fl[k] as int)].size {
        k
    } else {
        first_fit_from(base, bs, fl, size, align, k + 1)
    }
}

/// The state of a pool: its blocks in address order, the offsets of its free blocks
/// in free-list order, and the bytes in allocated blocks (headers included).
pub struct PoolView {
    pub blocks: Seq<Block>,
    pub free: Seq<usize>,
    pub used: int,
}

/// What allocating `size` bytes aligned to `align` returns, and the pool after it, in
/// a pool at address `base` in state `p`. The first free-list entry whose block can
/// hold the request is taken; the pool is left as it was when the request fails.
pub open spec fn alloc_spec(base: int, p: PoolView, size: int, align: int) -> (Result<usize, AllocError>, PoolView) {
    let k = first_fit_from(base, p.blocks, p.free, size, align, 0);
    let blk = base + p.free[k];
    let i = index_of(p.blocks, p.free[k] as int);
    let t = needed(blk, size, align);
    if k == -1 {
        (Err(AllocError::PoolExhausted), p)
    } else if k < 0 || link_offset(blk, align) > MAX_DATA_OFFSET {
        (Err(AllocError::InvalidLayout), p)
    } else {
        (
            Ok(data_addr(blk, align) as usize),
            PoolView {
                blocks: alloc_blocks(p.blocks, i, t),
                free: alloc_free_list(p.free, k, p.blocks, i, t),
                used: p.used + alloc_taken(p.blocks, i, t),
            },
        )
    }
}

/// The pool (at address `base`, in state `p`) after freeing the allocation whose data
/// area starts at address `data`.
pub open spec fn dealloc_spec(base: int, p: PoolView, data: int) -> PoolView {
    let i = data_block(p.blocks, data - base);
    PoolView {
        blocks: dealloc_blocks(p.blocks, i),
        free: dealloc_free_list(p.free, p.blocks, i),
        used: p.used - p.blocks[i].size,
    }
}

/// In state `p` of a pool at address `base`, `data` is the data address of an
/// allocated block.
pub open spec fn is_allocation(base: int, p: PoolView, data: int) -> bool {
    exists|j: int| 0 <= j < p.blocks.len() && holds_data(p.blocks[j], data - base) && p.blocks[j].allocated
}

/// A request of `size` bytes aligned to `align` is a valid layout: its size rounded up
/// to the alignment does not exceed `isize::MAX`.
pub open spec fn layout_ok(size: int, align: int) -> bool {
    align - 1 <= isize::MAX && size <= isize::MAX - (align - 1)
}

/// What moving the allocation at `data` to a new block of `new_size` bytes returns,
/// and the pool after it: a new block is allocated first, then the old one is freed.
/// Nothing changes when the allocation fails.
pub open spec fn resize_spec(base: int, p: PoolView, data: int, new_size: int, align: int) -> (Result<usize, AllocError>, PoolView) {
    let (r, q) = alloc_spec(base, p, new_size, align);
    if !layout_ok(new_size, align) {
        (Err(AllocError::InvalidLayout), p)
    } else if r is Err {
        (r, p)
    } else {
        (r, dealloc_spec(base, q, data))
    }
}

/// `align_up` gives a multiple of `a` no smaller than `x` and less than `a` above it.
pub proof fn lemma_align_up(x: int, a: int)
    requires
        0 <= x,
        a > 0,
    ensures
        align_up(x, a) % a == 0,
        x <= align_up(x, a) < x + a,
{
    if a > 1 {
        let y = x + a - 1;
        assert(0 <= y % a < a) by (nonlinear_arith)
            requires
                a > 0,
        ;
        assert((y - y % a) % a == 0) by (nonlinear_arith)
            requires
                a > 0,
                y >= 0,
        ;
    } else {
        assert(x % 1 == 0) by (nonlinear_arith);
    }
}

/// A successful allocation returns an address that is a multiple of the alignment,
/// whose `size` bytes lie inside the region, and that names an allocated block of the
/// new state; every allocation of the old state stays in the new state with the same
/// block.
pub proof fn lemma_alloc_spec(base: int, cap: int, p: PoolView, size: int, align: int, other: int)
    requires
        pool_ok(base, cap, p.blocks, p.free, p.used),
        0 <= size,
        align > 0,
    ensures
        pool_ok(
            base,
            cap,
            alloc_spec(base, p, size, align).1.blocks,
            alloc_spec(base, p, size, align).1.free,
            alloc_spec(base, p, size, align).1.used,
        ),
        alloc_spec(base, p, size, align).0 is Err ==> alloc_spec(base, p, size, align).1 == p,
        alloc_spec(base, p, size, align).0 matches Ok(d) ==> {
            let q = alloc_spec(base, p, size, align).1;
            &&& (d as int) % align == 0
            &&& base < d
            &&& d + size <= base + cap
            &&& is_allocation(base, q, d as int)
            &&& q.blocks[data_block(q.blocks, d - base)].size == q.used - p.used
        },
        is_allocation(base, p, other) ==> {
            let q = alloc_spec(base, p, size, align).1;
            &&& is_allocation(base, q, other)
            &&& q.blocks[data_block(q.blocks, other - base)] == p.blocks[data_block(
                p.blocks,
                other - base,
            )]
            &&& alloc_spec(base, p, size, align).0 matches Ok(d) ==> q.blocks[data_block(
                q.blocks,
                d - base,
            )].offset != q.blocks[data_block(q.blocks, other - base)].offset
        },
{
    let bs = p.blocks;
    let fl = p.free;
    let k = first_fit_from(base, bs, fl, size, align, 0);
    lemma_first_fit_range(base, bs, fl, size, align, 0);
    if k >= 0 {
        let o = fl[k];
        let blk = base + o;
        let i = index_of(bs, o as int);
        let t = needed(blk, size, align);
        lemma_align_up(blk + HEADER_SIZE + BACK_LINK_SIZE, align);
        assert(free_at(bs, o as int));
        let i0 = choose|i0: int| 0 <= i0 < bs.len() && bs[i0].offset == o && !bs[i0].allocated;
        lemma_index_of(bs, cap, i0);
        lemma_in_region(bs, cap, i);
        if link_offset(blk, align) <= MAX_DATA_OFFSET {
            lemma_alloc_keeps_invariant(base, cap, bs, fl, p.used, k, t);
            let nbs = alloc_blocks(bs, i, t);
            let d = data_addr(blk, align);
            // the new allocated block holds the data address
            assert(holds_data(nbs[i], d - base));
            lemma_data_block(nbs, cap, i, d - base);
            if is_allocation(base, p, other) {
                let j = choose|j: int| 0 <= j < bs.len() && holds_data(bs[j], other - base) && bs[j].allocated;
                lemma_in_region(bs, cap, j);
                lemma_data_block(bs, cap, j, other - base);
                assert(j != i);
                let jj = if j < i || !split_off(bs[i], t) { j } else { j + 1 };
                assert(nbs[jj] == bs[j]);
                lemma_data_block(nbs, cap, jj, other - base);
                if bs[i].offset == bs[j].offset {
                    lemma_offset_unique(bs, cap, i, j);
                }
            }
        }
    }
}

/// The used total never exceeds the region.
pub proof fn lemma_used_within_region(base: int, cap: int, p: PoolView)
    requires
        pool_ok(base, cap, p.blocks, p.free, p.used),
    ensures
        0 <= p.used <= cap,
{
    lemma_alloc_sum_bound(p.blocks, cap);
}

/// A pool with nothing allocated is a single free block covering the region, and its
/// free list names just that block.
pub proof fn lemma_empty_pool_is_whole(base: int, cap: int, p: PoolView)
    requires
        pool_ok(base, cap, p.blocks, p.free, p.used),
        p.used == 0,
    ensures
        p.blocks == seq![Block { offset: 0, size: cap as usize, allocated: false }],
        p.free == seq![0usize],
{
    let bs = p.blocks;
    lemma_nothing_allocated(bs);
    if bs.len() >= 2 {
        assert(apart(bs, 0));
    }
    assert(bs.len() == 1);
    assert(bs =~= seq![Block { offset: 0, size: cap as usize, allocated: false }]);
    let fl = p.free;
    assert(fl.contains(bs[0].offset));
    assert forall|j: int| 0 <= j < fl.len() implies fl[j] == 0 by {
        assert(free_at(bs, fl[j] as int));
    }
    let q = choose|q: int| 0 <= q < fl.len() && fl[q] == 0;
    if fl.len() >= 2 {
        let other = if q == 0 { 1int } else { 0int };
        assert(fl[other] == fl[q]);
    }
    assert(fl =~= seq![0usize]);
}

/// Blocks of positive size whose allocated sizes add up to zero are all free.
proof fn lemma_nothing_allocated(bs: Seq<Block>)
    requires
        alloc_sum(bs) == 0,
        forall|i: int| 0 <= i < bs.len() ==> #[trigger] bs[i].size >= MIN_BLOCK_SIZE,
    ensures
        forall|i: int| 0 <= i < bs.len() ==> !(#[trigger] bs[i].allocated),
    decreases bs.len(),
{
    if bs.len() > 0 {
        let init = bs.drop_last();
        lemma_alloc_sum_nonneg(init);
        assert(!bs.last().allocated);
        assert forall|i: int| 0 <= i < init.len() implies #[trigger] init[i].size >= MIN_BLOCK_SIZE by {
            assert(init[i] == bs[i]);
        }
        lemma_nothing_allocated(init);
        assert forall|i: int| 0 <= i < bs.len() implies !(#[trigger] bs[i].allocated) by {
            if i < bs.len() - 1 {
                assert(init[i] == bs[i]);
            }
        }
    }
}

/// Allocated sizes add up to a non-negative total.
proof fn lemma_alloc_sum_nonneg(bs: Seq<Block>)
    ensures
        alloc_sum(bs) >= 0,
    decreases bs.len(),
{
    if bs.len() > 0 {
        lemma_alloc_sum_nonneg(bs.drop_last());
    }
}

/// The block of the allocation at `data` in state `p` of a pool at address `base`.
pub open spec fn alloc_block(base: int, p: PoolView, data: int) -> Block {
    p.blocks[data_block(p.blocks, data - base)]
}

/// Freeing the allocation at `data` keeps the pool well formed and leaves every other
/// allocation (one in another block) in place, in the same block.
#[verifier::spinoff_prover]
pub proof fn lemma_dealloc_spec(base: int, cap: int, p: PoolView, data: int, other: int)
    requires
        pool_ok(base, cap, p.blocks, p.free, p.used),
        is_allocation(base, p, data),
    ensures
        pool_ok(
            base,
            cap,
            dealloc_spec(base, p, data).blocks,
            dealloc_spec(base, p, data).free,
            dealloc_spec(base, p, data).used,
        ),
        is_allocation(base, p, other) && alloc_block(base, p, other).offset != alloc_block(
            base,
            p,
            data,
        ).offset ==> {
            &&& is_allocation(base, dealloc_spec(base, p, data), other)
            &&& alloc_block(base, dealloc_spec(base, p, data), other) == alloc_block(base, p, other)
        },
{
    let bs = p.blocks;
    let i0 = choose|j: int| 0 <= j < bs.len() && holds_data(bs[j], data - base) && bs[j].allocated;
    lemma_data_block(bs, cap, i0, data - base);
    let i = i0;
    lemma_dealloc_keeps_invariant(base, cap, bs, p.free, p.used, i);
    if is_allocation(base, p, other) && alloc_block(base, p, other).offset != alloc_block(base, p, data).offset {
        let j = choose|j: int| 0 <= j < bs.len() && holds_data(bs[j], other - base) && bs[j].allocated;
        lemma_data_block(bs, cap, j, other - base);
        let lo = merge_lo(bs, i);
        let hi = merge_hi(bs, i);
        let nbs = dealloc_blocks(bs, i);
        assert(j != i);
        assert(!(lo <= j < hi));
        let jj = if j < lo { j } else { j - (hi - lo) + 1 };
        assert(nbs[jj] == bs[j]);
        lemma_data_block(nbs, cap, jj, other - base);
    }
}

/// The first-fit walk gives an entry of the free list, `-1` or `-2`.
pub(crate) proof fn lemma_first_fit_range(base: int, bs: Seq<Block>, fl: Seq<usize>, size: int, align: int, k: int)
    requires
        0 <= k,
    ensures
        ({
            let r = first_fit_from(base, bs, fl, size, align, k);
            r == -1 || r == -2 || (k <= r < fl.len() && !request_overflows(base + fl[r], size, align)
                && needed(base + fl[r], size, align) <= bs[index_of(bs, fl[r] as int)].size)
        }),
    decreases fl.len() - k,
{
    if k < fl.len() {
        lemma_first_fit_range(base, bs, fl, size, align, k + 1);
    }
}

/// Memory handed out by a pool: the address of its first byte and its length.
#[derive(Clone, Copy, Debug, PartialEq, Eq, Structural)]
pub struct PoolSlice {
    pub addr: usize,
    pub len: usize,
}

impl PoolSlice {
    /// Address of the first byte.
    pub fn as_ptr(&self) -> (r: usize)
        ensures
            r == self.addr,
    {
        self.addr
    }

    /// Length in bytes.
    pub fn len(&self) -> (r: usize)
        ensures
            r == self.len,
    {
        self.len
    }
}

/// The slice of `len` bytes at the address an allocation returned, or its error.
pub open spec fn slice_of(res: Result<usize, AllocError>, len: usize) -> Result<PoolSlice, AllocError> {
    match res {
        Ok(a) => Ok(PoolSlice { addr: a, len }),
        Err(e) => Err(e),
    }
}

/// Pool allocator over a region of `capacity` bytes starting at address `base`.
///
/// The region is a sequence of blocks, each a 32-byte header followed by data; free
/// blocks are kept on a free list, most recently freed first. Allocation takes the
/// first block of the free list that is large enough and whose data is suitably
/// aligned, splitting off the rest when at least a minimum block remains.
/// Deallocation frees a block and merges it with free neighbours.
pub struct LpAllocator {
    base: usize,
    capacity: usize,
    blocks: Vec<Block>,
    free_list: Vec<usize>,
    used_bytes: usize,
}

/// Replace the blocks `lo..hi` (at most three) by the single block `m`.
fn replace_run(blocks: &mut Vec<Block>, lo: usize, hi: usize, m: Block)
    requires
        lo < hi <= old(blocks)@.len(),
        hi - lo <= 3,
    ensures
        final(blocks)@ == old(blocks)@.take(lo as int) + seq![m] + old(blocks)@.skip(hi as int),
{
    let ghost b0 = blocks@;
    blocks.set(lo, m);
    if hi - lo >= 2 {
        blocks.remove(lo + 1);
    }
    if hi - lo == 3 {
        blocks.remove(lo + 1);
    }
    assert(blocks@ =~= b0.take(lo as int) + seq![m] + b0.skip(hi as int));
}

impl LpAllocator {
    /// Address of the first byte of the region.
    pub closed spec fn base_addr(&self) -> int {
        self.base as int
    }

    /// Size of the region in bytes.
    pub closed spec fn cap(&self) -> int {
        self.capacity as int
    }

    /// The blocks of the region in address order.
    pub closed spec fn block_seq(&self) -> Seq<Block> {
        self.blocks@
    }

    /// Offsets of the free blocks in free-list order.
    pub closed spec fn free_seq(&self) -> Seq<usize> {
        self.free_list@
    }

    /// Bytes in allocated blocks, headers included.
    pub closed spec fn used(&self) -> int {
        self.used_bytes as int
    }

    /// The pool's state.
    pub open spec fn view(&self) -> PoolView {
        PoolView { blocks: self.block_seq(), free: self.free_seq(), used: self.used() }
    }

    /// The pool invariant.
    pub open spec fn wf(&self) -> bool {
        pool_ok(self.base_addr(), self.cap(), self.block_seq(), self.free_seq(), self.used())
    }

    /// The first fitting free-list entry for a request, or -1.
    pub open spec fn first_fit(&self, size: int, align: int) -> int {
        first_fit_from(self.base_addr(), self.block_seq(), self.free_seq(), size, align, 0)
    }

    /// A pool over `size` bytes at address `memory`: one free block covering the region.
    pub fn new(memory: usize, size: usize) -> (r: Result<LpAllocator, AllocError>)
        requires
            memory + size <= usize::MAX,
        ensures
            size < MIN_BLOCK_SIZE ==> r == Err::<LpAllocator, AllocError>(AllocError::InvalidLayout),
            size >= MIN_BLOCK_SIZE ==> r is Ok,
            r matches Ok(a) ==> a.wf() && a.base_addr() == memory && a.cap() == size && a.used() == 0
                && a.block_seq() == seq![Block { offset: 0, size, allocated: false }]
                && a.free_seq() == seq![0usize],
    {
        if size < MIN_BLOCK_SIZE {
            return Err(AllocError::InvalidLayout);
        }
        let mut blocks: Vec<Block> = Vec::new();
        blocks.push(Block { offset: 0, size, allocated: false });
        let mut free_list: Vec<usize> = Vec::new();
        free_list.push(0);
        let a = LpAllocator { base: memory, capacity: size, blocks, free_list, used_bytes: 0 };
        proof {
            let bs = a.blocks@;
            assert(bs.drop_last() =~= Seq::<Block>::empty());
            assert(alloc_sum(Seq::<Block>::empty()) == 0);
            assert(alloc_sum(bs) == 0);
            assert(a.free_list@.no_duplicates());
            assert forall|j: int| 0 <= j < a.free_list@.len() implies #[trigger] free_at(
                bs,
                a.free_list@[j] as int,
            ) by {
                assert(bs[0].offset == 0);
            }
            assert(a.free_list@.contains(bs[0].offset)) by {
                assert(a.free_list@[0] == 0);
            }
        }
        Ok(a)
    }

    /// The same as `new`.
    pub fn from_region(memory: usize, size: usize) -> (r: Result<LpAllocator, AllocError>)
        requires
            memory + size <= usize::MAX,
        ensures
            size < MIN_BLOCK_SIZE ==> r == Err::<LpAllocator, AllocError>(AllocError::InvalidLayout),
            size >= MIN_BLOCK_SIZE ==> r is Ok,
            r matches Ok(a) ==> a.wf() && a.base_addr() == memory && a.cap() == size && a.used() == 0
                && a.block_seq() == seq![Block { offset: 0, size, allocated: false }]
                && a.free_seq() == seq![0usize],
    {
        LpAllocator::new(memory, size)
    }

    /// The index of the block that starts at `o`.
    fn find_block(&self, o: usize) -> (i: usize)
        requires
            self.wf(),
            exists|j: int| 0 <= j < self.block_seq().len() && self.block_seq()[j].offset == o,
        ensures
            i < self.block_seq().len(),
            self.block_seq()[i as int].offset == o,
            index_of(self.block_seq(), o as int) == i,
    {
        let mut i: usize = 0;
        while i < self.blocks.len()
            invariant
                self.wf(),
                i <= self.blocks@.len(),
                exists|j: int| i <= j < self.blocks@.len() && self.blocks@[j].offset == o,
            decreases self.blocks@.len() - i,
        {
            if self.blocks[i].offset == o {
                proof {
                    lemma_index_of(self.blocks@, self.capacity as int, i as int);
                }
                return i;
            }
            i = i + 1;
        }
        proof {
            assert(false);
        }
        0
    }

    /// The two pools have the same region, blocks, free list and used total.
    pub open spec fn same_pool(&self, other: &LpAllocator) -> bool {
        &&& self.base_addr() == other.base_addr()
        &&& self.cap() == other.cap()
        &&& self.block_seq() == other.block_seq()
        &&& self.free_seq() == other.free_seq()
        &&& self.used() == other.used()
    }

    /// Allocate `size` bytes aligned to `align`: the first block of the free list that
    /// can hold the request is taken, and split when at least a minimum block remains.
    /// Returns the address of the data area.
    #[verifier::spinoff_prover]
    #[verifier::rlimit(30)]
    pub(crate) fn allocate_addr(&mut self, size: usize, align: usize) -> (r: Result<usize, AllocError>)
        requires
            old(self).wf(),
            align > 0,
        ensures
            final(self).wf(),
            final(self).base_addr() == old(self).base_addr(),
            final(self).cap() == old(self).cap(),
            r == alloc_spec(old(self).base_addr(), old(self).view(), size as int, align as int).0,
            final(self).view() == alloc_spec(old(self).base_addr(), old(self).view(), size as int, align as int).1,
    {
        let mut k: usize = 0;
        let ghost b0 = self.base as int;
        let ghost cap0 = self.capacity as int;
        let ghost used0 = self.used_bytes as int;
        let ghost bs0 = self.blocks@;
        let ghost fl0 = self.free_list@;
        while k < self.free_list.len()
            invariant
                self.wf(),
                self.blocks@ == bs0,
                self.free_list@ == fl0,
                self.base == b0,
                self.capacity == cap0,
                self.used_bytes == used0,
                b0 == old(self).base_addr(),
                cap0 == old(self).cap(),
                used0 == old(self).used(),
                bs0 == old(self).block_seq(),
                fl0 == old(self).free_seq(),
                align > 0,
                k <= fl0.len(),
                first_fit_from(b0, bs0, fl0, size as int, align as int, 0) == first_fit_from(
                    b0,
                    bs0,
                    fl0,
                    size as int,
                    align as int,
                    k as int,
                ),
            decreases fl0.len() - k,
        {
            let o = self.free_list[k];
            proof {
                assert(free_at(bs0, fl0[k as int] as int));
            }
            let i = self.find_block(o);
            let b = self.blocks[i];
            proof {
                lemma_in_region(bs0, cap0, i as int);
            }
            let blk = self.base + o;
            let min_user = blk + HEADER_SIZE + BACK_LINK_SIZE;
            let user: usize;
            if align > 1 {
                match min_user.checked_add(align - 1) {
                    None => {
                        return Err(AllocError::InvalidLayout);
                    },
                    Some(t) => {
                        assert(t % align < align) by (nonlinear_arith)
                            requires
                                align > 0,
                        ;
                        user = t - t % align;
                    },
                }
            } else {
                user = min_user;
            }
            assert(user == data_addr(blk as int, align as int));
            let offset = user - blk;
            let total = match offset.checked_add(size) {
                None => {
                    return Err(AllocError::InvalidLayout);
                },
                Some(t) => t,
            };
            if total <= b.size {
                if user - BACK_LINK_SIZE - blk > MAX_DATA_OFFSET {
                    return Err(AllocError::InvalidLayout);
                }
                proof {
                    lemma_alloc_keeps_invariant(
                        b0,
                        cap0,
                        bs0,
                        fl0,
                        used0,
                        k as int,
                        total as int,
                    );
                    lemma_alloc_sum_bound(alloc_blocks(bs0, i as int, total as int), cap0);
                }
                self.free_list.remove(k);
                let remaining = b.size - total;
                if remaining >= MIN_BLOCK_SIZE {
                    self.blocks.set(i, Block { offset: o, size: total, allocated: true });
                    let n = self.blocks.len();
                    assert(i < n);
                    self.blocks.insert(
                        i + 1,
                        Block { offset: o + total, size: remaining, allocated: false },
                    );
                    self.free_list.insert(0, o + total);
                    self.used_bytes = self.used_bytes + total;
                    proof {
                        assert(self.blocks@ =~= alloc_blocks(bs0, i as int, total as int));
                        assert(self.free_list@ =~= alloc_free_list(
                            fl0,
                            k as int,
                            bs0,
                            i as int,
                            total as int,
                        ));
                    }
                } else {
                    self.blocks.set(i, Block { offset: o, size: b.size, allocated: true });
                    self.used_bytes = self.used_bytes + b.size;
                    proof {
                        assert(self.blocks@ =~= alloc_blocks(bs0, i as int, total as int));
                        assert(self.free_list@ =~= alloc_free_list(
                            fl0,
                            k as int,
                            bs0,
                            i as int,
                            total as int,
                        ));
                    }
                }
                return Ok(user);
            }
            k = k + 1;
        }
        Err(AllocError::PoolExhausted)
    }

    /// The index of the block whose data area starts at offset `rel` of the region.
    fn find_data_block(&self, rel: usize) -> (i: usize)
        requires
            self.wf(),
            exists|j: int| 0 <= j < self.block_seq().len() && holds_data(self.block_seq()[j], rel as int),
        ensures
            i < self.block_seq().len(),
            holds_data(self.block_seq()[i as int], rel as int),
            data_block(self.block_seq(), rel as int) == i,
    {
        let mut i: usize = 0;
        while i < self.blocks.len()
            invariant
                self.wf(),
                i <= self.blocks@.len(),
                exists|j: int| i <= j < self.blocks@.len() && holds_data(self.blocks@[j], rel as int),
            decreases self.blocks@.len() - i,
        {
            let b = self.blocks[i];
            proof {
                lemma_in_region(self.blocks@, self.capacity as int, i as int);
            }
            if b.offset + HEADER_SIZE + BACK_LINK_SIZE <= rel && rel <= b.offset + b.size {
                proof {
                    lemma_data_block(self.blocks@, self.capacity as int, i as int, rel as int);
                }
                return i;
            }
            i = i + 1;
        }
        proof {
            assert(false);
        }
        0
    }

    /// Take the offset `o` off the free list.
    fn remove_from_free_list(&mut self, o: usize)
        requires
            old(self).free_seq().no_duplicates(),
        ensures
            final(self).free_seq() == remove_value(old(self).free_seq(), o),
            final(self).block_seq() == old(self).block_seq(),
            final(self).base_addr() == old(self).base_addr(),
            final(self).cap() == old(self).cap(),
            final(self).used() == old(self).used(),
    {
        let mut j: usize = 0;
        while j < self.free_list.len()
            invariant
                self.free_list@ == old(self).free_list@,
                self.blocks@ == old(self).blocks@,
                self.base == old(self).base,
                self.capacity == old(self).capacity,
                self.used_bytes == old(self).used_bytes,
                self.free_list@.no_duplicates(),
                j <= self.free_list@.len(),
                forall|q: int| 0 <= q < j ==> self.free_list@[q] != o,
            decreases self.free_list@.len() - j,
        {
            if self.free_list[j] == o {
                proof {
                    let s = self.free_list@;
                    assert(s.contains(o));
                    let c = choose|q: int| 0 <= q < s.len() && s[q] == o;
                    assert(c == j as int);
                }
                self.free_list.remove(j);
                return;
            }
            j = j + 1;
        }
        proof {
            assert(!self.free_list@.contains(o));
        }
    }

    /// Free the allocation whose data area starts at address `data`, and merge the
    /// freed block with a free block after it and a free block before it. The merged
    /// block goes to the front of the free list.
    pub fn deallocate(&mut self, data: usize)
        requires
            old(self).wf(),
            is_allocation(old(self).base_addr(), old(self).view(), data as int),
        ensures
            final(self).wf(),
            final(self).base_addr() == old(self).base_addr(),
            final(self).cap() == old(self).cap(),
            final(self).view() == dealloc_spec(old(self).base_addr(), old(self).view(), data as int),
    {
        let ghost bs0 = self.blocks@;
        let ghost fl0 = self.free_list@;
        let ghost cap0 = self.capacity as int;
        let ghost used0 = self.used_bytes as int;
        let ghost j0 = choose|j: int|
            0 <= j < bs0.len() && holds_data(bs0[j], data - self.base) && bs0[j].allocated;
        proof {
            lemma_in_region(bs0, cap0, j0);
        }
        let rel = data - self.base;
        let i = self.find_data_block(rel);
        proof {
            lemma_data_block(bs0, cap0, j0, rel as int);
        }
        let b = self.blocks[i];
        let n = self.blocks.len();
        let merge_next = i + 1 < n && !self.blocks[i + 1].allocated;
        let merge_prev = i > 0 && !self.blocks[i - 1].allocated;
        let lo = if merge_prev { i - 1 } else { i };
        let hi = if merge_next { i + 2 } else { i + 1 };
        let start = self.blocks[lo].offset;
        let last = self.blocks[hi - 1];
        proof {
            lemma_in_region(bs0, cap0, hi - 1);
            lemma_in_region(bs0, cap0, lo as int);
            if lo < hi - 1 {
                lemma_ordered(bs0, cap0, lo as int, hi - 1);
            }
        }
        let end = last.offset + last.size;
        assert(used0 >= b.size) by {
            lemma_dealloc_keeps_invariant(self.base as int, cap0, bs0, fl0, used0, i as int);
            lemma_alloc_sum_bound(dealloc_blocks(bs0, i as int), cap0);
        }
        if merge_next {
            let no = self.blocks[i + 1].offset;
            self.remove_from_free_list(no);
            proof {
                lemma_remove_value(fl0, no);
            }
        }
        if merge_prev {
            let po = self.blocks[i - 1].offset;
            self.remove_from_free_list(po);
        }
        replace_run(
            &mut self.blocks,
            lo,
            hi,
            Block { offset: start, size: end - start, allocated: false },
        );
        self.free_list.insert(0, start);
        self.used_bytes = self.used_bytes - b.size;
        proof {
            assert(self.free_list@ =~= dealloc_free_list(fl0, bs0, i as int));
            assert(self.blocks@ =~= dealloc_blocks(bs0, i as int));
            lemma_dealloc_keeps_invariant(self.base as int, cap0, bs0, fl0, used0, i as int);
        }
    }

    /// Allocate `size` bytes aligned to `align` (see `alloc_spec`); returns the slice of
    /// `size` bytes at the data area.
    pub fn allocate(&mut self, size: usize, align: usize) -> (r: Result<PoolSlice, AllocError>)
        requires
            old(self).wf(),
            align > 0,
        ensures
            final(self).wf(),
            final(self).base_addr() == old(self).base_addr(),
            final(self).cap() == old(self).cap(),
            r == slice_of(alloc_spec(old(self).base_addr(), old(self).view(), size as int, align as int).0, size),
            final(self).view() == alloc_spec(old(self).base_addr(), old(self).view(), size as int, align as int).1,
    {
        match self.allocate_addr(size, align) {
            Ok(a) => Ok(PoolSlice { addr: a, len: size }),
            Err(e) => Err(e),
        }
    }

    /// Free every block: the pool becomes one free block covering the region.
    pub fn reset(&mut self)
        requires
            old(self).wf(),
        ensures
            final(self).wf(),
            final(self).base_addr() == old(self).base_addr(),
            final(self).cap() == old(self).cap(),
            final(self).view() == (PoolView {
                blocks: seq![Block { offset: 0, size: old(self).cap() as usize, allocated: false }],
                free: seq![0usize],
                used: 0,
            }),
    {
        let mut blocks: Vec<Block> = Vec::new();
        blocks.push(Block { offset: 0, size: self.capacity, allocated: false });
        let mut free_list: Vec<usize> = Vec::new();
        free_list.push(0);
        self.blocks = blocks;
        self.free_list = free_list;
        self.used_bytes = 0;
        proof {
            let bs = self.blocks@;
            assert(bs.drop_last() =~= Seq::<Block>::empty());
            assert(alloc_sum(Seq::<Block>::empty()) == 0);
            assert(alloc_sum(bs) == 0);
            assert(self.free_list@.no_duplicates());
            assert forall|j: int| 0 <= j < self.free_list@.len() implies #[trigger] free_at(
                bs,
                self.free_list@[j] as int,
            ) by {
                assert(bs[0].offset == 0);
            }
            assert(self.free_list@.contains(bs[0].offset)) by {
                assert(self.free_list@[0] == 0);
            }
        }
    }

    /// Address of the start of the region.
    pub fn memory_ptr(&self) -> (r: usize)
        ensures
            r == self.base_addr(),
    {
        self.base
    }

    /// Size of the region in bytes.
    pub fn size(&self) -> (r: usize)
        ensures
            r == self.cap(),
    {
        self.capacity
    }

    /// Bytes in allocated blocks, headers included.
    pub fn used_bytes(&self) -> (r: usize)
        ensures
            r == self.used(),
    {
        self.used_bytes
    }

    /// Size of the region in bytes.
    pub fn capacity(&self) -> (r: usize)
        ensures
            r == self.cap(),
    {
        self.capacity
    }

    /// Number of allocated blocks.
    pub fn used_blocks(&self) -> (r: usize)
        requires
            self.wf(),
        ensures
            r == alloc_count(self.block_seq()),
    {
        let mut count: usize = 0;
        let mut i: usize = 0;
        while i < self.blocks.len()
            invariant
                self.wf(),
                i <= self.blocks@.len(),
                count == alloc_count(self.blocks@.take(i as int)),
                count <= i,
            decreases self.blocks@.len() - i,
        {
            proof {
                assert(self.blocks@.take(i + 1).drop_last() =~= self.blocks@.take(i as int));
            }
            if self.blocks[i].allocated {
                count = count + 1;
            }
            i = i + 1;
        }
        proof {
            assert(self.blocks@.take(i as int) =~= self.blocks@);
        }
        count
    }

    /// `data` is the data address of an allocation of this pool.
    pub fn is_allocated(&self, data: usize) -> (r: bool)
        requires
            self.wf(),
        ensures
            r == is_allocation(self.base_addr(), self.view(), data as int),
    {
        if data < self.base {
            proof {
                assert forall|j: int| 0 <= j < self.blocks@.len() implies !holds_data(self.blocks@[j], data - self.base) by {
                    lemma_in_region(self.blocks@, self.capacity as int, j);
                }
            }
            return false;
        }
        let rel = data - self.base;
        let mut i: usize = 0;
        while i < self.blocks.len()
            invariant
                self.wf(),
                rel == data - self.base,
                i <= self.blocks@.len(),
                forall|j: int| 0 <= j < i ==> !(holds_data(self.blocks@[j], rel as int) && self.blocks@[j].allocated),
            decreases self.blocks@.len() - i,
        {
            let b = self.blocks[i];
            proof {
                lemma_in_region(self.blocks@, self.capacity as int, i as int);
            }
            if b.allocated && b.offset + HEADER_SIZE + BACK_LINK_SIZE <= rel && rel <= b.offset + b.size {
                proof {
                    assert(holds_data(self.view().blocks[i as int], data - self.base_addr()));
                }
                return true;
            }
            i = i + 1;
        }
        false
    }

    /// Number of free blocks (the length of the free list).
    pub fn free_blocks(&self) -> (r: usize)
        requires
            self.wf(),
        ensures
            r == self.free_seq().len(),
    {
        self.free_list.len()
    }

    /// Move the allocation at `data` (of `old_size` bytes, aligned to `align`) to a new
    /// allocation of `new_size > old_size` bytes. This is the bookkeeping alone;
    /// `grow_copying` also moves the bytes over the pool's region.
    pub fn grow(&mut self, data: usize, old_size: usize, align: usize, new_size: usize) -> (r: Result<PoolSlice, AllocError>)
        requires
            old(self).wf(),
            is_allocation(old(self).base_addr(), old(self).view(), data as int),
            align > 0,
        ensures
            final(self).wf(),
            final(self).base_addr() == old(self).base_addr(),
            final(self).cap() == old(self).cap(),
            new_size <= old_size ==> r == Err::<PoolSlice, AllocError>(AllocError::InvalidLayout)
                && final(self).view() == old(self).view(),
            new_size > old_size ==> r == slice_of(resize_spec(
                old(self).base_addr(),
                old(self).view(),
                data as int,
                new_size as int,
                align as int,
            ).0, new_size) && final(self).view() == resize_spec(
                old(self).base_addr(),
                old(self).view(),
                data as int,
                new_size as int,
                align as int,
            ).1,
    {
        if new_size <= old_size {
            return Err(AllocError::InvalidLayout);
        }
        match self.move_allocation(data, align, new_size) {
            Ok(a) => Ok(PoolSlice { addr: a, len: new_size }),
            Err(e) => Err(e),
        }
    }

    /// Move the allocation at `data` (of `old_size` bytes, aligned to `align`) to a new
    /// allocation of `new_size < old_size` bytes. This is the bookkeeping alone;
    /// `shrink_copying` also moves the bytes over the pool's region.
    pub fn shrink(&mut self, data: usize, old_size: usize, align: usize, new_size: usize) -> (r: Result<PoolSlice, AllocError>)
        requires
            old(self).wf(),
            is_allocation(old(self).base_addr(), old(self).view(), data as int),
            align > 0,
        ensures
            final(self).wf(),
            final(self).base_addr() == old(self).base_addr(),
            final(self).cap() == old(self).cap(),
            new_size >= old_size ==> r == Err::<PoolSlice, AllocError>(AllocError::InvalidLayout)
                && final(self).view() == old(self).view(),
            new_size < old_size ==> r == slice_of(resize_spec(
                old(self).base_addr(),
                old(self).view(),
                data as int,
                new_size as int,
                align as int,
            ).0, new_size) && final(self).view() == resize_spec(
                old(self).base_addr(),
                old(self).view(),
                data as int,
                new_size as int,
                align as int,
            ).1,
    {
        if new_size >= old_size {
            return Err(AllocError::InvalidLayout);
        }
        match self.move_allocation(data, align, new_size) {
            Ok(a) => Ok(PoolSlice { addr: a, len: new_size }),
            Err(e) => Err(e),
        }
    }

    /// Allocate `new_size` bytes aligned to `align`, then free the allocation at `data`.
    fn move_allocation(&mut self, data: usize, align: usize, new_size: usize) -> (r: Result<usize, AllocError>)
        requires
            old(self).wf(),
            is_allocation(old(self).base_addr(), old(self).view(), data as int),
            align > 0,
        ensures
            final(self).wf(),
            final(self).base_addr() == old(self).base_addr(),
            final(self).cap() == old(self).cap(),
            r == resize_spec(old(self).base_addr(), old(self).view(), data as int, new_size as int, align as int).0,
            final(self).view() == resize_spec(
                old(self).base_addr(),
                old(self).view(),
                data as int,
                new_size as int,
                align as int,
            ).1,
    {
        let max = isize::MAX as usize;
        if align - 1 > max || new_size > max - (align - 1) {
            return Err(AllocError::InvalidLayout);
        }
        proof {
            lemma_alloc_spec(
                self.base as int,
                self.capacity as int,
                self.view(),
                new_size as int,
                align as int,
                data as int,
            );
        }
        match self.allocate_addr(new_size, align) {
            Err(e) => Err(e),
            Ok(new_data) => {
                self.deallocate(data);
                Ok(new_data)
            },
        }
    }
}

} // verus!

//! Laws of the pool that relate several of its operations.
use vstd::prelude::*;

use super::allocator::{
    alloc_spec, data_addr, dealloc_spec, first_fit_from, is_allocation, lemma_align_up,
    lemma_alloc_spec, lemma_first_fit_range, needed, PoolView,
};
use super::block_header::{BACK_LINK_SIZE, HEADER_SIZE};
use super::layout::{
    alloc_blocks, alloc_free_list, data_block, free_at, holds_data, index_of,
    lemma_alloc_keeps_invariant, lemma_data_block, lemma_free_after_alloc, lemma_in_region,
    lemma_index_of, lemma_ordered, pool_ok, tiles, Block,
};

verus! {

/// Freeing what an allocation returned restores the pool: the same blocks, the same
/// used total, and the same free blocks (the freed block's entry at the front of the
/// free list).
#[verifier::spinoff_prover]
pub proof fn lemma_alloc_then_dealloc_restores_pool(base: int, cap: int, p: PoolView, size: int, align: int)
    requires
        pool_ok(base, cap, p.blocks, p.free, p.used),
        0 <= size,
        align > 0,
        alloc_spec(base, p, size, align).0 is Ok,
    ensures
        ({
            let (r, q) = alloc_spec(base, p, size, align);
            let p2 = dealloc_spec(base, q, r->Ok_0 as int);
            &&& is_allocation(base, q, r->Ok_0 as int)
            &&& p2.blocks == p.blocks
            &&& p2.used == p.used
            &&& p2.free.len() == p.free.len()
            &&& forall|x: usize| #[trigger] p2.free.contains(x) <==> p.free.contains(x)
        }),
{
    lemma_alloc_spec(base, cap, p, size, align, 0);
    let bs = p.blocks;
    let fl = p.free;
    let k = first_fit_from(base, bs, fl, size, align, 0);
    lemma_first_fit_range(base, bs, fl, size, align, 0);
    let o = fl[k];
    let blk = base + o;
    let t = needed(blk, size, align);
    lemma_align_up(blk + HEADER_SIZE + BACK_LINK_SIZE, align);
    assert(free_at(bs, o as int));
    let i0 = choose|i0: int| 0 <= i0 < bs.len() && bs[i0].offset == o && !bs[i0].allocated;
    lemma_index_of(bs, cap, i0);
    let i = index_of(bs, o as int);
    lemma_in_region(bs, cap, i);
    lemma_alloc_keeps_invariant(base, cap, bs, fl, p.used, k, t);
    let (r, q) = alloc_spec(base, p, size, align);
    let d = data_addr(blk, align);
    assert(q.blocks == alloc_blocks(bs, i, t));
    assert(q.free == alloc_free_list(fl, k, bs, i, t));
    assert(holds_data(q.blocks[i], d - base));
    lemma_data_block(q.blocks, cap, i, d - base);
    lemma_free_after_alloc(cap, bs, fl, k, i, t);
}

/// A successful allocation's bytes lie inside the block it was carved from.
pub proof fn lemma_request_in_block(base: int, cap: int, p: PoolView, size: int, align: int)
    requires
        pool_ok(base, cap, p.blocks, p.free, p.used),
        0 <= size,
        align > 0,
        alloc_spec(base, p, size, align).0 is Ok,
    ensures
        ({
            let (r, q) = alloc_spec(base, p, size, align);
            let d = r->Ok_0 as int;
            let b = q.blocks[data_block(q.blocks, d - base)];
            &&& 0 <= data_block(q.blocks, d - base) < q.blocks.len()
            &&& holds_data(b, d - base)
            &&& b.allocated
            &&& d - base + size <= b.offset + b.size
        }),
{
    lemma_alloc_spec(base, cap, p, size, align, 0);
    let bs = p.blocks;
    let fl = p.free;
    let k = first_fit_from(base, bs, fl, size, align, 0);
    lemma_first_fit_range(base, bs, fl, size, align, 0);
    let o = fl[k];
    let blk = base + o;
    let t = needed(blk, size, align);
    lemma_align_up(blk + HEADER_SIZE + BACK_LINK_SIZE, align);
    assert(free_at(bs, o as int));
    let i0 = choose|i0: int| 0 <= i0 < bs.len() && bs[i0].offset == o && !bs[i0].allocated;
    lemma_index_of(bs, cap, i0);
    let i = index_of(bs, o as int);
    lemma_in_region(bs, cap, i);
    lemma_alloc_keeps_invariant(base, cap, bs, fl, p.used, k, t);
    let (r, q) = alloc_spec(base, p, size, align);
    let d = data_addr(blk, align);
    assert(q.blocks == alloc_blocks(bs, i, t));
    assert(holds_data(q.blocks[i], d - base));
    lemma_data_block(q.blocks, cap, i, d - base);
}

/// The byte ranges of two different blocks do not overlap.
pub proof fn lemma_blocks_apart(bs: Seq<Block>, cap: int, i: int, j: int)
    requires
        tiles(bs, cap),
        0 <= i < bs.len(),
        0 <= j < bs.len(),
        i != j,
    ensures
        bs[i].offset + bs[i].size <= bs[j].offset || bs[j].offset + bs[j].size <= bs[i].offset,
{
    if i < j {
        lemma_ordered(bs, cap, i, j);
    } else {
        lemma_ordered(bs, cap, j, i);
    }
}

} // verus!

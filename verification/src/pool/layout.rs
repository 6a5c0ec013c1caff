//! The mathematical model of a pool: the sequence of blocks that tile the region,
//! the free list, and the bookkeeping of used bytes.
use vstd::prelude::*;

use super::block_header::{BACK_LINK_SIZE, HEADER_SIZE, MIN_BLOCK_SIZE};

verus! {

/// A block of the pool: its start offset, its size (header included), and whether
/// it is allocated.
#[derive(Clone, Copy, Debug, PartialEq, Eq, Structural)]
pub struct Block {
    pub offset: usize,
    pub size: usize,
    pub allocated: bool,
}

/// Block `i + 1` starts where block `i` ends.
pub open spec fn linked(bs: Seq<Block>, i: int) -> bool {
    bs[i + 1].offset == bs[i].offset + bs[i].size
}

/// The blocks tile `0..cap` without gaps or overlap, each at least a minimum block long.
pub open spec fn tiles(bs: Seq<Block>, cap: int) -> bool {
    &&& bs.len() >= 1
    &&& bs[0].offset == 0
    &&& forall|i: int| 0 <= i < bs.len() ==> #[trigger] bs[i].size >= MIN_BLOCK_SIZE
    &&& forall|i: int| 0 <= i < bs.len() - 1 ==> #[trigger] linked(bs, i)
    &&& bs[bs.len() - 1].offset + bs[bs.len() - 1].size == cap
}

/// Some free block starts at offset `o`.
pub open spec fn free_at(bs: Seq<Block>, o: int) -> bool {
    exists|i: int| 0 <= i < bs.len() && bs[i].offset == o && !bs[i].allocated
}

/// The free list names every free block exactly once, and nothing else.
pub open spec fn free_list_ok(bs: Seq<Block>, fl: Seq<usize>) -> bool {
    &&& fl.no_duplicates()
    &&& forall|j: int| 0 <= j < fl.len() ==> #[trigger] free_at(bs, fl[j] as int)
    &&& forall|i: int| 0 <= i < bs.len() && !bs[i].allocated ==> fl.contains(#[trigger] bs[i].offset)
}

/// Total size of the allocated blocks.
pub open spec fn alloc_sum(bs: Seq<Block>) -> int
    decreases bs.len(),
{
    if bs.len() == 0 {
        0
    } else {
        alloc_sum(bs.drop_last()) + (if bs.last().allocated { bs.last().size as int } else { 0 })
    }
}

/// Number of allocated blocks.
pub open spec fn alloc_count(bs: Seq<Block>) -> int
    decreases bs.len(),
{
    if bs.len() == 0 {
        0
    } else {
        alloc_count(bs.drop_last()) + (if bs.last().allocated { 1int } else { 0 })
    }
}

/// The index of the block that starts at offset `o`.
pub open spec fn index_of(bs: Seq<Block>, o: int) -> int {
    choose|i: int| 0 <= i < bs.len() && bs[i].offset == o
}

/// Blocks `i` and `i + 1` are not both free.
pub open spec fn apart(bs: Seq<Block>, i: int) -> bool {
    bs[i].allocated || bs[i + 1].allocated
}

/// No two neighbouring blocks are both free.
pub open spec fn coalesced(bs: Seq<Block>) -> bool {
    forall|i: int| 0 <= i < bs.len() - 1 ==> #[trigger] apart(bs, i)
}

/// The data area of a request placed in block `b` starts at offset `rel`: past the
/// header and the back-link word, and no further than the end of the block.
pub open spec fn holds_data(b: Block, rel: int) -> bool {
    b.offset + HEADER_SIZE + BACK_LINK_SIZE <= rel <= b.offset + b.size
}

/// The index of the block whose data area starts at offset `rel`.
pub open spec fn data_block(bs: Seq<Block>, rel: int) -> int {
    choose|i: int| 0 <= i < bs.len() && holds_data(bs[i], rel)
}

/// The whole invariant of a pool over the region `base..base + cap`.
pub open spec fn pool_ok(base: int, cap: int, bs: Seq<Block>, fl: Seq<usize>, used: int) -> bool {
    &&& tiles(bs, cap)
    &&& free_list_ok(bs, fl)
    &&& coalesced(bs)
    &&& used == alloc_sum(bs)
    &&& cap >= MIN_BLOCK_SIZE
    &&& 0 <= base
    &&& base + cap <= usize::MAX
}

/// Blocks start in strictly increasing order: a block ends at or before the start of
/// every later block.
pub proof fn lemma_ordered(bs: Seq<Block>, cap: int, i: int, j: int)
    requires
        tiles(bs, cap),
        0 <= i < j < bs.len(),
    ensures
        bs[i].offset + bs[i].size <= bs[j].offset,
    decreases j - i,
{
    assert(linked(bs, j - 1));
    if i < j - 1 {
        lemma_ordered(bs, cap, i, j - 1);
        assert(bs[j - 1].size >= MIN_BLOCK_SIZE);
    }
}

/// Every block lies inside the region.
pub proof fn lemma_in_region(bs: Seq<Block>, cap: int, i: int)
    requires
        tiles(bs, cap),
        0 <= i < bs.len(),
    ensures
        0 <= bs[i].offset,
        bs[i].offset + bs[i].size <= cap,
{
    if i < bs.len() - 1 {
        lemma_ordered(bs, cap, i, bs.len() - 1);
    }
}

/// Two blocks with the same offset are the same block.
pub proof fn lemma_offset_unique(bs: Seq<Block>, cap: int, i: int, j: int)
    requires
        tiles(bs, cap),
        0 <= i < bs.len(),
        0 <= j < bs.len(),
        bs[i].offset == bs[j].offset,
    ensures
        i == j,
{
    if i < j {
        lemma_ordered(bs, cap, i, j);
        assert(bs[i].size >= MIN_BLOCK_SIZE);
    } else if j < i {
        lemma_ordered(bs, cap, j, i);
        assert(bs[j].size >= MIN_BLOCK_SIZE);
    }
}

/// At most one block holds a given data offset, and `data_block` finds it.
pub proof fn lemma_data_block(bs: Seq<Block>, cap: int, i: int, rel: int)
    requires
        tiles(bs, cap),
        0 <= i < bs.len(),
        holds_data(bs[i], rel),
    ensures
        data_block(bs, rel) == i,
{
    let k = data_block(bs, rel);
    assert(0 <= k < bs.len() && holds_data(bs[k], rel));
    if k < i {
        lemma_ordered(bs, cap, k, i);
    } else if i < k {
        lemma_ordered(bs, cap, i, k);
    }
}

/// `index_of` finds the block that starts at `o`.
pub proof fn lemma_index_of(bs: Seq<Block>, cap: int, i: int)
    requires
        tiles(bs, cap),
        0 <= i < bs.len(),
    ensures
        index_of(bs, bs[i].offset as int) == i,
{
    let k = index_of(bs, bs[i].offset as int);
    assert(0 <= k < bs.len() && bs[k].offset == bs[i].offset);
    lemma_offset_unique(bs, cap, k, i);
}

/// The allocated sizes add up over a concatenation.
pub proof fn lemma_alloc_sum_concat(a: Seq<Block>, b: Seq<Block>)
    ensures
        alloc_sum(a + b) == alloc_sum(a) + alloc_sum(b),
    decreases b.len(),
{
    if b.len() == 0 {
        assert(a + b =~= a);
    } else {
        lemma_alloc_sum_concat(a, b.drop_last());
        assert((a + b).drop_last() =~= a + b.drop_last());
    }
}

/// The allocated counts add up over a concatenation.
pub proof fn lemma_alloc_count_concat(a: Seq<Block>, b: Seq<Block>)
    ensures
        alloc_count(a + b) == alloc_count(a) + alloc_count(b),
    decreases b.len(),
{
    if b.len() == 0 {
        assert(a + b =~= a);
    } else {
        lemma_alloc_count_concat(a, b.drop_last());
        assert((a + b).drop_last() =~= a + b.drop_last());
    }
}

/// The allocated sizes of a short sequence, written out.
pub proof fn lemma_alloc_sum_small(a: Block, b: Block, c: Block)
    ensures
        alloc_sum(seq![a]) == (if a.allocated { a.size as int } else { 0 }),
        alloc_sum(seq![a, b]) == alloc_sum(seq![a]) + (if b.allocated { b.size as int } else { 0 }),
        alloc_sum(seq![a, b, c]) == alloc_sum(seq![a, b]) + (if c.allocated { c.size as int } else { 0 }),
        alloc_count(seq![a]) == (if a.allocated { 1int } else { 0 }),
        alloc_count(seq![a, b]) == alloc_count(seq![a]) + (if b.allocated { 1int } else { 0 }),
        alloc_count(seq![a, b, c]) == alloc_count(seq![a, b]) + (if c.allocated { 1int } else { 0 }),
{
    assert(seq![a].drop_last() =~= Seq::<Block>::empty());
    assert(alloc_sum(Seq::<Block>::empty()) == 0);
    assert(alloc_count(Seq::<Block>::empty()) == 0);
    assert(seq![a, b].drop_last() =~= seq![a]);
    assert(seq![a, b, c].drop_last() =~= seq![a, b]);
}

/// The allocated sizes never exceed the region.
pub proof fn lemma_alloc_sum_bound(bs: Seq<Block>, cap: int)
    requires
        tiles(bs, cap),
    ensures
        0 <= alloc_sum(bs) <= cap,
{
    lemma_alloc_sum_prefix(bs, cap, bs.len() as int);
    assert(bs.take(bs.len() as int) =~= bs);
}

/// The allocated sizes of the first `n` blocks are at most where block `n - 1` ends.
proof fn lemma_alloc_sum_prefix(bs: Seq<Block>, cap: int, n: int)
    requires
        tiles(bs, cap),
        1 <= n <= bs.len(),
    ensures
        0 <= alloc_sum(bs.take(n)) <= bs[n - 1].offset + bs[n - 1].size,
    decreases n,
{
    assert(bs.take(n).drop_last() =~= bs.take(n - 1));
    assert(bs.take(n).last() == bs[n - 1]);
    assert(alloc_sum(bs.take(n)) == alloc_sum(bs.take(n - 1)) + (if bs[n - 1].allocated { bs[n - 1].size as int } else { 0 }));
    if n == 1 {
        assert(bs.take(0) =~= Seq::<Block>::empty());
        assert(alloc_sum(Seq::<Block>::empty()) == 0);
    } else {
        lemma_alloc_sum_prefix(bs, cap, n - 1);
        assert(linked(bs, n - 2));
    }
    if n == bs.len() {
        assert(bs.take(n) =~= bs);
    }
}

/// Allocating `t` bytes (header included) from block `b` splits off the rest of the
/// block as a free block when at least a minimum block remains.
pub open spec fn split_off(b: Block, t: int) -> bool {
    b.size - t >= MIN_BLOCK_SIZE
}

/// The blocks after allocating `t` bytes (header included) from the free block `i`.
pub open spec fn alloc_blocks(bs: Seq<Block>, i: int, t: int) -> Seq<Block> {
    let b = bs[i];
    if split_off(b, t) {
        bs.take(i) + seq![
            Block { offset: b.offset, size: t as usize, allocated: true },
            Block { offset: (b.offset + t) as usize, size: (b.size - t) as usize, allocated: false },
        ] + bs.skip(i + 1)
    } else {
        bs.update(i, Block { offset: b.offset, size: b.size, allocated: true })
    }
}

/// The free list after allocating from its entry `k` (the block `i`): the entry leaves,
/// and a split-off remainder goes to the front.
pub open spec fn alloc_free_list(fl: Seq<usize>, k: int, bs: Seq<Block>, i: int, t: int) -> Seq<usize> {
    let b = bs[i];
    let rest = fl.remove(k);
    if split_off(b, t) {
        seq![(b.offset + t) as usize] + rest
    } else {
        rest
    }
}

/// The bytes that allocation from block `i` adds to the used total.
pub open spec fn alloc_taken(bs: Seq<Block>, i: int, t: int) -> int {
    if split_off(bs[i], t) { t } else { bs[i].size as int }
}

/// Allocating from a free block leaves no two neighbouring blocks free.
proof fn lemma_alloc_coalesced(bs: Seq<Block>, i: int, t: int)
    requires
        coalesced(bs),
        0 <= i < bs.len(),
        !bs[i].allocated,
        t <= bs[i].size,
    ensures
        coalesced(alloc_blocks(bs, i, t)),
{
    let b = bs[i];
    let nbs = alloc_blocks(bs, i, t);
    if split_off(b, t) {
        let a_blk = Block { offset: b.offset, size: t as usize, allocated: true };
        let f_blk = Block { offset: (b.offset + t) as usize, size: (b.size - t) as usize, allocated: false };
        assert(nbs.len() == bs.len() + 1);
        assert forall|j: int| 0 <= j < nbs.len() implies #[trigger] nbs[j] == (if j < i {
            bs[j]
        } else if j == i {
            a_blk
        } else if j == i + 1 {
            f_blk
        } else {
            bs[j - 1]
        }) by {}
        assert forall|j: int| 0 <= j < nbs.len() - 1 implies #[trigger] apart(nbs, j) by {
            if j < i - 1 {
                assert(apart(bs, j));
            } else if j == i + 1 {
                assert(apart(bs, i));
            } else if j > i + 1 {
                assert(apart(bs, j - 1));
            }
        }
    } else {
        assert forall|j: int| 0 <= j < nbs.len() - 1 implies #[trigger] apart(nbs, j) by {
            if j != i && j != i - 1 {
                assert(apart(bs, j));
            }
        }
    }
}

/// Freeing block `i` and merging it with its free neighbours leaves no two
/// neighbouring blocks free.
proof fn lemma_dealloc_coalesced(bs: Seq<Block>, i: int)
    requires
        coalesced(bs),
        0 <= i < bs.len(),
        bs[i].allocated,
    ensures
        coalesced(dealloc_blocks(bs, i)),
{
    let lo = merge_lo(bs, i);
    let hi = merge_hi(bs, i);
    let m = merged_block(bs, lo, hi);
    let nbs = dealloc_blocks(bs, i);
    assert(nbs.len() == bs.len() - (hi - lo) + 1);
    assert forall|j: int| 0 <= j < nbs.len() implies #[trigger] nbs[j] == (if j < lo {
        bs[j]
    } else if j == lo {
        m
    } else {
        bs[j + (hi - lo) - 1]
    }) by {}
    assert forall|j: int| 0 <= j < nbs.len() - 1 implies #[trigger] apart(nbs, j) by {
        if j < lo - 1 {
            assert(apart(bs, j));
        } else if j == lo - 1 {
            if lo == i - 1 {
                assert(apart(bs, i - 2));
            }
        } else if j == lo {
            if hi == i + 2 {
                assert(apart(bs, i + 1));
            }
        } else {
            assert(apart(bs, j + (hi - lo) - 1));
        }
    }
}

/// Allocating from a free block keeps every part of the invariant, and adds the
/// taken bytes to the used total.
pub proof fn lemma_alloc_keeps_invariant(
    base: int,
    cap: int,
    bs: Seq<Block>,
    fl: Seq<usize>,
    used: int,
    k: int,
    t: int,
)
    requires
        pool_ok(base, cap, bs, fl, used),
        0 <= k < fl.len(),
        MIN_BLOCK_SIZE <= t <= bs[index_of(bs, fl[k] as int)].size,
    ensures
        ({
            let i = index_of(bs, fl[k] as int);
            &&& 0 <= i < bs.len()
            &&& bs[i].offset == fl[k]
            &&& !bs[i].allocated
            &&& pool_ok(
                base,
                cap,
                alloc_blocks(bs, i, t),
                alloc_free_list(fl, k, bs, i, t),
                used + alloc_taken(bs, i, t),
            )
        }),
{
    let o = fl[k] as int;
    assert(free_at(bs, o));
    let i0 = choose|i0: int| 0 <= i0 < bs.len() && bs[i0].offset == o && !bs[i0].allocated;
    lemma_index_of(bs, cap, i0);
    lemma_alloc_coalesced(bs, i0, t);
    let i = i0;
    let b = bs[i];
    let nbs = alloc_blocks(bs, i, t);
    let nfl = alloc_free_list(fl, k, bs, i, t);
    lemma_in_region(bs, cap, i);
    let a_blk = Block { offset: b.offset, size: t as usize, allocated: true };
    let f_blk = Block { offset: (b.offset + t) as usize, size: (b.size - t) as usize, allocated: false };
    let rest = fl.remove(k);
    // the remaining entries keep naming free blocks other than block `i`
    assert forall|j: int| 0 <= j < rest.len() implies rest[j] != o && free_at(bs, rest[j] as int) by {
        if j < k {
            assert(rest[j] == fl[j]);
            assert(free_at(bs, fl[j] as int));
        } else {
            assert(rest[j] == fl[j + 1]);
            assert(free_at(bs, fl[j + 1] as int));
        }
    }
    assert(rest.no_duplicates()) by {
        assert forall|x: int, y: int| 0 <= x < rest.len() && 0 <= y < rest.len() && x != y
            implies rest[x] != rest[y] by {
            let xx = if x < k { x } else { x + 1 };
            let yy = if y < k { y } else { y + 1 };
            assert(rest[x] == fl[xx] && rest[y] == fl[yy]);
        }
    }
    if split_off(b, t) {
        assert(b.offset + b.size <= cap);
        assert(0 <= t < b.size);
        assert(a_blk.size == t && f_blk.offset == b.offset + t && f_blk.size == b.size - t);
        assert(nbs =~= bs.take(i) + seq![a_blk, f_blk] + bs.skip(i + 1));
        assert(nbs.len() == bs.len() + 1);
        // index map of the new blocks
        assert forall|j: int| 0 <= j < nbs.len() implies #[trigger] nbs[j] == (if j < i {
            bs[j]
        } else if j == i {
            a_blk
        } else if j == i + 1 {
            f_blk
        } else {
            bs[j - 1]
        }) by {}
        // tiling
        assert forall|j: int| 0 <= j < nbs.len() implies #[trigger] nbs[j].size >= MIN_BLOCK_SIZE by {
            if j > i + 1 {
                assert(bs[j - 1].size >= MIN_BLOCK_SIZE);
            } else if j < i {
                assert(bs[j].size >= MIN_BLOCK_SIZE);
            }
        }
        assert forall|j: int| 0 <= j < nbs.len() - 1 implies #[trigger] linked(nbs, j) by {
            if j < i - 1 {
                assert(linked(bs, j));
            } else if j == i - 1 {
                assert(linked(bs, j));
            } else if j == i {
            } else if j == i + 1 {
                assert(linked(bs, i));
            } else {
                assert(linked(bs, j - 1));
            }
        }
        if i == bs.len() - 1 {
        } else {
            assert(nbs[nbs.len() - 1] == bs[bs.len() - 1]);
        }
        if i == 0 {
        } else {
            assert(nbs[0] == bs[0]);
        }
        assert(tiles(nbs, cap));
        // the free list
        let no = b.offset + t;
        assert(nfl =~= seq![no as usize] + rest);
        assert(!rest.contains(no as usize)) by {
            if rest.contains(no as usize) {
                let j = choose|j: int| 0 <= j < rest.len() && rest[j] == no as usize;
                assert(free_at(bs, rest[j] as int));
                let w = choose|w: int| 0 <= w < bs.len() && bs[w].offset == rest[j] as int && !bs[w].allocated;
                if w < i {
                    lemma_ordered(bs, cap, w, i);
                    assert(bs[w].size >= MIN_BLOCK_SIZE);
                } else if w > i {
                    lemma_ordered(bs, cap, i, w);
                }
            }
        }
        assert(nfl.no_duplicates()) by {
            assert forall|x: int, y: int| 0 <= x < nfl.len() && 0 <= y < nfl.len() && x != y
                implies nfl[x] != nfl[y] by {
                if x == 0 && y > 0 {
                    assert(nfl[y] == rest[y - 1]);
                } else if y == 0 && x > 0 {
                    assert(nfl[x] == rest[x - 1]);
                } else if x > 0 && y > 0 {
                    assert(nfl[x] == rest[x - 1] && nfl[y] == rest[y - 1]);
                }
            }
        }
        assert forall|j: int| 0 <= j < nfl.len() implies #[trigger] free_at(nbs, nfl[j] as int) by {
            if j == 0 {
                assert(nbs[i + 1] == f_blk);
            } else {
                let e = rest[j - 1] as int;
                assert(nfl[j] == rest[j - 1]);
                assert(free_at(bs, e));
                let w = choose|w: int| 0 <= w < bs.len() && bs[w].offset == e && !bs[w].allocated;
                assert(w != i);
                if w < i {
                    assert(nbs[w] == bs[w]);
                } else {
                    assert(nbs[w + 1] == bs[w]);
                }
            }
        }
        assert forall|j: int| 0 <= j < nbs.len() && !nbs[j].allocated implies nfl.contains(
            #[trigger] nbs[j].offset,
        ) by {
            if j == i + 1 {
                assert(nfl[0] == no as usize);
            } else {
                let w = if j < i { j } else { j - 1 };
                assert(nbs[j] == bs[w]);
                assert(fl.contains(bs[w].offset));
                let q = choose|q: int| 0 <= q < fl.len() && fl[q] == bs[w].offset;
                if q == k {
                    lemma_offset_unique(bs, cap, w, i);
                }
                let qq = if q < k { q } else { q - 1 };
                assert(rest[qq] == fl[q]);
                assert(nfl[qq + 1] == rest[qq]);
            }
        }
        // the used total
        lemma_alloc_sum_concat(bs.take(i) + seq![a_blk, f_blk], bs.skip(i + 1));
        lemma_alloc_sum_concat(bs.take(i), seq![a_blk, f_blk]);
        lemma_alloc_sum_concat(bs.take(i) + seq![b], bs.skip(i + 1));
        lemma_alloc_sum_concat(bs.take(i), seq![b]);
        lemma_alloc_sum_small(a_blk, f_blk, b);
        lemma_alloc_sum_small(b, a_blk, f_blk);
        assert(bs =~= bs.take(i) + seq![b] + bs.skip(i + 1));
    } else {
        let a2 = Block { offset: b.offset, size: b.size, allocated: true };
        assert(nbs =~= bs.update(i, a2));
        assert(nfl =~= rest);
        assert forall|j: int| 0 <= j < nbs.len() implies #[trigger] nbs[j].size >= MIN_BLOCK_SIZE by {
            assert(bs[j].size >= MIN_BLOCK_SIZE);
        }
        assert forall|j: int| 0 <= j < nbs.len() - 1 implies #[trigger] linked(nbs, j) by {
            assert(linked(bs, j));
        }
        assert(tiles(nbs, cap));
        assert forall|j: int| 0 <= j < nfl.len() implies #[trigger] free_at(nbs, nfl[j] as int) by {
            let e = rest[j] as int;
            assert(free_at(bs, e));
            let w = choose|w: int| 0 <= w < bs.len() && bs[w].offset == e && !bs[w].allocated;
            assert(w != i);
            assert(nbs[w] == bs[w]);
        }
        assert forall|j: int| 0 <= j < nbs.len() && !nbs[j].allocated implies nfl.contains(
            #[trigger] nbs[j].offset,
        ) by {
            assert(j != i);
            assert(nbs[j] == bs[j]);
            assert(fl.contains(bs[j].offset));
            let q = choose|q: int| 0 <= q < fl.len() && fl[q] == bs[j].offset;
            if q == k {
                lemma_offset_unique(bs, cap, j, i);
            }
            let qq = if q < k { q } else { q - 1 };
            assert(rest[qq] == fl[q]);
        }
        lemma_alloc_sum_concat(bs.take(i) + seq![a2], bs.skip(i + 1));
        lemma_alloc_sum_concat(bs.take(i), seq![a2]);
        lemma_alloc_sum_concat(bs.take(i) + seq![b], bs.skip(i + 1));
        lemma_alloc_sum_concat(bs.take(i), seq![b]);
        lemma_alloc_sum_small(a2, b, b);
        lemma_alloc_sum_small(b, a2, b);
        assert(bs =~= bs.take(i) + seq![b] + bs.skip(i + 1));
        assert(nbs =~= bs.take(i) + seq![a2] + bs.skip(i + 1));
    }
}

/// `s` without the value `v` (its first occurrence).
pub open spec fn remove_value(s: Seq<usize>, v: usize) -> Seq<usize> {
    if s.contains(v) {
        s.remove(choose|j: int| 0 <= j < s.len() && s[j] == v)
    } else {
        s
    }
}

/// Removing a value from a list without duplicates keeps it without duplicates and
/// keeps exactly the other values.
pub proof fn lemma_remove_value(s: Seq<usize>, v: usize)
    requires
        s.no_duplicates(),
    ensures
        remove_value(s, v).no_duplicates(),
        forall|x: usize| #[trigger] remove_value(s, v).contains(x) <==> (s.contains(x) && x != v),
        s.contains(v) ==> remove_value(s, v).len() == s.len() - 1,
        !s.contains(v) ==> remove_value(s, v) == s,
{
    if s.contains(v) {
        let k = choose|j: int| 0 <= j < s.len() && s[j] == v;
        let r = s.remove(k);
        assert forall|x: int, y: int| 0 <= x < r.len() && 0 <= y < r.len() && x != y implies r[x] != r[y] by {
            let xx = if x < k { x } else { x + 1 };
            let yy = if y < k { y } else { y + 1 };
            assert(r[x] == s[xx] && r[y] == s[yy]);
        }
        assert forall|x: usize| #[trigger] r.contains(x) <==> (s.contains(x) && x != v) by {
            if r.contains(x) {
                let j = choose|j: int| 0 <= j < r.len() && r[j] == x;
                let jj = if j < k { j } else { j + 1 };
                assert(s[jj] == x);
                assert(jj != k);
            }
            if s.contains(x) && x != v {
                let j = choose|j: int| 0 <= j < s.len() && s[j] == x;
                assert(j != k);
                let jj = if j < k { j } else { j - 1 };
                assert(r[jj] == x);
            }
        }
    }
}

/// First index of the blocks that deallocating block `i` merges: the previous block
/// joins when it is free.
pub open spec fn merge_lo(bs: Seq<Block>, i: int) -> int {
    if i > 0 && !bs[i - 1].allocated { i - 1 } else { i }
}

/// One past the last index of the merged blocks: the next block joins when it is free.
pub open spec fn merge_hi(bs: Seq<Block>, i: int) -> int {
    if i + 1 < bs.len() && !bs[i + 1].allocated { i + 2 } else { i + 1 }
}

/// The free block that covers blocks `lo..hi`.
pub open spec fn merged_block(bs: Seq<Block>, lo: int, hi: int) -> Block {
    Block {
        offset: bs[lo].offset,
        size: (bs[hi - 1].offset + bs[hi - 1].size - bs[lo].offset) as usize,
        allocated: false,
    }
}

/// The blocks after freeing block `i` and merging it with free neighbours.
pub open spec fn dealloc_blocks(bs: Seq<Block>, i: int) -> Seq<Block> {
    let lo = merge_lo(bs, i);
    let hi = merge_hi(bs, i);
    bs.take(lo) + seq![merged_block(bs, lo, hi)] + bs.skip(hi)
}

/// The free list after freeing block `i`: merged neighbours leave it (the next one
/// first), and the merged block goes to the front.
pub open spec fn dealloc_free_list(fl: Seq<usize>, bs: Seq<Block>, i: int) -> Seq<usize> {
    let lo = merge_lo(bs, i);
    let hi = merge_hi(bs, i);
    let f1 = if hi == i + 2 { remove_value(fl, bs[i + 1].offset) } else { fl };
    let f2 = if lo == i - 1 { remove_value(f1, bs[i - 1].offset) } else { f1 };
    seq![bs[lo].offset] + f2
}

/// Freeing the block just allocated from the free block `i` (the free list's entry
/// `k`) gives back the blocks as they were, and the free list with that entry at the
/// front.
pub proof fn lemma_free_after_alloc(cap: int, bs: Seq<Block>, fl: Seq<usize>, k: int, i: int, t: int)
    requires
        tiles(bs, cap),
        coalesced(bs),
        cap <= usize::MAX,
        fl.no_duplicates(),
        0 <= k < fl.len(),
        0 <= i < bs.len(),
        bs[i].offset == fl[k],
        !bs[i].allocated,
        MIN_BLOCK_SIZE <= t <= bs[i].size,
        alloc_free_list(fl, k, bs, i, t).no_duplicates(),
    ensures
        dealloc_blocks(alloc_blocks(bs, i, t), i) == bs,
        dealloc_free_list(alloc_free_list(fl, k, bs, i, t), alloc_blocks(bs, i, t), i) == seq![fl[k]]
            + fl.remove(k),
        (seq![fl[k]] + fl.remove(k)).len() == fl.len(),
        forall|x: usize| #[trigger] (seq![fl[k]] + fl.remove(k)).contains(x) <==> fl.contains(x),
{
    lemma_in_region(bs, cap, i);
    let nbs = alloc_blocks(bs, i, t);
    let nfl = alloc_free_list(fl, k, bs, i, t);
    let b = bs[i];
    let o = fl[k];
    let rest = fl.remove(k);
    if i > 0 {
        assert(apart(bs, i - 1));
        assert(nbs[i - 1] == bs[i - 1]);
    }
    assert(merge_lo(nbs, i) == i);
    if split_off(b, t) {
        let f_off = (b.offset + t) as usize;
        assert(nbs[i] == Block { offset: b.offset, size: t as usize, allocated: true });
        assert(nbs[i + 1] == Block { offset: f_off, size: (b.size - t) as usize, allocated: false });
        assert(merge_hi(nbs, i) == i + 2);
        assert(merged_block(nbs, i, i + 2) == b);
        assert(dealloc_blocks(nbs, i) =~= bs);
        assert(nfl == seq![f_off] + rest);
        assert(remove_value(nfl, f_off) =~= rest) by {
            assert(nfl[0] == f_off);
            assert(nfl.contains(f_off));
            let j = choose|j: int| 0 <= j < nfl.len() && nfl[j] == f_off;
            assert(j == 0) by {
                if j != 0 {
                    assert(nfl[j] == nfl[0]);
                }
            }
            assert(nfl.remove(0) =~= rest);
        }
        assert(dealloc_free_list(nfl, nbs, i) =~= seq![o] + rest);
    } else {
        assert(nbs[i] == Block { offset: b.offset, size: b.size, allocated: true });
        if i + 1 < bs.len() {
            assert(apart(bs, i));
            assert(nbs[i + 1] == bs[i + 1]);
        }
        assert(merge_hi(nbs, i) == i + 1);
        assert(merged_block(nbs, i, i + 1) == b);
        assert(dealloc_blocks(nbs, i) =~= bs);
        assert(nfl == rest);
        assert(dealloc_free_list(nfl, nbs, i) =~= seq![o] + rest);
    }
    let front = seq![o] + rest;
    assert forall|x: usize| #[trigger] front.contains(x) <==> fl.contains(x) by {
        if x == o {
            assert(front[0] == o);
        } else if front.contains(x) {
            let j = choose|j: int| 0 <= j < front.len() && front[j] == x;
            assert(j > 0);
            let jj = if j - 1 < k { j - 1 } else { j };
            assert(fl[jj] == x);
        } else if fl.contains(x) {
            let j = choose|j: int| 0 <= j < fl.len() && fl[j] == x;
            assert(j != k);
            let jj = if j < k { j } else { j - 1 };
            assert(rest[jj] == x);
            assert(front[jj + 1] == x);
        }
    }
}

/// Replacing blocks `lo..hi` by one block covering them keeps the tiling.
pub proof fn lemma_merge_tiles(cap: int, bs: Seq<Block>, lo: int, hi: int)
    requires
        tiles(bs, cap),
        cap <= usize::MAX,
        0 <= lo < hi <= bs.len(),
    ensures
        tiles(bs.take(lo) + seq![merged_block(bs, lo, hi)] + bs.skip(hi), cap),
        merged_block(bs, lo, hi).size == bs[hi - 1].offset + bs[hi - 1].size - bs[lo].offset,
{
    let m = merged_block(bs, lo, hi);
    let nbs = bs.take(lo) + seq![m] + bs.skip(hi);
    lemma_in_region(bs, cap, lo);
    lemma_in_region(bs, cap, hi - 1);
    if lo < hi - 1 {
        lemma_ordered(bs, cap, lo, hi - 1);
    }
    assert(bs[hi - 1].size >= MIN_BLOCK_SIZE);
    assert(bs[lo].size >= MIN_BLOCK_SIZE);
    assert(m.size >= MIN_BLOCK_SIZE);
    assert(nbs.len() == bs.len() - (hi - lo) + 1);
    assert forall|j: int| 0 <= j < nbs.len() implies #[trigger] nbs[j] == (if j < lo {
        bs[j]
    } else if j == lo {
        m
    } else {
        bs[j + (hi - lo) - 1]
    }) by {}
    assert forall|j: int| 0 <= j < nbs.len() implies #[trigger] nbs[j].size >= MIN_BLOCK_SIZE by {
        if j < lo {
            assert(bs[j].size >= MIN_BLOCK_SIZE);
        } else if j > lo {
            assert(bs[j + (hi - lo) - 1].size >= MIN_BLOCK_SIZE);
        }
    }
    assert forall|j: int| 0 <= j < nbs.len() - 1 implies #[trigger] linked(nbs, j) by {
        if j < lo {
            assert(linked(bs, j));
        } else if j == lo {
            assert(linked(bs, hi - 1));
        } else {
            assert(linked(bs, j + (hi - lo) - 1));
        }
    }
    if lo > 0 {
        assert(nbs[0] == bs[0]);
    }
    if hi < bs.len() {
        assert(nbs[nbs.len() - 1] == bs[bs.len() - 1]);
    }
}

/// After merging blocks `lo..hi` (all free but the allocated block `i`) into one free
/// block, the free list without the merged neighbours and with the new block in front
/// names the free blocks again.
pub proof fn lemma_merge_free_list(
    cap: int,
    bs: Seq<Block>,
    fl: Seq<usize>,
    lo: int,
    hi: int,
    i: int,
    f2: Seq<usize>,
)
    requires
        tiles(bs, cap),
        free_list_ok(bs, fl),
        0 <= lo <= i < hi <= bs.len(),
        bs[i].allocated,
        forall|j: int| lo <= j < hi && j != i ==> !bs[j].allocated,
        f2.no_duplicates(),
        forall|x: usize| #[trigger] f2.contains(x) <==> (fl.contains(x) && (forall|j: int|
            lo <= j < hi ==> bs[j].offset != x)),
    ensures
        free_list_ok(
            bs.take(lo) + seq![merged_block(bs, lo, hi)] + bs.skip(hi),
            seq![bs[lo].offset] + f2,
        ),
{
    let m = merged_block(bs, lo, hi);
    let nbs = bs.take(lo) + seq![m] + bs.skip(hi);
    let nfl = seq![m.offset] + f2;
    assert forall|j: int| 0 <= j < nbs.len() implies #[trigger] nbs[j] == (if j < lo {
        bs[j]
    } else if j == lo {
        m
    } else {
        bs[j + (hi - lo) - 1]
    }) by {}
    assert(!f2.contains(m.offset));
    assert(nfl.no_duplicates()) by {
        assert forall|x: int, y: int| 0 <= x < nfl.len() && 0 <= y < nfl.len() && x != y
            implies nfl[x] != nfl[y] by {
            if x == 0 && y > 0 {
                assert(nfl[y] == f2[y - 1]);
                assert(f2.contains(f2[y - 1]));
            } else if y == 0 && x > 0 {
                assert(nfl[x] == f2[x - 1]);
                assert(f2.contains(f2[x - 1]));
            } else if x > 0 && y > 0 {
                assert(nfl[x] == f2[x - 1] && nfl[y] == f2[y - 1]);
            }
        }
    }
    assert forall|j: int| 0 <= j < nfl.len() implies #[trigger] free_at(nbs, nfl[j] as int) by {
        if j == 0 {
            assert(nbs[lo] == m);
        } else {
            let x = f2[j - 1];
            assert(nfl[j] == x);
            assert(f2.contains(x));
            let q = choose|q: int| 0 <= q < fl.len() && fl[q] == x;
            assert(free_at(bs, fl[q] as int));
            let w = choose|w: int| 0 <= w < bs.len() && bs[w].offset == x as int && !bs[w].allocated;
            assert(!(lo <= w < hi));
            if w < lo {
                assert(nbs[w] == bs[w]);
            } else {
                assert(nbs[w - (hi - lo) + 1] == bs[w]);
            }
        }
    }
    assert forall|j: int| 0 <= j < nbs.len() && !nbs[j].allocated implies nfl.contains(
        #[trigger] nbs[j].offset,
    ) by {
        if j == lo {
            assert(nfl[0] == m.offset);
        } else {
            let w = if j < lo { j } else { j + (hi - lo) - 1 };
            assert(nbs[j] == bs[w]);
            assert(fl.contains(bs[w].offset));
            assert forall|jj: int| lo <= jj < hi implies bs[jj].offset != bs[w].offset by {
                if bs[jj].offset == bs[w].offset {
                    lemma_offset_unique(bs, cap, jj, w);
                }
            }
            assert(f2.contains(bs[w].offset));
            let q = choose|q: int| 0 <= q < f2.len() && f2[q] == bs[w].offset;
            assert(nfl[q + 1] == f2[q]);
        }
    }
}

/// Merging up to three blocks of which only block `i` is allocated takes its size off
/// the allocated total.
pub proof fn lemma_merge_sum(bs: Seq<Block>, lo: int, hi: int, i: int)
    requires
        0 <= lo <= i < hi <= bs.len(),
        hi - lo <= 3,
        bs[i].allocated,
        forall|j: int| lo <= j < hi && j != i ==> !bs[j].allocated,
    ensures
        alloc_sum(bs.take(lo) + seq![merged_block(bs, lo, hi)] + bs.skip(hi)) == alloc_sum(bs) - bs[i].size,
{
    let m = merged_block(bs, lo, hi);
    let mid = bs.subrange(lo, hi);
    assert(bs =~= bs.take(lo) + mid + bs.skip(hi));
    lemma_alloc_sum_concat(bs.take(lo) + mid, bs.skip(hi));
    lemma_alloc_sum_concat(bs.take(lo), mid);
    lemma_alloc_sum_concat(bs.take(lo) + seq![m], bs.skip(hi));
    lemma_alloc_sum_concat(bs.take(lo), seq![m]);
    lemma_alloc_sum_small(m, m, m);
    if hi - lo == 1 {
        assert(mid =~= seq![bs[i]]);
        lemma_alloc_sum_small(bs[i], m, m);
    } else if hi - lo == 2 {
        assert(mid =~= seq![bs[lo], bs[lo + 1]]);
        lemma_alloc_sum_small(bs[lo], bs[lo + 1], m);
    } else {
        assert(mid =~= seq![bs[lo], bs[lo + 1], bs[lo + 2]]);
        lemma_alloc_sum_small(bs[lo], bs[lo + 1], bs[lo + 2]);
    }
}

/// Freeing an allocated block and merging it with its free neighbours keeps every part
/// of the invariant and takes the block's size off the used total.
pub proof fn lemma_dealloc_keeps_invariant(
    base: int,
    cap: int,
    bs: Seq<Block>,
    fl: Seq<usize>,
    used: int,
    i: int,
)
    requires
        pool_ok(base, cap, bs, fl, used),
        0 <= i < bs.len(),
        bs[i].allocated,
    ensures
        pool_ok(
            base,
            cap,
            dealloc_blocks(bs, i),
            dealloc_free_list(fl, bs, i),
            used - bs[i].size,
        ),
{
    let lo = merge_lo(bs, i);
    let hi = merge_hi(bs, i);
    lemma_dealloc_coalesced(bs, i);
    lemma_merge_tiles(cap, bs, lo, hi);
    lemma_merge_sum(bs, lo, hi, i);
    let f1 = if hi == i + 2 { remove_value(fl, bs[i + 1].offset) } else { fl };
    let f2 = if lo == i - 1 { remove_value(f1, bs[i - 1].offset) } else { f1 };
    lemma_remove_value(fl, bs[i + 1].offset);
    lemma_remove_value(f1, bs[i - 1].offset);
    assert forall|x: usize| #[trigger] f2.contains(x) <==> (fl.contains(x) && (forall|j: int|
        lo <= j < hi ==> bs[j].offset != x)) by {
        if f2.contains(x) {
            assert(fl.contains(x));
            assert forall|j: int| lo <= j < hi implies bs[j].offset != x by {
                if j == i && bs[j].offset == x {
                    let q = choose|q: int| 0 <= q < fl.len() && fl[q] == x;
                    assert(free_at(bs, fl[q] as int));
                    let w = choose|w: int| 0 <= w < bs.len() && bs[w].offset == fl[q] as int && !bs[w].allocated;
                    lemma_offset_unique(bs, cap, w, i);
                }
            }
        }
    }
    lemma_merge_free_list(cap, bs, fl, lo, hi, i, f2);
    assert(dealloc_free_list(fl, bs, i) == seq![bs[lo].offset] + f2);
}

} // verus!

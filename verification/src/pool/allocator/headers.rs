//! The block headers of a pool, as its model records them.
use vstd::prelude::*;

use super::super::block_header::{BlockHeader, BACK_LINK_SIZE, BLOCK_MAGIC, HEADER_SIZE};
use super::super::layout::{holds_data, lemma_in_region};
use super::LpAllocator;

verus! {

impl LpAllocator {
    /// The address of the block whose data area holds the address `data`, if any:
    /// the block that an allocation returning `data` was carved from.
    pub fn block_ptr_from_data(&self, data: usize) -> (r: Option<usize>)
        requires
            self.wf(),
        ensures
            match r {
                Some(a) => exists|j: int|
                    0 <= j < self.block_seq().len() && holds_data(
                        self.block_seq()[j],
                        data - self.base_addr(),
                    ) && a == self.base_addr() + self.block_seq()[j].offset,
                None => forall|j: int|
                    0 <= j < self.block_seq().len() ==> !holds_data(
                        #[trigger] self.block_seq()[j],
                        data - self.base_addr(),
                    ),
            },
    {
        if data < self.base {
            proof {
                assert forall|j: int| 0 <= j < self.blocks@.len() implies !holds_data(
                    #[trigger] self.blocks@[j],
                    data - self.base,
                ) by {
                    lemma_in_region(self.blocks@, self.capacity as int, j);
                }
            }
            return None;
        }
        let rel = data - self.base;
        let mut i: usize = 0;
        while i < self.blocks.len()
            invariant
                self.wf(),
                rel == data - self.base,
                i <= self.blocks@.len(),
                forall|j: int| 0 <= j < i ==> !holds_data(#[trigger] self.blocks@[j], rel as int),
            decreases self.blocks@.len() - i,
        {
            let b = self.blocks[i];
            proof {
                lemma_in_region(self.blocks@, self.capacity as int, i as int);
            }
            if b.offset + HEADER_SIZE + BACK_LINK_SIZE <= rel && rel <= b.offset + b.size {
                proof {
                    assert(holds_data(self.blocks@[i as int], rel as int));
                }
                return Some(self.base + b.offset);
            }
            i = i + 1;
        }
        None
    }

    /// The header of the block that starts at the address `block`, if a block starts
    /// there: its size and whether it is allocated. The model keeps no data offset, so
    /// the header reads as one whose data starts right after it.
    pub fn read_header(&self, block: usize) -> (r: Option<BlockHeader>)
        requires
            self.wf(),
        ensures
            match r {
                Some(h) => exists|j: int|
                    0 <= j < self.block_seq().len() && self.base_addr() + self.block_seq()[j].offset
                        == block && h.size == self.block_seq()[j].size && h.is_allocated
                        == self.block_seq()[j].allocated && h.magic == BLOCK_MAGIC && h.data_offset
                        == HEADER_SIZE,
                None => forall|j: int|
                    0 <= j < self.block_seq().len() ==> self.base_addr()
                        + #[trigger] self.block_seq()[j].offset != block,
            },
    {
        if block < self.base {
            return None;
        }
        let rel = block - self.base;
        let mut i: usize = 0;
        while i < self.blocks.len()
            invariant
                self.wf(),
                rel == block - self.base,
                i <= self.blocks@.len(),
                forall|j: int| 0 <= j < i ==> (#[trigger] self.blocks@[j]).offset != rel,
            decreases self.blocks@.len() - i,
        {
            let b = self.blocks[i];
            if b.offset == rel {
                return Some(BlockHeader::new(b.size, b.allocated));
            }
            i = i + 1;
        }
        None
    }
}

} // verus!

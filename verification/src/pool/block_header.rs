//! The header that starts every block of the pool.
use vstd::prelude::*;

verus! {

/// Value that marks a valid header.
pub const BLOCK_MAGIC: u32 = 0xDEADBEEF;
/// Size of a header in bytes (the data area starts this far into a block).
pub const HEADER_SIZE: usize = 32;
/// Alignment of a header in bytes.
pub const HEADER_ALIGN: usize = 8;
/// Size of the free-list link kept in the data area of a free block.
pub const LINK_SIZE: usize = 8;
/// Size of the word just before the data area of an allocated block, which records
/// the address of the block.
pub const BACK_LINK_SIZE: usize = 8;
/// Largest offset from a block to that word that a header can record.
pub const MAX_DATA_OFFSET: usize = 65535;
/// Minimum block size: a header plus a free-list link.
pub const MIN_BLOCK_SIZE: usize = 40;

/// Header stored at the beginning of each block (allocated or free).
#[derive(Clone, Copy, Debug)]
pub struct BlockHeader {
    /// Magic number for validation.
    pub magic: u32,
    /// Total size of this block including the header.
    pub size: usize,
    /// Whether this block is currently allocated.
    pub is_allocated: bool,
    /// Offset from the block start to the data area.
    pub data_offset: u16,
}

impl BlockHeader {
    /// A header for a block of `size` bytes whose data starts right after the header.
    pub fn new(size: usize, is_allocated: bool) -> (r: BlockHeader)
        ensures
            r.size == size,
            r.is_allocated == is_allocated,
            r.data_offset == HEADER_SIZE,
            r.magic == BLOCK_MAGIC,
    {
        BlockHeader { magic: BLOCK_MAGIC, size, is_allocated, data_offset: HEADER_SIZE as u16 }
    }

    /// A header with a custom data offset (for alignment padding).
    pub fn new_with_offset(size: usize, is_allocated: bool, data_offset: u16) -> (r: BlockHeader)
        ensures
            r.size == size,
            r.is_allocated == is_allocated,
            r.data_offset == data_offset,
            r.magic == BLOCK_MAGIC,
    {
        BlockHeader { magic: BLOCK_MAGIC, size, is_allocated, data_offset }
    }

    /// The header carries the magic number and covers at least a header.
    pub fn is_valid(&self) -> (r: bool)
        ensures
            r == (self.magic == BLOCK_MAGIC && self.size >= HEADER_SIZE),
    {
        self.magic == BLOCK_MAGIC && self.size >= HEADER_SIZE
    }

    /// Size of the data area (the block without its header; 0 if smaller than a header).
    pub fn data_size(&self) -> (r: usize)
        ensures
            r == (if self.size >= HEADER_SIZE { self.size - HEADER_SIZE } else { 0 }),
    {
        if self.size >= HEADER_SIZE {
            self.size - HEADER_SIZE
        } else {
            0
        }
    }

    /// Block size needed for `data_size` bytes of data.
    pub fn total_size_for_allocation(data_size: usize) -> (r: usize)
        requires
            data_size <= usize::MAX - HEADER_SIZE,
        ensures
            r == HEADER_SIZE + data_size,
    {
        HEADER_SIZE + data_size
    }

    /// `size` rounded up to a multiple of the header alignment.
    pub fn align_size(size: usize) -> (r: usize)
        requires
            size <= usize::MAX - HEADER_ALIGN,
        ensures
            r % HEADER_ALIGN == 0,
            size <= r < size + HEADER_ALIGN,
    {
        (size + HEADER_ALIGN - 1) / HEADER_ALIGN * HEADER_ALIGN
    }
}

} // verus!

//! A pool allocator: variable-size blocks, first-fit search with splitting, and
//! coalescing of neighbouring free blocks.
pub mod alloc_stats;
pub mod allocator;
pub mod block_header;
pub mod error;
pub mod guards;
pub mod laws;
pub mod layout;
pub mod memory_pool;

pub use block_header::BlockHeader;
pub use error::AllocError;
pub use memory_pool::{LpMemoryPool, PoolStats};
pub use alloc_stats::{AllocStats, StatRow};
pub use allocator::LpAllocator;

//! Fixed-point math, a stack machine for a small shading language, and a pool
//! allocator with its collections, all with machine-checked contracts.
pub mod dec32;
pub mod fixed;
pub mod vm;
pub mod pool;
pub mod collections;

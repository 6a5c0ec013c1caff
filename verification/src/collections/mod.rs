//! Collections whose nodes are allocated from a pool.
pub mod btree;
pub mod btree_map;
pub mod key;
pub mod pool_box;
pub mod pool_vec;
pub mod string;
pub mod text_order;
pub mod vec;

pub use btree::{LpBTreeMap, Node};
pub use btree_map::PoolBTreeMap;
pub use key::{KeyOrder, MapKey};
pub use pool_box::{LpBox, PoolBox};
pub use pool_vec::{PoolString, PoolVec};
pub use string::LpString;
pub use vec::{LpVec, LpVecIter, LpVecIterMut};

//! A map kept as a binary search tree (not balanced) whose nodes are allocated from
//! a pool. Each node records the address of its allocation.
use vstd::prelude::*;

use super::key::{KeyOrder, MapKey};
use crate::pool::allocator::{
    alloc_block, alloc_spec, dealloc_spec, is_allocation, lemma_alloc_spec, lemma_dealloc_spec,
    LpAllocator, PoolView,
};
use crate::pool::error::AllocError;

verus! {

/// A node of the tree: a key, its value, the two subtrees and the address of the
/// node's allocation in the pool.
pub struct Node<K, V> {
    key: K,
    value: V,
    left: Option<Box<Node<K, V>>>,
    right: Option<Box<Node<K, V>>>,
    addr: usize,
}

/// The entries of a tree.
pub closed spec fn tree_map<K: View, V>(t: Option<Box<Node<K, V>>>) -> Map<K::V, V>
    decreases t,
{
    match t {
        None => Map::empty(),
        Some(n) => tree_map(n.left).union_prefer_right(tree_map(n.right)).insert(n.key@, n.value),
    }
}

/// The allocation address of the node of each key of a tree.
pub closed spec fn tree_addrs<K: View, V>(t: Option<Box<Node<K, V>>>) -> Map<K::V, usize>
    decreases t,
{
    match t {
        None => Map::empty(),
        Some(n) => tree_addrs(n.left).union_prefer_right(tree_addrs(n.right)).insert(n.key@, n.addr),
    }
}

/// Keys of the left subtree come before a node's key, those of the right subtree after
/// it, all the way down.
pub closed spec fn ordered<K: MapKey, V>(t: Option<Box<Node<K, V>>>) -> bool
    decreases t,
{
    match t {
        None => true,
        Some(n) => {
            &&& forall|k: K::V| #[trigger] tree_map(n.left).dom().contains(k) ==> K::key_lt(k, n.key@)
            &&& forall|k: K::V| #[trigger] tree_map(n.right).dom().contains(k) ==> K::key_lt(n.key@, k)
            &&& ordered(n.left)
            &&& ordered(n.right)
        },
    }
}

/// A key that comes before another is not that key, nor comes after it.
proof fn lemma_lt_excludes<K: MapKey>(a: K::V, b: K::V)
    requires
        K::key_lt(a, b),
    ensures
        a != b,
        !K::key_lt(b, a),
{
    K::lemma_key_lt_irreflexive(a);
    if K::key_lt(b, a) {
        K::lemma_key_lt_transitive(a, b, a);
    }
}

/// A tree has an address for exactly the keys it holds.
proof fn lemma_addrs_dom<K: View, V>(t: Option<Box<Node<K, V>>>)
    ensures
        tree_addrs(t).dom() == tree_map(t).dom(),
    decreases t,
{
    if let Some(n) = t {
        lemma_addrs_dom(n.left);
        lemma_addrs_dom(n.right);
        assert(tree_addrs(t).dom() =~= tree_map(t).dom());
    }
}

/// The value of `key` in the tree, if it holds `key`.
fn get_node<'a, K: MapKey, V>(t: &'a Option<Box<Node<K, V>>>, key: &K) -> (r: Option<&'a V>)
    requires
        ordered(*t),
    ensures
        r == (if tree_map(*t).dom().contains(key@) {
            Some(&tree_map(*t)[key@])
        } else {
            None
        }),
    decreases *t,
{
    match t {
        None => None,
        Some(n) => {
            match key.compare_key(&n.key) {
                KeyOrder::Equal => Some(&n.value),
                KeyOrder::Less => {
                    proof {
                        lemma_lt_excludes::<K>(key@, n.key@);
                        assert(!tree_map(n.right).dom().contains(key@));
                    }
                    get_node(&n.left, key)
                },
                KeyOrder::Greater => {
                    proof {
                        lemma_lt_excludes::<K>(n.key@, key@);
                        assert(!tree_map(n.left).dom().contains(key@));
                    }
                    get_node(&n.right, key)
                },
            }
        },
    }
}

/// The value of `key` in the tree, to change in place, if the tree holds `key`.
fn get_node_mut<'a, K: MapKey, V>(t: &'a mut Option<Box<Node<K, V>>>, key: &K) -> (r: Option<&'a mut V>)
    requires
        ordered(*old(t)),
    ensures
        tree_map(*old(t)).dom().contains(key@) ==> (r matches Some(e) && *e == tree_map(*old(t))[key@]
            && tree_map(*final(t)) == tree_map(*old(t)).insert(key@, *final(e))),
        !tree_map(*old(t)).dom().contains(key@) ==> r is None && *final(t) == *old(t),
        ordered(*final(t)),
        tree_addrs(*final(t)) == tree_addrs(*old(t)),
        tree_map(*final(t)).dom() == tree_map(*old(t)).dom(),
    decreases *old(t),
{
    match t {
        None => None,
        Some(n) => {
            let ghost n0 = **n;
            proof {
                lemma_addrs_dom(n0.left);
                lemma_addrs_dom(n0.right);
            }
            match key.compare_key(&n.key) {
                KeyOrder::Equal => Some(&mut n.value),
                KeyOrder::Less => {
                    proof {
                        lemma_lt_excludes::<K>(key@, n0.key@);
                        assert(!tree_map(n0.right).dom().contains(key@));
                    }
                    get_node_mut(&mut n.left, key)
                },
                KeyOrder::Greater => {
                    proof {
                        lemma_lt_excludes::<K>(n0.key@, key@);
                        assert(!tree_map(n0.left).dom().contains(key@));
                    }
                    get_node_mut(&mut n.right, key)
                },
            }
        },
    }
}

/// Add a node for `key`, which the tree does not hold, with `value` and allocation
/// address `addr`, as a new leaf.
fn insert_node<K: MapKey, V>(t: &mut Option<Box<Node<K, V>>>, key: K, value: V, addr: usize)
    requires
        ordered(*old(t)),
        !tree_map(*old(t)).dom().contains(key@),
    ensures
        ordered(*final(t)),
        tree_map(*final(t)) == tree_map(*old(t)).insert(key@, value),
        tree_addrs(*final(t)) == tree_addrs(*old(t)).insert(key@, addr),
    decreases *old(t),
{
    match t.take() {
        None => {
            *t = Some(Box::new(Node { key, value, left: None, right: None, addr }));
            proof {
                assert(tree_map(*t) =~= Map::<K::V, V>::empty().insert(key@, value));
                assert(tree_addrs::<K, V>(None) == Map::<K::V, usize>::empty());
                assert(tree_addrs(*t) =~= Map::<K::V, usize>::empty().insert(key@, addr));
            }
        },
        Some(mut n) => {
            let ghost n0 = *n;
            proof {
                lemma_addrs_dom(n0.left);
                lemma_addrs_dom(n0.right);
            }
            let c = key.compare_key(&n.key);
            proof {
                assert(tree_map(Some(Box::new(n0))).dom().contains(n0.key@));
                assert(key@ != n0.key@);
            }
            match c {
                KeyOrder::Less => {
                    insert_node(&mut n.left, key, value, addr);
                    proof {
                        assert(tree_map(n.left).dom() =~= tree_map(n0.left).dom().insert(key@));
                    }
                },
                _ => {
                    insert_node(&mut n.right, key, value, addr);
                    proof {
                        assert(tree_map(n.right).dom() =~= tree_map(n0.right).dom().insert(key@));
                    }
                },
            }
            *t = Some(n);
            proof {
                assert(tree_map(*t) =~= tree_map(Some(Box::new(n0))).insert(key@, value));
                assert(tree_addrs(*t) =~= tree_addrs(Some(Box::new(n0))).insert(key@, addr));
            }
        },
    }
}

/// Give `key`, which the tree holds, the value `value`; returns its previous value.
fn replace_in<K: MapKey, V>(t: &mut Option<Box<Node<K, V>>>, key: &K, value: V) -> (prev: V)
    requires
        ordered(*old(t)),
        tree_map(*old(t)).dom().contains(key@),
    ensures
        ordered(*final(t)),
        tree_map(*final(t)) == tree_map(*old(t)).insert(key@, value),
        tree_addrs(*final(t)) == tree_addrs(*old(t)),
        prev == tree_map(*old(t))[key@],
    decreases *old(t),
{
    let mut n = t.take().unwrap();
    let ghost n0 = *n;
    proof {
        lemma_addrs_dom(n0.left);
        lemma_addrs_dom(n0.right);
    }
    let prev;
    match key.compare_key(&n.key) {
        KeyOrder::Equal => {
            let mut v = value;
            core::mem::swap(&mut n.value, &mut v);
            prev = v;
        },
        KeyOrder::Less => {
            proof {
                lemma_lt_excludes::<K>(key@, n0.key@);
                assert(!tree_map(n0.right).dom().contains(key@));
            }
            prev = replace_in(&mut n.left, key, value);
            proof {
                assert(tree_map(n.left).dom() =~= tree_map(n0.left).dom());
            }
        },
        KeyOrder::Greater => {
            proof {
                lemma_lt_excludes::<K>(n0.key@, key@);
                assert(!tree_map(n0.left).dom().contains(key@));
            }
            prev = replace_in(&mut n.right, key, value);
            proof {
                assert(tree_map(n.right).dom() =~= tree_map(n0.right).dom());
            }
        },
    }
    *t = Some(n);
    proof {
        assert(tree_map(*t) =~= tree_map(Some(Box::new(n0))).insert(key@, value));
        assert(tree_addrs(*t) =~= tree_addrs(Some(Box::new(n0))));
    }
    prev
}

/// Take the entry of the least key out of a non-empty tree: its key, value and node
/// address.
fn pop_min<K: MapKey, V>(t: &mut Option<Box<Node<K, V>>>) -> (r: (K, V, usize))
    requires
        old(t).is_some(),
        ordered(*old(t)),
    ensures
        ordered(*final(t)),
        tree_map(*old(t)).dom().contains(r.0@),
        tree_map(*old(t))[r.0@] == r.1,
        tree_addrs(*old(t))[r.0@] == r.2,
        forall|k: K::V| #[trigger] tree_map(*old(t)).dom().contains(k) ==> k == r.0@ || K::key_lt(r.0@, k),
        tree_map(*final(t)) == tree_map(*old(t)).remove(r.0@),
        tree_addrs(*final(t)) == tree_addrs(*old(t)).remove(r.0@),
    decreases *old(t),
{
    let mut n = t.take().unwrap();
    let ghost n0 = *n;
    proof {
        lemma_addrs_dom(n0.left);
        lemma_addrs_dom(n0.right);
    }
    if n.left.is_none() {
        let Node { key, value, left: _, right, addr } = *n;
        *t = right;
        proof {
            assert(tree_map(n0.left) =~= Map::<K::V, V>::empty());
            assert(tree_addrs(n0.left) =~= Map::<K::V, usize>::empty());
            K::lemma_key_lt_irreflexive(n0.key@);
            assert(!tree_map(n0.right).dom().contains(n0.key@));
            assert(tree_map(*t) =~= tree_map(Some(Box::new(n0))).remove(key@));
            assert(tree_addrs(*t) =~= tree_addrs(Some(Box::new(n0))).remove(key@));
        }
        (key, value, addr)
    } else {
        let r = pop_min(&mut n.left);
        *t = Some(n);
        proof {
            assert(K::key_lt(r.0@, n0.key@));
            lemma_lt_excludes::<K>(r.0@, n0.key@);
            assert(!tree_map(n0.right).dom().contains(r.0@));
            assert forall|k: K::V| #[trigger] tree_map(Some(Box::new(n0))).dom().contains(k) implies k
                == r.0@ || K::key_lt(r.0@, k) by {
                if tree_map(n0.right).dom().contains(k) {
                    K::lemma_key_lt_transitive(r.0@, n0.key@, k);
                }
            }
            assert(tree_map(*t) =~= tree_map(Some(Box::new(n0))).remove(r.0@));
            assert(tree_addrs(*t) =~= tree_addrs(Some(Box::new(n0))).remove(r.0@));
        }
        r
    }
}

/// Take the entry of `key` out of the tree, if it holds it: its value and node address.
fn remove_node<K: MapKey, V>(t: &mut Option<Box<Node<K, V>>>, key: &K) -> (r: Option<(V, usize)>)
    requires
        ordered(*old(t)),
    ensures
        ordered(*final(t)),
        tree_map(*final(t)) == tree_map(*old(t)).remove(key@),
        tree_addrs(*final(t)) == tree_addrs(*old(t)).remove(key@),
        r == (if tree_map(*old(t)).dom().contains(key@) {
            Some((tree_map(*old(t))[key@], tree_addrs(*old(t))[key@]))
        } else {
            None
        }),
    decreases *old(t),
{
    proof {
        lemma_addrs_dom(*old(t));
    }
    match t.take() {
        None => {
            proof {
                assert(tree_map(*t) =~= tree_map(*old(t)).remove(key@));
                assert(tree_addrs(*t) =~= tree_addrs(*old(t)).remove(key@));
            }
            None
        },
        Some(mut n) => {
            let ghost n0 = *n;
            proof {
                lemma_addrs_dom(n0.left);
                lemma_addrs_dom(n0.right);
            }
            match key.compare_key(&n.key) {
                KeyOrder::Less => {
                    proof {
                        lemma_lt_excludes::<K>(key@, n0.key@);
                        assert(!tree_map(n0.right).dom().contains(key@));
                    }
                    let r = remove_node(&mut n.left, key);
                    *t = Some(n);
                    proof {
                        assert(tree_map(*t) =~= tree_map(Some(Box::new(n0))).remove(key@));
                        assert(tree_addrs(*t) =~= tree_addrs(Some(Box::new(n0))).remove(key@));
                    }
                    r
                },
                KeyOrder::Greater => {
                    proof {
                        lemma_lt_excludes::<K>(n0.key@, key@);
                        assert(!tree_map(n0.left).dom().contains(key@));
                    }
                    let r = remove_node(&mut n.right, key);
                    *t = Some(n);
                    proof {
                        assert(tree_map(*t) =~= tree_map(Some(Box::new(n0))).remove(key@));
                        assert(tree_addrs(*t) =~= tree_addrs(Some(Box::new(n0))).remove(key@));
                    }
                    r
                },
                KeyOrder::Equal => {
                    proof {
                        K::lemma_key_lt_irreflexive(key@);
                        assert(!tree_map(n0.left).dom().contains(key@));
                        assert(!tree_map(n0.right).dom().contains(key@));
                    }
                    let Node { key: _, value, left, mut right, addr } = *n;
                    if left.is_none() {
                        *t = right;
                        proof {
                            assert(tree_map(n0.left) =~= Map::<K::V, V>::empty());
                            assert(tree_addrs(n0.left) =~= Map::<K::V, usize>::empty());
                            assert(tree_map(*t) =~= tree_map(Some(Box::new(n0))).remove(key@));
                            assert(tree_addrs(*t) =~= tree_addrs(Some(Box::new(n0))).remove(key@));
                        }
                    } else if right.is_none() {
                        *t = left;
                        proof {
                            assert(tree_map(n0.right) =~= Map::<K::V, V>::empty());
                            assert(tree_addrs(n0.right) =~= Map::<K::V, usize>::empty());
                            assert(tree_map(*t) =~= tree_map(Some(Box::new(n0))).remove(key@));
                            assert(tree_addrs(*t) =~= tree_addrs(Some(Box::new(n0))).remove(key@));
                        }
                    } else {
                        let (k2, v2, a2) = pop_min(&mut right);
                        proof {
                            assert(K::key_lt(n0.key@, k2@));
                            assert forall|k: K::V| #[trigger] tree_map(left).dom().contains(k) implies K::key_lt(
                                k,
                                k2@,
                            ) by {
                                K::lemma_key_lt_transitive(k, n0.key@, k2@);
                            }
                            assert forall|k: K::V| #[trigger] tree_map(right).dom().contains(k) implies K::key_lt(
                                k2@,
                                k,
                            ) by {
                                assert(tree_map(n0.right).dom().contains(k));
                            }
                            lemma_lt_excludes::<K>(n0.key@, k2@);
                        }
                        *t = Some(Box::new(Node { key: k2, value: v2, left, right, addr: a2 }));
                        proof {
                            assert(tree_map(*t) =~= tree_map(Some(Box::new(n0))).remove(key@));
                            assert(tree_addrs(*t) =~= tree_addrs(Some(Box::new(n0))).remove(key@));
                        }
                    }
                    Some((value, addr))
                },
            }
        },
    }
}

impl<K, V> Node<K, V> {
    /// The node's key.
    pub closed spec fn key_of(&self) -> K {
        self.key
    }

    /// The node's value.
    pub closed spec fn value_of(&self) -> V {
        self.value
    }

    /// The node's left subtree.
    pub closed spec fn left_of(&self) -> Option<Box<Node<K, V>>> {
        self.left
    }

    /// The node's right subtree.
    pub closed spec fn right_of(&self) -> Option<Box<Node<K, V>>> {
        self.right
    }

    /// A node without subtrees (its allocation address is 0 until it is placed).
    pub fn new(key: K, value: V) -> (r: Node<K, V>)
        ensures
            r.key_of() == key,
            r.value_of() == value,
            r.left_of() is None,
            r.right_of() is None,
    {
        Node { key, value, left: None, right: None, addr: 0 }
    }

    /// The node's key.
    pub fn key(&self) -> (r: &K)
        ensures
            *r == self.key_of(),
    {
        &self.key
    }

    /// The node's value.
    pub fn value(&self) -> (r: &V)
        ensures
            *r == self.value_of(),
    {
        &self.value
    }

    /// The node's key, to change in place (changing it can break the order of a
    /// tree that holds the node).
    pub fn key_mut(&mut self) -> (r: &mut K)
        ensures
            *r == old(self).key_of(),
            final(self).key_of() == *final(r),
            final(self).value_of() == old(self).value_of(),
            final(self).left_of() == old(self).left_of(),
            final(self).right_of() == old(self).right_of(),
    {
        &mut self.key
    }

    /// The node's value, to change in place.
    pub fn value_mut(&mut self) -> (r: &mut V)
        ensures
            *r == old(self).value_of(),
            final(self).value_of() == *final(r),
            final(self).key_of() == old(self).key_of(),
            final(self).left_of() == old(self).left_of(),
            final(self).right_of() == old(self).right_of(),
    {
        &mut self.value
    }

    /// The node's left subtree.
    pub fn left(&self) -> (r: &Option<Box<Node<K, V>>>)
        ensures
            *r == self.left_of(),
    {
        &self.left
    }

    /// The node's right subtree.
    pub fn right(&self) -> (r: &Option<Box<Node<K, V>>>)
        ensures
            *r == self.right_of(),
    {
        &self.right
    }

    /// Replace the left subtree.
    pub fn set_left(&mut self, left: Option<Box<Node<K, V>>>)
        ensures
            final(self).left_of() == left,
            final(self).right_of() == old(self).right_of(),
            final(self).key_of() == old(self).key_of(),
            final(self).value_of() == old(self).value_of(),
    {
        self.left = left;
    }

    /// Replace the right subtree.
    pub fn set_right(&mut self, right: Option<Box<Node<K, V>>>)
        ensures
            final(self).right_of() == right,
            final(self).left_of() == old(self).left_of(),
            final(self).key_of() == old(self).key_of(),
            final(self).value_of() == old(self).value_of(),
    {
        self.right = right;
    }
}

/// Bytes a node of a map from `K` to `V` takes in the pool.
pub open spec fn node_size<K, V>() -> int {
    vstd::layout::size_of::<Node<K, V>>() as int
}

/// Alignment of a node of a map from `K` to `V` in the pool.
pub open spec fn node_align<K, V>() -> int {
    vstd::layout::align_of::<Node<K, V>>() as int
}

/// `k` is the least key of `m`.
pub open spec fn is_least<K: MapKey, V>(m: Map<K::V, V>, k: K::V) -> bool {
    &&& m.dom().contains(k)
    &&& forall|j: K::V| #[trigger] m.dom().contains(j) ==> j == k || K::key_lt(k, j)
}

/// The pool (at address `base`, in state `p`) after freeing the nodes at `addrs`,
/// the node of the least key first.
pub open spec fn free_all<K: MapKey>(base: int, p: PoolView, addrs: Map<K::V, usize>) -> PoolView
    decreases addrs.dom().len(),
{
    if addrs.dom().finite() && exists|k: K::V| is_least::<K, usize>(addrs, k) {
        let k = choose|k: K::V| is_least::<K, usize>(addrs, k);
        free_all::<K>(base, dealloc_spec(base, p, addrs[k] as int), addrs.remove(k))
    } else {
        p
    }
}

/// A map from keys to values kept as a binary search tree (not balanced), each node
/// allocated from a pool.
pub struct LpBTreeMap<K, V> {
    root: Option<Box<Node<K, V>>>,
    len: usize,
}

impl<K: MapKey, V> LpBTreeMap<K, V> {
    /// The entries of the map.
    pub closed spec fn view(&self) -> Map<K::V, V> {
        tree_map(self.root)
    }

    /// The allocation address of the node of each key.
    pub closed spec fn node_addrs(&self) -> Map<K::V, usize> {
        tree_addrs(self.root)
    }

    /// Number of entries.
    pub closed spec fn size(&self) -> nat {
        self.len as nat
    }

    /// The tree is ordered and `len` counts its entries.
    pub closed spec fn wf(&self) -> bool {
        &&& ordered(self.root)
        &&& tree_map(self.root).dom().finite()
        &&& self.len == tree_map(self.root).dom().len()
    }

    /// The nodes are allocations of `pool`, each in a block of its own.
    pub open spec fn nodes_in(&self, pool: &LpAllocator) -> bool {
        let base = pool.base_addr();
        let p = pool.view();
        &&& forall|k: K::V| #[trigger]
            self.view().dom().contains(k) ==> is_allocation(base, p, self.node_addrs()[k] as int)
        &&& forall|k1: K::V, k2: K::V|
            #![trigger self.view().dom().contains(k1), self.view().dom().contains(k2)]
            self.view().dom().contains(k1) && self.view().dom().contains(k2) && k1 != k2
                ==> alloc_block(base, p, self.node_addrs()[k1] as int).offset != alloc_block(
                base,
                p,
                self.node_addrs()[k2] as int,
            ).offset
    }

    /// An empty map.
    pub fn new() -> (r: LpBTreeMap<K, V>)
        ensures
            r.wf(),
            r.view() == Map::<K::V, V>::empty(),
            r.size() == 0,
    {
        let r = LpBTreeMap { root: None, len: 0 };
        proof {
            assert(tree_map::<K, V>(None) == Map::<K::V, V>::empty());
            assert(Map::<K::V, V>::empty().dom() =~= Set::<K::V>::empty());
        }
        r
    }

    /// An empty map; the scope would name the map in the allocation statistics by type
    /// and scope (`AllocStats`), which its caller keeps.
    pub fn new_with_scope(_scope: Option<&'static str>) -> (r: LpBTreeMap<K, V>)
        ensures
            r.wf(),
            r.view() == Map::<K::V, V>::empty(),
            r.size() == 0,
    {
        LpBTreeMap::new()
    }

    /// Number of entries.
    pub fn len(&self) -> (r: usize)
        requires
            self.wf(),
        ensures
            r == self.size(),
            r == self.view().dom().len(),
    {
        self.len
    }

    /// The map has no entries.
    pub fn is_empty(&self) -> (r: bool)
        requires
            self.wf(),
        ensures
            r == (self.size() == 0),
            r == (self.view().dom().len() == 0),
    {
        self.len == 0
    }

    /// The value of `key`, if the map holds `key`.
    pub fn get(&self, key: &K) -> (r: Option<&V>)
        requires
            self.wf(),
        ensures
            r == (if self.view().dom().contains(key@) {
                Some(&self.view()[key@])
            } else {
                None
            }),
    {
        get_node(&self.root, key)
    }

    /// The value of `key`, to change in place, if the map holds `key`.
    pub fn get_mut(&mut self, key: &K) -> (r: Option<&mut V>)
        requires
            old(self).wf(),
        ensures
            final(self).wf(),
            old(self).view().dom().contains(key@) ==> (r matches Some(e) && *e == old(self).view()[key@]
                && final(self).view() == old(self).view().insert(key@, *final(e))),
            !old(self).view().dom().contains(key@) ==> r is None && final(self).view() == old(self).view(),
            final(self).node_addrs() == old(self).node_addrs(),
            final(self).size() == old(self).size(),
    {
        get_node_mut(&mut self.root, key)
    }

    /// Take every entry out of the map and free its node in `pool`, the node of the
    /// least key first.
    pub fn clear(&mut self, pool: &mut LpAllocator)
        requires
            old(self).wf(),
            old(pool).wf(),
            old(self).nodes_in(old(pool)),
        ensures
            final(self).wf(),
            final(pool).wf(),
            final(self).view() == Map::<K::V, V>::empty(),
            final(self).size() == 0,
            final(pool).base_addr() == old(pool).base_addr(),
            final(pool).cap() == old(pool).cap(),
            final(pool).view() == free_all::<K>(old(pool).base_addr(), old(pool).view(), old(self).node_addrs()),
    {
        let ghost base = pool.base_addr();
        let ghost cap = pool.cap();
        let ghost target = free_all::<K>(base, pool.view(), self.node_addrs());
        proof {
            lemma_addrs_dom(self.root);
        }
        while self.root.is_some()
            invariant
                self.wf(),
                pool.wf(),
                self.nodes_in(pool),
                pool.base_addr() == base,
                pool.cap() == cap,
                tree_addrs(self.root).dom() == tree_map(self.root).dom(),
                free_all::<K>(base, pool.view(), self.node_addrs()) == target,
            decreases self.len,
        {
            let ghost p0 = pool.view();
            let ghost addrs0 = self.node_addrs();
            let ghost dom0 = self.view().dom();
            let (k, _v, a) = pop_min(&mut self.root);
            proof {
                lemma_addrs_dom(self.root);
                assert(is_least::<K, usize>(addrs0, k@));
                assert forall|j: K::V| is_least::<K, usize>(addrs0, j) implies j == k@ by {
                    if j != k@ {
                        lemma_lt_excludes::<K>(k@, j);
                    }
                }
                let c = choose|j: K::V| is_least::<K, usize>(addrs0, j);
                assert(c == k@);
                assert(free_all::<K>(base, p0, addrs0) == free_all::<K>(base, dealloc_spec(base, p0, a as int), addrs0.remove(k@)));
                assert forall|j: K::V| #[trigger] dom0.contains(j) && j != k@ implies is_allocation(base, dealloc_spec(base, p0, a as int), addrs0[j] as int)
                    && alloc_block(base, dealloc_spec(base, p0, a as int), addrs0[j] as int) == alloc_block(base, p0, addrs0[j] as int) by {
                    lemma_dealloc_spec(base, cap, p0, a as int, addrs0[j] as int);
                }
                lemma_dealloc_spec(base, cap, p0, a as int, a as int);
            }
            pool.deallocate(a);
            self.len = self.len - 1;
            proof {
                assert(self.view().dom() =~= dom0.remove(k@));
                assert(self.node_addrs() == addrs0.remove(k@));
            }
        }
        proof {
            assert(self.view() =~= Map::<K::V, V>::empty());
            assert(self.node_addrs() =~= Map::<K::V, usize>::empty());
            assert(!(exists|k: K::V| is_least::<K, usize>(self.node_addrs(), k)));
        }
    }

    /// The map holds `key`.
    pub fn contains_key(&self, key: &K) -> (r: bool)
        requires
            self.wf(),
        ensures
            r == self.view().dom().contains(key@),
    {
        get_node(&self.root, key).is_some()
    }

    /// Map `key` to `value`. An existing entry keeps its node and gets the new value, and
    /// its previous value is returned; a new key gets a node allocated from `pool`, and
    /// the allocation's error is returned when it fails (the map and the pool are then
    /// unchanged).
    pub fn try_insert(&mut self, pool: &mut LpAllocator, key: K, value: V) -> (r: Result<Option<V>, AllocError>)
        requires
            old(self).wf(),
            old(pool).wf(),
            old(self).nodes_in(old(pool)),
            old(self).size() < usize::MAX,
        ensures
            final(self).wf(),
            final(pool).wf(),
            final(self).nodes_in(final(pool)),
            final(pool).base_addr() == old(pool).base_addr(),
            final(pool).cap() == old(pool).cap(),
            old(self).view().dom().contains(key@) ==> {
                &&& r == Ok::<Option<V>, AllocError>(Some(old(self).view()[key@]))
                &&& final(self).view() == old(self).view().insert(key@, value)
                &&& final(self).node_addrs() == old(self).node_addrs()
                &&& final(self).size() == old(self).size()
                &&& final(pool).view() == old(pool).view()
            },
            !old(self).view().dom().contains(key@) ==> {
                let (ar, q) = alloc_spec(
                    old(pool).base_addr(),
                    old(pool).view(),
                    node_size::<K, V>(),
                    node_align::<K, V>(),
                );
                &&& ar is Err ==> {
                    &&& r == Err::<Option<V>, AllocError>(ar->Err_0)
                    &&& final(self).view() == old(self).view()
                    &&& final(self).node_addrs() == old(self).node_addrs()
                    &&& final(self).size() == old(self).size()
                    &&& final(pool).view() == old(pool).view()
                }
                &&& ar is Ok ==> {
                    &&& r == Ok::<Option<V>, AllocError>(None)
                    &&& final(self).view() == old(self).view().insert(key@, value)
                    &&& final(self).node_addrs() == old(self).node_addrs().insert(key@, ar->Ok_0)
                    &&& final(self).size() == old(self).size() + 1
                    &&& final(pool).view() == q
                }
            },
    {
        if get_node(&self.root, &key).is_some() {
            let prev = replace_in(&mut self.root, &key, value);
            proof {
                assert(tree_map(self.root).dom() =~= tree_map(old(self).root).dom());
                assert(self.view().dom() == old(self).view().dom());
                assert(self.node_addrs() == old(self).node_addrs());
                assert forall|k: K::V| #[trigger] self.view().dom().contains(k) implies is_allocation(
                    pool.base_addr(),
                    pool.view(),
                    self.node_addrs()[k] as int,
                ) by {
                    assert(old(self).view().dom().contains(k));
                }
                assert forall|k1: K::V, k2: K::V|
                    #![trigger self.view().dom().contains(k1), self.view().dom().contains(k2)]
                    self.view().dom().contains(k1) && self.view().dom().contains(k2) && k1 != k2 implies alloc_block(
                        pool.base_addr(),
                        pool.view(),
                        self.node_addrs()[k1] as int,
                    ).offset != alloc_block(pool.base_addr(), pool.view(), self.node_addrs()[k2] as int).offset by {
                    assert(old(self).view().dom().contains(k1) && old(self).view().dom().contains(k2));
                }
            }
            return Ok(Some(prev));
        }
        vstd::layout::layout_for_type_is_valid::<Node<K, V>>();
        let size = core::mem::size_of::<Node<K, V>>();
        let align = core::mem::align_of::<Node<K, V>>();
        let ghost p0 = pool.view();
        let ghost base = pool.base_addr();
        let ghost cap = pool.cap();
        let ghost addrs0 = self.node_addrs();
        let ghost dom0 = self.view().dom();
        proof {
            assert forall|k: K::V| #[trigger] dom0.contains(k) implies is_allocation(base, alloc_spec(base, p0, size as int, align as int).1, addrs0[k] as int)
                && alloc_block(base, alloc_spec(base, p0, size as int, align as int).1, addrs0[k] as int) == alloc_block(base, p0, addrs0[k] as int)
                && (alloc_spec(base, p0, size as int, align as int).0 matches Ok(d) ==> alloc_block(base, alloc_spec(base, p0, size as int, align as int).1, d as int).offset != alloc_block(base, alloc_spec(base, p0, size as int, align as int).1, addrs0[k] as int).offset) by {
                lemma_alloc_spec(base, cap, p0, size as int, align as int, addrs0[k] as int);
            }
        }
        match pool.allocate_addr(size, align) {
            Err(e) => Err(e),
            Ok(addr) => {
                proof {
                    lemma_alloc_spec(base, cap, p0, size as int, align as int, 0);
                }
                insert_node(&mut self.root, key, value, addr);
                self.len = self.len + 1;
                proof {
                    lemma_addrs_dom(self.root);
                    assert(self.view().dom() =~= dom0.insert(key@));
                    let q = pool.view();
                    let na = self.node_addrs();
                    assert(na == addrs0.insert(key@, addr));
                    assert forall|k: K::V| #[trigger] self.view().dom().contains(k) implies is_allocation(
                        base,
                        q,
                        na[k] as int,
                    ) by {
                        if k != key@ {
                            assert(dom0.contains(k));
                        }
                    }
                    assert forall|k1: K::V, k2: K::V|
                        #![trigger self.view().dom().contains(k1), self.view().dom().contains(k2)]
                        self.view().dom().contains(k1) && self.view().dom().contains(k2) && k1 != k2 implies alloc_block(
                            base,
                            q,
                            na[k1] as int,
                        ).offset != alloc_block(base, q, na[k2] as int).offset by {
                        if k1 != key@ {
                            assert(dom0.contains(k1));
                        }
                        if k2 != key@ {
                            assert(dom0.contains(k2));
                        }
                        if k1 != key@ && k2 != key@ {
                            assert(old(self).view().dom().contains(k1) && old(self).view().dom().contains(k2));
                        }
                    }
                }
                Ok(None)
            },
        }
    }

    /// Take `key` out of the map, if it holds it, and free its node in `pool`; returns
    /// the value it had. The result is never an error.
    pub fn try_remove(&mut self, pool: &mut LpAllocator, key: &K) -> (r: Result<Option<V>, AllocError>)
        requires
            old(self).wf(),
            old(pool).wf(),
            old(self).nodes_in(old(pool)),
        ensures
            final(self).wf(),
            final(pool).wf(),
            final(self).nodes_in(final(pool)),
            final(pool).base_addr() == old(pool).base_addr(),
            final(pool).cap() == old(pool).cap(),
            final(self).view() == old(self).view().remove(key@),
            final(self).node_addrs() == old(self).node_addrs().remove(key@),
            old(self).view().dom().contains(key@) ==> {
                &&& r == Ok::<Option<V>, AllocError>(Some(old(self).view()[key@]))
                &&& final(self).size() == old(self).size() - 1
                &&& final(pool).view() == dealloc_spec(
                    old(pool).base_addr(),
                    old(pool).view(),
                    old(self).node_addrs()[key@] as int,
                )
            },
            !old(self).view().dom().contains(key@) ==> {
                &&& r == Ok::<Option<V>, AllocError>(None)
                &&& final(self).size() == old(self).size()
                &&& final(pool).view() == old(pool).view()
            },
    {
        let ghost p0 = pool.view();
        let ghost base = pool.base_addr();
        let ghost cap = pool.cap();
        let ghost addrs0 = self.node_addrs();
        let ghost dom0 = self.view().dom();
        match remove_node(&mut self.root, key) {
            None => {
                Ok(None)
            },
            Some((value, addr)) => {
                proof {
                    assert(dom0.contains(key@));
                    assert forall|k: K::V| #[trigger] dom0.contains(k) && k != key@ implies is_allocation(base, dealloc_spec(base, p0, addr as int), addrs0[k] as int)
                        && alloc_block(base, dealloc_spec(base, p0, addr as int), addrs0[k] as int) == alloc_block(base, p0, addrs0[k] as int) by {
                        lemma_dealloc_spec(base, cap, p0, addr as int, addrs0[k] as int);
                    }
                    lemma_dealloc_spec(base, cap, p0, addr as int, addr as int);
                }
                pool.deallocate(addr);
                self.len = self.len - 1;
                proof {
                    lemma_addrs_dom(self.root);
                    assert(self.view().dom() =~= dom0.remove(key@));
                }
                Ok(Some(value))
            },
        }
    }
}

/// After `key` is mapped to `value`, looking `key` up gives `value`, and every other
/// key keeps its entry.
pub proof fn lemma_insert_then_get<K, V>(m: Map<K, V>, key: K, value: V, other: K)
    requires
        other != key,
    ensures
        m.insert(key, value).dom().contains(key),
        m.insert(key, value)[key] == value,
        m.insert(key, value).dom().contains(other) == m.dom().contains(other),
        m.dom().contains(other) ==> m.insert(key, value)[other] == m[other],
{
}

/// After `key` is taken out, looking it up finds nothing, and every other key keeps
/// its entry.
pub proof fn lemma_remove_then_get<K, V>(m: Map<K, V>, key: K, other: K)
    requires
        other != key,
    ensures
        !m.remove(key).dom().contains(key),
        m.remove(key).dom().contains(other) == m.dom().contains(other),
        m.dom().contains(other) ==> m.remove(key)[other] == m[other],
{
}

/// Mapping a new key adds one entry; taking out a held key removes one.
pub proof fn lemma_entry_counts<K, V>(m: Map<K, V>, key: K, value: V)
    requires
        m.dom().finite(),
    ensures
        !m.dom().contains(key) ==> m.insert(key, value).dom().len() == m.dom().len() + 1,
        m.dom().contains(key) ==> m.insert(key, value).dom().len() == m.dom().len(),
        m.dom().contains(key) ==> m.remove(key).dom().len() == m.dom().len() - 1,
{
    if m.dom().contains(key) {
        assert(m.insert(key, value).dom() =~= m.dom());
    }
}

impl<K: MapKey, V> Default for LpBTreeMap<K, V> {
    /// The same as `new`.
    fn default() -> (r: LpBTreeMap<K, V>)
        ensures
            r.wf(),
            r.view() == Map::<K::V, V>::empty(),
            r.size() == 0,
    {
        LpBTreeMap::new()
    }
}

} // verus!

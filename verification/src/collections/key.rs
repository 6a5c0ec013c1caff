//! Keys of the pool-backed maps: ordered by a strict total order on their views, and
//! compared by a function that follows that order.
use vstd::prelude::*;

use super::text_order::{
    compare_text, lemma_text_lt_irreflexive, lemma_text_lt_total, lemma_text_lt_transitive, text_lt,
};

verus! {

/// How one key compares with another.
#[derive(Clone, Copy, Debug, PartialEq, Eq, Structural)]
pub enum KeyOrder {
    Less,
    Equal,
    Greater,
}

/// A key of a map. Keys are told apart and ordered by their views: `key_lt` is a strict
/// total order on views, and `compare_key` follows it.
pub trait MapKey: View + Sized {
    /// The view `a` comes before the view `b`.
    spec fn key_lt(a: Self::V, b: Self::V) -> bool;

    /// No view comes before itself.
    proof fn lemma_key_lt_irreflexive(a: Self::V)
        ensures
            !Self::key_lt(a, a),
    ;

    /// The order is transitive.
    proof fn lemma_key_lt_transitive(a: Self::V, b: Self::V, c: Self::V)
        requires
            Self::key_lt(a, b),
            Self::key_lt(b, c),
        ensures
            Self::key_lt(a, c),
    ;

    /// Of two different views, one comes before the other.
    proof fn lemma_key_lt_total(a: Self::V, b: Self::V)
        ensures
            a == b || Self::key_lt(a, b) || Self::key_lt(b, a),
    ;

    /// Compare two keys by their views.
    fn compare_key(&self, other: &Self) -> (r: KeyOrder)
        ensures
            (r is Less) == Self::key_lt(self@, other@),
            (r is Equal) == (self@ == other@),
            (r is Greater) == Self::key_lt(other@, self@),
    ;
}

impl MapKey for i8 {
    open spec fn key_lt(a: i8, b: i8) -> bool {
        a < b
    }

    proof fn lemma_key_lt_irreflexive(a: i8) {
    }

    proof fn lemma_key_lt_transitive(a: i8, b: i8, c: i8) {
    }

    proof fn lemma_key_lt_total(a: i8, b: i8) {
    }

    fn compare_key(&self, other: &Self) -> (r: KeyOrder) {
        if *self < *other {
            KeyOrder::Less
        } else if *self == *other {
            KeyOrder::Equal
        } else {
            KeyOrder::Greater
        }
    }
}

impl MapKey for i16 {
    open spec fn key_lt(a: i16, b: i16) -> bool {
        a < b
    }

    proof fn lemma_key_lt_irreflexive(a: i16) {
    }

    proof fn lemma_key_lt_transitive(a: i16, b: i16, c: i16) {
    }

    proof fn lemma_key_lt_total(a: i16, b: i16) {
    }

    fn compare_key(&self, other: &Self) -> (r: KeyOrder) {
        if *self < *other {
            KeyOrder::Less
        } else if *self == *other {
            KeyOrder::Equal
        } else {
            KeyOrder::Greater
        }
    }
}

impl MapKey for i32 {
    open spec fn key_lt(a: i32, b: i32) -> bool {
        a < b
    }

    proof fn lemma_key_lt_irreflexive(a: i32) {
    }

    proof fn lemma_key_lt_transitive(a: i32, b: i32, c: i32) {
    }

    proof fn lemma_key_lt_total(a: i32, b: i32) {
    }

    fn compare_key(&self, other: &Self) -> (r: KeyOrder) {
        if *self < *other {
            KeyOrder::Less
        } else if *self == *other {
            KeyOrder::Equal
        } else {
            KeyOrder::Greater
        }
    }
}

impl MapKey for i64 {
    open spec fn key_lt(a: i64, b: i64) -> bool {
        a < b
    }

    proof fn lemma_key_lt_irreflexive(a: i64) {
    }

    proof fn lemma_key_lt_transitive(a: i64, b: i64, c: i64) {
    }

    proof fn lemma_key_lt_total(a: i64, b: i64) {
    }

    fn compare_key(&self, other: &Self) -> (r: KeyOrder) {
        if *self < *other {
            KeyOrder::Less
        } else if *self == *other {
            KeyOrder::Equal
        } else {
            KeyOrder::Greater
        }
    }
}

impl MapKey for u8 {
    open spec fn key_lt(a: u8, b: u8) -> bool {
        a < b
    }

    proof fn lemma_key_lt_irreflexive(a: u8) {
    }

    proof fn lemma_key_lt_transitive(a: u8, b: u8, c: u8) {
    }

    proof fn lemma_key_lt_total(a: u8, b: u8) {
    }

    fn compare_key(&self, other: &Self) -> (r: KeyOrder) {
        if *self < *other {
            KeyOrder::Less
        } else if *self == *other {
            KeyOrder::Equal
        } else {
            KeyOrder::Greater
        }
    }
}

impl MapKey for u16 {
    open spec fn key_lt(a: u16, b: u16) -> bool {
        a < b
    }

    proof fn lemma_key_lt_irreflexive(a: u16) {
    }

    proof fn lemma_key_lt_transitive(a: u16, b: u16, c: u16) {
    }

    proof fn lemma_key_lt_total(a: u16, b: u16) {
    }

    fn compare_key(&self, other: &Self) -> (r: KeyOrder) {
        if *self < *other {
            KeyOrder::Less
        } else if *self == *other {
            KeyOrder::Equal
        } else {
            KeyOrder::Greater
        }
    }
}

impl MapKey for u32 {
    open spec fn key_lt(a: u32, b: u32) -> bool {
        a < b
    }

    proof fn lemma_key_lt_irreflexive(a: u32) {
    }

    proof fn lemma_key_lt_transitive(a: u32, b: u32, c: u32) {
    }

    proof fn lemma_key_lt_total(a: u32, b: u32) {
    }

    fn compare_key(&self, other: &Self) -> (r: KeyOrder) {
        if *self < *other {
            KeyOrder::Less
        } else if *self == *other {
            KeyOrder::Equal
        } else {
            KeyOrder::Greater
        }
    }
}

impl MapKey for u64 {
    open spec fn key_lt(a: u64, b: u64) -> bool {
        a < b
    }

    proof fn lemma_key_lt_irreflexive(a: u64) {
    }

    proof fn lemma_key_lt_transitive(a: u64, b: u64, c: u64) {
    }

    proof fn lemma_key_lt_total(a: u64, b: u64) {
    }

    fn compare_key(&self, other: &Self) -> (r: KeyOrder) {
        if *self < *other {
            KeyOrder::Less
        } else if *self == *other {
            KeyOrder::Equal
        } else {
            KeyOrder::Greater
        }
    }
}

impl MapKey for usize {
    open spec fn key_lt(a: usize, b: usize) -> bool {
        a < b
    }

    proof fn lemma_key_lt_irreflexive(a: usize) {
    }

    proof fn lemma_key_lt_transitive(a: usize, b: usize, c: usize) {
    }

    proof fn lemma_key_lt_total(a: usize, b: usize) {
    }

    fn compare_key(&self, other: &Self) -> (r: KeyOrder) {
        if *self < *other {
            KeyOrder::Less
        } else if *self == *other {
            KeyOrder::Equal
        } else {
            KeyOrder::Greater
        }
    }
}

impl MapKey for isize {
    open spec fn key_lt(a: isize, b: isize) -> bool {
        a < b
    }

    proof fn lemma_key_lt_irreflexive(a: isize) {
    }

    proof fn lemma_key_lt_transitive(a: isize, b: isize, c: isize) {
    }

    proof fn lemma_key_lt_total(a: isize, b: isize) {
    }

    fn compare_key(&self, other: &Self) -> (r: KeyOrder) {
        if *self < *other {
            KeyOrder::Less
        } else if *self == *other {
            KeyOrder::Equal
        } else {
            KeyOrder::Greater
        }
    }
}

impl MapKey for String {
    open spec fn key_lt(a: Seq<char>, b: Seq<char>) -> bool {
        text_lt(a, b)
    }

    proof fn lemma_key_lt_irreflexive(a: Seq<char>) {
        lemma_text_lt_irreflexive(a);
    }

    proof fn lemma_key_lt_transitive(a: Seq<char>, b: Seq<char>, c: Seq<char>) {
        lemma_text_lt_transitive(a, b, c);
    }

    proof fn lemma_key_lt_total(a: Seq<char>, b: Seq<char>) {
        lemma_text_lt_total(a, b);
    }

    fn compare_key(&self, other: &Self) -> (r: KeyOrder) {
        compare_text(self.as_str(), other.as_str())
    }
}

} // verus!

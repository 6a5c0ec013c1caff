//! Statistics of live allocations by type and scope: for each key, made of a type
//! name and an optional scope, the number of live allocations and their bytes.
use vstd::prelude::*;

use crate::collections::key::KeyOrder;
use crate::collections::text_order::{
    compare_text, lemma_text_lt_asymmetric, lemma_text_lt_irreflexive, lemma_text_lt_total,
    lemma_text_lt_transitive, text_lt,
};

verus! {

/// A key of the statistics as plain values: the type name and the scope.
pub type StatKey = (Seq<char>, Option<Seq<char>>);

/// One row of the statistics.
pub struct StatRow {
    pub type_label: String,
    pub scope: Option<String>,
    pub count: usize,
    pub total_bytes: usize,
}

/// The scope as plain characters.
pub open spec fn scope_view(s: Option<String>) -> Option<Seq<char>> {
    match s {
        Some(t) => Some(t@),
        None => None,
    }
}

/// The key of a row.
pub open spec fn row_key(r: StatRow) -> StatKey {
    (r.type_label@, scope_view(r.scope))
}

/// The count and bytes of a row.
pub open spec fn row_value(r: StatRow) -> (nat, nat) {
    (r.count as nat, r.total_bytes as nat)
}

/// Some row of `s` has key `k`.
pub open spec fn has_key(s: Seq<StatRow>, k: StatKey) -> bool {
    exists|i: int| 0 <= i < s.len() && row_key(s[i]) == k
}

/// The index of the row of `s` with key `k`.
pub open spec fn key_index(s: Seq<StatRow>, k: StatKey) -> int {
    choose|i: int| 0 <= i < s.len() && row_key(s[i]) == k
}

/// No two rows of `s` have the same key.
pub open spec fn keys_distinct(s: Seq<StatRow>) -> bool {
    forall|i: int, j: int|
        0 <= i < s.len() && 0 <= j < s.len() && i != j ==> row_key(s[i]) != row_key(s[j])
}

/// The order of scopes: no scope first, then scopes in the order of texts.
pub open spec fn scope_lt(a: Option<Seq<char>>, b: Option<Seq<char>>) -> bool {
    match (a, b) {
        (None, Some(_)) => true,
        (Some(x), Some(y)) => text_lt(x, y),
        _ => false,
    }
}

/// The order of keys: by type name, then by scope.
pub open spec fn stat_key_lt(a: StatKey, b: StatKey) -> bool {
    text_lt(a.0, b.0) || (a.0 == b.0 && scope_lt(a.1, b.1))
}

/// The order of keys is a strict total order.
pub proof fn lemma_stat_key_order(a: StatKey, b: StatKey, c: StatKey)
    ensures
        !stat_key_lt(a, a),
        stat_key_lt(a, b) ==> !stat_key_lt(b, a),
        stat_key_lt(a, b) && stat_key_lt(b, c) ==> stat_key_lt(a, c),
        a == b || stat_key_lt(a, b) || stat_key_lt(b, a),
{
    lemma_text_lt_irreflexive(a.0);
    lemma_text_lt_total(a.0, b.0);
    if let Some(x) = a.1 {
        lemma_text_lt_irreflexive(x);
        if let Some(y) = b.1 {
            lemma_text_lt_total(x, y);
            if text_lt(x, y) {
                lemma_text_lt_asymmetric(x, y);
            }
            if let Some(z) = c.1 {
                if text_lt(x, y) && text_lt(y, z) {
                    lemma_text_lt_transitive(x, y, z);
                }
            }
        }
    }
    if text_lt(a.0, b.0) {
        lemma_text_lt_asymmetric(a.0, b.0);
    }
    if text_lt(a.0, b.0) && text_lt(b.0, c.0) {
        lemma_text_lt_transitive(a.0, b.0, c.0);
    }
}

/// The rows of `s` come in strictly increasing order of their keys.
pub open spec fn keys_sorted(s: Seq<StatRow>) -> bool {
    forall|i: int, j: int|
        0 <= i < j < s.len() ==> stat_key_lt(row_key(#[trigger] s[i]), row_key(#[trigger] s[j]))
}

/// How the key of `row` compares with the key of `name` and `sc`.
fn compare_row_key(row: &StatRow, name: &String, sc: &Option<String>) -> (r: KeyOrder)
    ensures
        ({
            let k = (name@, scope_view(*sc));
            &&& (r is Less) == stat_key_lt(row_key(*row), k)
            &&& (r is Equal) == (row_key(*row) == k)
            &&& (r is Greater) == stat_key_lt(k, row_key(*row))
        }),
{
    let ghost k = (name@, scope_view(*sc));
    proof {
        lemma_stat_key_order(row_key(*row), k, k);
        lemma_stat_key_order(k, row_key(*row), k);
    }
    match compare_text(row.type_label.as_str(), name.as_str()) {
        KeyOrder::Less => KeyOrder::Less,
        KeyOrder::Greater => KeyOrder::Greater,
        KeyOrder::Equal => match (&row.scope, sc) {
            (None, None) => KeyOrder::Equal,
            (None, Some(_)) => KeyOrder::Less,
            (Some(_), None) => KeyOrder::Greater,
            (Some(a), Some(b)) => compare_text(a.as_str(), b.as_str()),
        },
    }
}

/// The rows of `s` as a map from key to count and bytes.
pub open spec fn rows_map(s: Seq<StatRow>) -> Map<StatKey, (nat, nat)> {
    Map::new(|k: StatKey| has_key(s, k), |k: StatKey| row_value(s[key_index(s, k)]))
}

/// Sum of the counts of the rows.
pub open spec fn sum_counts(s: Seq<StatRow>) -> nat
    decreases s.len(),
{
    if s.len() == 0 {
        0
    } else {
        sum_counts(s.drop_last()) + s.last().count as nat
    }
}

/// Sum of the bytes of the rows.
pub open spec fn sum_bytes(s: Seq<StatRow>) -> nat
    decreases s.len(),
{
    if s.len() == 0 {
        0
    } else {
        sum_bytes(s.drop_last()) + s.last().total_bytes as nat
    }
}

/// With distinct keys, the row of key `row_key(s[i])` is row `i`.
proof fn lemma_key_index(s: Seq<StatRow>, i: int)
    requires
        keys_distinct(s),
        0 <= i < s.len(),
    ensures
        has_key(s, row_key(s[i])),
        key_index(s, row_key(s[i])) == i,
{
    assert(has_key(s, row_key(s[i])));
}

/// Sums after replacing row `i`.
proof fn lemma_sums_update(s: Seq<StatRow>, i: int, r: StatRow)
    requires
        0 <= i < s.len(),
    ensures
        sum_counts(s.update(i, r)) == sum_counts(s) - s[i].count + r.count,
        sum_bytes(s.update(i, r)) == sum_bytes(s) - s[i].total_bytes + r.total_bytes,
    decreases s.len(),
{
    let t = s.update(i, r);
    if i < s.len() - 1 {
        assert(t.drop_last() =~= s.drop_last().update(i, r));
        lemma_sums_update(s.drop_last(), i, r);
    } else {
        assert(t.drop_last() =~= s.drop_last());
    }
}

/// Sums after removing row `i`.
proof fn lemma_sums_remove(s: Seq<StatRow>, i: int)
    requires
        0 <= i < s.len(),
    ensures
        sum_counts(s.remove(i)) == sum_counts(s) - s[i].count,
        sum_bytes(s.remove(i)) == sum_bytes(s) - s[i].total_bytes,
    decreases s.len(),
{
    let t = s.remove(i);
    if i < s.len() - 1 {
        assert(t.drop_last() =~= s.drop_last().remove(i));
        lemma_sums_remove(s.drop_last(), i);
    } else {
        assert(t =~= s.drop_last());
    }
}

/// Sums after inserting a row at `p`.
proof fn lemma_sums_insert(s: Seq<StatRow>, p: int, r: StatRow)
    requires
        0 <= p <= s.len(),
    ensures
        sum_counts(s.insert(p, r)) == sum_counts(s) + r.count,
        sum_bytes(s.insert(p, r)) == sum_bytes(s) + r.total_bytes,
    decreases s.len(),
{
    let t = s.insert(p, r);
    if p < s.len() {
        assert(t.drop_last() =~= s.drop_last().insert(p, r));
        lemma_sums_insert(s.drop_last(), p, r);
    } else {
        assert(t.drop_last() =~= s);
    }
}

/// Sums after appending a row.
proof fn lemma_sums_push(s: Seq<StatRow>, r: StatRow)
    ensures
        sum_counts(s.push(r)) == sum_counts(s) + r.count,
        sum_bytes(s.push(r)) == sum_bytes(s) + r.total_bytes,
{
    assert(s.push(r).drop_last() =~= s);
}

/// The key of a type name and a scope.
pub open spec fn stat_key(type_label: &str, scope: Option<&str>) -> StatKey {
    (
        type_label@,
        match scope {
            Some(s) => Some(s@),
            None => None,
        },
    )
}

/// The statistics after one more allocation of `size` bytes under key `k`.
pub open spec fn record_spec(v: Map<StatKey, (nat, nat)>, k: StatKey, size: nat) -> Map<
    StatKey,
    (nat, nat),
> {
    v.insert(k, if v.dom().contains(k) { (v[k].0 + 1, v[k].1 + size) } else { (1nat, size) })
}

/// The statistics after an allocation of `size` bytes under key `k` is gone: no
/// change for an absent key; the key leaves at a count of one; otherwise its count
/// drops by one and its bytes by `size`, no lower than zero.
pub open spec fn remove_spec(v: Map<StatKey, (nat, nat)>, k: StatKey, size: nat) -> Map<
    StatKey,
    (nat, nat),
> {
    if !v.dom().contains(k) {
        v
    } else if v[k].0 <= 1 {
        v.remove(k)
    } else {
        v.insert(
            k,
            ((v[k].0 - 1) as nat, if v[k].1 >= size { (v[k].1 - size) as nat } else { 0nat }),
        )
    }
}

/// Recording an allocation and then removing it, with the same key and size, leaves
/// the statistics as they were (a key present in statistics always has a count of at
/// least one).
pub proof fn lemma_record_then_remove(v: Map<StatKey, (nat, nat)>, k: StatKey, size: nat)
    requires
        v.dom().contains(k) ==> v[k].0 > 0,
    ensures
        remove_spec(record_spec(v, k, size), k, size) == v,
{
    if v.dom().contains(k) {
        assert(remove_spec(record_spec(v, k, size), k, size) =~= v);
    } else {
        assert(remove_spec(record_spec(v, k, size), k, size) =~= v);
    }
}

/// Statistics of live allocations by type and scope. No two rows share a key, and
/// no row has a count of zero.
pub struct AllocStats {
    rows: Vec<StatRow>,
}

impl AllocStats {
    /// The statistics as a map from key to count and bytes.
    pub closed spec fn view(&self) -> Map<StatKey, (nat, nat)> {
        rows_map(self.rows@)
    }

    /// The rows are well formed: distinct keys, no count of zero.
    pub closed spec fn wf(&self) -> bool {
        &&& keys_distinct(self.rows@)
        &&& keys_sorted(self.rows@)
        &&& forall|i: int| 0 <= i < self.rows@.len() ==> #[trigger] self.rows@[i].count > 0
    }

    /// Sum of the counts over all keys.
    pub closed spec fn count_total(&self) -> nat {
        sum_counts(self.rows@)
    }

    /// Sum of the bytes over all keys.
    pub closed spec fn bytes_total(&self) -> nat {
        sum_bytes(self.rows@)
    }

    /// Every key present has a count of at least one.
    pub proof fn lemma_counts_positive(&self)
        requires
            self.wf(),
        ensures
            forall|k: StatKey| #[trigger] self.view().dom().contains(k) ==> self.view()[k].0 > 0,
    {
        assert forall|k: StatKey| #[trigger] self.view().dom().contains(k) implies self.view()[k].0
            > 0 by {
            let i = key_index(self.rows@, k);
            assert(self.rows@[i].count > 0);
        }
    }

    /// No allocation recorded.
    pub fn new() -> (r: Self)
        ensures
            r.wf(),
            r.view() == Map::<StatKey, (nat, nat)>::empty(),
            r.count_total() == 0,
            r.bytes_total() == 0,
    {
        let r = AllocStats { rows: Vec::new() };
        assert(r.view() =~= Map::<StatKey, (nat, nat)>::empty());
        r
    }

    /// Where the key of `name` and `sc` stands among the rows: `Ok` with the index of
    /// its row, or `Err` with the index at which a row for it would go.
    fn search(&self, name: &String, sc: &Option<String>) -> (r: Result<usize, usize>)
        requires
            self.wf(),
        ensures
            ({
                let k = (name@, scope_view(*sc));
                let s = self.rows@;
                match r {
                    Ok(i) => i < s.len() && row_key(s[i as int]) == k,
                    Err(p) => p <= s.len() && (forall|j: int|
                        0 <= j < p ==> stat_key_lt(row_key(#[trigger] s[j]), k)) && (forall|j: int|
                        p <= j < s.len() ==> stat_key_lt(k, row_key(#[trigger] s[j]))),
                }
            }),
    {
        let ghost k = (name@, scope_view(*sc));
        let mut i: usize = 0;
        while i < self.rows.len()
            invariant
                self.wf(),
                k == (name@, scope_view(*sc)),
                i <= self.rows@.len(),
                forall|j: int| 0 <= j < i ==> stat_key_lt(row_key(#[trigger] self.rows@[j]), k),
            decreases self.rows@.len() - i,
        {
            match compare_row_key(&self.rows[i], name, sc) {
                KeyOrder::Less => {},
                KeyOrder::Equal => {
                    return Ok(i);
                },
                KeyOrder::Greater => {
                    proof {
                        let s = self.rows@;
                        assert forall|j: int| i <= j < s.len() implies stat_key_lt(
                            k,
                            row_key(#[trigger] s[j]),
                        ) by {
                            if j > i {
                                assert(stat_key_lt(row_key(s[i as int]), row_key(s[j])));
                                lemma_stat_key_order(k, row_key(s[i as int]), row_key(s[j]));
                            }
                        }
                    }
                    return Err(i);
                },
            }
            i = i + 1;
        }
        Err(i)
    }

    /// The index of the row with the key of `name` and `sc`, if any.
    fn find(&self, name: &String, sc: &Option<String>) -> (r: Option<usize>)
        requires
            self.wf(),
        ensures
            match r {
                Some(i) => i < self.rows@.len() && row_key(self.rows@[i as int]) == (
                    name@,
                    scope_view(*sc),
                ),
                None => !has_key(self.rows@, (name@, scope_view(*sc))),
            },
    {
        match self.search(name, sc) {
            Ok(i) => Some(i),
            Err(p) => {
                proof {
                    let k = (name@, scope_view(*sc));
                    let s = self.rows@;
                    if has_key(s, k) {
                        let j = choose|j: int| 0 <= j < s.len() && row_key(s[j]) == k;
                        lemma_stat_key_order(k, k, k);
                        if j < p {
                            assert(stat_key_lt(row_key(s[j]), k));
                        } else {
                            assert(stat_key_lt(k, row_key(s[j])));
                        }
                    }
                }
                None
            },
        }
    }

    /// Count one more allocation of `size` bytes under the key of `type_label` and
    /// `scope`.
    pub fn record(&mut self, type_label: &str, scope: Option<&str>, size: usize)
        requires
            old(self).wf(),
            ({
                let k = stat_key(type_label, scope);
                old(self).view().dom().contains(k) ==> old(self).view()[k].0 < usize::MAX
                    && old(self).view()[k].1 + size <= usize::MAX
            }),
        ensures
            final(self).wf(),
            final(self).view() == record_spec(old(self).view(), stat_key(type_label, scope), size as nat),
            final(self).count_total() == old(self).count_total() + 1,
            final(self).bytes_total() == old(self).bytes_total() + size,
    {
        let name = type_label.to_owned();
        let sc: Option<String> = match scope {
            Some(s) => Some(s.to_owned()),
            None => None,
        };
        let ghost k = (name@, scope_view(sc));
        let ghost s0 = self.rows@;
        match self.search(&name, &sc) {
            Ok(i) => {
                proof {
                    lemma_key_index(s0, i as int);
                }
                let count = self.rows[i].count + 1;
                let bytes = self.rows[i].total_bytes + size;
                let row = StatRow { type_label: name, scope: sc, count, total_bytes: bytes };
                self.rows.set(i, row);
                proof {
                    let s1 = self.rows@;
                    lemma_sums_update(s0, i as int, row);
                    assert forall|a: int, b: int|
                        0 <= a < s1.len() && 0 <= b < s1.len() && a != b implies row_key(s1[a])
                        != row_key(s1[b]) by {
                        assert(row_key(s1[a]) == row_key(s0[a]));
                        assert(row_key(s1[b]) == row_key(s0[b]));
                    }
                    assert forall|kk: StatKey| #[trigger] has_key(s1, kk) == has_key(s0, kk) by {
                        if has_key(s0, kk) {
                            let j = choose|j: int| 0 <= j < s0.len() && row_key(s0[j]) == kk;
                            assert(row_key(s1[j]) == kk);
                        }
                        if has_key(s1, kk) {
                            let j = choose|j: int| 0 <= j < s1.len() && row_key(s1[j]) == kk;
                            assert(row_key(s0[j]) == kk);
                        }
                    }
                    assert forall|kk: StatKey| has_key(s1, kk) && kk != k implies row_value(
                        s1[key_index(s1, kk)],
                    ) == row_value(s0[key_index(s0, kk)]) by {
                        let j = key_index(s1, kk);
                        lemma_key_index(s1, j);
                        lemma_key_index(s0, j);
                    }
                    assert forall|a: int, b: int| 0 <= a < b < s1.len() implies stat_key_lt(
                        row_key(#[trigger] s1[a]),
                        row_key(#[trigger] s1[b]),
                    ) by {
                        assert(row_key(s1[a]) == row_key(s0[a]));
                        assert(row_key(s1[b]) == row_key(s0[b]));
                    }
                    lemma_key_index(s1, i as int);
                    assert(rows_map(s1) =~= rows_map(s0).insert(k, row_value(row)));
                }
            },
            Err(p) => {
                let row = StatRow { type_label: name, scope: sc, count: 1, total_bytes: size };
                self.rows.insert(p, row);
                proof {
                    let s1 = self.rows@;
                    let pp = p as int;
                    lemma_sums_insert(s0, pp, row);
                    if has_key(s0, k) {
                        let j = choose|j: int| 0 <= j < s0.len() && row_key(s0[j]) == k;
                        lemma_stat_key_order(k, k, k);
                        if j < pp {
                            assert(stat_key_lt(row_key(s0[j]), k));
                        } else {
                            assert(stat_key_lt(k, row_key(s0[j])));
                        }
                    }
                    assert(!rows_map(s0).dom().contains(k));
                    assert(row_key(s1[pp]) == k);
                    assert forall|j: int| 0 <= j < s1.len() implies row_key(#[trigger] s1[j]) == (if j
                        < pp {
                        row_key(s0[j])
                    } else if j == pp {
                        k
                    } else {
                        row_key(s0[j - 1])
                    }) by {}
                    assert forall|a: int, b: int| 0 <= a < b < s1.len() implies stat_key_lt(
                        row_key(#[trigger] s1[a]),
                        row_key(#[trigger] s1[b]),
                    ) by {
                        if a < pp && b == pp {
                        } else if a < pp && b > pp {
                            assert(stat_key_lt(row_key(s0[a]), k));
                            assert(stat_key_lt(k, row_key(s0[b - 1])));
                            lemma_stat_key_order(row_key(s0[a]), k, row_key(s0[b - 1]));
                        } else if a == pp {
                            assert(stat_key_lt(k, row_key(s0[b - 1])));
                        } else if a > pp {
                            assert(stat_key_lt(row_key(s0[a - 1]), row_key(s0[b - 1])));
                        } else {
                            assert(stat_key_lt(row_key(s0[a]), row_key(s0[b])));
                        }
                    }
                    assert forall|a: int, b: int|
                        0 <= a < s1.len() && 0 <= b < s1.len() && a != b implies row_key(s1[a])
                        != row_key(s1[b]) by {
                        let lo = if a < b { a } else { b };
                        let hi = if a < b { b } else { a };
                        assert(stat_key_lt(row_key(s1[lo]), row_key(s1[hi])));
                        lemma_stat_key_order(row_key(s1[lo]), row_key(s1[hi]), row_key(s1[hi]));
                    }
                    assert forall|j: int| 0 <= j < s1.len() implies #[trigger] s1[j].count > 0 by {
                        if j < pp {
                            assert(s1[j] == s0[j]);
                        } else if j > pp {
                            assert(s1[j] == s0[j - 1]);
                        }
                    }
                    assert forall|kk: StatKey| #[trigger] has_key(s1, kk) == (has_key(s0, kk) || kk
                        == k) by {
                        if has_key(s0, kk) {
                            let j = choose|j: int| 0 <= j < s0.len() && row_key(s0[j]) == kk;
                            let jj = if j < pp { j } else { j + 1 };
                            assert(row_key(s1[jj]) == kk);
                        }
                        if has_key(s1, kk) && kk != k {
                            let j = choose|j: int| 0 <= j < s1.len() && row_key(s1[j]) == kk;
                            let jj = if j < pp { j } else { j - 1 };
                            assert(row_key(s0[jj]) == kk);
                        }
                    }
                    assert forall|kk: StatKey| has_key(s1, kk) && kk != k implies row_value(
                        s1[key_index(s1, kk)],
                    ) == row_value(s0[key_index(s0, kk)]) by {
                        let j = key_index(s1, kk);
                        lemma_key_index(s1, j);
                        let jj = if j < pp { j } else { j - 1 };
                        assert(j != pp);
                        assert(s1[j] == s0[jj]);
                        lemma_key_index(s0, jj);
                    }
                    lemma_key_index(s1, pp);
                    assert(rows_map(s1) =~= rows_map(s0).insert(k, row_value(row)));
                }
            },
        }
    }

    /// Count one allocation of `size` bytes under the key of `type_label` and `scope`
    /// as gone: nothing happens for a key that has no allocation; the key leaves when
    /// its count reaches zero; otherwise its count drops by one and its bytes by
    /// `size`, no lower than zero.
    pub fn remove(&mut self, type_label: &str, scope: Option<&str>, size: usize)
        requires
            old(self).wf(),
        ensures
            final(self).wf(),
            final(self).view() == remove_spec(old(self).view(), stat_key(type_label, scope), size as nat),
            ({
                let k = stat_key(type_label, scope);
                let v = old(self).view();
                &&& !v.dom().contains(k) ==> final(self).count_total() == old(self).count_total()
                    && final(self).bytes_total() == old(self).bytes_total()
                &&& v.dom().contains(k) ==> final(self).count_total() == old(self).count_total()
                    - (if v[k].0 <= 1 { v[k].0 as int } else { 1 })
                    && final(self).bytes_total() == old(self).bytes_total() - (if v[k].0 <= 1 {
                    v[k].1 as int
                } else if v[k].1 >= size {
                    size as int
                } else {
                    v[k].1 as int
                })
            }),
    {
        let name = type_label.to_owned();
        let sc: Option<String> = match scope {
            Some(s) => Some(s.to_owned()),
            None => None,
        };
        let ghost k = (name@, scope_view(sc));
        let ghost s0 = self.rows@;
        match self.find(&name, &sc) {
            None => {
                proof {
                    assert(!rows_map(s0).dom().contains(k));
                }
            },
            Some(i) => {
                proof {
                    lemma_key_index(s0, i as int);
                }
                if self.rows[i].count <= 1 {
                    let _ = self.rows.remove(i);
                    proof {
                        let s1 = self.rows@;
                        lemma_sums_remove(s0, i as int);
                        assert forall|a: int, b: int|
                            0 <= a < s1.len() && 0 <= b < s1.len() && a != b implies row_key(s1[a])
                            != row_key(s1[b]) by {
                            let aa = if a < i { a } else { a + 1 };
                            let bb = if b < i { b } else { b + 1 };
                            assert(s1[a] == s0[aa] && s1[b] == s0[bb]);
                        }
                        assert forall|j: int| 0 <= j < s1.len() implies #[trigger] s1[j].count > 0 by {
                            let jj = if j < i { j } else { j + 1 };
                            assert(s1[j] == s0[jj]);
                        }
                        assert forall|kk: StatKey| #[trigger] has_key(s1, kk) == (has_key(s0, kk)
                            && kk != k) by {
                            if has_key(s1, kk) {
                                let j = choose|j: int| 0 <= j < s1.len() && row_key(s1[j]) == kk;
                                let jj = if j < i { j } else { j + 1 };
                                assert(s1[j] == s0[jj]);
                                assert(row_key(s0[jj]) == kk);
                                assert(jj != i);
                            }
                            if has_key(s0, kk) && kk != k {
                                let j = choose|j: int| 0 <= j < s0.len() && row_key(s0[j]) == kk;
                                assert(j != i);
                                let jj = if j < i { j } else { j - 1 };
                                assert(s1[jj] == s0[j]);
                            }
                        }
                        assert forall|kk: StatKey| has_key(s1, kk) implies row_value(
                            s1[key_index(s1, kk)],
                        ) == row_value(s0[key_index(s0, kk)]) by {
                            let j = key_index(s1, kk);
                            let jj = if j < i { j } else { j + 1 };
                            assert(s1[j] == s0[jj]);
                            lemma_key_index(s1, j);
                            lemma_key_index(s0, jj);
                        }
                        assert(rows_map(s1) =~= rows_map(s0).remove(k));
                    }
                } else {
                    let count = self.rows[i].count - 1;
                    let bytes = self.rows[i].total_bytes.saturating_sub(size);
                    let row = StatRow { type_label: name, scope: sc, count, total_bytes: bytes };
                    self.rows.set(i, row);
                    proof {
                        let s1 = self.rows@;
                        lemma_sums_update(s0, i as int, row);
                        assert forall|a: int, b: int|
                            0 <= a < s1.len() && 0 <= b < s1.len() && a != b implies row_key(s1[a])
                            != row_key(s1[b]) by {
                            assert(row_key(s1[a]) == row_key(s0[a]));
                            assert(row_key(s1[b]) == row_key(s0[b]));
                        }
                        assert forall|kk: StatKey| #[trigger] has_key(s1, kk) == has_key(s0, kk) by {
                            if has_key(s0, kk) {
                                let j = choose|j: int| 0 <= j < s0.len() && row_key(s0[j]) == kk;
                                assert(row_key(s1[j]) == kk);
                            }
                            if has_key(s1, kk) {
                                let j = choose|j: int| 0 <= j < s1.len() && row_key(s1[j]) == kk;
                                assert(row_key(s0[j]) == kk);
                            }
                        }
                        assert forall|kk: StatKey| has_key(s1, kk) && kk != k implies row_value(
                            s1[key_index(s1, kk)],
                        ) == row_value(s0[key_index(s0, kk)]) by {
                            let j = key_index(s1, kk);
                            lemma_key_index(s1, j);
                            lemma_key_index(s0, j);
                        }
                        lemma_key_index(s1, i as int);
                        assert(rows_map(s1) =~= rows_map(s0).insert(k, row_value(row)));
                    }
                }
            },
        }
    }

    /// The count and bytes of the key of `type_label` and `scope`, if it has any.
    pub fn get(&self, type_label: &str, scope: Option<&str>) -> (r: Option<(usize, usize)>)
        requires
            self.wf(),
        ensures
            ({
                let k = stat_key(type_label, scope);
                match r {
                    Some(v) => self.view().dom().contains(k) && self.view()[k] == (
                        v.0 as nat,
                        v.1 as nat,
                    ),
                    None => !self.view().dom().contains(k),
                }
            }),
    {
        let name = type_label.to_owned();
        let sc: Option<String> = match scope {
            Some(s) => Some(s.to_owned()),
            None => None,
        };
        match self.find(&name, &sc) {
            Some(i) => {
                proof {
                    lemma_key_index(self.rows@, i as int);
                }
                Some((self.rows[i].count, self.rows[i].total_bytes))
            },
            None => None,
        }
    }

    /// The totals of counts and bytes, if both fit in a `usize`.
    pub fn totals(&self) -> (r: Option<(usize, usize)>)
        requires
            self.wf(),
        ensures
            r is Some <==> (self.count_total() <= usize::MAX && self.bytes_total() <= usize::MAX),
            r matches Some(t) ==> t.0 == self.count_total() && t.1 == self.bytes_total(),
    {
        let mut total_count: usize = 0;
        let mut total_bytes: usize = 0;
        let mut count_fits = true;
        let mut bytes_fit = true;
        let mut i: usize = 0;
        while i < self.rows.len()
            invariant
                i <= self.rows@.len(),
                count_fits == (sum_counts(self.rows@.take(i as int)) <= usize::MAX),
                bytes_fit == (sum_bytes(self.rows@.take(i as int)) <= usize::MAX),
                count_fits ==> total_count == sum_counts(self.rows@.take(i as int)),
                bytes_fit ==> total_bytes == sum_bytes(self.rows@.take(i as int)),
            decreases self.rows@.len() - i,
        {
            proof {
                assert(self.rows@.take(i + 1).drop_last() =~= self.rows@.take(i as int));
            }
            if count_fits {
                match total_count.checked_add(self.rows[i].count) {
                    Some(t) => {
                        total_count = t;
                    },
                    None => {
                        count_fits = false;
                    },
                }
            }
            if bytes_fit {
                match total_bytes.checked_add(self.rows[i].total_bytes) {
                    Some(t) => {
                        total_bytes = t;
                    },
                    None => {
                        bytes_fit = false;
                    },
                }
            }
            i = i + 1;
        }
        proof {
            assert(self.rows@.take(i as int) =~= self.rows@);
        }
        if count_fits && bytes_fit {
            Some((total_count, total_bytes))
        } else {
            None
        }
    }

    /// One row per key, each key once, in the order of keys, and the totals of counts
    /// and bytes.
    pub fn report(&self) -> (r: (Vec<StatRow>, usize, usize))
        requires
            self.wf(),
            self.count_total() <= usize::MAX,
            self.bytes_total() <= usize::MAX,
        ensures
            keys_distinct(r.0@),
            keys_sorted(r.0@),
            rows_map(r.0@) == self.view(),
            r.1 == sum_counts(r.0@),
            r.2 == sum_bytes(r.0@),
            r.1 == self.count_total(),
            r.2 == self.bytes_total(),
    {
        let mut out: Vec<StatRow> = Vec::new();
        let mut total_count: usize = 0;
        let mut total_bytes: usize = 0;
        let mut i: usize = 0;
        while i < self.rows.len()
            invariant
                i <= self.rows@.len(),
                out@.len() == i,
                forall|j: int| 0 <= j < i ==> #[trigger] out@[j] == self.rows@[j],
                total_count == sum_counts(out@),
                total_bytes == sum_bytes(out@),
                self.count_total() <= usize::MAX,
                self.bytes_total() <= usize::MAX,
                sum_counts(self.rows@) == self.count_total(),
                sum_bytes(self.rows@) == self.bytes_total(),
            decreases self.rows@.len() - i,
        {
            let row = &self.rows[i];
            let copy = StatRow {
                type_label: row.type_label.clone(),
                scope: match &row.scope {
                    Some(s) => Some(s.clone()),
                    None => None,
                },
                count: row.count,
                total_bytes: row.total_bytes,
            };
            proof {
                assert(copy == self.rows@[i as int]);
                assert(out@.push(copy) =~= self.rows@.take(i + 1));
                assert(out@ =~= self.rows@.take(i as int));
                lemma_sums_prefix(self.rows@, i as int + 1);
                lemma_sums_push(out@, copy);
            }
            total_count = total_count + row.count;
            total_bytes = total_bytes + row.total_bytes;
            out.push(copy);
            i = i + 1;
        }
        proof {
            assert(out@ =~= self.rows@);
        }
        (out, total_count, total_bytes)
    }
}

/// The sums over a prefix are no more than over the whole.
proof fn lemma_sums_prefix(s: Seq<StatRow>, n: int)
    requires
        0 <= n <= s.len(),
    ensures
        sum_counts(s.take(n)) <= sum_counts(s),
        sum_bytes(s.take(n)) <= sum_bytes(s),
    decreases s.len() - n,
{
    if n < s.len() {
        lemma_sums_prefix(s, n + 1);
        assert(s.take(n + 1).drop_last() =~= s.take(n));
    } else {
        assert(s.take(n) =~= s);
    }
}

} // verus!

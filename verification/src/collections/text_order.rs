//! The lexicographic order of texts, character by character (by code point, which is
//! also the order of their UTF-8 bytes), and its comparison.
use vstd::prelude::*;
use vstd::string::StrSliceExecFns;

use super::key::KeyOrder;

verus! {

/// `a` comes strictly before `b`: at the first position where they differ, `a` has the
/// smaller character, or `a` is a proper prefix of `b`.
pub open spec fn text_lt(a: Seq<char>, b: Seq<char>) -> bool
    decreases a.len(),
{
    if a.len() == 0 {
        b.len() > 0
    } else if b.len() == 0 {
        false
    } else if (a[0] as int) < (b[0] as int) {
        true
    } else if a[0] == b[0] {
        text_lt(a.drop_first(), b.drop_first())
    } else {
        false
    }
}

/// No text comes before itself.
pub proof fn lemma_text_lt_irreflexive(a: Seq<char>)
    ensures
        !text_lt(a, a),
    decreases a.len(),
{
    if a.len() > 0 {
        lemma_text_lt_irreflexive(a.drop_first());
    }
}

/// The order is transitive.
pub proof fn lemma_text_lt_transitive(a: Seq<char>, b: Seq<char>, c: Seq<char>)
    requires
        text_lt(a, b),
        text_lt(b, c),
    ensures
        text_lt(a, c),
    decreases a.len(),
{
    if a.len() > 0 && b.len() > 0 && c.len() > 0 && a[0] == b[0] && b[0] == c[0] {
        lemma_text_lt_transitive(a.drop_first(), b.drop_first(), c.drop_first());
    }
}

/// Of two different texts, one comes before the other.
pub proof fn lemma_text_lt_total(a: Seq<char>, b: Seq<char>)
    ensures
        a == b || text_lt(a, b) || text_lt(b, a),
    decreases a.len(),
{
    if a.len() > 0 && b.len() > 0 && a[0] == b[0] {
        lemma_text_lt_total(a.drop_first(), b.drop_first());
        if a.drop_first() == b.drop_first() {
            assert(a =~= seq![a[0]] + a.drop_first());
            assert(b =~= seq![b[0]] + b.drop_first());
        }
    } else if a.len() > 0 && b.len() > 0 {
        assert((a[0] as int) != (b[0] as int));
    } else if a.len() == 0 && b.len() == 0 {
        assert(a =~= b);
    }
}

/// No text comes both before and after another.
pub proof fn lemma_text_lt_asymmetric(a: Seq<char>, b: Seq<char>)
    requires
        text_lt(a, b),
    ensures
        !text_lt(b, a),
{
    if text_lt(b, a) {
        lemma_text_lt_transitive(a, b, a);
        lemma_text_lt_irreflexive(a);
    }
}

/// How `a` compares with `b` in the order of texts, read from position `i` on, when
/// they agree before it.
fn compare_text_from(a: &str, b: &str, i: usize) -> (r: KeyOrder)
    requires
        i <= a@.len(),
        i <= b@.len(),
        a@.take(i as int) == b@.take(i as int),
    ensures
        (r is Less) == text_lt(a@, b@),
        (r is Equal) == (a@ == b@),
        (r is Greater) == text_lt(b@, a@),
    decreases a@.len() - i,
{
    proof {
        lemma_text_lt_skip(a@, b@, i as int);
    }
    let la = a.unicode_len();
    let lb = b.unicode_len();
    if i == la && i == lb {
        proof {
            assert(a@ =~= a@.take(i as int));
            assert(b@ =~= b@.take(i as int));
            lemma_text_lt_irreflexive(a@);
        }
        KeyOrder::Equal
    } else if i == la {
        proof {
            assert(a@ != b@);
            lemma_text_lt_asymmetric(a@.skip(i as int), b@.skip(i as int));
        }
        KeyOrder::Less
    } else if i == lb {
        proof {
            assert(a@.len() != b@.len());
            lemma_text_lt_asymmetric(b@.skip(i as int), a@.skip(i as int));
        }
        KeyOrder::Greater
    } else {
        let ca = a.get_char(i);
        let cb = b.get_char(i);
        if (ca as u32) < (cb as u32) {
            proof {
                assert(a@[i as int] != b@[i as int]);
                assert(a@.skip(i as int)[0] == a@[i as int]);
                assert(b@.skip(i as int)[0] == b@[i as int]);
                lemma_text_lt_asymmetric(a@.skip(i as int), b@.skip(i as int));
            }
            KeyOrder::Less
        } else if (cb as u32) < (ca as u32) {
            proof {
                assert(a@[i as int] != b@[i as int]);
                assert(a@.skip(i as int)[0] == a@[i as int]);
                assert(b@.skip(i as int)[0] == b@[i as int]);
                lemma_text_lt_asymmetric(b@.skip(i as int), a@.skip(i as int));
            }
            KeyOrder::Greater
        } else {
            proof {
                assert(a@.take(i + 1) =~= a@.take(i as int).push(a@[i as int]));
                assert(b@.take(i + 1) =~= b@.take(i as int).push(b@[i as int]));
                assert(a@[i as int] == b@[i as int]);
            }
            compare_text_from(a, b, i + 1)
        }
    }
}

/// When `a` and `b` agree on their first `i` characters, their order is that of what
/// follows.
proof fn lemma_text_lt_skip(a: Seq<char>, b: Seq<char>, i: int)
    requires
        0 <= i <= a.len(),
        i <= b.len(),
        a.take(i) == b.take(i),
    ensures
        text_lt(a, b) == text_lt(a.skip(i), b.skip(i)),
        text_lt(b, a) == text_lt(b.skip(i), a.skip(i)),
        (a == b) == (a.skip(i) == b.skip(i)),
    decreases i,
{
    if i > 0 {
        assert(a[0] == a.take(i)[0]);
        assert(b[0] == b.take(i)[0]);
        assert(a.drop_first().take(i - 1) =~= a.take(i).drop_first());
        assert(b.drop_first().take(i - 1) =~= b.take(i).drop_first());
        lemma_text_lt_skip(a.drop_first(), b.drop_first(), i - 1);
        assert(a.drop_first().skip(i - 1) =~= a.skip(i));
        assert(b.drop_first().skip(i - 1) =~= b.skip(i));
        if a.drop_first() == b.drop_first() {
            assert(a =~= seq![a[0]] + a.drop_first());
            assert(b =~= seq![b[0]] + b.drop_first());
        }
    } else {
        assert(a.skip(0) =~= a);
        assert(b.skip(0) =~= b);
    }
}

/// Compare two texts in the order of texts.
pub fn compare_text(a: &str, b: &str) -> (r: KeyOrder)
    ensures
        (r is Less) == text_lt(a@, b@),
        (r is Equal) == (a@ == b@),
        (r is Greater) == text_lt(b@, a@),
{
    proof {
        assert(a@.take(0) =~= b@.take(0));
    }
    compare_text_from(a, b, 0)
}

} // verus!

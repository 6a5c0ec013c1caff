//! A string whose bytes are kept in a pool-backed array.
use vstd::prelude::*;
use vstd::std_specs::cmp::{PartialEqSpecImpl, PartialOrdSpecImpl};
use vstd::string::StringSliceAdditionalSpecFns;

use super::vec::{grown_capacity, reserve_spec, LpVec};
use crate::pool::allocator::{dealloc_spec, LpAllocator, PoolView};
use crate::pool::error::AllocError;

verus! {

/// Appending `bytes` one at a time to a byte array of length `len` and capacity `cap`
/// whose buffer (if `cap > 0`) is the allocation at `data` of the pool at `base` in
/// state `p`, where a full array first grows as `LpVec::try_push` grows it: what comes
/// back, how many bytes were appended, and the capacity, buffer address and pool after
/// it. The first error stops the appending.
pub open spec fn push_bytes_spec(base: int, p: PoolView, len: int, cap: int, data: int, bytes: Seq<u8>) -> (
    Result<(), AllocError>,
    nat,
    int,
    int,
    PoolView,
)
    decreases bytes.len(),
{
    if bytes.len() == 0 {
        (Ok(()), 0, cap, data, p)
    } else if len < cap {
        let (r, k, c, d, q) = push_bytes_spec(base, p, len + 1, cap, data, bytes.drop_first());
        (r, k + 1, c, d, q)
    } else {
        let (rr, c1, d1, q1) = reserve_spec::<u8>(base, p, cap, data, grown_capacity(cap));
        if rr is Err {
            (rr, 0, cap, data, p)
        } else {
            let (r, k, c, d, q) = push_bytes_spec(base, q1, len + 1, c1, d1, bytes.drop_first());
            (r, k + 1, c, d, q)
        }
    }
}

/// Compare two byte strings lexicographically: -1, 0 or 1.
pub open spec fn bytes_order(a: Seq<u8>, b: Seq<u8>) -> int
    decreases a.len(),
{
    if a.len() == 0 && b.len() == 0 {
        0
    } else if a.len() == 0 {
        -1
    } else if b.len() == 0 {
        1
    } else if a[0] < b[0] {
        -1
    } else if a[0] > b[0] {
        1
    } else {
        bytes_order(a.drop_first(), b.drop_first())
    }
}

/// Compare two byte strings lexicographically.
fn compare_bytes(a: &[u8], b: &[u8]) -> (r: i8)
    ensures
        r == bytes_order(a@, b@),
{
    let mut i: usize = 0;
    proof {
        assert(a@.skip(0) =~= a@);
        assert(b@.skip(0) =~= b@);
    }
    while i < a.len() && i < b.len()
        invariant
            i <= a@.len(),
            i <= b@.len(),
            bytes_order(a@, b@) == bytes_order(a@.skip(i as int), b@.skip(i as int)),
        decreases a@.len() - i,
    {
        let x = a[i];
        let y = b[i];
        proof {
            assert(a@.skip(i as int)[0] == x);
            assert(b@.skip(i as int)[0] == y);
        }
        if x < y {
            return -1;
        }
        if x > y {
            return 1;
        }
        proof {
            assert(a@.skip(i as int).drop_first() =~= a@.skip(i + 1));
            assert(b@.skip(i as int).drop_first() =~= b@.skip(i + 1));
        }
        i = i + 1;
    }
    if i < a.len() {
        1
    } else if i < b.len() {
        -1
    } else {
        0
    }
}

/// Byte strings compare equal exactly when they are equal.
pub proof fn lemma_bytes_order_eq(a: Seq<u8>, b: Seq<u8>)
    ensures
        (bytes_order(a, b) == 0) == (a == b),
    decreases a.len(),
{
    if a.len() == 0 && b.len() == 0 {
        assert(a =~= b);
    }
    if a.len() > 0 && b.len() > 0 && a[0] == b[0] {
        lemma_bytes_order_eq(a.drop_first(), b.drop_first());
        if a.drop_first() == b.drop_first() {
            assert(a =~= seq![a[0]] + a.drop_first());
            assert(b =~= seq![b[0]] + b.drop_first());
        }
    }
}

/// Comparing the other way round gives the opposite answer.
pub proof fn lemma_bytes_order_antisymmetric(a: Seq<u8>, b: Seq<u8>)
    ensures
        bytes_order(a, b) == -bytes_order(b, a),
    decreases a.len(),
{
    if a.len() > 0 && b.len() > 0 && a[0] == b[0] {
        lemma_bytes_order_antisymmetric(a.drop_first(), b.drop_first());
    }
}

/// The order of byte strings is transitive.
pub proof fn lemma_bytes_order_transitive(a: Seq<u8>, b: Seq<u8>, c: Seq<u8>)
    requires
        bytes_order(a, b) < 0,
        bytes_order(b, c) < 0,
    ensures
        bytes_order(a, c) < 0,
    decreases a.len(),
{
    if a.len() > 0 && b.len() > 0 && c.len() > 0 && a[0] == b[0] && b[0] == c[0] {
        lemma_bytes_order_transitive(a.drop_first(), b.drop_first(), c.drop_first());
    }
}

/// A string whose bytes live in a pool-backed array.
#[derive(Debug)]
pub struct LpString {
    vec: LpVec<u8>,
}

impl LpString {
    /// The bytes of the string.
    pub closed spec fn view(&self) -> Seq<u8> {
        self.vec.view()
    }

    /// The byte array behind the string.
    pub closed spec fn bytes(&self) -> LpVec<u8> {
        self.vec
    }

    /// The byte array is well formed.
    pub open spec fn wf(&self) -> bool {
        self.bytes().wf()
    }

    /// The array's buffer, if any, is an allocation of `pool`.
    pub open spec fn buffer_in(&self, pool: &LpAllocator) -> bool {
        self.bytes().buffer_in(pool)
    }

    /// The byte array's buffer, when there is one, is an allocation of `pool`.
    pub fn is_backed_by(&self, pool: &LpAllocator) -> (r: bool)
        requires
            pool.wf(),
        ensures
            r == self.buffer_in(pool),
    {
        self.vec.is_backed_by(pool)
    }

    /// Capacity of the byte array.
    pub fn capacity(&self) -> (r: usize)
        ensures
            r == self.bytes().cap(),
    {
        self.vec.capacity()
    }

    /// An empty string.
    pub fn new() -> (r: LpString)
        ensures
            r.wf(),
            r.view() == Seq::<u8>::empty(),
            r.bytes().cap() == 0,
            r.bytes().data_addr() == 0,
    {
        LpString { vec: LpVec::new() }
    }

    /// An empty string; the scope would name it in the allocation statistics by type
    /// and scope (`AllocStats`), which its caller keeps.
    pub fn new_with_scope(_scope: Option<&'static str>) -> (r: LpString)
        ensures
            r.wf(),
            r.view() == Seq::<u8>::empty(),
            r.bytes().cap() == 0,
    {
        LpString::new()
    }

    /// Append the bytes of `s`, one at a time, each as `LpVec::try_push` appends it.
    /// On an error the bytes appended before it stay.
    pub fn try_push_str(&mut self, pool: &mut LpAllocator, s: &str) -> (r: Result<(), AllocError>)
        requires
            old(self).wf(),
            old(pool).wf(),
            old(self).buffer_in(old(pool)),
            old(self).bytes().cap() + s.spec_bytes().len() <= usize::MAX / 2,
        ensures
            final(self).wf(),
            final(pool).wf(),
            final(self).buffer_in(final(pool)),
            final(pool).base_addr() == old(pool).base_addr(),
            final(pool).cap() == old(pool).cap(),
            ({
                let (rr, k, c, d, q) = push_bytes_spec(
                    old(pool).base_addr(),
                    old(pool).view(),
                    old(self).view().len() as int,
                    old(self).bytes().cap(),
                    old(self).bytes().data_addr(),
                    s.spec_bytes(),
                );
                &&& r == rr
                &&& k <= s.spec_bytes().len()
                &&& final(self).view() == old(self).view() + s.spec_bytes().take(k as int)
                &&& final(self).bytes().cap() == c
                &&& final(self).bytes().data_addr() == d
                &&& final(pool).view() == q
            }),
            r is Ok ==> final(self).view() == old(self).view() + s.spec_bytes(),
            old(self).view().len() + s.spec_bytes().len() <= old(self).bytes().cap() ==> r is Ok
                && final(pool).view() == old(pool).view(),
    {
        let bytes = s.as_bytes();
        let mut i: usize = 0;
        let ghost v0 = self.view();
        let ghost base = pool.base_addr();
        let ghost spec_r = push_bytes_spec(
            base,
            pool.view(),
            self.view().len() as int,
            self.bytes().cap(),
            self.bytes().data_addr(),
            bytes@,
        );
        proof {
            assert(bytes@.skip(0) =~= bytes@);
        }
        while i < bytes.len()
            invariant
                self.wf(),
                pool.wf(),
                self.buffer_in(pool),
                pool.base_addr() == base,
                base == old(pool).base_addr(),
                pool.cap() == old(pool).cap(),
                bytes@ == s.spec_bytes(),
                i <= bytes@.len(),
                self.view() == v0 + bytes@.take(i as int),
                v0 == old(self).view(),
                old(self).bytes().cap() + bytes@.len() <= usize::MAX / 2,
                old(self).view().len() <= old(self).bytes().cap(),
                old(self).view().len() + bytes@.len() <= old(self).bytes().cap() ==> (
                pool.view() == old(pool).view() && self.bytes().cap() == old(self).bytes().cap()),
                spec_r == push_bytes_spec(
                    old(pool).base_addr(),
                    old(pool).view(),
                    old(self).view().len() as int,
                    old(self).bytes().cap(),
                    old(self).bytes().data_addr(),
                    s.spec_bytes(),
                ),
                spec_r.1 >= i,
                push_bytes_spec(
                    base,
                    pool.view(),
                    self.view().len() as int,
                    self.bytes().cap(),
                    self.bytes().data_addr(),
                    bytes@.skip(i as int),
                ) == (spec_r.0, (spec_r.1 - i) as nat, spec_r.2, spec_r.3, spec_r.4),
            decreases bytes@.len() - i,
        {
            let b = bytes[i];
            proof {
                assert(bytes@.skip(i as int).drop_first() =~= bytes@.skip(i + 1));
            }
            match self.vec.try_push(pool, b) {
                Ok(()) => {},
                Err(e) => {
                    return Err(e);
                },
            }
            proof {
                assert(bytes@.take(i + 1) =~= bytes@.take(i as int).push(b));
            }
            i = i + 1;
        }
        proof {
            assert(bytes@.take(i as int) =~= bytes@);
            assert(bytes@.skip(i as int) =~= Seq::<u8>::empty());
        }
        Ok(())
    }

    /// Number of bytes.
    pub fn len(&self) -> (r: usize)
        ensures
            r == self.view().len(),
    {
        self.vec.len()
    }

    /// The string has no bytes.
    pub fn is_empty(&self) -> (r: bool)
        ensures
            r == (self.view().len() == 0),
    {
        self.vec.is_empty()
    }

    /// A new string holding the bytes of `s`.
    pub fn try_from_str(pool: &mut LpAllocator, s: &str) -> (r: Result<LpString, AllocError>)
        requires
            old(pool).wf(),
            s.spec_bytes().len() <= usize::MAX / 2,
        ensures
            final(pool).wf(),
            final(pool).base_addr() == old(pool).base_addr(),
            final(pool).cap() == old(pool).cap(),
            ({
                let (rr, k, c, d, q) = push_bytes_spec(
                    old(pool).base_addr(),
                    old(pool).view(),
                    0,
                    0,
                    0,
                    s.spec_bytes(),
                );
                match rr {
                    Ok(()) => r matches Ok(t) && t.wf() && t.buffer_in(final(pool)) && t.view()
                        == s.spec_bytes() && final(pool).view() == q,
                    Err(e) => r == Err::<LpString, AllocError>(e) && final(pool).view() == (if c
                        > 0 {
                        dealloc_spec(old(pool).base_addr(), q, d)
                    } else {
                        q
                    }),
                }
            }),
    {
        LpString::try_from_str_with_scope(pool, s, None)
    }

    /// A new string holding the bytes of `s`; the scope would name it in the allocation
    /// statistics by type and scope (`AllocStats`), which its caller keeps.
    pub fn try_from_str_with_scope(pool: &mut LpAllocator, s: &str, _scope: Option<&'static str>) -> (r: Result<LpString, AllocError>)
        requires
            old(pool).wf(),
            s.spec_bytes().len() <= usize::MAX / 2,
        ensures
            final(pool).wf(),
            final(pool).base_addr() == old(pool).base_addr(),
            final(pool).cap() == old(pool).cap(),
            ({
                let (rr, k, c, d, q) = push_bytes_spec(
                    old(pool).base_addr(),
                    old(pool).view(),
                    0,
                    0,
                    0,
                    s.spec_bytes(),
                );
                match rr {
                    Ok(()) => r matches Ok(t) && t.wf() && t.buffer_in(final(pool)) && t.view()
                        == s.spec_bytes() && final(pool).view() == q,
                    Err(e) => r == Err::<LpString, AllocError>(e) && final(pool).view() == (if c
                        > 0 {
                        dealloc_spec(old(pool).base_addr(), q, d)
                    } else {
                        q
                    }),
                }
            }),
    {
        let mut string = LpString::new();
        match string.try_push_str(pool, s) {
            Ok(()) => {
                proof {
                    assert(Seq::<u8>::empty() + s.spec_bytes() =~= s.spec_bytes());
                }
                Ok(string)
            },
            Err(e) => {
                string.free(pool);
                Err(e)
            },
        }
    }

    /// The bytes of the string.
    pub fn as_bytes(&self) -> (r: &[u8])
        ensures
            r@ == self.view(),
    {
        self.vec.as_raw_slice()
    }

    /// Give the byte array's buffer back to `pool`.
    pub fn free(self, pool: &mut LpAllocator)
        requires
            self.wf(),
            old(pool).wf(),
            self.buffer_in(old(pool)),
        ensures
            final(pool).wf(),
            final(pool).base_addr() == old(pool).base_addr(),
            final(pool).cap() == old(pool).cap(),
            self.bytes().cap() > 0 ==> final(pool).view() == dealloc_spec(
                old(pool).base_addr(),
                old(pool).view(),
                self.bytes().data_addr(),
            ),
            self.bytes().cap() == 0 ==> final(pool).view() == old(pool).view(),
    {
        let _ = self.vec.free(pool);
    }
}

impl Default for LpString {
    /// The same as `new`.
    fn default() -> (r: LpString)
        ensures
            r.wf(),
            r.view() == Seq::<u8>::empty(),
            r.bytes().cap() == 0,
    {
        LpString::new()
    }
}

impl PartialEq for LpString {
    fn eq(&self, other: &Self) -> (r: bool) {
        proof {
            lemma_bytes_order_eq(self.view(), other.view());
        }
        compare_bytes(self.vec.as_raw_slice(), other.vec.as_raw_slice()) == 0
    }
}

impl PartialEqSpecImpl for LpString {
    open spec fn obeys_eq_spec() -> bool {
        true
    }

    open spec fn eq_spec(&self, other: &LpString) -> bool {
        self.view() == other.view()
    }
}

impl PartialEq<str> for LpString {
    fn eq(&self, other: &str) -> (r: bool) {
        proof {
            lemma_bytes_order_eq(self.view(), other.spec_bytes());
        }
        compare_bytes(self.vec.as_raw_slice(), other.as_bytes()) == 0
    }
}

impl PartialEqSpecImpl<str> for LpString {
    open spec fn obeys_eq_spec() -> bool {
        true
    }

    open spec fn eq_spec(&self, other: &str) -> bool {
        self.view() == other.spec_bytes()
    }
}

impl<'a> PartialEq<&'a str> for LpString {
    fn eq(&self, other: &&'a str) -> (r: bool) {
        proof {
            lemma_bytes_order_eq(self.view(), other.spec_bytes());
        }
        compare_bytes(self.vec.as_raw_slice(), other.as_bytes()) == 0
    }
}

impl<'a> PartialEqSpecImpl<&'a str> for LpString {
    open spec fn obeys_eq_spec() -> bool {
        true
    }

    open spec fn eq_spec(&self, other: &&'a str) -> bool {
        self.view() == other.spec_bytes()
    }
}

impl PartialOrd for LpString {
    fn partial_cmp(&self, other: &Self) -> (r: Option<core::cmp::Ordering>) {
        let c = compare_bytes(self.vec.as_raw_slice(), other.vec.as_raw_slice());
        if c < 0 {
            Some(core::cmp::Ordering::Less)
        } else if c > 0 {
            Some(core::cmp::Ordering::Greater)
        } else {
            Some(core::cmp::Ordering::Equal)
        }
    }
}

impl PartialOrdSpecImpl for LpString {
    open spec fn obeys_partial_cmp_spec() -> bool {
        true
    }

    open spec fn partial_cmp_spec(&self, other: &LpString) -> Option<core::cmp::Ordering> {
        let c = bytes_order(self.view(), other.view());
        if c < 0 {
            Some(core::cmp::Ordering::Less)
        } else if c > 0 {
            Some(core::cmp::Ordering::Greater)
        } else {
            Some(core::cmp::Ordering::Equal)
        }
    }
}

} // verus!

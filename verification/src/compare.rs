//! Equality and order of identifiers: both go by the sixteen bytes, the first
//! byte first, which is the order of the payloads as integers and puts the
//! smaller timestamp first.

use crate::layout::{be_value, payload_value, timestamp_of};
use crate::uuid::Uuid7;
use core::cmp::Ordering;
use vstd::prelude::*;

verus! {

/// Whether `k` is the first position where `a` and `b` differ.
pub open spec fn differ_first_at(a: Seq<u8>, b: Seq<u8>, k: int) -> bool {
    &&& 0 <= k < 16
    &&& a[k] != b[k]
    &&& forall|j: int| 0 <= j < k ==> a[j] == b[j]
}

/// Whether `a` comes before `b` byte by byte: at the first position where the
/// two differ, `a` holds the smaller byte.
pub open spec fn bytes_before(a: Seq<u8>, b: Seq<u8>) -> bool {
    exists|k: int| differ_first_at(a, b, k) && a[k] < b[k]
}

/// The first position where two payloads differ, or `None` where they are
/// equal.
fn first_difference(a: &[u8; 16], b: &[u8; 16]) -> (r: Option<usize>)
    ensures
        r is None <==> a@ == b@,
        r matches Some(i) ==> differ_first_at(a@, b@, i as int),
{
    let mut i: usize = 0;
    while i < 16
        invariant
            i <= 16,
            forall|j: int| 0 <= j < i ==> a@[j] == b@[j],
        decreases 16 - i,
    {
        if a[i] != b[i] {
            return Some(i);
        }
        i += 1;
    }
    assert(a@ =~= b@);
    None
}

impl PartialEq for Uuid7 {
    fn eq(&self, other: &Uuid7) -> (r: bool) {
        first_difference(self.as_bytes(), other.as_bytes()).is_none()
    }
}

impl vstd::std_specs::cmp::PartialEqSpecImpl for Uuid7 {
    open spec fn obeys_eq_spec() -> bool {
        true
    }

    open spec fn eq_spec(&self, other: &Uuid7) -> bool {
        self@ == other@
    }
}

impl PartialOrd for Uuid7 {
    fn partial_cmp(&self, other: &Uuid7) -> (r: Option<Ordering>) {
        let a = self.as_bytes();
        let b = other.as_bytes();
        match first_difference(a, b) {
            None => Some(Ordering::Equal),
            Some(i) => {
                if a[i] < b[i] {
                    Some(Ordering::Less)
                } else {
                    Some(Ordering::Greater)
                }
            },
        }
    }
}

impl vstd::std_specs::cmp::PartialOrdSpecImpl for Uuid7 {
    open spec fn obeys_partial_cmp_spec() -> bool {
        true
    }

    open spec fn partial_cmp_spec(&self, other: &Uuid7) -> Option<Ordering> {
        if self@ == other@ {
            Some(Ordering::Equal)
        } else if bytes_before(self@, other@) {
            Some(Ordering::Less)
        } else {
            Some(Ordering::Greater)
        }
    }
}

/// A payload with the smaller timestamp field comes first byte by byte,
/// whatever the other bits are.
pub proof fn lemma_smaller_timestamp_first(a: Seq<u8>, b: Seq<u8>)
    requires
        timestamp_of(a) < timestamp_of(b),
    ensures
        bytes_before(a, b),
{
    if a[0] != b[0] {
        assert(differ_first_at(a, b, 0));
    } else if a[1] != b[1] {
        assert(differ_first_at(a, b, 1));
    } else if a[2] != b[2] {
        assert(differ_first_at(a, b, 2));
    } else if a[3] != b[3] {
        assert(differ_first_at(a, b, 3));
    } else if a[4] != b[4] {
        assert(differ_first_at(a, b, 4));
    } else {
        assert(differ_first_at(a, b, 5));
    }
}

/// Whether `a` comes before `b` on their first `n` bytes.
spec fn prefix_before(a: Seq<u8>, b: Seq<u8>, n: int) -> bool {
    exists|k: int| 0 <= k < n && differ_first_at(a, b, k) && a[k] < b[k]
}

/// Whether `a` and `b` agree on their first `n` bytes.
spec fn prefix_equal(a: Seq<u8>, b: Seq<u8>, n: int) -> bool {
    forall|j: int| 0 <= j < n ==> a[j] == b[j]
}

/// An integer that fits in `s` bits, with one more byte shifted in below it,
/// fits in `s + 8` bits.
proof fn lemma_shift_in_fits(v: u128, b: u8, s: u128, t: u128)
    by (bit_vector)
    requires
        s <= 112,
        t == s + 8,
        v >> s == 0,
    ensures
        ((v << 8) | (b as u128)) >> t == 0,
{
}

/// An integer that fits in at most 120 bits fits in 120 bits.
proof fn lemma_fits_in_120(v: u128, s: u128)
    by (bit_vector)
    requires
        s <= 120,
        v >> s == 0,
    ensures
        v >> 120 == 0,
{
}

/// Two integers of at most 120 bits, each with one more byte shifted in below
/// it, compare as the integers do and, where those are equal, as the bytes do.
proof fn lemma_shift_in_order(v: u128, b: u8, w: u128, c: u8)
    by (bit_vector)
    requires
        v >> 120 == 0,
        w >> 120 == 0,
    ensures
        ((v << 8) | (b as u128)) < ((w << 8) | (c as u128)) <==> v < w || (v == w && b < c),
        ((v << 8) | (b as u128)) == ((w << 8) | (c as u128)) <==> v == w && b == c,
{
}

/// The first `n` bytes as one integer fit in `8 * n` bits.
proof fn lemma_be_value_fits(bytes: Seq<u8>, n: nat)
    requires
        n <= 15,
    ensures
        be_value(bytes, n) >> ((8 * n) as u128) == 0,
        be_value(bytes, n) >> 120 == 0,
    decreases n,
{
    if n == 0 {
        assert(0u128 >> 0u128 == 0) by (bit_vector);
    } else {
        let m = (n - 1) as nat;
        lemma_be_value_fits(bytes, m);
        lemma_shift_in_fits(be_value(bytes, m), bytes[n - 1], (8 * m) as u128, (8 * n) as u128);
    }
    lemma_fits_in_120(be_value(bytes, n), (8 * n) as u128);
}

/// On their first `n` bytes, two payloads compare byte by byte as they do as
/// integers.
proof fn lemma_prefix_order(a: Seq<u8>, b: Seq<u8>, n: nat)
    requires
        n <= 16,
    ensures
        be_value(a, n) < be_value(b, n) <==> prefix_before(a, b, n as int),
        be_value(a, n) == be_value(b, n) <==> prefix_equal(a, b, n as int),
    decreases n,
{
    if n > 0 {
        let m = (n - 1) as nat;
        lemma_prefix_order(a, b, m);
        lemma_be_value_fits(a, m);
        lemma_be_value_fits(b, m);
        lemma_shift_in_order(be_value(a, m), a[m as int], be_value(b, m), b[m as int]);
        if prefix_equal(a, b, m as int) && a[m as int] < b[m as int] {
            assert(differ_first_at(a, b, m as int));
        }
    }
}

/// Two payloads compare byte by byte as they do as 128-bit integers, and are
/// the same exactly when the integers are.
pub proof fn lemma_integer_order(a: Seq<u8>, b: Seq<u8>)
    requires
        a.len() == 16,
        b.len() == 16,
    ensures
        bytes_before(a, b) <==> payload_value(a) < payload_value(b),
        a == b <==> payload_value(a) == payload_value(b),
{
    lemma_prefix_order(a, b, 16);
    if prefix_equal(a, b, 16) {
        assert(a =~= b);
    }
}

} // verus!

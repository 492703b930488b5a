//! The layout of the 128-bit payload, over plain sequences of bytes: where
//! the timestamp, the version, the variant and the random bits stand, and the
//! payload as one integer.

use vstd::prelude::*;

verus! {

/// Whether `bytes` is a payload of sixteen bytes whose version field, the high
/// half of byte 6, is 7 and whose variant field, the two high bits of byte 8,
/// is binary `10`.
pub open spec fn is_v7(bytes: Seq<u8>) -> bool {
    &&& bytes.len() == 16
    &&& bytes[6] / 16 == 7
    &&& bytes[8] / 64 == 2
}

/// The part of a millisecond count that the timestamp field holds: its low 48
/// bits.
pub open spec fn timestamp_field(unix_millis: u64) -> int {
    unix_millis as int % 0x1_0000_0000_0000
}

/// The part of ten random bytes that the payload holds: all their bits but
/// the high half of the first byte and the two high bits of the third, which
/// the version and the variant replace.
pub open spec fn random_field(random: Seq<u8>) -> Seq<u8>
    recommends
        random.len() == 10,
{
    random.update(0, random[0] % 16).update(2, random[2] % 64)
}

/// The timestamp field of a payload: its first six bytes as one number, the
/// first byte the most significant.
pub open spec fn timestamp_of(bytes: Seq<u8>) -> int
    recommends
        bytes.len() == 16,
{
    bytes[0] as int * 0x100_0000_0000 + bytes[1] as int * 0x1_0000_0000 + bytes[2] as int
        * 0x100_0000 + bytes[3] as int * 0x1_0000 + bytes[4] as int * 0x100 + bytes[5] as int
}

/// The payload made of a millisecond count and ten random bytes.
///
/// Bytes 0 to 5 are the low 48 bits of the count, the most significant byte
/// first. Byte 6 is the version 7 above the low half of `random[0]`, byte 7 is
/// `random[1]`, byte 8 is the variant `10` above the low six bits of
/// `random[2]`, and bytes 9 to 15 are `random[3]` to `random[9]`.
pub open spec fn assemble(unix_millis: u64, random: Seq<u8>) -> Seq<u8>
    recommends
        random.len() == 10,
{
    seq![
        (unix_millis / 0x100_0000_0000 % 256) as u8,
        (unix_millis / 0x1_0000_0000 % 256) as u8,
        (unix_millis / 0x100_0000 % 256) as u8,
        (unix_millis / 0x1_0000 % 256) as u8,
        (unix_millis / 0x100 % 256) as u8,
        (unix_millis % 256) as u8,
        (0x70 + random[0] % 16) as u8,
        random[1],
        (0x80 + random[2] % 64) as u8,
        random[3],
        random[4],
        random[5],
        random[6],
        random[7],
        random[8],
        random[9],
    ]
}

/// The first `n` bytes of `bytes` as one integer, the first byte the most
/// significant.
pub open spec fn be_value(bytes: Seq<u8>, n: nat) -> u128
    recommends
        n <= bytes.len(),
        n <= 16,
    decreases n,
{
    if n == 0 {
        0
    } else {
        (be_value(bytes, (n - 1) as nat) << 8) | (bytes[n - 1] as u128)
    }
}

/// A payload of sixteen bytes as one 128-bit integer.
pub open spec fn payload_value(bytes: Seq<u8>) -> u128
    recommends
        bytes.len() == 16,
{
    be_value(bytes, 16)
}

/// The `i`-th byte of a 128-bit integer, byte 0 being the most significant.
pub open spec fn byte_of(value: u128, i: int) -> u8
    recommends
        0 <= i < 16,
{
    ((value >> ((120 - 8 * i) as u128)) & 0xff) as u8
}

/// Shifting one more byte in below an integer moves every byte that stays
/// within 128 bits up by one place, and puts the new byte in the lowest place.
proof fn lemma_shift_in(v: u128, b: u8, s: u128, t: u128)
    by (bit_vector)
    requires
        s <= 112,
        t == s + 8,
    ensures
        ((((v << 8) | (b as u128)) >> t) & 0xff) as u8 == ((v >> s) & 0xff) as u8,
        ((((v << 8) | (b as u128)) >> 0u128) & 0xff) as u8 == b,
{
}

/// Of the first `n` bytes as one integer, byte `i` stands `n - 1 - i` places
/// above the lowest.
proof fn lemma_be_value_holds(bytes: Seq<u8>, n: nat, i: int)
    requires
        n <= 16,
        0 <= i < n,
    ensures
        ((be_value(bytes, n) >> ((8 * (n - 1 - i)) as u128)) & 0xff) as u8 == bytes[i],
    decreases n,
{
    let below = be_value(bytes, (n - 1) as nat);
    if i == n - 1 {
        lemma_shift_in(below, bytes[n - 1], 0, 8);
    } else {
        lemma_be_value_holds(bytes, (n - 1) as nat, i);
        lemma_shift_in(
            below,
            bytes[n - 1],
            (8 * (n - 2 - i)) as u128,
            (8 * (n - 1 - i)) as u128,
        );
    }
}

/// The payload as one integer holds byte `i` of the payload in its `i`-th
/// byte, counted from the most significant: shifting the integer right by
/// `120 - 8 * i` bits and keeping the low eight gives that byte.
pub proof fn lemma_value_holds_bytes(bytes: Seq<u8>)
    requires
        bytes.len() == 16,
    ensures
        forall|i: int| 0 <= i < 16 ==> #[trigger] byte_of(payload_value(bytes), i) == bytes[i],
{
    assert forall|i: int| 0 <= i < 16 implies #[trigger] byte_of(payload_value(bytes), i)
        == bytes[i] by {
        lemma_be_value_holds(bytes, 16, i);
    }
}

/// The six low bytes of a count, each at its place, add up to the count cut
/// down to 48 bits.
proof fn lemma_six_bytes(m: u64)
    by (bit_vector)
    ensures
        (m / 0x100_0000_0000 % 256) * 0x100_0000_0000 + (m / 0x1_0000_0000 % 256) * 0x1_0000_0000
            + (m / 0x100_0000 % 256) * 0x100_0000 + (m / 0x1_0000 % 256) * 0x1_0000 + (m / 0x100
            % 256) * 0x100 + m % 256 == m % 0x1_0000_0000_0000,
{
}

/// The timestamp field of an assembled payload holds the low 48 bits of the
/// millisecond count it was assembled from.
pub proof fn lemma_assembled_timestamp(unix_millis: u64, random: Seq<u8>)
    ensures
        timestamp_of(assemble(unix_millis, random)) == timestamp_field(unix_millis),
{
    lemma_six_bytes(unix_millis);
}

/// An assembled payload carries version 7 and the variant `10`.
pub proof fn lemma_assembled_is_v7(unix_millis: u64, random: Seq<u8>)
    ensures
        is_v7(assemble(unix_millis, random)),
{
}

/// Two counts with the same low 48 bits have the same six low bytes.
proof fn lemma_same_field_same_bytes(m: u64, n: u64)
    by (bit_vector)
    requires
        m % 0x1_0000_0000_0000 == n % 0x1_0000_0000_0000,
    ensures
        m / 0x100_0000_0000 % 256 == n / 0x100_0000_0000 % 256,
        m / 0x1_0000_0000 % 256 == n / 0x1_0000_0000 % 256,
        m / 0x100_0000 % 256 == n / 0x100_0000 % 256,
        m / 0x1_0000 % 256 == n / 0x1_0000 % 256,
        m / 0x100 % 256 == n / 0x100 % 256,
        m % 256 == n % 256,
{
}

/// Two assembled payloads are the same exactly when their timestamp fields
/// and their random fields are: a bit of the count above the 48th, and a
/// random bit that the version or the variant replaces, makes no difference,
/// and every other bit does.
pub proof fn lemma_assembled_equal(m: u64, random: Seq<u8>, n: u64, other: Seq<u8>)
    requires
        random.len() == 10,
        other.len() == 10,
    ensures
        assemble(m, random) == assemble(n, other) <==> timestamp_field(m) == timestamp_field(n)
            && random_field(random) == random_field(other),
{
    let a = assemble(m, random);
    let b = assemble(n, other);
    if a == b {
        lemma_assembled_timestamp(m, random);
        lemma_assembled_timestamp(n, other);
        assert(a[11] == b[11] && a[12] == b[12] && a[13] == b[13] && a[14] == b[14] && a[15]
            == b[15]);
        assert(random_field(random) =~= random_field(other));
    }
    if timestamp_field(m) == timestamp_field(n) && random_field(random) == random_field(other) {
        lemma_same_field_same_bytes(m, n);
        let r = random_field(random);
        let o = random_field(other);
        assert(r[0] == o[0] && r[1] == o[1] && r[2] == o[2] && r[3] == o[3] && r[4] == o[4]);
        assert(r[5] == o[5] && r[6] == o[6] && r[7] == o[7] && r[8] == o[8] && r[9] == o[9]);
    }
}

} // verus!

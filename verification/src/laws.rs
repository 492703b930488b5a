//! What holds of the library as a whole, each law stated of identifiers:
//! parsing and formatting undo each other, the text of every identifier has
//! the canonical shape, the payload as an integer holds the bytes of the
//! payload, and identifiers sort by the time they were made at, which is the
//! order of their integers.

use crate::compare::{lemma_integer_order, lemma_smaller_timestamp_first};
use crate::error::ParseErrorKind;
use crate::layout::{
    assemble, byte_of, lemma_assembled_equal, lemma_assembled_timestamp,
    lemma_value_holds_bytes, payload_value, random_field, timestamp_field, timestamp_of,
};
use crate::text::{
    canonical_text, is_canonical, lemma_parse_of_text, lemma_text_is_canonical,
    lemma_text_of_parse, parse,
};
use crate::uuid::Uuid7;
use core::cmp::Ordering;
use vstd::prelude::*;
use vstd::std_specs::cmp::PartialOrdSpec;

verus! {

/// Parsing undoes formatting: the text of an identifier parses, and to the
/// payload of that identifier, which no other identifier has.
pub proof fn lemma_parse_inverts_format(id: Uuid7)
    requires
        id.wf(),
    ensures
        parse(canonical_text(id@)) == Ok::<Seq<u8>, ParseErrorKind>(id@),
        forall|other: Uuid7| #[trigger] other@ == id@ ==> other == id,
{
    lemma_parse_of_text(id@);
    assert forall|other: Uuid7| #[trigger] other@ == id@ implies other == id by {
        Uuid7::lemma_view_injective(other, id);
    }
}

/// Formatting undoes parsing of lower-case text: where a text of the
/// canonical shape parses to an identifier, the text of the identifier is
/// that text.
pub proof fn lemma_format_inverts_parse(s: Seq<char>, id: Uuid7)
    requires
        is_canonical(s),
        parse(s) == Ok::<Seq<u8>, ParseErrorKind>(id@),
    ensures
        canonical_text(id@) == s,
{
    lemma_text_of_parse(s);
}

/// The text of every identifier has the canonical shape: 36 characters, a
/// dash at positions 8, 13, 18 and 23 and a lower-case hexadecimal digit
/// everywhere else, the digit `7` at position 14, and one of `8`, `9`, `a`,
/// `b` at position 19.
pub proof fn lemma_canonical_shape(id: Uuid7)
    requires
        id.wf(),
    ensures
        is_canonical(canonical_text(id@)),
{
    lemma_text_is_canonical(id@);
}

/// The payload as one integer and the payload as sixteen bytes agree: byte
/// `i` of the integer, counted from the most significant, is byte `i` of the
/// payload.
pub proof fn lemma_integer_holds_bytes(id: Uuid7)
    requires
        id.wf(),
    ensures
        forall|i: int| 0 <= i < 16 ==> #[trigger] byte_of(payload_value(id@), i) == id@[i],
{
    lemma_value_holds_bytes(id@);
}

/// Two identifiers made from a millisecond count and ten random bytes each
/// are the same exactly when their timestamp fields and their random fields
/// are. So two identifiers made within one millisecond differ unless all 74
/// random bits that the payload keeps agree.
pub proof fn lemma_same_exactly_when_fields_same(
    a: Uuid7,
    b: Uuid7,
    t1: u64,
    r1: Seq<u8>,
    t2: u64,
    r2: Seq<u8>,
)
    requires
        r1.len() == 10,
        r2.len() == 10,
        a@ == assemble(t1, r1),
        b@ == assemble(t2, r2),
    ensures
        a == b <==> timestamp_field(t1) == timestamp_field(t2) && random_field(r1)
            == random_field(r2),
{
    lemma_assembled_equal(t1, r1, t2, r2);
    if a@ == b@ {
        Uuid7::lemma_view_injective(a, b);
    }
}

/// Identifiers sort by time: the one with the smaller timestamp field is the
/// smaller one, whatever the random bits are.
pub proof fn lemma_earlier_sorts_first(a: Uuid7, b: Uuid7)
    requires
        timestamp_of(a@) < timestamp_of(b@),
    ensures
        a.partial_cmp_spec(&b) == Some(Ordering::Less),
{
    lemma_smaller_timestamp_first(a@, b@);
}

/// Of two identifiers made at the clock readings `t1 < t2`, the first is the
/// smaller one, as long as the two readings still compare the same way once
/// each is cut down to the 48 bits of the timestamp field.
pub proof fn lemma_later_reading_sorts_after(
    a: Uuid7,
    b: Uuid7,
    t1: u64,
    r1: Seq<u8>,
    t2: u64,
    r2: Seq<u8>,
)
    requires
        a@ == assemble(t1, r1),
        b@ == assemble(t2, r2),
        t1 < t2,
        timestamp_field(t1) < timestamp_field(t2),
    ensures
        a.partial_cmp_spec(&b) == Some(Ordering::Less),
{
    lemma_assembled_timestamp(t1, r1);
    lemma_assembled_timestamp(t2, r2);
    lemma_earlier_sorts_first(a, b);
}

/// Comparing identifiers compares their payloads as 128-bit integers.
pub proof fn lemma_order_of_integers(a: Uuid7, b: Uuid7)
    requires
        a.wf(),
        b.wf(),
    ensures
        a.partial_cmp_spec(&b) == Some(Ordering::Less) <==> payload_value(a@) < payload_value(b@),
        a.partial_cmp_spec(&b) == Some(Ordering::Equal) <==> payload_value(a@) == payload_value(
            b@,
        ),
        a.partial_cmp_spec(&b) == Some(Ordering::Greater) <==> payload_value(a@) > payload_value(
            b@,
        ),
{
    lemma_integer_order(a@, b@);
}

} // verus!

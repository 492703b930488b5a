//! The canonical text of an identifier: thirty-two hexadecimal digits in
//! groups of 8, 4, 4, 4 and 12 with a dash between the groups, the most
//! significant digit first. This module says, over plain sequences, which
//! text a payload has and which payload or rejection a text has.

use crate::error::{
    dash_message, digit_message, length_message, variant_message, version_message,
    ParseErrorKind,
};
use crate::hex::{
    hex_digit, hex_digit_value, is_hex_digit, is_lower_hex_digit, lemma_hex_digit_round_trip,
    lemma_hex_digit_of_value,
};
use crate::layout::is_v7;
use vstd::prelude::*;

verus! {

/// Whether `i` is one of the four positions of the text that hold a dash.
pub open spec fn is_dash_index(i: int) -> bool {
    i == 8 || i == 13 || i == 18 || i == 23
}

/// The position in the text of the `k`-th of the thirty-two digits.
pub open spec fn digit_index(k: int) -> int
    recommends
        0 <= k < 32,
{
    if k < 8 {
        k
    } else if k < 12 {
        k + 1
    } else if k < 16 {
        k + 2
    } else if k < 20 {
        k + 3
    } else {
        k + 4
    }
}

/// Which of the thirty-two digits stands at position `i` of the text.
pub open spec fn digit_number(i: int) -> int
    recommends
        0 <= i < 36,
        !is_dash_index(i),
{
    if i < 8 {
        i
    } else if i < 13 {
        i - 1
    } else if i < 18 {
        i - 2
    } else if i < 23 {
        i - 3
    } else {
        i - 4
    }
}

/// The `k`-th four-bit group of `bytes`: the high half of a byte comes before
/// its low half.
pub open spec fn nibble(bytes: Seq<u8>, k: int) -> int
    recommends
        0 <= k < 2 * bytes.len(),
{
    if k % 2 == 0 {
        bytes[k / 2] as int / 16
    } else {
        bytes[k / 2] as int % 16
    }
}

/// The canonical text of a payload of sixteen bytes.
pub open spec fn canonical_text(bytes: Seq<u8>) -> Seq<char>
    recommends
        bytes.len() == 16,
{
    Seq::new(
        36,
        |i: int|
            if is_dash_index(i) {
                '-'
            } else {
                hex_digit(nibble(bytes, digit_number(i)))
            },
    )
}

/// Whether `c`, as the variant digit, has binary `10` as its two leading bits.
pub open spec fn is_variant_digit(c: char) -> bool {
    c == '8' || c == '9' || c == 'a' || c == 'b' || c == 'A' || c == 'B'
}

/// Whether the four dash positions of `s` hold a dash.
pub open spec fn dashes_in_place(s: Seq<char>) -> bool {
    s[8] == '-' && s[13] == '-' && s[18] == '-' && s[23] == '-'
}

/// Whether every other position of `s` holds a hexadecimal digit.
pub open spec fn digits_in_place(s: Seq<char>) -> bool {
    forall|i: int| 0 <= i < 36 && !is_dash_index(i) ==> is_hex_digit(#[trigger] s[i])
}

/// The first digit position at or after `from` where `s` holds no hexadecimal
/// digit, or 36 where there is none.
pub open spec fn first_non_digit(s: Seq<char>, from: int) -> int
    decreases 36 - from,
{
    if from >= 36 {
        36
    } else if !is_dash_index(from) && !is_hex_digit(s[from]) {
        from
    } else {
        first_non_digit(s, from + 1)
    }
}

/// What `first_non_digit` finds: every digit position before it holds a
/// hexadecimal digit, and where it is below 36 it is a digit position that
/// holds none.
pub proof fn lemma_first_non_digit(s: Seq<char>, from: int)
    requires
        0 <= from <= 36,
    ensures
        from <= first_non_digit(s, from) <= 36,
        forall|i: int|
            from <= i < first_non_digit(s, from) && !is_dash_index(i) ==> is_hex_digit(
                #[trigger] s[i],
            ),
        first_non_digit(s, from) < 36 ==> !is_dash_index(first_non_digit(s, from))
            && !is_hex_digit(s[first_non_digit(s, from)]),
    decreases 36 - from,
{
    if from < 36 && (is_dash_index(from) || is_hex_digit(s[from])) {
        lemma_first_non_digit(s, from + 1);
    }
}

/// The check that `s` fails first, or `None` where `s` passes them all: its
/// length, its dashes and digits, its version digit, its variant digit.
pub open spec fn rejection(s: Seq<char>) -> Option<ParseErrorKind> {
    if s.len() != 36 {
        Some(ParseErrorKind::InvalidLength)
    } else if !dashes_in_place(s) || !digits_in_place(s) {
        Some(ParseErrorKind::InvalidFormat)
    } else if s[14] != '7' {
        Some(ParseErrorKind::InvalidVersion)
    } else if !is_variant_digit(s[19]) {
        Some(ParseErrorKind::InvalidVariant)
    } else {
        None
    }
}

/// The message that a rejected text is reported with.
pub open spec fn rejection_message(s: Seq<char>) -> Seq<char>
    recommends
        rejection(s) is Some,
{
    if s.len() != 36 {
        length_message()
    } else if !dashes_in_place(s) {
        dash_message()
    } else if !digits_in_place(s) {
        digit_message(first_non_digit(s, 0), s[first_non_digit(s, 0)])
    } else if s[14] != '7' {
        version_message(s[14])
    } else {
        variant_message(s[19])
    }
}

/// The sixteen bytes that the digits of `s` spell, two digits to a byte.
pub open spec fn decode(s: Seq<char>) -> Seq<u8>
    recommends
        s.len() == 36,
        digits_in_place(s),
{
    Seq::new(
        16,
        |j: int|
            (16 * hex_digit_value(s[digit_index(2 * j)]) + hex_digit_value(
                s[digit_index(2 * j + 1)],
            )) as u8,
    )
}

/// What parsing makes of `s`: the payload it spells, or the check it fails.
pub open spec fn parse(s: Seq<char>) -> Result<Seq<u8>, ParseErrorKind> {
    match rejection(s) {
        Some(kind) => Err(kind),
        None => Ok(decode(s)),
    }
}

/// Whether `s` has the shape of a canonical text: 36 characters, a dash at
/// positions 8, 13, 18 and 23 and a lower-case hexadecimal digit everywhere
/// else, the digit `7` at position 14, and one of `8`, `9`, `a`, `b` at
/// position 19.
pub open spec fn is_canonical(s: Seq<char>) -> bool {
    &&& s.len() == 36
    &&& forall|i: int| 0 <= i < 36 && is_dash_index(i) ==> #[trigger] s[i] == '-'
    &&& forall|i: int| 0 <= i < 36 && !is_dash_index(i) ==> is_lower_hex_digit(#[trigger] s[i])
    &&& s[14] == '7'
    &&& (s[19] == '8' || s[19] == '9' || s[19] == 'a' || s[19] == 'b')
}

/// The text of a payload with version 7 and variant `10` has the canonical
/// shape.
pub proof fn lemma_text_is_canonical(bytes: Seq<u8>)
    requires
        is_v7(bytes),
    ensures
        is_canonical(canonical_text(bytes)),
{
    let text = canonical_text(bytes);
    assert forall|i: int| 0 <= i < 36 && !is_dash_index(i) implies is_lower_hex_digit(
        #[trigger] text[i],
    ) by {
        lemma_hex_digit_round_trip(nibble(bytes, digit_number(i)));
    }
}

/// The text of a payload with version 7 and variant `10` parses, and to that
/// payload.
pub proof fn lemma_parse_of_text(bytes: Seq<u8>)
    requires
        is_v7(bytes),
    ensures
        parse(canonical_text(bytes)) == Ok::<Seq<u8>, ParseErrorKind>(bytes),
{
    let text = canonical_text(bytes);
    lemma_text_is_canonical(bytes);
    assert forall|j: int| 0 <= j < 16 implies #[trigger] decode(text)[j] == bytes[j] by {
        lemma_hex_digit_round_trip(bytes[j] as int / 16);
        lemma_hex_digit_round_trip(bytes[j] as int % 16);
    }
    assert(decode(text) =~= bytes);
}

/// No text is rejected for a pair of digits that does not decode: a text whose
/// digits are not all hexadecimal fails the check of its format.
pub proof fn lemma_never_invalid_hex(s: Seq<char>)
    ensures
        rejection(s) != Some(ParseErrorKind::InvalidHex),
{
}

/// The payload of every text that parses carries version 7 and the variant
/// `10`.
pub proof fn lemma_parsed_is_v7(s: Seq<char>)
    requires
        parse(s) is Ok,
    ensures
        is_v7(parse(s)->Ok_0),
{
}

/// A text of the canonical shape parses, and the text of its payload is that
/// text again.
pub proof fn lemma_text_of_parse(s: Seq<char>)
    requires
        is_canonical(s),
    ensures
        parse(s) is Ok,
        canonical_text(parse(s)->Ok_0) == s,
{
    let bytes = decode(s);
    assert forall|i: int| 0 <= i < 36 implies #[trigger] canonical_text(bytes)[i] == s[i] by {
        if !is_dash_index(i) {
            let k = digit_number(i);
            let j = k / 2;
            let hi = s[digit_index(2 * j)];
            let lo = s[digit_index(2 * j + 1)];
            lemma_hex_digit_of_value(hi);
            lemma_hex_digit_of_value(lo);
        }
    }
}

} // verus!

//! The identifier itself: sixteen bytes that always carry version 7 and the
//! variant `10`, made from a timestamp and random bytes, read from text and
//! written as text.

use crate::error::{ParseErrorKind, ParseUuid7Error};
use crate::hex::{hex_char, hex_value, is_hex_digit};
use crate::layout::{
    assemble, be_value, byte_of, is_v7, lemma_value_holds_bytes, payload_value,
};
use crate::sys::push_char;
use crate::text::{
    canonical_text, dashes_in_place, decode, digit_index, digit_number, digits_in_place,
    first_non_digit, is_canonical, is_dash_index, is_variant_digit, lemma_text_is_canonical,
    parse, rejection_message,
};
use vstd::prelude::*;
use vstd::string::*;

verus! {

/// A UUIDv7 value.
///
/// Its view is the payload as sixteen bytes, the most significant first.
/// Every value that a program holds satisfies [`Uuid7::wf`]: no function
/// hands out one that does not.
#[derive(Clone, Copy, Debug, Hash, Eq, Ord)]
pub struct Uuid7 {
    bytes: [u8; 16],
}

impl View for Uuid7 {
    type V = Seq<u8>;

    closed spec fn view(&self) -> Seq<u8> {
        self.bytes@
    }
}

/// Shifting a count right and keeping a byte takes the same byte as dividing
/// by the matching power of 256.
proof fn lemma_timestamp_bytes(m: u64)
    by (bit_vector)
    ensures
        (m >> 40) as u8 == (m / 0x100_0000_0000 % 256) as u8,
        (m >> 32) as u8 == (m / 0x1_0000_0000 % 256) as u8,
        (m >> 24) as u8 == (m / 0x100_0000 % 256) as u8,
        (m >> 16) as u8 == (m / 0x1_0000 % 256) as u8,
        (m >> 8) as u8 == (m / 0x100 % 256) as u8,
{
}

/// Cutting a count down to a byte keeps its remainder by 256.
proof fn lemma_low_byte(m: u64)
    by (bit_vector)
    ensures
        m as u8 == (m % 256) as u8,
{
}

/// Writing version 7 over the high half of a byte.
proof fn lemma_version_byte(r: u8)
    by (bit_vector)
    ensures
        (r & 0x0f) | 0x70 == 0x70 + r % 16,
{
}

/// Writing the variant `10` over the two high bits of a byte.
proof fn lemma_variant_byte(r: u8)
    by (bit_vector)
    ensures
        (r & 0x3f) | 0x80 == 0x80 + r % 64,
{
}

/// How many dashes the text holds before the digits of byte `j`.
spec fn dashes_before(j: int) -> int {
    if j <= 4 {
        0
    } else if j <= 6 {
        1
    } else if j <= 8 {
        2
    } else if j <= 10 {
        3
    } else {
        4
    }
}

/// The position in the text of the `k`-th digit.
fn digit_position(k: usize) -> (p: usize)
    requires
        k < 32,
    ensures
        p == digit_index(k as int),
        p < 36,
        !is_dash_index(p as int),
{
    if k < 8 {
        k
    } else if k < 12 {
        k + 1
    } else if k < 16 {
        k + 2
    } else if k < 20 {
        k + 3
    } else {
        k + 4
    }
}

/// Whether the four dash positions of a text of 36 characters hold a dash.
fn has_dashes(s: &str) -> (r: bool)
    requires
        s@.len() == 36,
    ensures
        r == dashes_in_place(s@),
{
    s.get_char(8) == '-' && s.get_char(13) == '-' && s.get_char(18) == '-' && s.get_char(23)
        == '-'
}

/// The first digit position of a text of 36 characters that holds no
/// hexadecimal digit.
fn find_non_digit(s: &str) -> (r: Option<usize>)
    requires
        s@.len() == 36,
    ensures
        r is None <==> digits_in_place(s@),
        r matches Some(i) ==> i < 36 && i == first_non_digit(s@, 0),
{
    let mut i: usize = 0;
    while i < 36
        invariant
            i <= 36,
            s@.len() == 36,
            first_non_digit(s@, 0) == first_non_digit(s@, i as int),
            forall|k: int| 0 <= k < i && !is_dash_index(k) ==> is_hex_digit(#[trigger] s@[k]),
        decreases 36 - i,
    {
        if i != 8 && i != 13 && i != 18 && i != 23 {
            if hex_value(s.get_char(i)).is_none() {
                return Some(i);
            }
        }
        i += 1;
    }
    None
}

/// Whether `c` is one of the variant digits `8`, `9`, `a`, `b`, in either case.
fn is_variant(c: char) -> (r: bool)
    ensures
        r == is_variant_digit(c),
{
    c == '8' || c == '9' || c == 'a' || c == 'b' || c == 'A' || c == 'B'
}

/// The sixteen bytes that the digits of a text of 36 characters spell. Each
/// pair of digits is decoded again here, whatever was checked before.
fn decode_digits(s: &str) -> (r: Result<[u8; 16], ParseUuid7Error>)
    requires
        s@.len() == 36,
    ensures
        r is Ok <==> digits_in_place(s@),
        r matches Ok(bytes) ==> bytes@ == decode(s@),
        r matches Err(e) ==> e.kind() == ParseErrorKind::InvalidHex,
{
    let mut bytes: [u8; 16] = [0u8; 16];
    let mut j: usize = 0;
    while j < 16
        invariant
            j <= 16,
            s@.len() == 36,
            forall|k: int| 0 <= k < j ==> bytes@[k] == #[trigger] decode(s@)[k],
            forall|k: int| 0 <= k < 2 * j ==> is_hex_digit(s@[#[trigger] digit_index(k)]),
        decreases 16 - j,
    {
        let hi = s.get_char(digit_position(2 * j));
        let lo = s.get_char(digit_position(2 * j + 1));
        match (hex_value(hi), hex_value(lo)) {
            (Some(h), Some(l)) => {
                bytes[j] = h * 16 + l;
            },
            _ => {
                return Err(ParseUuid7Error::invalid_hex(j as u8, hi, lo));
            },
        }
        j += 1;
    }
    assert forall|i: int| 0 <= i < 36 && !is_dash_index(i) implies is_hex_digit(
        #[trigger] s@[i],
    ) by {
        assert(digit_index(digit_number(i)) == i);
    }
    Ok(bytes)
}

impl Uuid7 {
    /// What holds of every value: version 7 and variant `10`.
    pub open spec fn wf(&self) -> bool {
        is_v7(self@)
    }

    #[verifier::type_invariant]
    spec fn well_formed(&self) -> bool {
        self.wf()
    }

    /// Two values with the same payload are the same value.
    pub proof fn lemma_view_injective(a: Uuid7, b: Uuid7)
        requires
            a@ == b@,
        ensures
            a == b,
    {
        assert(a.bytes =~= b.bytes);
    }

    /// The value whose timestamp field holds the low 48 bits of `unix_millis`
    /// and whose other bits, but for the version and the variant, are those of
    /// `random`.
    pub fn from_parts(unix_millis: u64, random: [u8; 10]) -> (id: Uuid7)
        ensures
            id@ == assemble(unix_millis, random@),
            id.wf(),
    {
        proof {
            lemma_timestamp_bytes(unix_millis);
            lemma_low_byte(unix_millis);
            lemma_version_byte(random[0]);
            lemma_variant_byte(random[2]);
        }
        let mut bytes: [u8; 16] = [0u8; 16];
        bytes[0] = #[verifier::truncate] ((unix_millis >> 40) as u8);
        bytes[1] = #[verifier::truncate] ((unix_millis >> 32) as u8);
        bytes[2] = #[verifier::truncate] ((unix_millis >> 24) as u8);
        bytes[3] = #[verifier::truncate] ((unix_millis >> 16) as u8);
        bytes[4] = #[verifier::truncate] ((unix_millis >> 8) as u8);
        bytes[5] = #[verifier::truncate] (unix_millis as u8);
        bytes[6] = (random[0] & 0x0f) | 0x70;
        bytes[7] = random[1];
        bytes[8] = (random[2] & 0x3f) | 0x80;
        bytes[9] = random[3];
        bytes[10] = random[4];
        bytes[11] = random[5];
        bytes[12] = random[6];
        bytes[13] = random[7];
        bytes[14] = random[8];
        bytes[15] = random[9];
        Uuid7 { bytes }
    }

    /// The sixteen bytes of the payload, the most significant first.
    pub fn as_bytes(&self) -> (bytes: &[u8; 16])
        ensures
            bytes@ == self@,
            self.wf(),
    {
        proof {
            use_type_invariant(self);
        }
        &self.bytes
    }

    /// The payload as one 128-bit integer, byte 0 being the most significant:
    /// each byte of the payload can be read back from its place in it.
    pub fn as_u128(&self) -> (value: u128)
        ensures
            value == payload_value(self@),
            forall|i: int| 0 <= i < 16 ==> #[trigger] byte_of(value, i) == self@[i],
    {
        let mut value: u128 = 0;
        let mut i: usize = 0;
        while i < 16
            invariant
                i <= 16,
                value == be_value(self@, i as nat),
            decreases 16 - i,
        {
            value = (value << 8) | (self.bytes[i] as u128);
            i += 1;
        }
        proof {
            lemma_value_holds_bytes(self@);
        }
        value
    }

    /// The canonical text: 36 characters, lower-case digits in groups of 8, 4,
    /// 4, 4 and 12 with a dash between the groups, the digit `7` at position
    /// 14 and one of `8`, `9`, `a`, `b` at position 19.
    pub fn to_string(&self) -> (text: String)
        ensures
            text@ == canonical_text(self@),
            is_canonical(text@),
    {
        proof {
            use_type_invariant(self);
            lemma_text_is_canonical(self@);
        }
        let mut text = String::new();
        let mut j: usize = 0;
        while j < 16
            invariant
                j <= 16,
                text@.len() == 2 * j + dashes_before(j as int),
                forall|i: int| 0 <= i < text@.len() ==> text@[i] == canonical_text(self@)[i],
            decreases 16 - j,
        {
            if j == 4 || j == 6 || j == 8 || j == 10 {
                push_char(&mut text, '-');
            }
            let byte = self.bytes[j];
            push_char(&mut text, hex_char(byte / 16));
            push_char(&mut text, hex_char(byte % 16));
            j += 1;
        }
        text
    }

    /// Reads an identifier from its canonical text, in either case of the
    /// digits `a` to `f`.
    ///
    /// The checks run in a fixed order and the first that fails decides the
    /// error: the length, the dashes and digits, the version digit, the
    /// variant digit. A text that passes them all gives the value whose
    /// payload its digits spell. Decoding looks at every digit once more and
    /// would report `InvalidHex`; the contract shows that it never does.
    pub fn from_str(s: &str) -> (r: Result<Uuid7, ParseUuid7Error>)
        ensures
            match r {
                Ok(id) => parse(s@) == Ok::<Seq<u8>, ParseErrorKind>(id@) && id.wf(),
                Err(e) => parse(s@) == Err::<Seq<u8>, ParseErrorKind>(e.kind()) && e.message()
                    == rejection_message(s@),
            },
    {
        if s.unicode_len() != 36 {
            return Err(ParseUuid7Error::invalid_length());
        }
        if !has_dashes(s) {
            return Err(ParseUuid7Error::misplaced_dash());
        }
        if let Some(i) = find_non_digit(s) {
            return Err(ParseUuid7Error::not_a_digit(i as u8, s.get_char(i)));
        }
        let version = s.get_char(14);
        if version != '7' {
            return Err(ParseUuid7Error::invalid_version(version));
        }
        let variant = s.get_char(19);
        if !is_variant(variant) {
            return Err(ParseUuid7Error::invalid_variant(variant));
        }
        match decode_digits(s) {
            Ok(bytes) => Ok(Uuid7 { bytes }),
            Err(e) => Err(e),
        }
    }
}

impl core::str::FromStr for Uuid7 {
    type Err = ParseUuid7Error;

    /// The same as [`Uuid7::from_str`].
    fn from_str(s: &str) -> (r: Result<Uuid7, ParseUuid7Error>)
        ensures
            match r {
                Ok(id) => parse(s@) == Ok::<Seq<u8>, ParseErrorKind>(id@) && id.wf(),
                Err(e) => parse(s@) == Err::<Seq<u8>, ParseErrorKind>(e.kind()) && e.message()
                    == rejection_message(s@),
            },
    {
        Uuid7::from_str(s)
    }
}

} // verus!

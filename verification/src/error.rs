//! What can go wrong: the ways a text fails to be a UUIDv7, each with the
//! message it is reported with, and a clock that reads before the Unix epoch.

use crate::hex::{hex_char, hex_digit};
use crate::sys::push_char;
use vstd::prelude::*;
use vstd::string::*;

verus! {

/// Which check a rejected text failed.
#[derive(Clone, Copy, Debug, PartialEq, Eq, Hash, Structural)]
pub enum ParseErrorKind {
    /// The text is not 36 characters long.
    InvalidLength,
    /// A dash is missing or misplaced, or some other character stands where a
    /// hexadecimal digit is expected.
    InvalidFormat,
    /// The version digit is not `7`.
    InvalidVersion,
    /// The two leading bits of the variant digit are not binary `10`.
    InvalidVariant,
    /// A pair of characters did not decode to a byte. Parsing checks the
    /// format first, so it never reports this kind.
    InvalidHex,
}

/// A rejected text: the message that describes the failure, and its kind.
#[derive(Clone, Debug, PartialEq, Eq)]
pub struct ParseUuid7Error(pub String, pub ParseErrorKind);

/// The system clock read a time before the Unix epoch.
#[derive(Clone, Copy, Debug, PartialEq, Eq, Hash, Structural)]
pub struct ClockError;

/// The decimal digits of a number below one thousand, without leading zeros.
/// (A digit below ten is written the same in base ten and in base sixteen.)
pub open spec fn decimal_text(n: int) -> Seq<char>
    recommends
        0 <= n < 1000,
{
    if n < 10 {
        seq![hex_digit(n)]
    } else if n < 100 {
        seq![hex_digit(n / 10), hex_digit(n % 10)]
    } else {
        seq![hex_digit(n / 100), hex_digit(n / 10 % 10), hex_digit(n % 10)]
    }
}

/// The message for a text that is not 36 characters long.
pub open spec fn length_message() -> Seq<char> {
    "Invalid UUID length; expected 36 characters"@
}

/// The message for a text with something else than a dash at one of the four
/// dash positions.
pub open spec fn dash_message() -> Seq<char> {
    "Invalid UUID format; expected dashes at positions 8, 13, 18, and 23"@
}

/// The message for a text with `found`, which is no hexadecimal digit, at the
/// digit position `position`.
pub open spec fn digit_message(position: int, found: char) -> Seq<char> {
    "Invalid UUID format; expected a hex digit at position "@ + decimal_text(position)
        + ", got "@.push(found)
}

/// The message for a text whose version digit is `found`.
pub open spec fn version_message(found: char) -> Seq<char> {
    "Invalid version: expected 7, got "@.push(found)
}

/// The message for a text whose variant digit is `found`.
pub open spec fn variant_message(found: char) -> Seq<char> {
    "Invalid variant: expected one of 8, 9, a, b, got "@.push(found)
}

/// The message for the byte at `position` whose two characters `hi` and `lo`
/// did not decode.
pub open spec fn hex_message(position: int, hi: char, lo: char) -> Seq<char> {
    "Invalid hex at position "@ + decimal_text(position) + ": "@.push(hi).push(lo)
}

/// Appends the decimal digits of `n` to `out`.
fn push_decimal(out: &mut String, n: u8)
    ensures
        final(out)@ == old(out)@ + decimal_text(n as int),
{
    if n >= 100 {
        push_char(out, hex_char(n / 100));
    }
    if n >= 10 {
        push_char(out, hex_char(n / 10 % 10));
    }
    push_char(out, hex_char(n % 10));
}

impl ParseUuid7Error {
    /// The message that describes the failure.
    pub open spec fn message(&self) -> Seq<char> {
        self.0@
    }

    /// The check that failed.
    pub open spec fn kind(&self) -> ParseErrorKind {
        self.1
    }

    /// The error for a text that is not 36 characters long.
    pub fn invalid_length() -> (e: ParseUuid7Error)
        ensures
            e.kind() == ParseErrorKind::InvalidLength,
            e.message() == length_message(),
    {
        ParseUuid7Error(
            "Invalid UUID length; expected 36 characters".to_owned(),
            ParseErrorKind::InvalidLength,
        )
    }

    /// The error for a text without a dash at one of the four dash positions.
    pub fn misplaced_dash() -> (e: ParseUuid7Error)
        ensures
            e.kind() == ParseErrorKind::InvalidFormat,
            e.message() == dash_message(),
    {
        ParseUuid7Error(
            "Invalid UUID format; expected dashes at positions 8, 13, 18, and 23".to_owned(),
            ParseErrorKind::InvalidFormat,
        )
    }

    /// The error for a text with `found` where the hexadecimal digit at
    /// `position` is expected.
    pub fn not_a_digit(position: u8, found: char) -> (e: ParseUuid7Error)
        ensures
            e.kind() == ParseErrorKind::InvalidFormat,
            e.message() == digit_message(position as int, found),
    {
        let mut message = "Invalid UUID format; expected a hex digit at position ".to_owned();
        push_decimal(&mut message, position);
        message.append(", got ");
        push_char(&mut message, found);
        ParseUuid7Error(message, ParseErrorKind::InvalidFormat)
    }

    /// The error for a text whose version digit is `found`.
    pub fn invalid_version(found: char) -> (e: ParseUuid7Error)
        ensures
            e.kind() == ParseErrorKind::InvalidVersion,
            e.message() == version_message(found),
    {
        let mut message = "Invalid version: expected 7, got ".to_owned();
        push_char(&mut message, found);
        ParseUuid7Error(message, ParseErrorKind::InvalidVersion)
    }

    /// The error for a text whose variant digit is `found`.
    pub fn invalid_variant(found: char) -> (e: ParseUuid7Error)
        ensures
            e.kind() == ParseErrorKind::InvalidVariant,
            e.message() == variant_message(found),
    {
        let mut message = "Invalid variant: expected one of 8, 9, a, b, got ".to_owned();
        push_char(&mut message, found);
        ParseUuid7Error(message, ParseErrorKind::InvalidVariant)
    }

    /// The error for the byte at `position` whose characters `hi` and `lo` did
    /// not decode.
    pub fn invalid_hex(position: u8, hi: char, lo: char) -> (e: ParseUuid7Error)
        ensures
            e.kind() == ParseErrorKind::InvalidHex,
            e.message() == hex_message(position as int, hi, lo),
    {
        let mut message = "Invalid hex at position ".to_owned();
        push_decimal(&mut message, position);
        message.append(": ");
        push_char(&mut message, hi);
        push_char(&mut message, lo);
        ParseUuid7Error(message, ParseErrorKind::InvalidHex)
    }

    /// The error as one line of text: the type's name, a colon and the message.
    pub fn to_string(&self) -> (text: String)
        ensures
            text@ == "ParseUuid7Error: "@ + self.message(),
    {
        let mut text = "ParseUuid7Error: ".to_owned();
        text.append(self.0.as_str());
        text
    }
}

} // verus!

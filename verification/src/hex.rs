//! Hexadecimal digits: which characters are digits, what each is worth, and
//! the lower-case digit that stands for each value below sixteen.

use vstd::prelude::*;

verus! {

/// Whether `c` is one of `0`-`9`, `a`-`f` or `A`-`F`.
pub open spec fn is_hex_digit(c: char) -> bool {
    ('0' <= c && c <= '9') || ('a' <= c && c <= 'f') || ('A' <= c && c <= 'F')
}

/// Whether `c` is one of `0`-`9` or `a`-`f`.
pub open spec fn is_lower_hex_digit(c: char) -> bool {
    ('0' <= c && c <= '9') || ('a' <= c && c <= 'f')
}

/// The value, from 0 to 15, of the hexadecimal digit `c`, in either case.
pub open spec fn hex_digit_value(c: char) -> int
    recommends
        is_hex_digit(c),
{
    if '0' <= c && c <= '9' {
        c as int - '0' as int
    } else if 'a' <= c && c <= 'f' {
        c as int - 'a' as int + 10
    } else {
        c as int - 'A' as int + 10
    }
}

/// The lower-case hexadecimal digit whose value is `n`.
pub open spec fn hex_digit(n: int) -> char
    recommends
        0 <= n < 16,
{
    if n < 10 {
        ('0' as int + n) as char
    } else {
        ('a' as int + n - 10) as char
    }
}

/// The digit for a value below sixteen is a lower-case hexadecimal digit, and
/// its value is the value it stands for.
pub proof fn lemma_hex_digit_round_trip(n: int)
    requires
        0 <= n < 16,
    ensures
        is_lower_hex_digit(hex_digit(n)),
        is_hex_digit(hex_digit(n)),
        hex_digit_value(hex_digit(n)) == n,
{
}

/// A lower-case hexadecimal digit is the digit for its value, and its value
/// is below sixteen.
pub proof fn lemma_hex_digit_of_value(c: char)
    requires
        is_lower_hex_digit(c),
    ensures
        0 <= hex_digit_value(c) < 16,
        hex_digit(hex_digit_value(c)) == c,
{
}

/// The value of `c` as a hexadecimal digit, or `None` where `c` is no such
/// digit.
pub fn hex_value(c: char) -> (r: Option<u8>)
    ensures
        r is Some <==> is_hex_digit(c),
        r matches Some(v) ==> v == hex_digit_value(c),
{
    if '0' <= c && c <= '9' {
        Some((c as u32 - '0' as u32) as u8)
    } else if 'a' <= c && c <= 'f' {
        Some((c as u32 - 'a' as u32 + 10) as u8)
    } else if 'A' <= c && c <= 'F' {
        Some((c as u32 - 'A' as u32 + 10) as u8)
    } else {
        None
    }
}

/// The lower-case hexadecimal digit for a value below sixteen.
pub fn hex_char(n: u8) -> (c: char)
    requires
        n < 16,
    ensures
        c == hex_digit(n as int),
{
    if n < 10 {
        (0x30u8 + n) as char
    } else {
        (0x61u8 + (n - 10)) as char
    }
}

} // verus!

//! The few calls that leave verified code: the system clock, the thread's
//! random generator, and `String::push`. Verus takes the contracts in this
//! module on trust; everything built on them is proved.

use rand::rngs::ThreadRng;
use rand::RngCore;
use std::time::{Duration, SystemTime, SystemTimeError, UNIX_EPOCH};
use vstd::prelude::*;

verus! {

/// `std::time::SystemTime`, a reading of the system clock. Nothing is known
/// of what a value holds.
#[verifier::external_type_specification]
#[verifier::external_body]
pub struct ExSystemTime(SystemTime);

/// `std::time::SystemTimeError`, the error of `SystemTime::duration_since`
/// for a time that is earlier than the one it is measured from.
#[verifier::external_type_specification]
#[verifier::external_body]
pub struct ExSystemTimeError(SystemTimeError);

/// `rand::rngs::ThreadRng`, the handle to the thread-local generator of
/// `rand`. Nothing is known of what a value holds.
#[verifier::external_type_specification]
#[verifier::external_body]
pub struct ExThreadRng(ThreadRng);

/// `SystemTime::now`: the current reading of the system clock. Nothing is
/// claimed of it.
pub assume_specification[ SystemTime::now ]() -> (now: SystemTime);

/// `Duration::as_millis`: the whole milliseconds of a duration. Nothing is
/// claimed of the number.
pub assume_specification[ Duration::as_millis ](d: &Duration) -> (millis: u128);

/// `SystemTime::duration_since`, measured from `UNIX_EPOCH`: the time from the
/// epoch to `t`, or an error where `t` is before the epoch. Nothing is claimed
/// of which of the two comes back.
#[verifier::external_body]
pub(crate) fn since_unix_epoch(t: &SystemTime) -> (elapsed: Result<Duration, SystemTimeError>) {
    t.duration_since(UNIX_EPOCH)
}

/// `rand::rng`: a handle to the generator of the current thread. It does not
/// return where the operating system gives the generator no seed.
pub assume_specification[ rand::rng ]() -> (rng: ThreadRng);

/// `RngCore::fill_bytes` on the thread's generator, asked for ten bytes.
/// Nothing is claimed of the bytes. It does not return where the operating
/// system fails to reseed the generator.
#[verifier::external_body]
pub(crate) fn thread_random_bytes(rng: &mut ThreadRng) -> (bytes: [u8; 10]) {
    let mut dest = [0u8; 10];
    rng.fill_bytes(&mut dest);
    dest
}

/// `String::push`: the string afterwards is the string before with `c` added
/// at its end.
#[verifier::external_body]
pub(crate) fn push_char(s: &mut String, c: char)
    ensures
        final(s)@ == old(s)@.push(c),
{
    s.push(c)
}

} // verus!

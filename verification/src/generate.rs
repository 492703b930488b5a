//! Making new identifiers from the system clock and a source of random bytes.

use crate::error::ClockError;
use crate::layout::assemble;
use crate::sys::{since_unix_epoch, thread_random_bytes};
use crate::uuid::Uuid7;
use rand::rngs::ThreadRng;
use std::time::{Duration, SystemTime, SystemTimeError};
use vstd::prelude::*;

verus! {

/// A source of random bytes for the random field of new identifiers.
///
/// Nothing is asked of the bytes: whatever a source hands out, the identifier
/// made from it is well formed. How hard the bytes are to predict is the
/// choice of whoever picks the source.
pub trait RandomSource {
    /// Ten fresh random bytes.
    fn random_bytes(&mut self) -> (bytes: [u8; 10]);
}

/// The generator of the current thread, as `rand::rng` hands it out.
impl RandomSource for ThreadRng {
    fn random_bytes(&mut self) -> (bytes: [u8; 10]) {
        thread_random_bytes(self)
    }
}

/// What the clock is taken to read, given the time from the Unix epoch to its
/// reading: the whole milliseconds of that time cut down to 64 bits, or the
/// clock's error where the reading is before the epoch.
fn clock_reading(elapsed: Result<Duration, SystemTimeError>) -> (reading: Result<u64, ClockError>)
    ensures
        reading is Ok <==> elapsed is Ok,
{
    match elapsed {
        Ok(time) => Ok(#[verifier::truncate] (time.as_millis() as u64)),
        Err(_) => Err(ClockError),
    }
}

/// The milliseconds from the Unix epoch to the current reading of the system
/// clock, cut down to 64 bits.
fn unix_millis_now() -> (reading: Result<u64, ClockError>) {
    let now = SystemTime::now();
    clock_reading(since_unix_epoch(&now))
}

impl Uuid7 {
    /// A new identifier for the current time, with random bits from the
    /// generator of the current thread.
    ///
    /// Fails where the system clock reads a time before the Unix epoch.
    pub fn new() -> (r: Result<Uuid7, ClockError>)
        ensures
            r matches Ok(id) ==> id.wf(),
    {
        let mut rng = rand::rng();
        Uuid7::new_with_rng(&mut rng)
    }

    /// A new identifier for the current time, with random bits from `rng`.
    ///
    /// The clock is read first, and the result is what
    /// [`Uuid7::from_reading`] makes of its reading and `rng`. Fails where
    /// the system clock reads a time before the Unix epoch.
    pub fn new_with_rng<R: RandomSource + ?Sized>(rng: &mut R) -> (r: Result<Uuid7, ClockError>)
        ensures
            r matches Ok(id) ==> id.wf(),
    {
        Uuid7::from_reading(unix_millis_now(), rng)
    }

    /// The identifier for a reading of the clock, with random bits from
    /// `rng`.
    ///
    /// Where the clock was read, the result is the value that
    /// [`Uuid7::from_parts`] makes of the millisecond count and of ten bytes
    /// that `rng` hands out. Where it was not, the result is the clock's
    /// error, and `rng` is not asked for anything.
    pub fn from_reading<R: RandomSource + ?Sized>(
        reading: Result<u64, ClockError>,
        rng: &mut R,
    ) -> (r: Result<Uuid7, ClockError>)
        ensures
            match reading {
                Ok(unix_millis) => r matches Ok(id) && id.wf() && exists|random: Seq<u8>|
                    random.len() == 10 && id@ == #[trigger] assemble(unix_millis, random),
                Err(e) => r == Err::<Uuid7, ClockError>(e),
            },
    {
        match reading {
            Ok(unix_millis) => {
                let random = rng.random_bytes();
                Ok(Uuid7::from_parts(unix_millis, random))
            },
            Err(e) => Err(e),
        }
    }
}

} // verus!

//! UUIDv7 identifiers, verified with Verus.
//!
//! A UUIDv7 is a 128-bit value that sorts by the time it was made at. From the
//! most significant bit down it holds a 48-bit count of milliseconds since the
//! Unix epoch, the version 7 in four bits, twelve random bits, the variant
//! binary `10` in two bits, and 62 more random bits. Its canonical text is 32
//! lower-case hexadecimal digits in groups of 8, 4, 4, 4 and 12 with a dash
//! between the groups: `xxxxxxxx-xxxx-7xxx-Nxxx-xxxxxxxxxxxx`, where `N` is
//! one of `8`, `9`, `a`, `b`.
//!
//! The library has one value type, [`Uuid7`], and three things to do with it:
//!
//! - make one, from the system clock and a [`RandomSource`]
//!   ([`Uuid7::new`], [`Uuid7::new_with_rng`]), from a given reading of the
//!   clock and a source ([`Uuid7::from_reading`]), or from a given
//!   millisecond count and given random bytes ([`Uuid7::from_parts`]);
//! - write it as text ([`Uuid7::to_string`]) or read it as sixteen bytes or
//!   one integer ([`Uuid7::as_bytes`], [`Uuid7::as_u128`]);
//! - read it back from text ([`Uuid7::from_str`]), with a
//!   [`ParseUuid7Error`] that tells which check a rejected text failed.
//!
//! # What is proved
//!
//! The view of a [`Uuid7`] is its payload as a sequence of sixteen bytes, and
//! every contract is stated over such sequences:
//!
//! - [`layout`] says where the fields stand in the payload;
//! - [`text`] says which text a payload has, and which payload or which
//!   rejection a text has;
//! - [`compare`] says what `==` and `<` mean;
//! - [`laws`] proves what holds of these together: parsing undoes formatting,
//!   every text has the canonical shape, identifiers sort by their timestamp,
//!   and their order is the order of their 128-bit integers.
//!
//! Every function states exactly what it returns, but for those that read
//! the clock or a random source. What the clock reads and what a source hands
//! out is not for a contract to say, so [`Uuid7::new`] and
//! [`Uuid7::new_with_rng`] state what holds of the result whatever the two
//! gave. [`Uuid7::from_reading`] states what is made of a given reading,
//! failed or not, and [`Uuid7::from_parts`] what is made of a given count and
//! given bytes. No verified function panics.
//!
//! # What is trusted
//!
//! Reading the clock, asking the thread's random generator for bytes and
//! appending one character to a `String` are calls into code that Verus does
//! not see. Each stands behind a declaration of its own in one private
//! module, with a contract that says no more than the documentation of the
//! function it names.

pub mod compare;
pub mod error;
pub mod generate;
pub mod hex;
pub mod laws;
pub mod layout;
mod sys;
pub mod text;
pub mod uuid;

pub use error::{ClockError, ParseErrorKind, ParseUuid7Error};
pub use generate::RandomSource;
pub use uuid::Uuid7;

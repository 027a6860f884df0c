//! The random source: `fastrand::Rng`, carried through as an opaque value.
//!
//! Nothing here is proved. Each function makes one call into `fastrand`, and its
//! contract records what the generator's source shows of that call.

use fastrand::Rng;
use vstd::prelude::*;

use crate::text::{is_alphanumeric, is_digit_of_base};

verus! {

/// `fastrand::Rng`, a generator whose state the library never looks into.
#[verifier::external_type_specification]
#[verifier::external_body]
pub struct ExRng(fastrand::Rng);

/// Calls `fastrand::Rng::bool`. Either value may come back, so nothing is claimed.
#[verifier::external_body]
pub(crate) fn next_bool(rng: &mut Rng) -> (b: bool) {
    rng.bool()
}

/// Calls `fastrand::Rng::i128` on the inclusive range from `low` to `high`.
///
/// The generator panics on an empty range, which the precondition rules out.
/// Over the whole range of `i128` it returns whatever it draws; over any other
/// it returns `low` plus an offset below the length of the range. Either way
/// the value lies within the two bounds.
#[verifier::external_body]
pub(crate) fn next_i128(rng: &mut Rng, low: i128, high: i128) -> (v: i128)
    requires
        low <= high,
    ensures
        low <= v <= high,
{
    rng.i128(low..=high)
}

/// Calls `fastrand::Rng::digit`.
///
/// The generator panics on base zero and on a base above 36, which the
/// precondition rules out. It draws a number below `base` and returns it as one
/// of `0-9`, or as one of `a-z` from ten upwards.
#[verifier::external_body]
pub(crate) fn next_digit(rng: &mut Rng, base: u32) -> (c: char)
    requires
        1 <= base <= 36,
    ensures
        is_digit_of_base(c, base as int),
{
    rng.digit(base)
}

/// Calls `fastrand::Rng::alphanumeric`, which picks one of `a-z`, `A-Z`, `0-9`.
#[verifier::external_body]
pub(crate) fn next_alphanumeric(rng: &mut Rng) -> (c: char)
    ensures
        is_alphanumeric(c),
{
    rng.alphanumeric()
}

} // verus!

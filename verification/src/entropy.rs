//! Draws from the thread-local generator of the `rand` crate.
//!
//! Nothing in this module is proved: each function hands one call on to
//! `rand` and states what that crate documents of the value that comes back.
//! The generator seeds itself from the operating system when a thread first
//! uses it, and `rand` aborts the thread if the system gives it no seed.

use crate::primitives::is_alphanumeric;
use rand::distr::Alphanumeric;
use rand::Rng;
use vstd::prelude::*;

verus! {

/// `rand::random::<u32>()`: one word from the thread-local generator.
/// Every `u32` is a possible outcome, so nothing is claimed of the result.
#[verifier::external_body]
pub(crate) fn uniform_u32() -> u32 {
    rand::random::<u32>()
}

/// `rand::random::<u8>()`: one byte from the thread-local generator.
/// Every `u8` is a possible outcome, so nothing is claimed of the result.
#[verifier::external_body]
pub(crate) fn uniform_u8() -> u8 {
    rand::random::<u8>()
}

/// `rand::random::<bool>()`: one flag from the thread-local generator.
/// Both values are possible outcomes, so nothing is claimed of the result.
#[verifier::external_body]
pub(crate) fn uniform_bool() -> bool {
    rand::random::<bool>()
}

/// `rand::rng().sample(Alphanumeric)`: one byte from the distribution
/// `rand::distr::Alphanumeric`, which picks from the ASCII letters and digits
/// only. The contract claims that membership and nothing else.
#[verifier::external_body]
pub(crate) fn alphanumeric_byte() -> (b: u8)
    ensures
        is_alphanumeric(b as char),
{
    rand::rng().sample(Alphanumeric)
}

/// `rand::random_range(low..=high)`: one integer from the closed range.
/// `rand` panics on an empty range, which the precondition leaves out; the
/// contract claims that the value lies within the bounds, both included.
#[verifier::external_body]
pub(crate) fn uniform_in_range(low: i32, high: i32) -> (n: i32)
    requires
        low <= high,
    ensures
        low <= n <= high,
{
    rand::random_range(low..=high)
}

} // verus!

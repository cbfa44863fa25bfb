//! Draws from the random source.

use vstd::prelude::*;

verus! {

/// Calls `rand::random::<u8>()`: one byte from the thread-local generator.
/// Nothing is claimed of the value.
#[verifier::external_body]
pub(crate) fn random_u8() -> (r: u8) {
    rand::random::<u8>()
}

/// Calls `rand::random::<u32>()`: 32 bits from the thread-local generator.
/// Nothing is claimed of the value.
#[verifier::external_body]
pub(crate) fn random_u32() -> (r: u32) {
    rand::random::<u32>()
}

} // verus!

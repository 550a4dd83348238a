//! The one source of randomness the interpreter uses.

use rand::Rng;
use vstd::prelude::*;

verus! {

/// Draws one byte from the thread-local generator of the `rand` crate:
/// `rand::thread_rng()` followed by `Rng::gen::<u8>()`.
///
/// Not verified. Nothing is claimed about the value beyond its type: any byte may
/// come back, and two calls may give different bytes.
#[verifier::external_body]
pub(crate) fn random_byte() -> (byte: u8) {
    rand::thread_rng().gen::<u8>()
}

} // verus!

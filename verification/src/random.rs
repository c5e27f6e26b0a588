//! The source of random bytes.

use rand::Rng;
use vstd::prelude::*;

verus! {

/// Draws one byte from `rand`'s thread-local generator, by
/// `Rng::gen_range` on the range of all bytes, `0..=255`. That range is not
/// empty, the one case in which `gen_range` panics. The byte depends on
/// chance, so nothing is claimed of it: each of the 256 values can come back,
/// and two calls need not agree.
#[verifier::external_body]
pub(crate) fn random_byte() -> (byte: u8) {
    rand::thread_rng().gen_range(0..=255)
}

} // verus!

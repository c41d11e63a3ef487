//! The source of the random bytes that the random-number instruction uses.

use vstd::prelude::*;
use rand::Rng;

verus! {

/// A random byte from `rand`'s generator of the current thread,
/// `rand::thread_rng()`, as `Rng::gen` draws it. This is not verified code:
/// the body calls into `rand`. Nothing is claimed of the byte, so callers are
/// proved for every value it can take. `rand` seeds the generator from the
/// operating system when a thread first uses it, and panics if the system
/// gives it no entropy.
#[verifier::external_body]
pub(crate) fn random_byte() -> (byte: u8) {
    rand::thread_rng().gen()
}

} // verus!

//! The source of random bytes behind the random-number instruction.

use vstd::prelude::*;
use rand::rngs::ThreadRng;

verus! {

/// `rand::rngs::ThreadRng`, a handle to the calling thread's generator. It
/// is opaque here: nothing is known of its state.
#[verifier::external_type_specification]
#[verifier::external_body]
pub struct ExThreadRng(ThreadRng);

/// `rand::thread_rng` hands out the handle; the generator behind it is
/// seeded by the operating system on its first use in a thread, and the
/// call fails only where the system has no seed to give. Nothing is
/// claimed of the handle.
pub assume_specification[ rand::thread_rng ]() -> (rng: ThreadRng);

/// Draws one byte with `rand::Rng::gen`, which for `u8` takes the low
/// eight bits of the generator's next word. Every value of `u8` may come
/// back, and two draws need not agree, so the contract promises nothing.
#[verifier::external_body]
pub(crate) fn random_byte(rng: &mut ThreadRng) -> (byte: u8) {
    rand::Rng::gen::<u8>(rng)
}

} // verus!

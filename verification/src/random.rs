//! Masked random-byte source for the RND instruction, drawing from the
//! thread-local generator of the `rand` crate.

use vstd::prelude::*;
use rand::Rng;

verus! {

#[verifier::external_type_specification]
#[verifier::external_body]
pub struct ExThreadRng(rand::rngs::ThreadRng);

/// Uniformly random byte source masked by a caller-supplied bitmask.
pub struct Random {
    rng: rand::rngs::ThreadRng,
}

/// Relies on rand::thread_rng: a handle to the lazily initialized
/// thread-local random number generator.
#[verifier::external_body]
fn thread_rng_handle() -> rand::rngs::ThreadRng {
    rand::thread_rng()
}

/// Relies on rand::Rng::gen for u8: one random byte; nothing is promised of
/// its value.
#[verifier::external_body]
fn random_byte(rng: &mut rand::rngs::ThreadRng) -> u8 {
    rng.gen()
}

impl Random {
    /// Creates a source backed by the thread-local generator. No seeding is
    /// promised; determinism is not part of the contract.
    pub fn new() -> Random {
        Random { rng: thread_rng_handle() }
    }

    /// One random byte bitwise-ANDed with `mask`: whatever byte was drawn,
    /// the result has set bits only where `mask` has them.
    pub fn next(&mut self, mask: u8) -> (r: u8)
        ensures
            r & mask == r,
    {
        let number = random_byte(&mut self.rng);
        let r = number & mask;
        proof {
            lemma_mask_idempotent(number, mask);
        }
        r
    }
}

/// Masking is idempotent: a masked byte is unchanged by masking again.
proof fn lemma_mask_idempotent(b: u8, mask: u8)
    by (bit_vector)
    ensures
        (b & mask) & mask == b & mask,
{
}

} // verus!

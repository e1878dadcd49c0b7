//! The value commitment of a mint: a point that binds the minted amount and
//! hides it behind fresh randomness.

use crate::encoding::le_encoding;
use crate::field::Fr;
use crate::point::{jubjub_point_plus, jubjub_point_times, Point};
use rand::Rng;
use vstd::prelude::*;

verus! {

/// What a value commitment is made of: the amount, the randomness that blinds
/// it, and the two bases. `value_base` is the generator of the asset that is
/// minted; `randomness_base` is the same for every asset.
#[derive(Debug, Clone, Copy)]
pub struct ValueCommitment {
    pub value_base: Point,
    pub randomness_base: Point,
    pub value: u64,
    pub randomness: Fr,
}

impl ValueCommitment {
    /// The encoding of the point `value * value_base + randomness *
    /// randomness_base`.
    pub open spec fn commitment_point(self) -> Seq<u8> {
        jubjub_point_plus(
            jubjub_point_times(self.value_base@, le_encoding(self.value as nat, 32)),
            jubjub_point_times(self.randomness_base@, self.randomness@),
        )
    }

    /// The commitment point.
    pub fn commitment(&self) -> (r: Point)
        ensures
            r@ == self.commitment_point(),
    {
        let amount = Fr::from_u64(self.value);
        let bound = self.value_base.mul(&amount);
        let blind = self.randomness_base.mul(&self.randomness);
        bound.add(&blind)
    }
}

/// Draws the randomness of one commitment: 64 bytes from the thread's
/// generator, reduced into the scalar field. Every call draws anew, so of the
/// element itself nothing is promised.
pub fn fresh_randomness() -> (r: Fr)
    ensures
        r.wf(),
{
    let buffer = random_bytes();
    Fr::from_bytes_wide(&buffer)
}

/// `rand::Rng::fill` on `rand::thread_rng()`: 64 bytes from a
/// cryptographically secure generator that each thread has for itself and
/// that is seeded by the operating system. Nothing is claimed of the bytes.
/// Where the operating system has no entropy to seed it with, the generator
/// aborts the thread.
#[verifier::external_body]
fn random_bytes() -> (buffer: [u8; 64]) {
    let mut buffer = [0u8; 64];
    rand::thread_rng().fill(&mut buffer[..]);
    buffer
}

} // verus!

//! The ways in which building, decoding or checking a mint can fail.

use vstd::prelude::*;

verus! {

/// Why an operation on a mint proof was refused.
#[derive(Debug, Clone, Copy, PartialEq, Eq, Structural)]
pub enum SaplingProofError {
    /// The proving system rejected the witness or failed on it. The attempt is
    /// lost; a retry needs a fresh witness.
    ProofGenerationFailed,
    /// The bytes read are too few, or a field among them is not the canonical
    /// encoding of what it should hold.
    IOError,
    /// The bundle is well formed, but its proof does not hold of its public
    /// inputs.
    VerificationFailed,
}

} // verus!

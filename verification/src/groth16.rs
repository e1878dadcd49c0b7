//! Groth16 proofs over BLS12-381 and the keys that check them, each held as
//! the bytes that `bellman` reads and writes.

use crate::field::{is_scalar_encoding, scalar_encodings, Scalar};
use bellman::groth16::{prepare_verifying_key, verify_proof};
use vstd::prelude::*;

verus! {

/// The length of an encoded proof: two compressed points of G1 and one of G2.
pub const PROOF_SIZE: usize = 192;

/// Whether `bellman::groth16::Proof::<Bls12>::read` accepts `bytes`.
pub uninterp spec fn groth16_proof_decodes(bytes: Seq<u8>) -> bool;

/// Whether `bellman::groth16::VerifyingKey::<Bls12>::read` accepts `bytes`.
pub uninterp spec fn groth16_key_decodes(bytes: Seq<u8>) -> bool;

/// Whether `bellman::groth16::verify_proof` accepts the proof that `proof`
/// encodes, under the key that `key` encodes, for the public inputs that
/// `inputs` encode one by one.
pub uninterp spec fn groth16_verifies(key: Seq<u8>, proof: Seq<u8>, inputs: Seq<Seq<u8>>) -> bool;

/// Whether `bytes` is the encoding of a proof.
pub open spec fn is_proof_encoding(bytes: Seq<u8>) -> bool {
    bytes.len() == PROOF_SIZE && groth16_proof_decodes(bytes)
}

/// The byte strings that `arrays` hold, one by one.
pub open spec fn byte_strings(arrays: Seq<[u8; 32]>) -> Seq<Seq<u8>> {
    Seq::new(arrays.len(), |i: int| arrays[i]@)
}

/// A Groth16 proof.
#[derive(Debug, Clone, Copy)]
pub struct Groth16Proof {
    bytes: [u8; 192],
}

impl View for Groth16Proof {
    type V = Seq<u8>;

    /// The encoding.
    closed spec fn view(&self) -> Seq<u8> {
        self.bytes@
    }
}

impl Groth16Proof {
    /// The bytes held are the encoding of a proof.
    #[verifier::type_invariant]
    pub open spec fn wf(&self) -> bool {
        is_proof_encoding(self@)
    }

    /// Reads a proof from its encoding. `None` where one of the three points
    /// is not canonically encoded, is not on its curve, or is the point at
    /// infinity.
    pub fn from_bytes(bytes: &[u8; 192]) -> (r: Option<Groth16Proof>)
        ensures
            r is Some <==> is_proof_encoding(bytes@),
            r matches Some(p) ==> p@ == bytes@,
    {
        if groth16_proof_is_valid(bytes) {
            Some(Groth16Proof { bytes: *bytes })
        } else {
            None
        }
    }

    /// The encoding of this proof.
    pub fn to_bytes(&self) -> (bytes: [u8; 192])
        ensures
            bytes@ == self@,
            is_proof_encoding(bytes@),
    {
        proof {
            use_type_invariant(self);
        }
        self.bytes
    }

    /// Asks the verification oracle whether this proof holds of `inputs`
    /// under `key`.
    pub fn verify(&self, key: &VerifyingKey, inputs: &Vec<Scalar>) -> (ok: bool)
        ensures
            ok == groth16_verifies(key@, self@, scalar_encodings(inputs@)),
    {
        proof {
            use_type_invariant(self);
            use_type_invariant(key);
        }
        let mut encoded: Vec<[u8; 32]> = Vec::new();
        let mut i: usize = 0;
        while i < inputs.len()
            invariant
                i <= inputs.len(),
                encoded@.len() == i,
                forall|j: int| 0 <= j < i ==> encoded@[j]@ == inputs@[j]@ && is_scalar_encoding(#[trigger] encoded@[j]@),
            decreases inputs.len() - i,
        {
            encoded.push(inputs[i].to_bytes());
            i += 1;
        }
        assert(byte_strings(encoded@) =~= scalar_encodings(inputs@));
        groth16_check(&key.bytes, &self.bytes, &encoded)
    }

    /// Two proofs with one encoding are one proof.
    pub proof fn lemma_ext(a: Groth16Proof, b: Groth16Proof)
        requires
            a@ == b@,
        ensures
            a == b,
    {
        assert(a.bytes =~= b.bytes);
    }
}

/// The key under which proofs of one circuit are checked.
#[derive(Debug)]
pub struct VerifyingKey {
    bytes: Vec<u8>,
}

impl View for VerifyingKey {
    type V = Seq<u8>;

    /// The encoding.
    closed spec fn view(&self) -> Seq<u8> {
        self.bytes@
    }
}

impl VerifyingKey {
    /// The bytes held are the encoding of a key.
    #[verifier::type_invariant]
    pub open spec fn wf(&self) -> bool {
        groth16_key_decodes(self@)
    }

    /// Reads a key from its encoding. `None` where the bytes are too few or a
    /// point among them is not valid.
    pub fn from_bytes(bytes: Vec<u8>) -> (r: Option<VerifyingKey>)
        ensures
            r is Some <==> groth16_key_decodes(bytes@),
            r matches Some(k) ==> k@ == bytes@,
    {
        if groth16_key_is_valid(&bytes) {
            Some(VerifyingKey { bytes })
        } else {
            None
        }
    }
}

/// `bellman::groth16::Proof::<Bls12>::read` succeeds exactly on the encodings
/// that `groth16_proof_decodes` names.
#[verifier::external_body]
fn groth16_proof_is_valid(bytes: &[u8; 192]) -> (ok: bool)
    ensures
        ok == groth16_proof_decodes(bytes@),
{
    bellman::groth16::Proof::<bls12_381::Bls12>::read(&bytes[..]).is_ok()
}

/// `bellman::groth16::VerifyingKey::<Bls12>::read` succeeds exactly on the
/// encodings that `groth16_key_decodes` names.
#[verifier::external_body]
fn groth16_key_is_valid(bytes: &Vec<u8>) -> (ok: bool)
    ensures
        ok == groth16_key_decodes(bytes@),
{
    bellman::groth16::VerifyingKey::<bls12_381::Bls12>::read(&bytes[..]).is_ok()
}

/// `bellman::groth16::verify_proof`, on a key prepared by
/// `prepare_verifying_key`: `true` exactly where it returns `Ok`. A key made
/// for another number of public inputs makes it refuse, as a proof that does
/// not hold does.
#[verifier::external_body]
fn groth16_check(key: &Vec<u8>, proof: &[u8; 192], inputs: &Vec<[u8; 32]>) -> (ok: bool)
    requires
        groth16_key_decodes(key@),
        groth16_proof_decodes(proof@),
        forall|i: int| 0 <= i < inputs@.len() ==> is_scalar_encoding(#[trigger] inputs@[i]@),
    ensures
        ok == groth16_verifies(key@, proof@, byte_strings(inputs@)),
{
    let key = bellman::groth16::VerifyingKey::<bls12_381::Bls12>::read(&key[..]).unwrap();
    let proof = bellman::groth16::Proof::<bls12_381::Bls12>::read(&proof[..]).unwrap();
    let inputs: Vec<bls12_381::Scalar> =
        inputs.iter().map(|b| bls12_381::Scalar::from_bytes(b).unwrap()).collect();
    verify_proof(&prepare_verifying_key(&key), &proof, &inputs).is_ok()
}

} // verus!

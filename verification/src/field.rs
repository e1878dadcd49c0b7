//! Elements of the two prime fields of the protocol, each held as its
//! canonical encoding: 32 bytes, least significant first, spelling an integer
//! below the field's modulus.

use crate::encoding::{le_encoding, le_value, lemma_le_encoding_unique};
use vstd::prelude::*;

verus! {

/// The order `q` of the BLS12-381 scalar field, which is also the field over
/// which Jubjub is defined.
pub open spec fn scalar_modulus() -> nat {
    0x73eda753299d7d483339d80809a1d80553bda402fffe5bfeffffffff00000001nat
}

/// The order `r` of Jubjub's prime-order subgroup.
pub open spec fn fr_modulus() -> nat {
    0x0e7db4ea6533afa906673b0101343b00a6682093ccc81082d0970e5ed6f72cb7nat
}

/// Whether `bytes` is the canonical encoding of an element of the BLS12-381
/// scalar field.
pub open spec fn is_scalar_encoding(bytes: Seq<u8>) -> bool {
    bytes.len() == 32 && le_value(bytes) < scalar_modulus()
}

/// Whether `bytes` is the canonical encoding of an element of Jubjub's scalar
/// field.
pub open spec fn is_fr_encoding(bytes: Seq<u8>) -> bool {
    bytes.len() == 32 && le_value(bytes) < fr_modulus()
}

/// An element of the BLS12-381 scalar field: a note commitment, a Merkle root,
/// a coordinate of a Jubjub point, a public input of the proof.
#[derive(Debug, Clone, Copy)]
pub struct Scalar {
    bytes: [u8; 32],
}

impl View for Scalar {
    type V = Seq<u8>;

    /// The canonical encoding.
    closed spec fn view(&self) -> Seq<u8> {
        self.bytes@
    }
}

impl Scalar {
    /// The bytes held are the canonical encoding of an element.
    #[verifier::type_invariant]
    pub open spec fn wf(&self) -> bool {
        is_scalar_encoding(self@)
    }

    /// The integer below `q` that this element is.
    pub open spec fn value(&self) -> nat {
        le_value(self@)
    }

    /// Reads an element from its encoding. `None` where `bytes` spell an
    /// integer that is not below `q`.
    pub fn from_bytes(bytes: &[u8; 32]) -> (r: Option<Scalar>)
        ensures
            r is Some <==> is_scalar_encoding(bytes@),
            r matches Some(s) ==> s@ == bytes@,
    {
        if bls12_381_scalar_is_canonical(bytes) {
            Some(Scalar { bytes: *bytes })
        } else {
            None
        }
    }

    /// The canonical encoding of this element.
    pub fn to_bytes(&self) -> (bytes: [u8; 32])
        ensures
            bytes@ == self@,
            is_scalar_encoding(bytes@),
    {
        proof {
            use_type_invariant(self);
        }
        self.bytes
    }

    /// Two elements with one encoding are one element.
    pub proof fn lemma_ext(a: Scalar, b: Scalar)
        requires
            a@ == b@,
        ensures
            a == b,
    {
        assert(a.bytes =~= b.bytes);
    }
}

/// The encodings of `scalars`, one by one.
pub open spec fn scalar_encodings(scalars: Seq<Scalar>) -> Seq<Seq<u8>> {
    Seq::new(scalars.len(), |i: int| scalars[i]@)
}

/// An element of Jubjub's scalar field: the randomness that blinds a
/// commitment, a secret key.
#[derive(Debug, Clone, Copy)]
pub struct Fr {
    bytes: [u8; 32],
}

impl View for Fr {
    type V = Seq<u8>;

    /// The canonical encoding.
    closed spec fn view(&self) -> Seq<u8> {
        self.bytes@
    }
}

impl Fr {
    /// The bytes held are the canonical encoding of an element.
    #[verifier::type_invariant]
    pub open spec fn wf(&self) -> bool {
        is_fr_encoding(self@)
    }

    /// The integer below `r` that this element is.
    pub open spec fn value(&self) -> nat {
        le_value(self@)
    }

    /// Reads an element from its encoding. `None` where `bytes` spell an
    /// integer that is not below `r`.
    pub fn from_bytes(bytes: &[u8; 32]) -> (r: Option<Fr>)
        ensures
            r is Some <==> is_fr_encoding(bytes@),
            r matches Some(s) ==> s@ == bytes@,
    {
        if jubjub_fr_is_canonical(bytes) {
            Some(Fr { bytes: *bytes })
        } else {
            None
        }
    }

    /// Reduces a 512-bit integer, given least significant byte first, modulo
    /// `r`. Of 64 uniform bytes this makes an element with no bias to speak
    /// of.
    pub fn from_bytes_wide(bytes: &[u8; 64]) -> (r: Fr)
        ensures
            r.value() == le_value(bytes@) % fr_modulus(),
            r.wf(),
    {
        let reduced = jubjub_fr_reduce_wide(bytes);
        Fr { bytes: reduced }
    }

    /// The element that the amount `value` is.
    pub fn from_u64(value: u64) -> (r: Fr)
        ensures
            r.value() == value,
            r@ == le_encoding(value as nat, 32),
    {
        let bytes = jubjub_fr_from_u64(value);
        proof {
            lemma_le_encoding_unique(bytes@);
        }
        Fr { bytes }
    }

    /// The canonical encoding of this element.
    pub fn to_bytes(&self) -> (bytes: [u8; 32])
        ensures
            bytes@ == self@,
            is_fr_encoding(bytes@),
    {
        proof {
            use_type_invariant(self);
        }
        self.bytes
    }
}

/// `bls12_381::Scalar::from_bytes` takes 32 bytes as a little-endian integer
/// and yields an element exactly when that integer is below the modulus `q`.
#[verifier::external_body]
fn bls12_381_scalar_is_canonical(bytes: &[u8; 32]) -> (ok: bool)
    ensures
        ok == (le_value(bytes@) < scalar_modulus()),
{
    bls12_381::Scalar::from_bytes(bytes).is_some().into()
}

/// `jubjub::Fr::from_bytes` takes 32 bytes as a little-endian integer and
/// yields an element exactly when that integer is below the modulus `r`.
#[verifier::external_body]
fn jubjub_fr_is_canonical(bytes: &[u8; 32]) -> (ok: bool)
    ensures
        ok == (le_value(bytes@) < fr_modulus()),
{
    jubjub::Fr::from_bytes(bytes).is_some().into()
}

/// `jubjub::Fr::from_bytes_wide` takes 64 bytes as a little-endian integer and
/// reduces it modulo `r`; the element comes back in its canonical encoding.
#[verifier::external_body]
fn jubjub_fr_reduce_wide(bytes: &[u8; 64]) -> (out: [u8; 32])
    ensures
        le_value(out@) == le_value(bytes@) % fr_modulus(),
{
    jubjub::Fr::from_bytes_wide(bytes).to_bytes()
}

/// `jubjub::Fr::from` on a `u64` yields the element that this integer is; it
/// comes back in its canonical encoding.
#[verifier::external_body]
fn jubjub_fr_from_u64(value: u64) -> (out: [u8; 32])
    ensures
        le_value(out@) == value,
{
    jubjub::Fr::from(value).to_bytes()
}

} // verus!

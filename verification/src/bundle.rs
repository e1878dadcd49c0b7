//! The public bundle of a mint: the proof and the public values it speaks of,
//! its encoding in bytes, and its verification.

use crate::asset::{AssetIdentifier, AssetType, ASSET_IDENTIFIER_LENGTH};
use crate::errors::SaplingProofError;
use crate::field::{is_scalar_encoding, scalar_encodings, Scalar};
use crate::groth16::{
    groth16_verifies, is_proof_encoding, Groth16Proof, VerifyingKey, PROOF_SIZE,
};
use crate::multipack::{lemma_packed_identifier_injective, pack_identifier, packed_identifier};
use crate::point::{
    affine_v, is_point_encoding, jubjub_affine_u, lemma_coordinates_fix_encoding, Point,
};
use vstd::prelude::*;

verus! {

/// The length of the reserved slot that follows the asset identifier.
pub const ENCRYPTED_NOTE_SIZE: usize = 12;

/// Where the commitment of the creating note begins in an encoded bundle:
/// after the proof.
pub const CREATE_ASSET_COMMITMENT_AT: usize = 192;

/// Where the commitment of the mint note begins.
pub const MINT_ASSET_COMMITMENT_AT: usize = 224;

/// Where the value commitment begins.
pub const VALUE_COMMITMENT_AT: usize = 256;

/// Where the asset identifier begins.
pub const ASSET_IDENTIFIER_AT: usize = 288;

/// Where the reserved slot begins.
pub const ENCRYPTED_NOTE_AT: usize = 320;

/// Where the Merkle root begins.
pub const ROOT_HASH_AT: usize = 332;

/// The length of an encoded bundle.
pub const MINT_ASSET_PROOF_SIZE: usize = 364;

/// The number of public inputs of the mint circuit.
pub const PUBLIC_INPUTS: usize = 7;

/// What a mint publishes: the proof, and the public values that the proof
/// binds. No secret is among them.
///
/// A bundle read from bytes is well formed and no more: whether its proof
/// holds is for `verify_proof` to say.
#[derive(Debug, Clone, Copy)]
pub struct MintAssetProof {
    zk_proof: Groth16Proof,
    create_asset_commitment: Scalar,
    mint_asset_commitment: Scalar,
    encrypted_note: [u8; 12],
    value_commitment: Point,
    asset_type: AssetType,
    root_hash: Scalar,
}

/// A bundle as plain data: each field as its encoding.
pub struct MintAssetProofView {
    pub zk_proof: Seq<u8>,
    pub create_asset_commitment: Seq<u8>,
    pub mint_asset_commitment: Seq<u8>,
    pub encrypted_note: Seq<u8>,
    pub value_commitment: Seq<u8>,
    pub asset_identifier: Seq<u8>,
    pub root_hash: Seq<u8>,
}

impl MintAssetProofView {
    /// Each field is the canonical encoding of what it holds.
    pub open spec fn wf(self) -> bool {
        &&& is_proof_encoding(self.zk_proof)
        &&& is_scalar_encoding(self.create_asset_commitment)
        &&& is_scalar_encoding(self.mint_asset_commitment)
        &&& self.encrypted_note.len() == ENCRYPTED_NOTE_SIZE
        &&& is_point_encoding(self.value_commitment)
        &&& self.asset_identifier.len() == ASSET_IDENTIFIER_LENGTH
        &&& is_scalar_encoding(self.root_hash)
    }

    /// The bytes of the bundle: its fields in their fixed order, nothing
    /// between them and no length before any.
    pub open spec fn encoding(self) -> Seq<u8> {
        self.zk_proof + self.create_asset_commitment + self.mint_asset_commitment
            + self.value_commitment + self.asset_identifier + self.encrypted_note + self.root_hash
    }

    /// The public inputs that the proof must hold of, in the order that the
    /// circuit fixes.
    pub open spec fn public_inputs(self) -> Seq<Seq<u8>> {
        seq![
            packed_identifier(self.asset_identifier)[0],
            packed_identifier(self.asset_identifier)[1],
            self.create_asset_commitment,
            self.root_hash,
            jubjub_affine_u(self.value_commitment),
            affine_v(self.value_commitment),
            self.mint_asset_commitment,
        ]
    }

    /// Whether the verification oracle accepts the bundle's proof for the
    /// bundle's public inputs under `key`.
    pub open spec fn verifies_under(self, key: Seq<u8>) -> bool {
        groth16_verifies(key, self.zk_proof, self.public_inputs())
    }
}

/// The fields that the first `MINT_ASSET_PROOF_SIZE` bytes of `bytes` hold.
pub open spec fn decoded(bytes: Seq<u8>) -> MintAssetProofView {
    MintAssetProofView {
        zk_proof: bytes.subrange(0, CREATE_ASSET_COMMITMENT_AT as int),
        create_asset_commitment: bytes.subrange(
            CREATE_ASSET_COMMITMENT_AT as int,
            MINT_ASSET_COMMITMENT_AT as int,
        ),
        mint_asset_commitment: bytes.subrange(
            MINT_ASSET_COMMITMENT_AT as int,
            VALUE_COMMITMENT_AT as int,
        ),
        value_commitment: bytes.subrange(VALUE_COMMITMENT_AT as int, ASSET_IDENTIFIER_AT as int),
        asset_identifier: bytes.subrange(ASSET_IDENTIFIER_AT as int, ENCRYPTED_NOTE_AT as int),
        encrypted_note: bytes.subrange(ENCRYPTED_NOTE_AT as int, ROOT_HASH_AT as int),
        root_hash: bytes.subrange(ROOT_HASH_AT as int, MINT_ASSET_PROOF_SIZE as int),
    }
}

/// Whether `bytes` begin with the encoding of a bundle. Whether the asset
/// identifier among them names an asset is not asked here: that is the asset
/// layer's to say.
pub open spec fn decodable(bytes: Seq<u8>) -> bool {
    bytes.len() >= MINT_ASSET_PROOF_SIZE && decoded(bytes).wf()
}

impl View for MintAssetProof {
    type V = MintAssetProofView;

    closed spec fn view(&self) -> MintAssetProofView {
        MintAssetProofView {
            zk_proof: self.zk_proof@,
            create_asset_commitment: self.create_asset_commitment@,
            mint_asset_commitment: self.mint_asset_commitment@,
            encrypted_note: self.encrypted_note@,
            value_commitment: self.value_commitment@,
            asset_identifier: self.asset_type@,
            root_hash: self.root_hash@,
        }
    }
}

/// An encoded bundle has `MINT_ASSET_PROOF_SIZE` bytes: the proof, then 32
/// for each commitment, 32 for the value commitment, the asset identifier, the
/// 12 reserved bytes and 32 for the root.
pub proof fn lemma_encoding_len(bundle: MintAssetProofView)
    requires
        bundle.wf(),
    ensures
        bundle.encoding().len() == MINT_ASSET_PROOF_SIZE,
        bundle.encoding().len() == PROOF_SIZE + 32 + 32 + 32 + ASSET_IDENTIFIER_LENGTH
            + ENCRYPTED_NOTE_SIZE + 32,
{
}

/// Decoding the encoding of a well-formed bundle yields that bundle, field
/// for field, whatever bytes follow the encoding.
pub proof fn lemma_round_trip(bundle: MintAssetProofView, rest: Seq<u8>)
    requires
        bundle.wf(),
    ensures
        decodable(bundle.encoding() + rest),
        decoded(bundle.encoding() + rest) == bundle,
{
    let bytes = bundle.encoding() + rest;
    let back = decoded(bytes);
    assert(back.zk_proof =~= bundle.zk_proof);
    assert(back.create_asset_commitment =~= bundle.create_asset_commitment);
    assert(back.mint_asset_commitment =~= bundle.mint_asset_commitment);
    assert(back.value_commitment =~= bundle.value_commitment);
    assert(back.asset_identifier =~= bundle.asset_identifier);
    assert(back.encrypted_note =~= bundle.encrypted_note);
    assert(back.root_hash =~= bundle.root_hash);
}

/// The encoding is canonical: what decodes is the encoding of what it decodes
/// to.
pub proof fn lemma_decoded_encodes_back(bytes: Seq<u8>)
    requires
        decodable(bytes),
    ensures
        decoded(bytes).encoding() == bytes.subrange(0, MINT_ASSET_PROOF_SIZE as int),
{
    assert(decoded(bytes).encoding() =~= bytes.subrange(0, MINT_ASSET_PROOF_SIZE as int));
}

/// Bytes cut short of a whole bundle do not decode.
pub proof fn lemma_truncated_is_refused(bytes: Seq<u8>, n: int)
    requires
        0 <= n < MINT_ASSET_PROOF_SIZE,
        n <= bytes.len(),
    ensures
        !decodable(bytes.subrange(0, n)),
{
}

/// The public inputs bind the public fields: two well-formed bundles with the
/// same public inputs agree in both note commitments, in the root, in the
/// asset identifier and in the value commitment.
pub proof fn lemma_public_inputs_bind_fields(a: MintAssetProofView, b: MintAssetProofView)
    requires
        a.wf(),
        b.wf(),
        a.public_inputs() == b.public_inputs(),
    ensures
        a.create_asset_commitment == b.create_asset_commitment,
        a.mint_asset_commitment == b.mint_asset_commitment,
        a.root_hash == b.root_hash,
        a.asset_identifier == b.asset_identifier,
        a.value_commitment == b.value_commitment,
{
    assert(a.public_inputs()[2] == b.public_inputs()[2]);
    assert(a.public_inputs()[3] == b.public_inputs()[3]);
    assert(a.public_inputs()[4] == b.public_inputs()[4]);
    assert(a.public_inputs()[5] == b.public_inputs()[5]);
    assert(a.public_inputs()[6] == b.public_inputs()[6]);
    assert(packed_identifier(a.asset_identifier) =~= packed_identifier(b.asset_identifier)) by {
        assert(a.public_inputs()[0] == b.public_inputs()[0]);
        assert(a.public_inputs()[1] == b.public_inputs()[1]);
    }
    lemma_packed_identifier_injective(a.asset_identifier, b.asset_identifier);
    lemma_coordinates_fix_encoding(a.value_commitment, b.value_commitment);
}

/// Whether `tampered` is `encoded` with byte `at` changed and nothing else.
pub open spec fn differs_at(encoded: Seq<u8>, tampered: Seq<u8>, at: int) -> bool {
    &&& tampered.len() == encoded.len()
    &&& 0 <= at < encoded.len()
    &&& tampered[at] != encoded[at]
    &&& forall|j: int| 0 <= j < encoded.len() && j != at ==> tampered[j] == encoded[j]
}

/// Whether byte `at` of an encoded bundle lies in a note commitment, in the
/// value commitment, in the asset identifier or in the root.
pub open spec fn in_bound_field(at: int) -> bool {
    CREATE_ASSET_COMMITMENT_AT <= at < ENCRYPTED_NOTE_AT || ROOT_HASH_AT <= at
        < MINT_ASSET_PROOF_SIZE
}

/// A change to an encoded bundle leaves the proof facing other public inputs
/// than it was made for, where the changed bundle still decodes and the
/// change is to a byte of a note commitment, of the value commitment, of the
/// asset identifier or of the root.
pub proof fn lemma_tampering_changes_public_inputs(encoded: Seq<u8>, tampered: Seq<u8>, at: int)
    requires
        decodable(encoded),
        decodable(tampered),
        in_bound_field(at),
        encoded[at] != tampered[at],
    ensures
        decoded(encoded).public_inputs() != decoded(tampered).public_inputs(),
{
    let a = decoded(encoded);
    let b = decoded(tampered);
    if a.public_inputs() == b.public_inputs() {
        lemma_public_inputs_bind_fields(a, b);
        if at < MINT_ASSET_COMMITMENT_AT {
            let i: int = at - CREATE_ASSET_COMMITMENT_AT;
            assert(a.create_asset_commitment[i] == b.create_asset_commitment[i]);
        } else if at < VALUE_COMMITMENT_AT {
            let i: int = at - MINT_ASSET_COMMITMENT_AT;
            assert(a.mint_asset_commitment[i] == b.mint_asset_commitment[i]);
        } else if at < ASSET_IDENTIFIER_AT {
            let i: int = at - VALUE_COMMITMENT_AT;
            assert(a.value_commitment[i] == b.value_commitment[i]);
        } else if at < ENCRYPTED_NOTE_AT {
            let i: int = at - ASSET_IDENTIFIER_AT;
            assert(a.asset_identifier[i] == b.asset_identifier[i]);
        } else {
            let i: int = at - ROOT_HASH_AT;
            assert(a.root_hash[i] == b.root_hash[i]);
        }
    }
}

/// Whether the oracle, under `key`, accepts the proof of `bundle` for no
/// public inputs but the bundle's own: what a sound proving system gives.
pub open spec fn proof_is_bound(bundle: MintAssetProofView, key: Seq<u8>) -> bool {
    forall|inputs: Seq<Seq<u8>>| #[trigger]
        groth16_verifies(key, bundle.zk_proof, inputs) ==> inputs == bundle.public_inputs()
}

/// A changed bundle never passes: where one byte of a note commitment, of the
/// value commitment, of the asset identifier or of the root is changed in the
/// encoding of a bundle whose proof is bound to its public inputs, the result
/// does not decode, or it decodes and does not verify.
pub proof fn lemma_tampered_bundle_never_passes(
    encoded: Seq<u8>,
    tampered: Seq<u8>,
    at: int,
    key: Seq<u8>,
)
    requires
        decodable(encoded),
        proof_is_bound(decoded(encoded), key),
        differs_at(encoded, tampered, at),
        in_bound_field(at),
    ensures
        !decodable(tampered) || !decoded(tampered).verifies_under(key),
{
    if decodable(tampered) {
        lemma_tampering_changes_public_inputs(encoded, tampered, at);
        assert(decoded(tampered).zk_proof =~= decoded(encoded).zk_proof);
    }
}

/// The `N` bytes of `bytes` from `at` on.
fn take<const N: usize>(bytes: &[u8], at: usize) -> (out: [u8; N])
    requires
        at + N <= bytes@.len(),
    ensures
        out@ == bytes@.subrange(at as int, at + N),
{
    let len: usize = bytes.len();
    let mut out = [0u8; N];
    let mut i: usize = 0;
    while i < N
        invariant
            i <= N,
            at + N <= len == bytes@.len(),
            out@.len() == N,
            forall|j: int| 0 <= j < i ==> out@[j] == bytes@[at + j],
        decreases N - i,
    {
        out[i] = bytes[at + i];
        i += 1;
    }
    assert(out@ =~= bytes@.subrange(at as int, at + N));
    out
}

impl MintAssetProof {
    /// Puts a bundle together from its parts.
    pub(crate) fn from_parts(
        zk_proof: Groth16Proof,
        create_asset_commitment: Scalar,
        mint_asset_commitment: Scalar,
        encrypted_note: [u8; 12],
        value_commitment: Point,
        asset_type: AssetType,
        root_hash: Scalar,
    ) -> (r: MintAssetProof)
        ensures
            r@ == (MintAssetProofView {
                zk_proof: zk_proof@,
                create_asset_commitment: create_asset_commitment@,
                mint_asset_commitment: mint_asset_commitment@,
                encrypted_note: encrypted_note@,
                value_commitment: value_commitment@,
                asset_identifier: asset_type@,
                root_hash: root_hash@,
            }),
            r@.wf(),
    {
        proof {
            use_type_invariant(&zk_proof);
            use_type_invariant(&create_asset_commitment);
            use_type_invariant(&mint_asset_commitment);
            use_type_invariant(&value_commitment);
            use_type_invariant(&root_hash);
            asset_type.lemma_identifier_len();
        }
        MintAssetProof {
            zk_proof,
            create_asset_commitment,
            mint_asset_commitment,
            encrypted_note,
            value_commitment,
            asset_type,
            root_hash,
        }
    }

    /// Two bundles that agree field for field are one bundle.
    pub proof fn lemma_ext(a: MintAssetProof, b: MintAssetProof)
        requires
            a@ == b@,
        ensures
            a == b,
    {
        Groth16Proof::lemma_ext(a.zk_proof, b.zk_proof);
        Scalar::lemma_ext(a.create_asset_commitment, b.create_asset_commitment);
        Scalar::lemma_ext(a.mint_asset_commitment, b.mint_asset_commitment);
        Point::lemma_ext(a.value_commitment, b.value_commitment);
        AssetType::lemma_ext(a.asset_type, b.asset_type);
        Scalar::lemma_ext(a.root_hash, b.root_hash);
        assert(a.encrypted_note =~= b.encrypted_note);
    }

    /// The asset identifier that an encoded bundle at the front of `bytes`
    /// holds, for the asset layer to judge before the bundle is read. `None`
    /// where the bytes are too few for a bundle.
    pub fn identifier_of(bytes: &[u8]) -> (r: Option<AssetIdentifier>)
        ensures
            r is Some <==> bytes@.len() >= MINT_ASSET_PROOF_SIZE,
            r matches Some(id) ==> id@ == decoded(bytes@).asset_identifier,
    {
        if bytes.len() < MINT_ASSET_PROOF_SIZE {
            None
        } else {
            Some(take::<32>(bytes, ASSET_IDENTIFIER_AT))
        }
    }

    /// Reads a bundle from the front of `bytes`, field by field in the order
    /// of the encoding. `identifier_recognized` is the asset layer's answer
    /// for the identifier that `identifier_of` finds in these bytes. The read
    /// fails as a whole where the bytes are too few, where a field is not
    /// canonically encoded, or where the identifier is not recognized; bytes
    /// past the bundle are left alone.
    pub fn read(bytes: &[u8], identifier_recognized: bool) -> (r: Result<
        MintAssetProof,
        SaplingProofError,
    >)
        ensures
            r is Ok <==> decodable(bytes@) && identifier_recognized,
            r matches Ok(bundle) ==> bundle@ == decoded(bytes@),
            r matches Err(e) ==> e == SaplingProofError::IOError,
    {
        if bytes.len() < MINT_ASSET_PROOF_SIZE {
            return Err(SaplingProofError::IOError);
        }
        let zk_proof = match Groth16Proof::from_bytes(&take::<192>(bytes, 0)) {
            Some(p) => p,
            None => {
                return Err(SaplingProofError::IOError);
            },
        };
        let create_asset_commitment = match Scalar::from_bytes(
            &take::<32>(bytes, CREATE_ASSET_COMMITMENT_AT),
        ) {
            Some(s) => s,
            None => {
                return Err(SaplingProofError::IOError);
            },
        };
        let mint_asset_commitment = match Scalar::from_bytes(
            &take::<32>(bytes, MINT_ASSET_COMMITMENT_AT),
        ) {
            Some(s) => s,
            None => {
                return Err(SaplingProofError::IOError);
            },
        };
        let value_commitment = match Point::from_bytes(&take::<32>(bytes, VALUE_COMMITMENT_AT)) {
            Some(p) => p,
            None => {
                return Err(SaplingProofError::IOError);
            },
        };
        let asset_type = match AssetType::from_identifier(
            &take::<32>(bytes, ASSET_IDENTIFIER_AT),
            identifier_recognized,
        ) {
            Some(a) => a,
            None => {
                return Err(SaplingProofError::IOError);
            },
        };
        let encrypted_note = take::<12>(bytes, ENCRYPTED_NOTE_AT);
        let root_hash = match Scalar::from_bytes(&take::<32>(bytes, ROOT_HASH_AT)) {
            Some(s) => s,
            None => {
                return Err(SaplingProofError::IOError);
            },
        };
        Ok(
            MintAssetProof {
                zk_proof,
                create_asset_commitment,
                mint_asset_commitment,
                encrypted_note,
                value_commitment,
                asset_type,
                root_hash,
            },
        )
    }

    /// Appends the encoding of this bundle to `writer`.
    pub fn write(&self, writer: &mut Vec<u8>)
        ensures
            final(writer)@ == old(writer)@ + self@.encoding(),
            self@.wf(),
    {
        self.serialize_signature_fields(writer)
    }

    /// Appends to `writer` the bytes of this bundle that a signature over the
    /// enclosing transaction covers: the same bytes that `write` appends.
    pub fn serialize_signature_fields(&self, writer: &mut Vec<u8>)
        ensures
            final(writer)@ == old(writer)@ + self@.encoding(),
            self@.wf(),
    {
        let zk_proof = self.zk_proof.to_bytes();
        let create_asset_commitment = self.create_asset_commitment.to_bytes();
        let mint_asset_commitment = self.mint_asset_commitment.to_bytes();
        let value_commitment = self.value_commitment.to_bytes();
        let root_hash = self.root_hash.to_bytes();
        writer.extend_from_slice(&zk_proof);
        writer.extend_from_slice(&create_asset_commitment);
        writer.extend_from_slice(&mint_asset_commitment);
        writer.extend_from_slice(&value_commitment);
        writer.extend_from_slice(self.asset_type.get_identifier());
        writer.extend_from_slice(&self.encrypted_note);
        writer.extend_from_slice(&root_hash);
        assert(writer@ =~= old(writer)@ + self@.encoding());
    }

    /// The public inputs that the proof of this bundle must hold of: the
    /// asset identifier packed into two elements, the commitment of the note
    /// that created the asset, the Merkle root, the two affine coordinates of
    /// the value commitment, and the commitment of the mint note.
    pub fn public_inputs(&self) -> (inputs: Vec<Scalar>)
        ensures
            scalar_encodings(inputs@) == self@.public_inputs(),
            inputs@.len() == PUBLIC_INPUTS,
    {
        let packed = pack_identifier(self.asset_type.get_identifier());
        let (u, v) = self.value_commitment.to_affine();
        let mut inputs: Vec<Scalar> = Vec::new();
        inputs.push(packed[0]);
        inputs.push(packed[1]);
        inputs.push(self.create_asset_commitment);
        inputs.push(self.root_hash);
        inputs.push(u);
        inputs.push(v);
        inputs.push(self.mint_asset_commitment);
        proof {
            assert(scalar_encodings(packed@)[0] == packed@[0]@);
            assert(scalar_encodings(packed@)[1] == packed@[1]@);
            assert(scalar_encodings(inputs@) =~= self@.public_inputs());
        }
        inputs
    }

    /// The proof.
    pub fn zk_proof(&self) -> (r: Groth16Proof)
        ensures
            r@ == self@.zk_proof,
    {
        self.zk_proof
    }

    /// The commitment of the note that created the asset.
    pub fn create_asset_commitment(&self) -> (r: Scalar)
        ensures
            r@ == self@.create_asset_commitment,
    {
        self.create_asset_commitment
    }

    /// The commitment of the note that mints.
    pub fn mint_asset_commitment(&self) -> (r: Scalar)
        ensures
            r@ == self@.mint_asset_commitment,
    {
        self.mint_asset_commitment
    }

    /// The reserved bytes. They keep their place and width in the encoding
    /// and mean nothing.
    pub fn encrypted_note(&self) -> (r: [u8; 12])
        ensures
            r@ == self@.encrypted_note,
    {
        self.encrypted_note
    }

    /// The commitment to the minted amount.
    pub fn value_commitment(&self) -> (r: Point)
        ensures
            r@ == self@.value_commitment,
    {
        self.value_commitment
    }

    /// The type of the minted asset.
    pub fn asset_type(&self) -> (r: AssetType)
        ensures
            r@ == self@.asset_identifier,
    {
        self.asset_type
    }

    /// The root of the Merkle tree that holds the creating note.
    pub fn root_hash(&self) -> (r: Scalar)
        ensures
            r@ == self@.root_hash,
    {
        self.root_hash
    }

    /// Checks the proof of this bundle against its public inputs under `key`.
    /// A refusal by the oracle, for whatever reason, is a failed
    /// verification.
    pub fn verify_proof(&self, key: &VerifyingKey) -> (r: Result<(), SaplingProofError>)
        ensures
            r is Ok <==> self@.verifies_under(key@),
            r matches Err(e) ==> e == SaplingProofError::VerificationFailed,
    {
        let inputs = self.public_inputs();
        verification_outcome(self.zk_proof.verify(key, &inputs))
    }
}

/// What a verification comes to, given the oracle's answer: success without a
/// value where it accepted, and the one error of verification where it
/// refused.
pub fn verification_outcome(accepted: bool) -> (r: Result<(), SaplingProofError>)
    ensures
        accepted ==> r == Ok::<(), SaplingProofError>(()),
        !accepted ==> r == Err::<(), SaplingProofError>(SaplingProofError::VerificationFailed),
{
    if accepted {
        Ok(())
    } else {
        Err(SaplingProofError::VerificationFailed)
    }
}

} // verus!

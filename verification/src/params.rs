//! The prover's side of a mint: the witness that the proving system is given,
//! and the bundle that keeps the proof together with the prover's secrets
//! until the public bundle is made from it.

use crate::asset::AssetType;
use crate::bundle::{MintAssetProof, MintAssetProofView, ENCRYPTED_NOTE_SIZE};
use crate::commitment::{fresh_randomness, ValueCommitment};
use crate::errors::SaplingProofError;
use crate::field::{Fr, Scalar};
use crate::groth16::{Groth16Proof, VerifyingKey};
use crate::point::Point;
use vstd::prelude::*;

verus! {

/// The key that lets its holder prove, and no more: the public part of the
/// authorising key and the secret part of the nullifier key.
#[derive(Debug, Clone, Copy)]
pub struct ProofGenerationKey {
    pub ak: Point,
    pub nsk: Fr,
}

/// What the mint needs of the note that created the asset.
#[derive(Debug, Clone, Copy)]
pub struct CreateAssetNote {
    /// The randomness that blinds the note's commitment.
    pub randomness: Fr,
    /// The note's commitment.
    pub commitment: Scalar,
}

/// What the mint needs of the note that mints.
#[derive(Debug, Clone, Copy)]
pub struct MintAssetNote {
    /// The asset that is minted.
    pub asset_type: AssetType,
    /// The generator that belongs to that asset.
    pub asset_generator: Point,
    /// The amount that is minted.
    pub value: u64,
    /// The randomness that blinds the note's commitment.
    pub randomness: Fr,
    /// The note's commitment.
    pub commitment: Scalar,
}

/// One step of a Merkle authentication path: the sibling's hash, and whether
/// the node on the path is the right child.
#[derive(Debug, Clone, Copy)]
pub struct AuthPathNode {
    pub sibling: Scalar,
    pub is_right: bool,
}

/// What a Merkle witness for the creating note's commitment says: the root of
/// the tree, and the path from the commitment up to it.
#[derive(Debug)]
pub struct MerkleWitness {
    pub root_hash: Scalar,
    pub auth_path: Vec<AuthPathNode>,
}

/// All that the proving system is given to prove one mint. It holds secrets,
/// is made for one proof and is never encoded.
#[derive(Debug)]
pub struct MintWitness {
    pub asset_type: AssetType,
    pub proof_generation_key: ProofGenerationKey,
    pub create_commitment_randomness: Fr,
    pub mint_commitment_randomness: Fr,
    pub auth_path: Vec<AuthPathNode>,
    pub anchor: Scalar,
    pub value_commitment: ValueCommitment,
}

impl MintWitness {
    /// Whether this witness is the one that the given inputs determine, the
    /// randomness of the value commitment apart.
    pub open spec fn assembled_from(
        self,
        key: ProofGenerationKey,
        create_asset_note: CreateAssetNote,
        mint_asset_note: MintAssetNote,
        witness: MerkleWitness,
        randomness_base: Point,
    ) -> bool {
        &&& self.asset_type == mint_asset_note.asset_type
        &&& self.proof_generation_key == key
        &&& self.create_commitment_randomness == create_asset_note.randomness
        &&& self.mint_commitment_randomness == mint_asset_note.randomness
        &&& self.auth_path@ == witness.auth_path@
        &&& self.anchor == witness.root_hash
        &&& self.value_commitment.value_base == mint_asset_note.asset_generator
        &&& self.value_commitment.randomness_base == randomness_base
        &&& self.value_commitment.value == mint_asset_note.value
    }

    /// Assembles the witness of a mint with the given randomness for its
    /// value commitment.
    pub fn assemble(
        key: &ProofGenerationKey,
        create_asset_note: &CreateAssetNote,
        mint_asset_note: &MintAssetNote,
        witness: &MerkleWitness,
        randomness_base: &Point,
        randomness: Fr,
    ) -> (r: MintWitness)
        ensures
            r.assembled_from(*key, *create_asset_note, *mint_asset_note, *witness, *randomness_base),
            r.value_commitment.randomness == randomness,
    {
        let mut auth_path: Vec<AuthPathNode> = Vec::new();
        let mut i: usize = 0;
        while i < witness.auth_path.len()
            invariant
                i <= witness.auth_path@.len(),
                auth_path@ == witness.auth_path@.subrange(0, i as int),
            decreases witness.auth_path@.len() - i,
        {
            auth_path.push(witness.auth_path[i]);
            assert(auth_path@ =~= witness.auth_path@.subrange(0, i + 1));
            i += 1;
        }
        assert(auth_path@ =~= witness.auth_path@);
        MintWitness {
            asset_type: mint_asset_note.asset_type,
            proof_generation_key: *key,
            create_commitment_randomness: create_asset_note.randomness,
            mint_commitment_randomness: mint_asset_note.randomness,
            auth_path,
            anchor: witness.root_hash,
            value_commitment: ValueCommitment {
                value_base: mint_asset_note.asset_generator,
                randomness_base: *randomness_base,
                value: mint_asset_note.value,
                randomness,
            },
        }
    }

    /// Assembles the witness of a mint, with randomness drawn for this one
    /// value commitment.
    pub fn new(
        key: &ProofGenerationKey,
        create_asset_note: &CreateAssetNote,
        mint_asset_note: &MintAssetNote,
        witness: &MerkleWitness,
        randomness_base: &Point,
    ) -> (r: MintWitness)
        ensures
            r.assembled_from(*key, *create_asset_note, *mint_asset_note, *witness, *randomness_base),
    {
        let randomness = fresh_randomness();
        Self::assemble(key, create_asset_note, mint_asset_note, witness, randomness_base, randomness)
    }
}

/// The prover's bundle of a mint: the proof, the public values it binds, and
/// the randomness of the value commitment, which stays with the prover. It is
/// made once, by `new`; the public bundle is made from it by `post`.
#[derive(Debug, Clone, Copy)]
pub struct MintAssetParams {
    zk_proof: Groth16Proof,
    value_commitment_randomness: Fr,
    create_asset_commitment: Scalar,
    mint_asset_commitment: Scalar,
    encrypted_note: [u8; 12],
    value_commitment: Point,
    asset_type: AssetType,
    root_hash: Scalar,
}

/// A prover's bundle as plain data.
pub struct MintAssetParamsView {
    /// What `post` makes public.
    pub public: MintAssetProofView,
    /// The encoding of the randomness that is kept back.
    pub value_commitment_randomness: Seq<u8>,
}

impl View for MintAssetParams {
    type V = MintAssetParamsView;

    closed spec fn view(&self) -> MintAssetParamsView {
        MintAssetParamsView {
            public: MintAssetProofView {
                zk_proof: self.zk_proof@,
                create_asset_commitment: self.create_asset_commitment@,
                mint_asset_commitment: self.mint_asset_commitment@,
                encrypted_note: self.encrypted_note@,
                value_commitment: self.value_commitment@,
                asset_identifier: self.asset_type@,
                root_hash: self.root_hash@,
            },
            value_commitment_randomness: self.value_commitment_randomness@,
        }
    }
}

/// The reserved bytes of a bundle that this library makes: twelve zeros.
pub open spec fn empty_note() -> Seq<u8> {
    Seq::new(ENCRYPTED_NOTE_SIZE as nat, |i: int| 0u8)
}

/// The bundle that a witness, the two note commitments and a proof make.
pub open spec fn params_of(
    witness: MintWitness,
    create_asset_commitment: Scalar,
    mint_asset_commitment: Scalar,
    zk_proof: Groth16Proof,
) -> MintAssetParamsView {
    MintAssetParamsView {
        public: MintAssetProofView {
            zk_proof: zk_proof@,
            create_asset_commitment: create_asset_commitment@,
            mint_asset_commitment: mint_asset_commitment@,
            encrypted_note: empty_note(),
            value_commitment: witness.value_commitment.commitment_point(),
            asset_identifier: witness.asset_type@,
            root_hash: witness.anchor@,
        },
        value_commitment_randomness: witness.value_commitment.randomness@,
    }
}

/// Two builds from the same inputs make public the same note commitments,
/// asset identifier, root and reserved bytes. They differ in the proof and in
/// the value commitment, each of which goes with its own draw of randomness.
pub proof fn lemma_builds_agree_but_for_commitment(
    first: MintWitness,
    second: MintWitness,
    key: ProofGenerationKey,
    create_asset_note: CreateAssetNote,
    mint_asset_note: MintAssetNote,
    witness: MerkleWitness,
    randomness_base: Point,
    first_proof: Groth16Proof,
    second_proof: Groth16Proof,
)
    requires
        first.assembled_from(key, create_asset_note, mint_asset_note, witness, randomness_base),
        second.assembled_from(key, create_asset_note, mint_asset_note, witness, randomness_base),
    ensures
        ({
            let a = params_of(
                first,
                create_asset_note.commitment,
                mint_asset_note.commitment,
                first_proof,
            ).public;
            let b = params_of(
                second,
                create_asset_note.commitment,
                mint_asset_note.commitment,
                second_proof,
            ).public;
            &&& a.create_asset_commitment == b.create_asset_commitment
            &&& a.mint_asset_commitment == b.mint_asset_commitment
            &&& a.asset_identifier == b.asset_identifier
            &&& a.root_hash == b.root_hash
            &&& a.encrypted_note == b.encrypted_note
            &&& a.value_commitment == first.value_commitment.commitment_point()
            &&& b.value_commitment == second.value_commitment.commitment_point()
            &&& first.value_commitment.randomness == second.value_commitment.randomness
                ==> a.value_commitment == b.value_commitment
        }),
{
}

impl MintAssetParams {
    /// The reserved bytes of a prover's bundle are zeros.
    #[verifier::type_invariant]
    spec fn reserved_is_empty(&self) -> bool {
        self.encrypted_note@ == empty_note()
    }

    /// Makes the prover's bundle from the witness that was proved and from
    /// what the proving system answered: `Some` with the proof, or `None`
    /// where it rejected the witness or failed. Without a proof there is no
    /// bundle, not even a partial one.
    pub fn new(
        witness: &MintWitness,
        create_asset_note: &CreateAssetNote,
        mint_asset_note: &MintAssetNote,
        proved: Option<Groth16Proof>,
    ) -> (r: Result<MintAssetParams, SaplingProofError>)
        ensures
            r is Ok <==> proved is Some,
            r matches Ok(params) ==> params@ == params_of(
                *witness,
                create_asset_note.commitment,
                mint_asset_note.commitment,
                proved->Some_0,
            ) && params@.public.wf(),
            r matches Err(e) ==> e == SaplingProofError::ProofGenerationFailed,
    {
        match proved {
            None => Err(SaplingProofError::ProofGenerationFailed),
            Some(zk_proof) => {
                let encrypted_note = [0u8; 12];
                let value_commitment = witness.value_commitment.commitment();
                proof {
                    use_type_invariant(&zk_proof);
                    use_type_invariant(&create_asset_note.commitment);
                    use_type_invariant(&mint_asset_note.commitment);
                    use_type_invariant(&value_commitment);
                    use_type_invariant(&witness.anchor);
                    witness.asset_type.lemma_identifier_len();
                    assert(encrypted_note@ =~= empty_note());
                }
                Ok(
                    MintAssetParams {
                        zk_proof,
                        value_commitment_randomness: witness.value_commitment.randomness,
                        create_asset_commitment: create_asset_note.commitment,
                        mint_asset_commitment: mint_asset_note.commitment,
                        encrypted_note,
                        value_commitment,
                        asset_type: witness.asset_type,
                        root_hash: witness.anchor,
                    },
                )
            },
        }
    }

    /// The randomness of the value commitment. It is kept for the prover and
    /// never leaves with the public bundle.
    pub fn value_commitment_randomness(&self) -> (r: Fr)
        ensures
            r@ == self@.value_commitment_randomness,
    {
        self.value_commitment_randomness
    }

    /// The commitment to the minted amount.
    pub fn value_commitment(&self) -> (r: Point)
        ensures
            r@ == self@.public.value_commitment,
    {
        self.value_commitment
    }

    /// The type of the minted asset.
    pub fn asset_type(&self) -> (r: AssetType)
        ensures
            r@ == self@.public.asset_identifier,
    {
        self.asset_type
    }

    /// Makes the public bundle: the public fields are copied, the randomness
    /// is left behind, and the result is verified under `key` before it is
    /// handed out. A bundle that does not verify is not handed out.
    pub fn post(&self, key: &VerifyingKey) -> (r: Result<MintAssetProof, SaplingProofError>)
        ensures
            r is Ok <==> self@.public.verifies_under(key@),
            r matches Ok(bundle) ==> bundle@ == self@.public && bundle@.verifies_under(key@)
                && bundle@.encrypted_note == empty_note(),
            r matches Err(e) ==> e == SaplingProofError::VerificationFailed,
    {
        proof {
            use_type_invariant(self);
        }
        let mint_asset_proof = MintAssetProof::from_parts(
            self.zk_proof,
            self.create_asset_commitment,
            self.mint_asset_commitment,
            self.encrypted_note,
            self.value_commitment,
            self.asset_type,
            self.root_hash,
        );
        match mint_asset_proof.verify_proof(key) {
            Ok(()) => Ok(mint_asset_proof),
            Err(e) => Err(e),
        }
    }

    /// Appends to `writer` the bytes of this bundle that a signature over the
    /// enclosing transaction covers. They are the encoding of the public
    /// bundle that `post` makes: what is signed is what goes on the wire.
    pub fn serialize_signature_fields(&self, writer: &mut Vec<u8>)
        ensures
            final(writer)@ == old(writer)@ + self@.public.encoding(),
            self@.public.wf(),
    {
        let zk_proof = self.zk_proof.to_bytes();
        let create_asset_commitment = self.create_asset_commitment.to_bytes();
        let mint_asset_commitment = self.mint_asset_commitment.to_bytes();
        let value_commitment = self.value_commitment.to_bytes();
        let root_hash = self.root_hash.to_bytes();
        writer.extend_from_slice(&zk_proof);
        writer.extend_from_slice(&create_asset_commitment);
        writer.extend_from_slice(&mint_asset_commitment);
        writer.extend_from_slice(&value_commitment);
        writer.extend_from_slice(self.asset_type.get_identifier());
        writer.extend_from_slice(&self.encrypted_note);
        writer.extend_from_slice(&root_hash);
        assert(writer@ =~= old(writer)@ + self@.public.encoding());
    }
}

} // verus!

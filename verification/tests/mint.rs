use bellman::gadgets::multipack;
use bellman::groth16;
use bellman::{Circuit, ConstraintSystem, SynthesisError};
use bls12_381::Bls12;
use group::{Curve, Group, GroupEncoding};
use rand::rngs::OsRng;
use shielded_mint::asset::{AssetType, ASSET_IDENTIFIER_LENGTH};
use shielded_mint::bundle::{MintAssetProof, MINT_ASSET_PROOF_SIZE};
use shielded_mint::errors::SaplingProofError;
use shielded_mint::field::{Fr, Scalar};
use shielded_mint::groth16::{Groth16Proof, VerifyingKey, PROOF_SIZE};
use shielded_mint::params::{
    AuthPathNode, CreateAssetNote, MerkleWitness, MintAssetNote, MintAssetParams, MintWitness,
    ProofGenerationKey,
};
use shielded_mint::point::Point;

/// A circuit with the mint circuit's public inputs and nothing else: each of
/// the seven is bound to a private copy of itself.
struct SevenInputs {
    inputs: Option<Vec<bls12_381::Scalar>>,
    count: usize,
}

impl Circuit<bls12_381::Scalar> for SevenInputs {
    fn synthesize<CS: ConstraintSystem<bls12_381::Scalar>>(
        self,
        cs: &mut CS,
    ) -> Result<(), SynthesisError> {
        for i in 0..self.count {
            let value = self.inputs.as_ref().map(|v| v[i]);
            let input =
                cs.alloc_input(|| "input", || value.ok_or(SynthesisError::AssignmentMissing))?;
            let copy = cs.alloc(|| "copy", || value.ok_or(SynthesisError::AssignmentMissing))?;
            cs.enforce(|| "copy is input", |lc| lc + copy, |lc| lc + CS::one(), |lc| lc + input);
        }
        Ok(())
    }
}

struct Setup {
    params: groth16::Parameters<Bls12>,
    key: VerifyingKey,
}

fn setup_for(count: usize) -> Setup {
    let params = groth16::generate_random_parameters::<Bls12, _, _>(
        SevenInputs { inputs: None, count },
        &mut OsRng,
    )
    .expect("parameters for the stand-in circuit");
    let mut key_bytes = Vec::new();
    params.vk.write(&mut key_bytes).expect("writing into a vector");
    let key = VerifyingKey::from_bytes(key_bytes).expect("a written key reads back");
    Setup { params, key }
}

fn setup() -> Setup {
    setup_for(7)
}

fn prove(setup: &Setup, inputs: Vec<bls12_381::Scalar>) -> Option<Groth16Proof> {
    let count = inputs.len();
    let proved = groth16::create_random_proof(
        SevenInputs { inputs: Some(inputs), count },
        &setup.params,
        &mut OsRng,
    );
    match proved {
        Ok(p) => {
            let mut bytes = Vec::new();
            p.write(&mut bytes).expect("writing into a vector");
            let mut fixed = [0u8; 192];
            fixed.copy_from_slice(&bytes);
            Groth16Proof::from_bytes(&fixed)
        }
        Err(_) => None,
    }
}

fn scalar(n: u64) -> Scalar {
    Scalar::from_bytes(&bls12_381::Scalar::from(n).to_bytes()).expect("canonical")
}

fn point(p: jubjub::ExtendedPoint) -> Point {
    Point::from_bytes(&p.to_bytes()).expect("an encoded point decodes")
}

fn identifier() -> [u8; 32] {
    let mut id = [0u8; 32];
    for (i, b) in id.iter_mut().enumerate() {
        *b = 0xc1u8.wrapping_add((i as u8).wrapping_mul(29));
    }
    id
}

struct Inputs {
    key: ProofGenerationKey,
    create_asset_note: CreateAssetNote,
    mint_asset_note: MintAssetNote,
    witness: MerkleWitness,
    randomness_base: Point,
}

fn inputs_for(value: u64) -> Inputs {
    let g = jubjub::ExtendedPoint::generator();
    Inputs {
        key: ProofGenerationKey { ak: point(g * jubjub::Fr::from(3u64)), nsk: Fr::from_u64(5) },
        create_asset_note: CreateAssetNote { randomness: Fr::from_u64(101), commitment: scalar(11) },
        mint_asset_note: MintAssetNote {
            asset_type: AssetType::from_identifier(&identifier(), true).expect("recognized"),
            asset_generator: point(g * jubjub::Fr::from(17u64)),
            value,
            randomness: Fr::from_u64(202),
            commitment: scalar(22),
        },
        witness: MerkleWitness {
            root_hash: scalar(33),
            auth_path: vec![
                AuthPathNode { sibling: scalar(1), is_right: false },
                AuthPathNode { sibling: scalar(2), is_right: true },
            ],
        },
        randomness_base: point(g * jubjub::Fr::from(19u64)),
    }
}

fn witness_of(inputs: &Inputs) -> MintWitness {
    MintWitness::new(
        &inputs.key,
        &inputs.create_asset_note,
        &inputs.mint_asset_note,
        &inputs.witness,
        &inputs.randomness_base,
    )
}

/// The public inputs of the mint circuit for this witness, worked out without
/// the library.
fn circuit_inputs(inputs: &Inputs, witness: &MintWitness) -> Vec<bls12_381::Scalar> {
    let g = jubjub::ExtendedPoint::generator();
    let randomness = jubjub::Fr::from_bytes(&witness.value_commitment.randomness.to_bytes()).unwrap();
    let commitment = (g * jubjub::Fr::from(17u64)) * jubjub::Fr::from(inputs.mint_asset_note.value)
        + (g * jubjub::Fr::from(19u64)) * randomness;
    let affine = commitment.to_affine();
    let packed = multipack::compute_multipacking::<bls12_381::Scalar>(&multipack::bytes_to_bits_le(
        &identifier(),
    ));
    vec![
        packed[0],
        packed[1],
        bls12_381::Scalar::from(11u64),
        bls12_381::Scalar::from(33u64),
        affine.get_u(),
        affine.get_v(),
        bls12_381::Scalar::from(22u64),
    ]
}

fn params_of(setup: &Setup, inputs: &Inputs) -> MintAssetParams {
    let witness = witness_of(inputs);
    let proved = prove(setup, circuit_inputs(inputs, &witness));
    MintAssetParams::new(&witness, &inputs.create_asset_note, &inputs.mint_asset_note, proved)
        .expect("a proof was made")
}

fn encoded(bundle: &MintAssetProof) -> Vec<u8> {
    let mut bytes = Vec::new();
    bundle.write(&mut bytes);
    bytes
}

#[test]
fn witness_holds_what_it_was_assembled_from() {
    let inputs = inputs_for(1000);
    let witness = MintWitness::assemble(
        &inputs.key,
        &inputs.create_asset_note,
        &inputs.mint_asset_note,
        &inputs.witness,
        &inputs.randomness_base,
        Fr::from_u64(424242),
    );
    assert_eq!(*witness.asset_type.get_identifier(), identifier());
    assert_eq!(witness.proof_generation_key.ak.to_bytes(), inputs.key.ak.to_bytes());
    assert_eq!(witness.proof_generation_key.nsk.to_bytes(), Fr::from_u64(5).to_bytes());
    assert_eq!(witness.create_commitment_randomness.to_bytes(), Fr::from_u64(101).to_bytes());
    assert_eq!(witness.mint_commitment_randomness.to_bytes(), Fr::from_u64(202).to_bytes());
    assert_eq!(witness.auth_path.len(), 2);
    assert_eq!(witness.auth_path[0].sibling.to_bytes(), scalar(1).to_bytes());
    assert!(!witness.auth_path[0].is_right);
    assert_eq!(witness.auth_path[1].sibling.to_bytes(), scalar(2).to_bytes());
    assert!(witness.auth_path[1].is_right);
    assert_eq!(witness.anchor.to_bytes(), scalar(33).to_bytes());
    assert_eq!(witness.value_commitment.value, 1000);
    assert_eq!(witness.value_commitment.randomness.to_bytes(), Fr::from_u64(424242).to_bytes());
    assert_eq!(
        witness.value_commitment.value_base.to_bytes(),
        inputs.mint_asset_note.asset_generator.to_bytes()
    );
    assert_eq!(
        witness.value_commitment.randomness_base.to_bytes(),
        inputs.randomness_base.to_bytes()
    );
}

#[test]
fn prover_bundle_keeps_the_randomness_of_the_value_commitment() {
    let inputs = inputs_for(1000);
    let mut r = [0u8; 32];
    r[0] = 0x11;
    r[20] = 0x77;
    let witness = MintWitness::assemble(
        &inputs.key,
        &inputs.create_asset_note,
        &inputs.mint_asset_note,
        &inputs.witness,
        &inputs.randomness_base,
        Fr::from_bytes(&r).expect("small enough"),
    );
    let a = bls12_381::G1Affine::generator().to_compressed();
    let b = bls12_381::G2Affine::generator().to_compressed();
    let mut stand_in = [0u8; 192];
    stand_in[..48].copy_from_slice(&a);
    stand_in[48..144].copy_from_slice(&b);
    stand_in[144..].copy_from_slice(&a);
    let proved = Groth16Proof::from_bytes(&stand_in);
    assert!(proved.is_some());
    let params =
        MintAssetParams::new(&witness, &inputs.create_asset_note, &inputs.mint_asset_note, proved)
            .expect("a proof was handed in");
    assert_eq!(params.value_commitment_randomness().to_bytes(), r);
    let g = jubjub::ExtendedPoint::generator();
    let expected = (g * jubjub::Fr::from(17u64)) * jubjub::Fr::from(1000u64)
        + (g * jubjub::Fr::from(19u64)) * jubjub::Fr::from_bytes(&r).unwrap();
    assert_eq!(params.value_commitment().to_bytes(), expected.to_bytes());
    assert_eq!(*params.asset_type().get_identifier(), identifier());
    let mut signed = Vec::new();
    params.serialize_signature_fields(&mut signed);
    assert_eq!(signed.len(), MINT_ASSET_PROOF_SIZE);
    assert_eq!(&signed[..192], &stand_in[..]);
    assert_eq!(&signed[192..224], &scalar(11).to_bytes()[..]);
    assert_eq!(&signed[224..256], &scalar(22).to_bytes()[..]);
    assert_eq!(&signed[256..288], &expected.to_bytes()[..]);
    assert_eq!(&signed[288..320], &identifier()[..]);
    assert_eq!(&signed[320..332], &[0u8; 12][..]);
    assert_eq!(&signed[332..364], &scalar(33).to_bytes()[..]);
    assert!(!signed.windows(32).any(|w| w == &r[..]));
}

#[test]
fn no_proof_means_no_bundle() {
    let inputs = inputs_for(1000);
    let witness = witness_of(&inputs);
    let r = MintAssetParams::new(&witness, &inputs.create_asset_note, &inputs.mint_asset_note, None);
    match r {
        Ok(_) => panic!("a bundle without a proof"),
        Err(e) => assert_eq!(e, SaplingProofError::ProofGenerationFailed),
    }
}

#[test]
fn end_to_end_mint_of_a_thousand_units() {
    let setup = setup();
    let inputs = inputs_for(1000);
    let params = params_of(&setup, &inputs);
    let bundle = params.post(&setup.key).expect("a correctly built bundle verifies");
    let bytes = encoded(&bundle);
    assert_eq!(bytes.len(), PROOF_SIZE + 32 + 32 + 32 + ASSET_IDENTIFIER_LENGTH + 12 + 32);
    assert_eq!(bytes.len(), MINT_ASSET_PROOF_SIZE);
    let decoded = MintAssetProof::read(&bytes, true).expect("an encoded bundle decodes");
    assert_eq!(decoded.verify_proof(&setup.key), Ok(()));
    assert_eq!(bundle.verify_proof(&setup.key), Ok(()));
    assert_eq!(bundle.encrypted_note(), [0u8; 12]);
    assert_eq!(bundle.create_asset_commitment().to_bytes(), scalar(11).to_bytes());
    assert_eq!(bundle.mint_asset_commitment().to_bytes(), scalar(22).to_bytes());
    assert_eq!(bundle.root_hash().to_bytes(), scalar(33).to_bytes());
    assert_eq!(*bundle.asset_type().get_identifier(), identifier());
    let read_back = groth16::Proof::<Bls12>::read(&bytes[..PROOF_SIZE]).expect("the proof reads");
    let mut rewritten = Vec::new();
    read_back.write(&mut rewritten).expect("writing into a vector");
    assert_eq!(&rewritten[..], &bytes[..PROOF_SIZE]);
    assert_eq!(params.value_commitment().to_bytes(), bundle.value_commitment().to_bytes());
    assert_eq!(*params.asset_type().get_identifier(), identifier());
    assert!(Fr::from_bytes(&params.value_commitment_randomness().to_bytes()).is_some());
}

#[test]
fn public_inputs_are_the_seven_of_the_circuit_in_order() {
    let setup = setup();
    let inputs = inputs_for(1000);
    let witness = witness_of(&inputs);
    let expected = circuit_inputs(&inputs, &witness);
    let proved = prove(&setup, expected.clone());
    let params =
        MintAssetParams::new(&witness, &inputs.create_asset_note, &inputs.mint_asset_note, proved)
            .expect("a proof was made");
    let bundle = params.post(&setup.key).expect("a correctly built bundle verifies");
    let got: Vec<[u8; 32]> = bundle.public_inputs().iter().map(|s| s.to_bytes()).collect();
    let want: Vec<[u8; 32]> = expected.iter().map(|s| s.to_bytes()).collect();
    assert_eq!(got.len(), 7);
    assert_eq!(got, want);
}

#[test]
fn signed_bytes_of_the_prover_bundle_are_the_public_encoding() {
    let setup = setup();
    let inputs = inputs_for(5);
    let params = params_of(&setup, &inputs);
    let mut signed = Vec::new();
    params.serialize_signature_fields(&mut signed);
    let bundle = params.post(&setup.key).expect("a correctly built bundle verifies");
    assert_eq!(signed, encoded(&bundle));
}

#[test]
fn verified_bundle_with_an_unrecognized_identifier_does_not_decode() {
    let setup = setup();
    let inputs = inputs_for(1000);
    let bundle = params_of(&setup, &inputs).post(&setup.key).expect("verifies");
    let bytes = encoded(&bundle);
    assert_eq!(MintAssetProof::identifier_of(&bytes), Some(identifier()));
    match MintAssetProof::read(&bytes, false) {
        Ok(_) => panic!("a bundle with an unrecognized identifier was read"),
        Err(e) => assert_eq!(e, SaplingProofError::IOError),
    }
}

#[test]
fn wrong_root_fails_verification() {
    let setup = setup();
    let inputs = inputs_for(1000);
    let bundle = params_of(&setup, &inputs).post(&setup.key).expect("verifies");
    let mut bytes = encoded(&bundle);
    bytes[332..364].copy_from_slice(&scalar(987_654_321).to_bytes());
    let decoded = MintAssetProof::read(&bytes, true).expect("another root still decodes");
    assert_eq!(decoded.verify_proof(&setup.key), Err(SaplingProofError::VerificationFailed));
}

#[test]
fn proof_for_other_inputs_is_not_posted() {
    let setup = setup();
    let inputs = inputs_for(1000);
    let witness = witness_of(&inputs);
    let mut wrong = circuit_inputs(&inputs, &witness);
    wrong.swap(2, 6);
    let proved = prove(&setup, wrong);
    let params =
        MintAssetParams::new(&witness, &inputs.create_asset_note, &inputs.mint_asset_note, proved)
            .expect("a proof was made");
    match params.post(&setup.key) {
        Ok(_) => panic!("a bundle that does not verify was handed out"),
        Err(e) => assert_eq!(e, SaplingProofError::VerificationFailed),
    }
}

#[test]
fn a_flipped_bit_never_passes() {
    let setup = setup();
    let inputs = inputs_for(1000);
    let bundle = params_of(&setup, &inputs).post(&setup.key).expect("verifies");
    let bytes = encoded(&bundle);
    // One bit in each of: both commitments, the value commitment, the asset
    // identifier, the root; low, middle and top bit of each field.
    for field in [192usize, 224, 256, 288, 332] {
        for (byte, bit) in [(0usize, 0u8), (13, 4), (31, 5), (31, 7)] {
            let mut tampered = bytes.clone();
            tampered[field + byte] ^= 1 << bit;
            match MintAssetProof::read(&tampered, true) {
                Err(e) => assert_eq!(e, SaplingProofError::IOError),
                Ok(decoded) => assert_eq!(
                    decoded.verify_proof(&setup.key),
                    Err(SaplingProofError::VerificationFailed)
                ),
            }
        }
    }
}

#[test]
fn two_builds_commit_differently_and_each_verifies() {
    let setup = setup();
    let inputs = inputs_for(1000);
    let first = params_of(&setup, &inputs).post(&setup.key).expect("the first verifies");
    let second = params_of(&setup, &inputs).post(&setup.key).expect("the second verifies");
    assert_ne!(first.value_commitment().to_bytes(), second.value_commitment().to_bytes());
    assert_eq!(first.verify_proof(&setup.key), Ok(()));
    assert_eq!(second.verify_proof(&setup.key), Ok(()));
}

#[test]
fn key_of_another_circuit_fails_verification() {
    let setup = setup();
    let other = setup_for(5);
    let inputs = inputs_for(1000);
    let params = params_of(&setup, &inputs);
    match params.post(&other.key) {
        Ok(_) => panic!("verified under a key with five inputs"),
        Err(e) => assert_eq!(e, SaplingProofError::VerificationFailed),
    }
    let again = setup_for(7);
    match params.post(&again.key) {
        Ok(_) => panic!("verified under a key of another setup"),
        Err(e) => assert_eq!(e, SaplingProofError::VerificationFailed),
    }
}

#[test]
fn malformed_verifying_key_is_refused() {
    assert!(VerifyingKey::from_bytes(Vec::new()).is_none());
    assert!(VerifyingKey::from_bytes(vec![0u8; 1000]).is_none());
    let setup = setup();
    let mut key_bytes = Vec::new();
    setup.params.vk.write(&mut key_bytes).expect("writing into a vector");
    key_bytes.truncate(key_bytes.len() - 1);
    assert!(VerifyingKey::from_bytes(key_bytes).is_none());
}

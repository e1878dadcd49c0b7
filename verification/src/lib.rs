//! Building, encoding and checking the zero-knowledge proof that authorises
//! minting further units of a shielded asset.
//!
//! A mint goes through the modules in this order. `commitment` commits to the
//! minted amount behind fresh randomness. `params` assembles the witness that
//! the proving system is given and, once it has answered, the prover's
//! bundle; from that bundle it makes the public one, which it verifies before
//! it hands it out. `bundle` holds the public bundle: its encoding in bytes,
//! the same for signing and for the wire, its decoding, and the check of its
//! proof against the seven public inputs of the circuit. `multipack` packs the
//! asset identifier into the first two of them. Which identifiers name an
//! asset is the asset layer's to say (`asset`): its answer is handed to the
//! decoder, which refuses a bundle whose identifier is not recognized.
//!
//! Field elements (`field`), curve points (`point`), proofs and verifying keys
//! (`groth16`) are held as their canonical byte encodings, and `encoding`
//! says which integers and bits those bytes spell. The arithmetic on them is
//! done by `bls12_381`, `jubjub` and `bellman`, behind functions whose
//! contracts are stated and not proved; everything around them is verified.
//! The proving system itself is called from outside this library.

pub mod asset;
pub mod bundle;
pub mod commitment;
pub mod encoding;
pub mod errors;
pub mod field;
pub mod groth16;
pub mod multipack;
pub mod params;
pub mod point;

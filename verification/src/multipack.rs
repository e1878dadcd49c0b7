//! Packing the bits of a byte string into elements of the scalar field, as the
//! circuit packs them into its public inputs.

use crate::encoding::{
    bits_le, bits_value, le_encoding, le_value, lemma_bits_le_injective, lemma_bits_le_value,
    lemma_bits_value_bound, lemma_bits_value_concat, lemma_bits_value_injective,
    lemma_le_encoding, lemma_le_encoding_unique, lemma_le_value_bound, lemma_le_value_injective,
};
use crate::asset::AssetIdentifier;
use crate::field::{is_scalar_encoding, scalar_encodings, Scalar};
use vstd::arithmetic::div_mod::{lemma_fundamental_div_mod, lemma_fundamental_div_mod_converse};
use vstd::arithmetic::power2::{lemma_pow2_adds, lemma_pow2_pos, pow2};
use vstd::prelude::*;

verus! {

/// The number of bits that one element carries: one fewer than the modulus
/// has.
pub const CAPACITY: usize = 254;

/// The number of elements that `n` bits fill.
pub open spec fn packed_len(n: nat) -> nat {
    (n + CAPACITY - 1) as nat / (CAPACITY as nat)
}

/// The bits that go into element `k`.
pub open spec fn chunk(bits: Seq<bool>, k: int) -> Seq<bool> {
    bits.subrange(
        CAPACITY * k,
        if CAPACITY * (k + 1) <= bits.len() {
            CAPACITY * (k + 1)
        } else {
            bits.len() as int
        },
    )
}

/// The integers that `bits` pack to, element by element.
pub open spec fn packed_values(bits: Seq<bool>) -> Seq<nat> {
    Seq::new(packed_len(bits.len()), |k: int| bits_value(chunk(bits, k)))
}

/// The integers that `scalars` are, one by one.
pub open spec fn scalar_values(scalars: Seq<Scalar>) -> Seq<nat> {
    Seq::new(scalars.len(), |k: int| scalars[k].value())
}

/// The two elements that stand for a 32-byte identifier among the public
/// inputs, as encodings: its low 254 bits, then its two high bits.
pub open spec fn packed_identifier(identifier: Seq<u8>) -> Seq<Seq<u8>> {
    seq![
        le_encoding(le_value(identifier) % pow2(254), 32),
        le_encoding(le_value(identifier) / pow2(254), 32),
    ]
}

/// The bits of `bytes`, byte by byte, each byte from its least significant
/// bit up.
pub fn bytes_to_bits_le(bytes: &[u8]) -> (bits: Vec<bool>)
    ensures
        bits@ == bits_le(bytes@),
{
    bellman_bytes_to_bits_le(bytes)
}

/// Packs `bits` into elements, 254 bits to each, the first bit of a chunk
/// counting least.
pub fn compute_multipacking(bits: &Vec<bool>) -> (packed: Vec<Scalar>)
    ensures
        scalar_values(packed@) == packed_values(bits@),
        forall|k: int| 0 <= k < packed@.len() ==> (#[trigger] packed@[k]).wf(),
{
    let encoded = bellman_compute_multipacking(bits);
    let mut packed: Vec<Scalar> = Vec::new();
    let mut i: usize = 0;
    while i < encoded.len()
        invariant
            i <= encoded.len(),
            packed@.len() == i,
            forall|k: int|
                0 <= k < encoded@.len() ==> is_scalar_encoding(#[trigger] encoded@[k]@) && le_value(
                    encoded@[k]@,
                ) == bits_value(chunk(bits@, k)),
            forall|k: int| 0 <= k < i ==> (#[trigger] packed@[k])@ == encoded@[k]@,
        decreases encoded.len() - i,
    {
        assert(is_scalar_encoding(encoded@[i as int]@));
        packed.push(Scalar::from_bytes(&encoded[i]).unwrap());
        i += 1;
    }
    assert(scalar_values(packed@) =~= packed_values(bits@));
    packed
}

/// The two public inputs that stand for `identifier`.
pub fn pack_identifier(identifier: &AssetIdentifier) -> (packed: Vec<Scalar>)
    ensures
        packed@.len() == 2,
        scalar_encodings(packed@) == packed_identifier(identifier@),
{
    let bits = bytes_to_bits_le(identifier);
    let packed = compute_multipacking(&bits);
    proof {
        let v = le_value(identifier@);
        let low = chunk(bits@, 0);
        let high = chunk(bits@, 1);
        assert(bits@.len() == 256);
        assert(packed@.len() == 2) by {
            assert(scalar_values(packed@).len() == packed_values(bits@).len());
        }
        assert(packed@[0].value() == bits_value(low)) by {
            assert(scalar_values(packed@)[0] == packed_values(bits@)[0]);
        }
        assert(packed@[1].value() == bits_value(high)) by {
            assert(scalar_values(packed@)[1] == packed_values(bits@)[1]);
        }
        assert(bits@ =~= low + high);
        lemma_bits_value_concat(low, high);
        lemma_bits_value_bound(low);
        lemma_bits_le_value(identifier@);
        lemma_pow2_pos(254);
        assert(low.len() == 254);
        assert(v == bits_value(high) * pow2(254) + bits_value(low)) by (nonlinear_arith)
            requires
                v == bits_value(low) + pow2(254) * bits_value(high),
        ;
        lemma_fundamental_div_mod_converse(
            v as int,
            pow2(254) as int,
            bits_value(high) as int,
            bits_value(low) as int,
        );
        assert(packed@[0].wf() && packed@[1].wf());
        assert(packed@[0].value() == v % pow2(254));
        assert(packed@[1].value() == v / pow2(254));
        lemma_le_encoding_unique(packed@[0]@);
        lemma_le_encoding_unique(packed@[1]@);
        assert(scalar_encodings(packed@) =~= packed_identifier(identifier@));
    }
    packed
}

/// Packing loses nothing: two bit strings of one length that pack to the same
/// integers are equal.
pub proof fn lemma_packing_injective(a: Seq<bool>, b: Seq<bool>)
    requires
        a.len() == b.len(),
        packed_values(a) == packed_values(b),
    ensures
        a == b,
{
    assert forall|i: int| 0 <= i < a.len() implies a[i] == b[i] by {
        let k = i / 254;
        assert(0 <= k < packed_len(a.len()));
        assert(packed_values(a)[k] == bits_value(chunk(a, k)));
        assert(packed_values(b)[k] == bits_value(chunk(b, k)));
        assert(chunk(a, k).len() == chunk(b, k).len());
        lemma_bits_value_injective(chunk(a, k), chunk(b, k));
        assert(chunk(a, k)[i - 254 * k] == a[i]);
        assert(chunk(b, k)[i - 254 * k] == b[i]);
    }
    assert(a =~= b);
}

/// Two byte strings of one length that pack to the same integers are equal.
pub proof fn lemma_packed_bytes_injective(a: Seq<u8>, b: Seq<u8>)
    requires
        a.len() == b.len(),
        packed_values(bits_le(a)) == packed_values(bits_le(b)),
    ensures
        a == b,
{
    lemma_packing_injective(bits_le(a), bits_le(b));
    lemma_bits_le_injective(a, b);
}

/// The low part and the high part of a 32-byte value both fit in 32 bytes.
proof fn lemma_parts_fit(v: nat)
    requires
        v < pow2(256),
    ensures
        v % pow2(254) < pow2(256),
        v / pow2(254) < pow2(256),
{
    lemma_pow2_pos(254);
    lemma_pow2_adds(254, 2);
    vstd::arithmetic::power2::lemma2_to64();
    lemma_fundamental_div_mod(v as int, pow2(254) as int);
    assert(v / pow2(254) < 4) by (nonlinear_arith)
        requires
            pow2(254) > 0,
            v < 4 * pow2(254),
            v == pow2(254) * (v / pow2(254)) + v % pow2(254),
            0 <= v % pow2(254),
    ;
}

/// Packing loses nothing: two identifiers that pack to the same two elements
/// are the same identifier.
pub proof fn lemma_packed_identifier_injective(a: Seq<u8>, b: Seq<u8>)
    requires
        a.len() == 32,
        b.len() == 32,
        packed_identifier(a) == packed_identifier(b),
    ensures
        a == b,
{
    let va = le_value(a);
    let vb = le_value(b);
    lemma_le_value_bound(a);
    lemma_le_value_bound(b);
    lemma_parts_fit(va);
    lemma_parts_fit(vb);
    lemma_le_encoding(va % pow2(254), 32);
    lemma_le_encoding(vb % pow2(254), 32);
    lemma_le_encoding(va / pow2(254), 32);
    lemma_le_encoding(vb / pow2(254), 32);
    assert(packed_identifier(a)[0] == packed_identifier(b)[0]);
    assert(packed_identifier(a)[1] == packed_identifier(b)[1]);
    assert(va % pow2(254) == vb % pow2(254));
    assert(va / pow2(254) == vb / pow2(254));
    lemma_pow2_pos(254);
    lemma_fundamental_div_mod(va as int, pow2(254) as int);
    lemma_fundamental_div_mod(vb as int, pow2(254) as int);
    lemma_le_value_injective(a, b);
}

/// `bellman::gadgets::multipack::bytes_to_bits_le` yields, for each byte in
/// turn, its eight bits from the least significant up.
#[verifier::external_body]
fn bellman_bytes_to_bits_le(bytes: &[u8]) -> (bits: Vec<bool>)
    ensures
        bits@ == bits_le(bytes@),
{
    bellman::gadgets::multipack::bytes_to_bits_le(bytes)
}

/// `bellman::gadgets::multipack::compute_multipacking::<bls12_381::Scalar>`
/// cuts the bits into chunks of 254, the capacity of the field, and sums in
/// each chunk the powers of two at the places of its set bits. The sum stays
/// below `2^254`, so no reduction takes place. The elements come back as
/// canonical encodings.
#[verifier::external_body]
fn bellman_compute_multipacking(bits: &Vec<bool>) -> (out: Vec<[u8; 32]>)
    ensures
        out@.len() == packed_len(bits@.len()),
        forall|k: int|
            0 <= k < out@.len() ==> is_scalar_encoding(#[trigger] out@[k]@) && le_value(out@[k]@)
                == bits_value(chunk(bits@, k)),
{
    bellman::gadgets::multipack::compute_multipacking::<bls12_381::Scalar>(bits)
        .iter()
        .map(|s| s.to_bytes())
        .collect()
}

} // verus!

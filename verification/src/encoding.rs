//! Little-endian integers and bit strings, as the byte encodings of field
//! elements are read.

use vstd::arithmetic::power2::{lemma_pow2_adds, lemma_pow2_pos, lemma_pow2_unfold, pow2};
use vstd::prelude::*;

verus! {

/// The integer that `bytes` spell, least significant byte first.
pub open spec fn le_value(bytes: Seq<u8>) -> nat
    decreases bytes.len(),
{
    if bytes.len() == 0 {
        0
    } else {
        bytes[0] as nat + 256 * le_value(bytes.skip(1))
    }
}

/// The integer that `bits` spell, least significant bit first.
pub open spec fn bits_value(bits: Seq<bool>) -> nat
    decreases bits.len(),
{
    if bits.len() == 0 {
        0
    } else {
        (if bits[0] { 1nat } else { 0nat }) + 2 * bits_value(bits.skip(1))
    }
}

/// Bit `j` of `byte`, counted from the least significant one.
pub open spec fn bit_of(byte: u8, j: u8) -> bool {
    (byte >> j) & 1u8 == 1u8
}

/// The bits of `bytes`: byte by byte, and within each byte from the least
/// significant bit up.
pub open spec fn bits_le(bytes: Seq<u8>) -> Seq<bool> {
    Seq::new(8 * bytes.len(), |k: int| bit_of(bytes[k / 8], (k % 8) as u8))
}

/// The `len` bytes that spell `n`, least significant first. Where `n` needs
/// more than `len` bytes, its low `len` bytes.
pub open spec fn le_encoding(n: nat, len: nat) -> Seq<u8>
    decreases len,
{
    if len == 0 {
        Seq::empty()
    } else {
        seq![(n % 256) as u8] + le_encoding(n / 256, (len - 1) as nat)
    }
}

/// `le_encoding` yields `len` bytes, and they spell `n` where `n` fits.
pub proof fn lemma_le_encoding(n: nat, len: nat)
    ensures
        le_encoding(n, len).len() == len,
        n < pow2(8 * len) ==> le_value(le_encoding(n, len)) == n,
    decreases len,
{
    if len == 0 {
        lemma_pow2_0();
    } else {
        let rest = le_encoding(n / 256, (len - 1) as nat);
        lemma_le_encoding(n / 256, (len - 1) as nat);
        assert(le_encoding(n, len).skip(1) =~= rest);
        lemma_pow2_adds(8, 8 * (len - 1) as nat);
        lemma_pow2_8();
        if n < pow2(8 * len) {
            assert(n / 256 < pow2(8 * (len - 1) as nat)) by (nonlinear_arith)
                requires
                    n < pow2(8 * len),
                    pow2(8 * len) == 256 * pow2(8 * (len - 1) as nat),
            ;
        }
    }
}

/// Among the byte strings of length `len`, only `le_encoding(n, len)` spells
/// `n`.
pub proof fn lemma_le_encoding_unique(bytes: Seq<u8>)
    ensures
        bytes == le_encoding(le_value(bytes), bytes.len()),
{
    lemma_le_value_bound(bytes);
    lemma_le_encoding(le_value(bytes), bytes.len());
    lemma_le_value_injective(bytes, le_encoding(le_value(bytes), bytes.len()));
}

/// A value of `n` bytes is below `2^(8n)`.
pub proof fn lemma_le_value_bound(bytes: Seq<u8>)
    ensures
        le_value(bytes) < pow2(8 * bytes.len()),
    decreases bytes.len(),
{
    if bytes.len() == 0 {
        lemma_pow2_pos(0);
    } else {
        let rest = bytes.skip(1);
        lemma_le_value_bound(rest);
        lemma_pow2_adds(8, 8 * rest.len());
        lemma_pow2_8();
        assert(le_value(bytes) < pow2(8 * bytes.len())) by (nonlinear_arith)
            requires
                le_value(bytes) == bytes[0] as nat + 256 * le_value(rest),
                le_value(rest) < pow2(8 * rest.len()),
                pow2(8 * bytes.len()) == 256 * pow2(8 * rest.len()),
                (bytes[0] as nat) < 256,
        ;
    }
}

/// Two byte strings of one length that spell the same integer are equal.
pub proof fn lemma_le_value_injective(a: Seq<u8>, b: Seq<u8>)
    requires
        a.len() == b.len(),
        le_value(a) == le_value(b),
    ensures
        a == b,
    decreases a.len(),
{
    if a.len() > 0 {
        let ra = a.skip(1);
        let rb = b.skip(1);
        assert(a[0] == b[0] && le_value(ra) == le_value(rb)) by {
            assert(le_value(a) == a[0] as nat + 256 * le_value(ra));
            assert(le_value(b) == b[0] as nat + 256 * le_value(rb));
        }
        lemma_le_value_injective(ra, rb);
        assert forall|i: int| 0 <= i < a.len() implies a[i] == b[i] by {
            if i > 0 {
                assert(a[i] == ra[i - 1]);
                assert(b[i] == rb[i - 1]);
            }
        }
    }
    assert(a =~= b);
}

/// The value of two bit strings laid end to end.
pub proof fn lemma_bits_value_concat(a: Seq<bool>, b: Seq<bool>)
    ensures
        bits_value(a + b) == bits_value(a) + pow2(a.len()) * bits_value(b),
    decreases a.len(),
{
    if a.len() == 0 {
        assert(a + b =~= b);
        lemma_pow2_0();
    } else {
        let ra = a.skip(1);
        assert((a + b).skip(1) =~= ra + b);
        assert((a + b)[0] == a[0]);
        lemma_bits_value_concat(ra, b);
        lemma_pow2_unfold(a.len());
        assert(2 * (pow2(ra.len()) * bits_value(b)) == pow2(a.len()) * bits_value(b))
            by (nonlinear_arith)
            requires
                pow2(a.len()) == 2 * pow2(ra.len()),
        ;
    }
}

/// A value of `n` bits is below `2^n`.
pub proof fn lemma_bits_value_bound(bits: Seq<bool>)
    ensures
        bits_value(bits) < pow2(bits.len()),
    decreases bits.len(),
{
    if bits.len() == 0 {
        lemma_pow2_0();
    } else {
        lemma_bits_value_bound(bits.skip(1));
        lemma_pow2_unfold(bits.len());
    }
}

/// Two bit strings of one length that spell the same integer are equal.
pub proof fn lemma_bits_value_injective(a: Seq<bool>, b: Seq<bool>)
    requires
        a.len() == b.len(),
        bits_value(a) == bits_value(b),
    ensures
        a == b,
    decreases a.len(),
{
    if a.len() > 0 {
        let ra = a.skip(1);
        let rb = b.skip(1);
        assert(a[0] == b[0] && bits_value(ra) == bits_value(rb)) by {
            assert(bits_value(a) == (if a[0] { 1nat } else { 0nat }) + 2 * bits_value(ra));
            assert(bits_value(b) == (if b[0] { 1nat } else { 0nat }) + 2 * bits_value(rb));
        }
        lemma_bits_value_injective(ra, rb);
        assert forall|i: int| 0 <= i < a.len() implies a[i] == b[i] by {
            if i > 0 {
                assert(a[i] == ra[i - 1]);
                assert(b[i] == rb[i - 1]);
            }
        }
    }
    assert(a =~= b);
}

/// Two byte strings of one length with the same bits are equal.
pub proof fn lemma_bits_le_injective(a: Seq<u8>, b: Seq<u8>)
    requires
        a.len() == b.len(),
        bits_le(a) == bits_le(b),
    ensures
        a == b,
{
    assert forall|i: int| 0 <= i < a.len() implies a[i] == b[i] by {
        let x = a[i];
        let y = b[i];
        assert forall|j: u8| 0 <= j < 8 implies bit_of(x, j) == bit_of(y, j) by {
            let k = 8 * i + j;
            assert(k / 8 == i && k % 8 == j);
            assert(bits_le(a)[k] == bit_of(x, j));
            assert(bits_le(b)[k] == bit_of(y, j));
        }
        assert(bit_of(x, 0) == bit_of(y, 0) && bit_of(x, 1) == bit_of(y, 1) && bit_of(x, 2)
            == bit_of(y, 2) && bit_of(x, 3) == bit_of(y, 3) && bit_of(x, 4) == bit_of(y, 4)
            && bit_of(x, 5) == bit_of(y, 5) && bit_of(x, 6) == bit_of(y, 6) && bit_of(x, 7)
            == bit_of(y, 7));
        lemma_byte_is_sum_of_bits(x);
        lemma_byte_is_sum_of_bits(y);
    }
    assert(a =~= b);
}

/// The eight bits of one byte spell that byte.
pub proof fn lemma_byte_bits(byte: u8)
    ensures
        bits_value(bits_le(seq![byte])) == byte,
{
    let s = bits_le(seq![byte]);
    assert(s.len() == 8);
    let d = |j: int| if s[j] { 1nat } else { 0nat };
    let s1 = s.skip(1);
    let s2 = s1.skip(1);
    let s3 = s2.skip(1);
    let s4 = s3.skip(1);
    let s5 = s4.skip(1);
    let s6 = s5.skip(1);
    let s7 = s6.skip(1);
    let s8 = s7.skip(1);
    assert(bits_value(s8) == 0);
    assert(bits_value(s7) == d(7) + 2 * bits_value(s8));
    assert(bits_value(s6) == d(6) + 2 * bits_value(s7));
    assert(bits_value(s5) == d(5) + 2 * bits_value(s6));
    assert(bits_value(s4) == d(4) + 2 * bits_value(s5));
    assert(bits_value(s3) == d(3) + 2 * bits_value(s4));
    assert(bits_value(s2) == d(2) + 2 * bits_value(s3));
    assert(bits_value(s1) == d(1) + 2 * bits_value(s2));
    assert(bits_value(s) == d(0) + 2 * bits_value(s1));
    assert(s[0] == bit_of(byte, 0) && s[1] == bit_of(byte, 1) && s[2] == bit_of(byte, 2) && s[3]
        == bit_of(byte, 3) && s[4] == bit_of(byte, 4) && s[5] == bit_of(byte, 5) && s[6] == bit_of(
        byte,
        6,
    ) && s[7] == bit_of(byte, 7));
    lemma_byte_is_sum_of_bits(byte);
}

/// The value of a byte string is the value of its bits.
pub proof fn lemma_bits_le_value(bytes: Seq<u8>)
    ensures
        bits_value(bits_le(bytes)) == le_value(bytes),
    decreases bytes.len(),
{
    if bytes.len() == 0 {
        assert(bits_le(bytes) =~= Seq::<bool>::empty());
    } else {
        let head = seq![bytes[0]];
        let rest = bytes.skip(1);
        assert(bits_le(bytes) =~= bits_le(head) + bits_le(rest)) by {
            assert forall|k: int| 0 <= k < 8 * bytes.len() implies bits_le(bytes)[k] == (bits_le(
                head,
            ) + bits_le(rest))[k] by {
                if k >= 8 {
                    assert((k - 8) / 8 == k / 8 - 1);
                    assert((k - 8) % 8 == k % 8);
                    assert(rest[(k - 8) / 8] == bytes[k / 8]);
                } else {
                    assert(k / 8 == 0);
                }
            }
        }
        lemma_bits_value_concat(bits_le(head), bits_le(rest));
        lemma_byte_bits(bytes[0]);
        lemma_bits_le_value(rest);
        lemma_pow2_8();
    }
}

proof fn lemma_pow2_0()
    ensures
        pow2(0) == 1,
{
    vstd::arithmetic::power2::lemma2_to64();
}

proof fn lemma_pow2_8()
    ensures
        pow2(8) == 256,
{
    vstd::arithmetic::power2::lemma2_to64();
}

proof fn lemma_byte_is_sum_of_bits(byte: u8)
    ensures
        byte as nat == (if bit_of(byte, 0) { 1nat } else { 0nat }) + 2 * ((if bit_of(byte, 1) {
            1nat
        } else {
            0nat
        }) + 2 * ((if bit_of(byte, 2) { 1nat } else { 0nat }) + 2 * ((if bit_of(byte, 3) {
            1nat
        } else {
            0nat
        }) + 2 * ((if bit_of(byte, 4) { 1nat } else { 0nat }) + 2 * ((if bit_of(byte, 5) {
            1nat
        } else {
            0nat
        }) + 2 * ((if bit_of(byte, 6) { 1nat } else { 0nat }) + 2 * (if bit_of(byte, 7) {
            1nat
        } else {
            0nat
        }))))))),
{
    let b0: u8 = (byte >> 0u8) & 1u8;
    let b1: u8 = (byte >> 1u8) & 1u8;
    let b2: u8 = (byte >> 2u8) & 1u8;
    let b3: u8 = (byte >> 3u8) & 1u8;
    let b4: u8 = (byte >> 4u8) & 1u8;
    let b5: u8 = (byte >> 5u8) & 1u8;
    let b6: u8 = (byte >> 6u8) & 1u8;
    let b7: u8 = (byte >> 7u8) & 1u8;
    assert(b0 <= 1 && b1 <= 1 && b2 <= 1 && b3 <= 1 && b4 <= 1 && b5 <= 1 && b6 <= 1 && b7 <= 1
        && byte == b0 + 2 * b1 + 4 * b2 + 8 * b3 + 16 * b4 + 32 * b5 + 64 * b6 + 128 * b7)
        by (bit_vector)
        requires
            b0 == (byte >> 0u8) & 1u8,
            b1 == (byte >> 1u8) & 1u8,
            b2 == (byte >> 2u8) & 1u8,
            b3 == (byte >> 3u8) & 1u8,
            b4 == (byte >> 4u8) & 1u8,
            b5 == (byte >> 5u8) & 1u8,
            b6 == (byte >> 6u8) & 1u8,
            b7 == (byte >> 7u8) & 1u8,
    ;
}

} // verus!

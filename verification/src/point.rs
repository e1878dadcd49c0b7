//! Points of the Jubjub curve, each held as its compressed encoding: the 32
//! bytes of the `v` coordinate, with the sign of `u` in the top bit.

use crate::field::{is_fr_encoding, is_scalar_encoding, Fr, Scalar};
use group::{Curve, GroupEncoding};
use vstd::prelude::*;

verus! {

/// Whether `jubjub::ExtendedPoint::from_bytes` accepts `bytes` as the encoding
/// of a point of the curve.
pub uninterp spec fn jubjub_point_decodes(bytes: Seq<u8>) -> bool;

/// The encoding of the affine `u` coordinate of the point that `point`
/// encodes.
pub uninterp spec fn jubjub_affine_u(point: Seq<u8>) -> Seq<u8>;

/// The encoding of the point that `point` encodes, multiplied by the element
/// of Jubjub's scalar field that `scalar` encodes.
pub uninterp spec fn jubjub_point_times(point: Seq<u8>, scalar: Seq<u8>) -> Seq<u8>;

/// The encoding of the sum of the two points that `a` and `b` encode.
pub uninterp spec fn jubjub_point_plus(a: Seq<u8>, b: Seq<u8>) -> Seq<u8>;

/// The encoding of the affine `v` coordinate of the point that `point`
/// encodes: the same bytes without the sign bit.
pub open spec fn affine_v(point: Seq<u8>) -> Seq<u8> {
    point.update(31, point[31] & 0x7fu8)
}

/// Whether the sign bit of `point`, the top bit of its last byte, is the
/// lowest bit of the `u` coordinate.
pub open spec fn sign_is_parity_of_u(point: Seq<u8>) -> bool {
    point[31] >> 7u8 == jubjub_affine_u(point)[0] & 1u8
}

/// Whether `bytes` is the encoding of a point of the curve: 32 bytes that
/// decode, and so spell a canonical `v` and carry the parity of `u` as their
/// sign.
pub open spec fn is_point_encoding(bytes: Seq<u8>) -> bool {
    &&& bytes.len() == 32
    &&& jubjub_point_decodes(bytes)
    &&& is_scalar_encoding(affine_v(bytes))
    &&& sign_is_parity_of_u(bytes)
}

/// The two coordinates tell the encodings apart: two encodings of points with
/// the same `u` and the same `v` are the same bytes.
pub proof fn lemma_coordinates_fix_encoding(a: Seq<u8>, b: Seq<u8>)
    requires
        is_point_encoding(a),
        is_point_encoding(b),
        jubjub_affine_u(a) == jubjub_affine_u(b),
        affine_v(a) == affine_v(b),
    ensures
        a == b,
{
    let x: u8 = a[31];
    let y: u8 = b[31];
    assert(affine_v(a)[31] == x & 0x7fu8);
    assert(affine_v(b)[31] == y & 0x7fu8);
    assert(x == y) by (bit_vector)
        requires
            x & 0x7fu8 == y & 0x7fu8,
            x >> 7u8 == y >> 7u8,
    ;
    assert forall|i: int| 0 <= i < 32 implies a[i] == b[i] by {
        if i < 31 {
            assert(affine_v(a)[i] == a[i]);
            assert(affine_v(b)[i] == b[i]);
        }
    }
    assert(a =~= b);
}

/// A point of the Jubjub curve.
#[derive(Debug, Clone, Copy)]
pub struct Point {
    bytes: [u8; 32],
}

impl View for Point {
    type V = Seq<u8>;

    /// The compressed encoding.
    closed spec fn view(&self) -> Seq<u8> {
        self.bytes@
    }
}

impl Point {
    /// The bytes held are the encoding of a point of the curve.
    #[verifier::type_invariant]
    pub open spec fn wf(&self) -> bool {
        is_point_encoding(self@)
    }

    /// Reads a point from its compressed encoding. `None` where `bytes` is
    /// not the canonical encoding of a point of the curve.
    pub fn from_bytes(bytes: &[u8; 32]) -> (r: Option<Point>)
        ensures
            r is Some <==> is_point_encoding(bytes@),
            r matches Some(p) ==> p@ == bytes@,
    {
        if jubjub_point_is_valid(bytes) {
            Some(Point { bytes: *bytes })
        } else {
            None
        }
    }

    /// The compressed encoding of this point.
    pub fn to_bytes(&self) -> (bytes: [u8; 32])
        ensures
            bytes@ == self@,
            is_point_encoding(bytes@),
    {
        proof {
            use_type_invariant(self);
        }
        self.bytes
    }

    /// The affine coordinates `(u, v)` of this point.
    pub fn to_affine(&self) -> (uv: (Scalar, Scalar))
        ensures
            uv.0@ == jubjub_affine_u(self@),
            uv.1@ == affine_v(self@),
            self@[31] >> 7u8 == uv.0@[0] & 1u8,
    {
        proof {
            use_type_invariant(self);
        }
        let (u, v) = jubjub_affine_coordinates(&self.bytes);
        (Scalar::from_bytes(&u).unwrap(), Scalar::from_bytes(&v).unwrap())
    }

    /// This point multiplied by `scalar`.
    pub fn mul(&self, scalar: &Fr) -> (r: Point)
        ensures
            r@ == jubjub_point_times(self@, scalar@),
    {
        proof {
            use_type_invariant(self);
            use_type_invariant(scalar);
        }
        let k = scalar.to_bytes();
        Point { bytes: jubjub_scalar_mul(&self.bytes, &k) }
    }

    /// The sum of this point and `other`.
    pub fn add(&self, other: &Point) -> (r: Point)
        ensures
            r@ == jubjub_point_plus(self@, other@),
    {
        proof {
            use_type_invariant(self);
            use_type_invariant(other);
        }
        Point { bytes: jubjub_point_add(&self.bytes, &other.bytes) }
    }

    /// Two points with one encoding are one point.
    pub proof fn lemma_ext(a: Point, b: Point)
        requires
            a@ == b@,
        ensures
            a == b,
    {
        assert(a.bytes =~= b.bytes);
    }
}

/// `jubjub::ExtendedPoint::from_bytes` yields a point exactly on the
/// encodings that `jubjub_point_decodes` names. It takes the bytes without
/// their top bit for `v` and refuses a `v` that is not canonical; and it
/// yields the `u` whose lowest bit is the top bit, refusing the top bit where
/// `u` is zero.
#[verifier::external_body]
fn jubjub_point_is_valid(bytes: &[u8; 32]) -> (ok: bool)
    ensures
        ok == jubjub_point_decodes(bytes@),
        ok ==> is_scalar_encoding(affine_v(bytes@)),
        ok ==> sign_is_parity_of_u(bytes@),
{
    jubjub::ExtendedPoint::from_bytes(bytes).is_some().into()
}

/// `Curve::to_affine` on a decoded `jubjub::ExtendedPoint`, then `get_u` and
/// `get_v`: both coordinates come back as canonical encodings of elements of
/// the base field. `v` is what the 32 bytes spell once the sign bit is
/// cleared, and the sign bit is the lowest bit of `u`.
#[verifier::external_body]
fn jubjub_affine_coordinates(point: &[u8; 32]) -> (uv: ([u8; 32], [u8; 32]))
    requires
        jubjub_point_decodes(point@),
    ensures
        uv.0@ == jubjub_affine_u(point@),
        is_scalar_encoding(uv.0@),
        point@[31] >> 7u8 == uv.0@[0] & 1u8,
        uv.1@ == affine_v(point@),
        is_scalar_encoding(uv.1@),
{
    let affine = jubjub::ExtendedPoint::from_bytes(point).unwrap().to_affine();
    (affine.get_u().to_bytes(), affine.get_v().to_bytes())
}

/// `jubjub::ExtendedPoint * jubjub::Fr`, from encodings to an encoding. The
/// product is a point of the curve, and `to_bytes` writes the one encoding of
/// it that `from_bytes` reads back: its canonical `v`, with the lowest bit of
/// its `u` on top.
#[verifier::external_body]
fn jubjub_scalar_mul(point: &[u8; 32], scalar: &[u8; 32]) -> (out: [u8; 32])
    requires
        jubjub_point_decodes(point@),
        is_fr_encoding(scalar@),
    ensures
        out@ == jubjub_point_times(point@, scalar@),
        is_point_encoding(out@),
{
    let p = jubjub::ExtendedPoint::from_bytes(point).unwrap();
    let k = jubjub::Fr::from_bytes(scalar).unwrap();
    (p * k).to_bytes()
}

/// `jubjub::ExtendedPoint + jubjub::ExtendedPoint`, from encodings to an
/// encoding. The sum is a point of the curve, and `to_bytes` writes the one
/// encoding of it that `from_bytes` reads back: its canonical `v`, with the
/// lowest bit of its `u` on top.
#[verifier::external_body]
fn jubjub_point_add(a: &[u8; 32], b: &[u8; 32]) -> (out: [u8; 32])
    requires
        jubjub_point_decodes(a@),
        jubjub_point_decodes(b@),
    ensures
        out@ == jubjub_point_plus(a@, b@),
        is_point_encoding(out@),
{
    let p = jubjub::ExtendedPoint::from_bytes(a).unwrap();
    let q = jubjub::ExtendedPoint::from_bytes(b).unwrap();
    (p + q).to_bytes()
}

} // verus!

use group::{Curve, Group, GroupEncoding};
use shielded_mint::commitment::{fresh_randomness, ValueCommitment};
use shielded_mint::field::Fr;
use shielded_mint::point::Point;

fn generator() -> jubjub::ExtendedPoint {
    jubjub::ExtendedPoint::generator()
}

fn point(p: jubjub::ExtendedPoint) -> Point {
    Point::from_bytes(&p.to_bytes()).expect("an encoded point decodes")
}

#[test]
fn point_round_trips_through_its_encoding() {
    let bytes = generator().to_bytes();
    let p = Point::from_bytes(&bytes).expect("the generator decodes");
    assert_eq!(p.to_bytes(), bytes);
}

#[test]
fn identity_decodes_only_with_a_clear_sign_bit() {
    let mut identity = [0u8; 32];
    identity[0] = 1;
    assert!(Point::from_bytes(&identity).is_some());
    identity[31] = 0x80;
    assert!(Point::from_bytes(&identity).is_none());
}

#[test]
fn non_canonical_coordinate_does_not_decode() {
    assert!(Point::from_bytes(&[0xffu8; 32]).is_none());
    let mut modulus = [
        0x01, 0x00, 0x00, 0x00, 0xff, 0xff, 0xff, 0xff, 0xfe, 0x5b, 0xfe, 0xff, 0x02, 0xa4, 0xbd,
        0x53, 0x05, 0xd8, 0xa1, 0x09, 0x08, 0xd8, 0x39, 0x33, 0x48, 0x7d, 0x9d, 0x29, 0x53, 0xa7,
        0xed, 0x73,
    ];
    // q + 1 spells the identity's coordinate, not canonically.
    modulus[0] = 0x02;
    assert!(Point::from_bytes(&modulus).is_none());
}

#[test]
fn decoding_agrees_with_the_curve_on_small_coordinates() {
    let mut accepted = 0;
    let mut refused = 0;
    for v in 0u8..64 {
        for sign in [0u8, 0x80] {
            let mut bytes = [0u8; 32];
            bytes[0] = v;
            bytes[31] = sign;
            let expected: bool = jubjub::ExtendedPoint::from_bytes(&bytes).is_some().into();
            assert_eq!(Point::from_bytes(&bytes).is_some(), expected);
            if expected {
                accepted += 1;
            } else {
                refused += 1;
            }
        }
    }
    assert!(accepted > 0);
    assert!(refused > 0);
}

#[test]
fn affine_coordinates_are_those_of_the_curve() {
    for k in 1u64..6 {
        let p = generator() * jubjub::Fr::from(k);
        let (u, v) = point(p).to_affine();
        let affine = p.to_affine();
        assert_eq!(u.to_bytes(), affine.get_u().to_bytes());
        assert_eq!(v.to_bytes(), affine.get_v().to_bytes());
        let mut cleared = p.to_bytes();
        cleared[31] &= 0x7f;
        assert_eq!(v.to_bytes(), cleared);
        assert_ne!(u.to_bytes(), p.to_bytes());
    }
}

#[test]
fn both_signs_of_a_point_give_one_v_and_two_u() {
    let p = generator() * jubjub::Fr::from(3u64);
    let a = p.to_bytes();
    let mut b = a;
    b[31] ^= 0x80;
    let (ua, va) = Point::from_bytes(&a).unwrap().to_affine();
    let (ub, vb) = Point::from_bytes(&b).unwrap().to_affine();
    assert_eq!(va.to_bytes(), vb.to_bytes());
    assert_ne!(ua.to_bytes(), ub.to_bytes());
}

#[test]
fn multiplication_is_that_of_the_curve() {
    let g = generator();
    let k = jubjub::Fr::from(123_456_789u64);
    let product = point(g).mul(&Fr::from_u64(123_456_789));
    assert_eq!(product.to_bytes(), (g * k).to_bytes());
    assert_ne!(product.to_bytes(), g.to_bytes());
    let by_zero = point(g).mul(&Fr::from_u64(0));
    assert_eq!(by_zero.to_bytes(), jubjub::ExtendedPoint::identity().to_bytes());
}

#[test]
fn addition_is_that_of_the_curve() {
    let g = generator();
    let h = g * jubjub::Fr::from(5u64);
    let sum = point(g).add(&point(h));
    assert_eq!(sum.to_bytes(), (g * jubjub::Fr::from(6u64)).to_bytes());
    assert_ne!(sum.to_bytes(), g.to_bytes());
    assert_ne!(sum.to_bytes(), h.to_bytes());
}

#[test]
fn commitment_is_value_times_base_plus_randomness_times_base() {
    let g = generator() * jubjub::Fr::from(11u64);
    let h = generator() * jubjub::Fr::from(13u64);
    let mut r = [0u8; 32];
    r[0] = 0x2a;
    r[17] = 0x99;
    let commitment = ValueCommitment {
        value_base: point(g),
        randomness_base: point(h),
        value: 1000,
        randomness: Fr::from_bytes(&r).expect("small enough"),
    };
    let expected = g * jubjub::Fr::from(1000u64) + h * jubjub::Fr::from_bytes(&r).unwrap();
    assert_eq!(commitment.commitment().to_bytes(), expected.to_bytes());
}

#[test]
fn commitment_to_nothing_with_no_blinding_is_the_identity() {
    let commitment = ValueCommitment {
        value_base: point(generator()),
        randomness_base: point(generator() * jubjub::Fr::from(2u64)),
        value: 0,
        randomness: Fr::from_u64(0),
    };
    let mut identity = [0u8; 32];
    identity[0] = 1;
    assert_eq!(commitment.commitment().to_bytes(), identity);
}

#[test]
fn fresh_randomness_differs_from_draw_to_draw_and_changes_the_commitment() {
    let first = fresh_randomness();
    let second = fresh_randomness();
    assert_ne!(first.to_bytes(), second.to_bytes());
    assert!(Fr::from_bytes(&first.to_bytes()).is_some());
    let base = ValueCommitment {
        value_base: point(generator()),
        randomness_base: point(generator() * jubjub::Fr::from(2u64)),
        value: 77,
        randomness: first,
    };
    let other = ValueCommitment { randomness: second, ..base };
    assert_ne!(base.commitment().to_bytes(), other.commitment().to_bytes());
}

#[test]
fn results_of_arithmetic_decode_again() {
    let g = point(generator());
    let identity = g.mul(&Fr::from_u64(0));
    assert!(Point::from_bytes(&identity.to_bytes()).is_some());
    let mut minus_one = [
        0x00, 0x00, 0x00, 0x00, 0xff, 0xff, 0xff, 0xff, 0xfe, 0x5b, 0xfe, 0xff, 0x02, 0xa4, 0xbd,
        0x53, 0x05, 0xd8, 0xa1, 0x09, 0x08, 0xd8, 0x39, 0x33, 0x48, 0x7d, 0x9d, 0x29, 0x53, 0xa7,
        0xed, 0x73,
    ];
    let order_two = Point::from_bytes(&minus_one).expect("(0, -1) is on the curve");
    let back = order_two.add(&order_two);
    assert_eq!(back.to_bytes(), identity.to_bytes());
    let shifted = g.add(&order_two);
    assert!(Point::from_bytes(&shifted.to_bytes()).is_some());
    assert_ne!(shifted.to_bytes(), g.to_bytes());
    minus_one[31] |= 0x80;
    assert!(Point::from_bytes(&minus_one).is_none());
    for k in [1u64, 2, 3, 1000, u64::MAX] {
        let p = g.mul(&Fr::from_u64(k));
        assert!(Point::from_bytes(&p.to_bytes()).is_some());
        let q = p.add(&g);
        assert!(Point::from_bytes(&q.to_bytes()).is_some());
    }
}

#[test]
fn sign_bit_is_the_parity_of_u_and_v_is_canonical() {
    let mut with_sign = 0;
    let mut without_sign = 0;
    for k in 1u64..40 {
        let bytes = (generator() * jubjub::Fr::from(k)).to_bytes();
        let (u, v) = Point::from_bytes(&bytes).expect("a multiple decodes").to_affine();
        assert_eq!(bytes[31] >> 7, u.to_bytes()[0] & 1);
        assert!(shielded_mint::field::Scalar::from_bytes(&v.to_bytes()).is_some());
        assert_eq!(v.to_bytes()[31] >> 7, 0);
        if bytes[31] >> 7 == 1 {
            with_sign += 1;
        } else {
            without_sign += 1;
        }
        let mut flipped = bytes;
        flipped[31] ^= 0x80;
        let (w, _) = Point::from_bytes(&flipped).expect("the mirror point decodes").to_affine();
        assert_eq!(flipped[31] >> 7, w.to_bytes()[0] & 1);
    }
    assert!(with_sign > 0);
    assert!(without_sign > 0);
    let mut identity = [0u8; 32];
    identity[0] = 1;
    let (u, _) = Point::from_bytes(&identity).expect("the identity decodes").to_affine();
    assert_eq!(u.to_bytes(), [0u8; 32]);
}

//! Tests for the algebraic layer: the prime-field element, the tuple
//! composite, and polynomial evaluation.

use mpc_core::field::{Adds, ConstInt, Field, FWrap, Muls, RandElement, Subs};
use mpc_core::fp64::{Fp64, FP61_MODULUS};
use mpc_core::polynomial::FixedPolynomial;

#[test]
fn fp64_identities_and_embedding() {
    assert!(Fp64::zero().is_zero());
    assert!(!Fp64::one().is_zero());
    assert_eq!(Fp64::bytes(), 8);
    assert_eq!(Fp64::zero().num_bytes(), 8);
    // embedding reduces modulo the prime
    assert_eq!(Fp64::from_u64(FP61_MODULUS).v, 0);
    assert_eq!(Fp64::from_u64(FP61_MODULUS + 5).v, 5);
}

#[test]
fn fp64_arithmetic_exact_values() {
    let a = Fp64::from_u64(FP61_MODULUS - 1);
    let one = Fp64::one();
    // wrap-around: (p - 1) + 1 == 0
    assert!(a.add_elem(&one).is_zero());
    // 3 * 4 == 12
    assert_eq!(Fp64::from_u64(3).mul_elem(&Fp64::from_u64(4)).v, 12);
    // 2 - 5 == p - 3
    assert_eq!(
        Fp64::from_u64(2).sub_elem(&Fp64::from_u64(5)).v,
        FP61_MODULUS - 3
    );
    assert!(Fp64::from_u64(9).eq_elem(&Fp64::from_u64(9)));
    assert!(!Fp64::from_u64(9).eq_elem(&Fp64::from_u64(8)));
}

#[test]
fn fp64_serialization_round_trip() {
    let x = Fp64::from_u64(0x1234_5678_9abc_def0);
    let mut buf: Vec<u8> = Vec::new();
    x.to_bytes(&mut buf);
    assert_eq!(buf.len(), 8);
    // little-endian: the low byte leads
    assert_eq!(buf[0], 0xf0);
    let y = Fp64::from_bytes(&buf);
    assert!(x.eq_elem(&y));
}

#[test]
fn fp64_inverse() {
    let a = Fp64::from_u64(5);
    let inv = a.inv().expect("5 is invertible");
    assert_eq!(a.mul_elem(&inv).v, 1);
    assert!(Fp64::zero().inv().is_none());
}

#[test]
fn fp64_sampling_is_well_formed() {
    for _ in 0..16 {
        let x = Fp64::rand();
        assert!(x.v < FP61_MODULUS);
    }
}

#[test]
fn fwrap_pair_arithmetic_and_bytes() {
    let a: FWrap<(Fp64, Fp64)> = FWrap((Fp64::from_u64(3), Fp64::from_u64(10)));
    let b: FWrap<(Fp64, Fp64)> = FWrap((Fp64::from_u64(4), Fp64::from_u64(1)));
    let s = a.add_elem(&b);
    assert_eq!(s.0 .0.v, 7);
    assert_eq!(s.0 .1.v, 11);
    let p = a.mul_elem(&b);
    assert_eq!(p.0 .0.v, 12);
    assert_eq!(p.0 .1.v, 10);
    let d = a.sub_elem(&b);
    assert_eq!(d.0 .1.v, 9);

    assert_eq!(FWrap::<(Fp64, Fp64)>::bytes(), 16);
    let mut buf: Vec<u8> = Vec::new();
    a.to_bytes(&mut buf);
    assert_eq!(buf.len(), 16);
    let back = FWrap::<(Fp64, Fp64)>::from_bytes(&buf);
    assert!(a.eq_elem(&back));
}

#[test]
fn fwrap_single_forwards() {
    let a: FWrap<(Fp64,)> = FWrap((Fp64::from_u64(6),));
    let b: FWrap<(Fp64,)> = FWrap((Fp64::from_u64(7),));
    assert_eq!(a.add_elem(&b).0 .0.v, 13);
    assert_eq!(FWrap::<(Fp64,)>::bytes(), 8);
    assert!(FWrap::<(Fp64,)>::zero().is_zero());
}

#[test]
fn fwrap_triple_and_quad_forward_per_slot() {
    let a: FWrap<(Fp64, Fp64, Fp64)> =
        FWrap((Fp64::from_u64(1), Fp64::from_u64(2), Fp64::from_u64(3)));
    let b: FWrap<(Fp64, Fp64, Fp64)> =
        FWrap((Fp64::from_u64(10), Fp64::from_u64(20), Fp64::from_u64(30)));
    let s = a.add_elem(&b);
    assert_eq!((s.0 .0.v, s.0 .1.v, s.0 .2.v), (11, 22, 33));
    assert_eq!(FWrap::<(Fp64, Fp64, Fp64)>::bytes(), 24);
    let mut buf: Vec<u8> = Vec::new();
    a.to_bytes(&mut buf);
    assert_eq!(buf.len(), 24);
    assert!(a.eq_elem(&FWrap::<(Fp64, Fp64, Fp64)>::from_bytes(&buf)));

    let q: FWrap<(Fp64, Fp64, Fp64, Fp64)> = FWrap((
        Fp64::from_u64(5),
        Fp64::from_u64(6),
        Fp64::from_u64(7),
        Fp64::from_u64(8),
    ));
    let r: FWrap<(Fp64, Fp64, Fp64, Fp64)> = FWrap((
        Fp64::from_u64(2),
        Fp64::from_u64(2),
        Fp64::from_u64(2),
        Fp64::from_u64(2),
    ));
    let p = q.mul_elem(&r);
    assert_eq!(
        (p.0 .0.v, p.0 .1.v, p.0 .2.v, p.0 .3.v),
        (10, 12, 14, 16)
    );
    let d = q.sub_elem(&r);
    assert_eq!(d.0 .3.v, 6);
    assert_eq!(FWrap::<(Fp64, Fp64, Fp64, Fp64)>::bytes(), 32);
    let mut buf: Vec<u8> = Vec::new();
    q.to_bytes(&mut buf);
    assert!(q.eq_elem(&FWrap::<(Fp64, Fp64, Fp64, Fp64)>::from_bytes(&buf)));
    assert!(FWrap::<(Fp64, Fp64, Fp64, Fp64)>::zero().is_zero());
}

#[test]
fn polynomial_horner_exact_value() {
    // 2 + 3x at x = 5 is 17
    let poly = FixedPolynomial {
        coeffs: vec![Fp64::from_u64(2), Fp64::from_u64(3)],
    };
    assert_eq!(poly.evaluate(&Fp64::from_u64(5)).v, 17);
    // 1 + 2x + 4x^2 at x = 3 is 43
    let poly = FixedPolynomial {
        coeffs: vec![Fp64::from_u64(1), Fp64::from_u64(2), Fp64::from_u64(4)],
    };
    assert_eq!(poly.evaluate(&Fp64::from_u64(3)).v, 43);
    // the empty polynomial is zero everywhere
    let poly = FixedPolynomial::<Fp64> { coeffs: vec![] };
    assert!(poly.evaluate(&Fp64::from_u64(9)).is_zero());
}

#[test]
fn polynomial_sampling_has_requested_degree() {
    let poly = FixedPolynomial::<Fp64>::rand_polynomial(3);
    assert_eq!(poly.coeffs.len(), 4);
    for c in poly.coeffs.iter() {
        assert!(c.v < FP61_MODULUS);
    }
}

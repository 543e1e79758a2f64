//! A concrete prime field: integers modulo the Mersenne prime `2^61 - 1`,
//! serialized as eight little-endian bytes.

use vstd::prelude::*;
use crate::field::{Adds, BoundedBytes, ConstInt, Field, Muls, RandElement, Ring, Subs};

verus! {

/// The field modulus, `2^61 - 1`.
pub const FP61_MODULUS: u64 = 0x1fffffffffffffff;

/// An element of the prime field of order `2^61 - 1`. Well-formed values are
/// fully reduced.
#[derive(PartialEq, Eq, Copy, Clone, Hash, Debug, Structural)]
pub struct Fp64 {
    pub v: u64,
}

/// The 64-bit value eight little-endian bytes stand for.
pub open spec fn spec_le64(b: Seq<u8>) -> u64
    recommends
        b.len() == 8,
{
    (b[0] as u64) | ((b[1] as u64) << 8) | ((b[2] as u64) << 16) | ((b[3] as u64) << 24) | ((
    b[4] as u64) << 32) | ((b[5] as u64) << 40) | ((b[6] as u64) << 48) | ((b[7] as u64) << 56)
}

/// Relies on rand::random: a uniformly sampled 64-bit value; nothing is
/// promised of it.
#[verifier::external_body]
fn random_u64() -> u64 {
    rand::random::<u64>()
}

/// `(a * b) % FP61_MODULUS`, computed without overflow through a 128-bit
/// intermediate.
fn mul_mod(a: u64, b: u64) -> (r: u64)
    ensures
        r == (a as int * b as int) % (FP61_MODULUS as int),
        r < FP61_MODULUS,
{
    proof {
        assert(a as int * b as int <= u64::MAX as int * u64::MAX as int) by (nonlinear_arith)
            requires
                a <= u64::MAX,
                b <= u64::MAX,
        ;
    }
    let wide: u128 = (a as u128) * (b as u128);
    (wide % (FP61_MODULUS as u128)) as u64
}

impl ConstInt for Fp64 {
    open spec fn spec_bytes() -> nat {
        8
    }

    open spec fn wf(&self) -> bool {
        self.v < FP61_MODULUS
    }

    open spec fn spec_zero() -> Self {
        Fp64 { v: 0 }
    }

    open spec fn spec_one() -> Self {
        Fp64 { v: 1 }
    }

    open spec fn spec_from_u64(x: u64) -> Self {
        Fp64 { v: (x % FP61_MODULUS) as u64 }
    }

    open spec fn spec_serialized(&self) -> Seq<u8> {
        Seq::new(8, |i: int| ((self.v >> ((8 * i) as u64)) & 0xff) as u8)
    }

    open spec fn spec_deserialized(b: Seq<u8>) -> Self {
        Fp64 { v: (spec_le64(b) % FP61_MODULUS) as u64 }
    }

    proof fn lemma_serialized_len(&self) {
    }

    proof fn lemma_serialize_round_trip(&self) {
        let v = self.v;
        assert((((((v >> 0) & 0xff) as u8) as u64) | (((((v >> 8) & 0xff) as u8) as u64) << 8) | ((
        (((v >> 16) & 0xff) as u8) as u64) << 16) | (((((v >> 24) & 0xff) as u8) as u64) << 24) | (
        ((((v >> 32) & 0xff) as u8) as u64) << 32) | (((((v >> 40) & 0xff) as u8) as u64) << 40) | (
        ((((v >> 48) & 0xff) as u8) as u64) << 48) | (((((v >> 56) & 0xff) as u8) as u64) << 56))
            == v) by (bit_vector);
        assert(spec_le64(self.spec_serialized()) == v);
    }

    proof fn lemma_deserialized_wf(b: Seq<u8>) {
    }

    fn bytes() -> (r: usize) {
        8
    }

    fn zero() -> (r: Self) {
        Fp64 { v: 0 }
    }

    fn one() -> (r: Self) {
        Fp64 { v: 1 }
    }

    fn is_zero(&self) -> (r: bool) {
        self.v == 0
    }

    fn from_u64(x: u64) -> (r: Self) {
        Fp64 { v: x % FP61_MODULUS }
    }

    fn eq_elem(&self, other: &Self) -> (r: bool) {
        self.v == other.v
    }

    fn dup(&self) -> (r: Self) {
        Fp64 { v: self.v }
    }

    fn is_well_formed(&self) -> (r: bool) {
        self.v < FP61_MODULUS
    }

    fn num_bytes(&self) -> (r: usize) {
        8
    }

    fn to_bytes(&self, out: &mut Vec<u8>) {
        let v = self.v;
        proof {
            assert(v >> 0u64 == v) by (bit_vector);
        }
        out.push((v & 0xff) as u8);
        out.push(((v >> 8) & 0xff) as u8);
        out.push(((v >> 16) & 0xff) as u8);
        out.push(((v >> 24) & 0xff) as u8);
        out.push(((v >> 32) & 0xff) as u8);
        out.push(((v >> 40) & 0xff) as u8);
        out.push(((v >> 48) & 0xff) as u8);
        out.push(((v >> 56) & 0xff) as u8);
        proof {
            assert(final(out)@ =~= old(out)@ + self.spec_serialized());
        }
    }

    fn from_bytes(b: &[u8]) -> (r: Self) {
        let raw: u64 = (b[0] as u64) | ((b[1] as u64) << 8) | ((b[2] as u64) << 16) | ((
        b[3] as u64) << 24) | ((b[4] as u64) << 32) | ((b[5] as u64) << 40) | ((b[6] as u64) << 48)
            | ((b[7] as u64) << 56);
        Fp64 { v: raw % FP61_MODULUS }
    }
}

impl Adds for Fp64 {
    open spec fn spec_add(self, other: Self) -> Self {
        Fp64 { v: ((self.v + other.v) % (FP61_MODULUS as int)) as u64 }
    }

    fn add_elem(&self, other: &Self) -> (r: Self) {
        Fp64 { v: (self.v + other.v) % FP61_MODULUS }
    }
}

impl Subs for Fp64 {
    open spec fn spec_sub(self, other: Self) -> Self {
        Fp64 { v: ((self.v - other.v) % (FP61_MODULUS as int)) as u64 }
    }

    fn sub_elem(&self, other: &Self) -> (r: Self) {
        proof {
            vstd::arithmetic::div_mod::lemma_mod_add_multiples_vanish(
                self.v - other.v,
                FP61_MODULUS as int,
            );
        }
        Fp64 { v: (self.v + (FP61_MODULUS - other.v)) % FP61_MODULUS }
    }
}

impl Muls for Fp64 {
    open spec fn spec_mul(self, other: Self) -> Self {
        Fp64 { v: ((self.v * other.v) % (FP61_MODULUS as int)) as u64 }
    }

    fn mul_elem(&self, other: &Self) -> (r: Self) {
        Fp64 { v: mul_mod(self.v, other.v) }
    }
}

impl Ring for Fp64 {

}

impl Field for Fp64 {
    fn gen() -> (r: Self) {
        Fp64 { v: 7 }
    }

    fn inv(&self) -> (r: Option<Self>) {
        let a = self.v % FP61_MODULUS;
        if a == 0 {
            return None;
        }
        let mut acc: u64 = 1;
        let mut base: u64 = a;
        let mut e: u64 = FP61_MODULUS - 2;
        while e > 0
            invariant
                acc < FP61_MODULUS,
                base < FP61_MODULUS,
            decreases e,
        {
            if e & 1 == 1 {
                acc = mul_mod(acc, base);
            }
            base = mul_mod(base, base);
            proof {
                assert(e >> 1u64 < e) by (bit_vector)
                    requires
                        e > 0,
                ;
            }
            e = e >> 1;
        }
        let check = mul_mod(self.v, acc);
        if check == 1 {
            Some(Fp64 { v: acc })
        } else {
            None
        }
    }
}

impl RandElement for Fp64 {
    fn rand() -> (r: Self) {
        Fp64 { v: random_u64() % FP61_MODULUS }
    }
}

impl BoundedBytes for Fp64 {
    proof fn lemma_bytes_bounded() {
    }
}

} // verus!

//! Algebraic value abstraction used by every protocol that manipulates
//! secret-shared data: fixed-width serialization, identities, arithmetic,
//! and uniform sampling, each pinned to a spec-level semantics that the
//! concrete implementations prove.

use vstd::prelude::*;

verus! {

/// Base interface of a fixed-width algebraic value: identities, equality,
/// and serialization to and from a byte record of exactly `spec_bytes()`
/// bytes.
pub trait ConstInt: Sized {
    /// Width in bytes of the serialized form.
    spec fn spec_bytes() -> nat;

    /// Well-formedness: the representation invariant a deserialized or
    /// computed value satisfies.
    spec fn wf(&self) -> bool;

    /// The additive identity.
    spec fn spec_zero() -> Self;

    /// The multiplicative identity.
    spec fn spec_one() -> Self;

    /// The value a 64-bit integer embeds to.
    spec fn spec_from_u64(x: u64) -> Self;

    /// The serialized form of this value.
    spec fn spec_serialized(&self) -> Seq<u8>;

    /// The value a byte record of width `spec_bytes()` deserializes to.
    spec fn spec_deserialized(b: Seq<u8>) -> Self;

    /// Serialization always produces exactly `spec_bytes()` bytes.
    proof fn lemma_serialized_len(&self)
        ensures
            self.spec_serialized().len() == Self::spec_bytes(),
    ;

    /// Deserializing a well-formed value's serialized form gives the value
    /// back.
    proof fn lemma_serialize_round_trip(&self)
        requires
            self.wf(),
        ensures
            Self::spec_deserialized(self.spec_serialized()) == *self,
    ;

    /// Deserialization yields well-formed values.
    proof fn lemma_deserialized_wf(b: Seq<u8>)
        requires
            b.len() == Self::spec_bytes(),
        ensures
            Self::spec_deserialized(b).wf(),
    ;

    /// Width in bytes of the serialized form.
    fn bytes() -> (r: usize)
        ensures
            r as nat == Self::spec_bytes(),
            r >= 1,
    ;

    /// The additive identity.
    fn zero() -> (r: Self)
        ensures
            r == Self::spec_zero(),
            r.wf(),
    ;

    /// The multiplicative identity.
    fn one() -> (r: Self)
        ensures
            r == Self::spec_one(),
            r.wf(),
    ;

    /// Whether this value is the additive identity.
    fn is_zero(&self) -> (r: bool)
        ensures
            r == (*self == Self::spec_zero()),
    ;

    /// Embeds a 64-bit integer.
    fn from_u64(x: u64) -> (r: Self)
        ensures
            r == Self::spec_from_u64(x),
            r.wf(),
    ;

    /// Decides equality of two values.
    fn eq_elem(&self, other: &Self) -> (r: bool)
        ensures
            r == (*self == *other),
    ;

    /// Decides well-formedness, so unverified callers can gate values that
    /// come from outside.
    fn is_well_formed(&self) -> (r: bool)
        ensures
            r == self.wf(),
    ;

    /// An owned copy of this value.
    fn dup(&self) -> (r: Self)
        ensures
            r == *self,
    ;

    /// Width in bytes of this value's serialized form.
    fn num_bytes(&self) -> (r: usize)
        ensures
            r as nat == Self::spec_bytes(),
    ;

    /// Appends the serialized form of this value to `out`.
    fn to_bytes(&self, out: &mut Vec<u8>)
        requires
            old(out)@.len() + Self::spec_bytes() <= usize::MAX,
        ensures
            final(out)@ == old(out)@ + self.spec_serialized(),
    ;

    /// Reads one value back from a byte record of exactly the serialized
    /// width.
    fn from_bytes(b: &[u8]) -> (r: Self)
        requires
            b@.len() == Self::spec_bytes(),
        ensures
            r == Self::spec_deserialized(b@),
            r.wf(),
    ;
}

/// Addition, by value or by reference in the source interface; here a single
/// method pinned to the spec-level sum.
pub trait Adds: ConstInt {
    /// The spec-level sum.
    spec fn spec_add(self, other: Self) -> Self;

    /// Adds two well-formed values.
    fn add_elem(&self, other: &Self) -> (r: Self)
        requires
            self.wf(),
            other.wf(),
        ensures
            r == self.spec_add(*other),
            r.wf(),
    ;
}

/// Subtraction.
pub trait Subs: ConstInt {
    /// The spec-level difference.
    spec fn spec_sub(self, other: Self) -> Self;

    /// Subtracts `other` from this value; both must be well-formed.
    fn sub_elem(&self, other: &Self) -> (r: Self)
        requires
            self.wf(),
            other.wf(),
        ensures
            r == self.spec_sub(*other),
            r.wf(),
    ;
}

/// Multiplication.
pub trait Muls: ConstInt {
    /// The spec-level product.
    spec fn spec_mul(self, other: Self) -> Self;

    /// Multiplies two well-formed values.
    fn mul_elem(&self, other: &Self) -> (r: Self)
        requires
            self.wf(),
            other.wf(),
        ensures
            r == self.spec_mul(*other),
            r.wf(),
    ;
}

/// Division, for value types where it is total on nonzero divisors. Left to
/// implementors outside this substrate; no contract is imposed here.
pub trait Divs: ConstInt {
    /// Divides this value by `other`.
    fn div_elem(&self, other: &Self) -> Self;
}

/// Modular arithmetic over an externally-supplied modulus. Left to
/// implementors outside this substrate; no contract is imposed here.
pub trait ModInt: Sized {
    fn mod_add(&self, right: &Self, m: &Self) -> Self;

    fn mod_sub(&self, right: &Self, m: &Self) -> Self;

    fn mod_mul(&self, right: &Self, m: &Self) -> Self;

    fn mod_pow(&self, exp: &Self, m: &Self) -> Self;

    fn mod_inv(&self, m: &Self) -> Option<Self>;
}

/// A ring: fixed-width value with addition, subtraction and multiplication.
pub trait Ring: ConstInt + Adds + Subs + Muls {

}

/// A field: a ring with a distinguished generator and multiplicative
/// inverses for nonzero values.
pub trait Field: Ring {
    /// A fixed generator element.
    fn gen() -> (r: Self)
        ensures
            r.wf(),
    ;

    /// Multiplicative inverse: any value returned multiplies with this one
    /// to the identity; the zero value has no inverse.
    fn inv(&self) -> (r: Option<Self>)
        ensures
            match r {
                Some(c) => self.spec_mul(c) == Self::spec_one() && c.wf(),
                None => true,
            },
            *self == Self::spec_zero() ==> r is None,
    ;
}

/// Uniform sampling of a value. Nothing is promised of the sampled value
/// beyond well-formedness: randomness has no spec.
pub trait RandElement: ConstInt {
    fn rand() -> (r: Self)
        ensures
            r.wf(),
    ;
}

/// A base element narrow enough that a tuple of up to four of them can be
/// sized in a `usize` without overflow. Composites are built from these and
/// are not themselves `BoundedBytes`, so widths never compound.
pub trait BoundedBytes: ConstInt {
    /// The serialized width of a base element is at most 8 KiB.
    proof fn lemma_bytes_bounded()
        ensures
            Self::spec_bytes() <= 0x2000,
    ;
}

/// Composite element that vectorizes arithmetic across a tuple of elements,
/// slot by slot; its serialized form is the concatenation of the slots'
/// records. Written out for the small tuple arities actually used.
#[derive(PartialEq, Clone, Debug)]
pub struct FWrap<T>(pub T);

impl<A: BoundedBytes> ConstInt for FWrap<(A,)> {
    open spec fn spec_bytes() -> nat {
        A::spec_bytes()
    }

    open spec fn wf(&self) -> bool {
        self.0.0.wf()
    }

    open spec fn spec_zero() -> Self {
        FWrap((A::spec_zero(),))
    }

    open spec fn spec_one() -> Self {
        FWrap((A::spec_one(),))
    }

    open spec fn spec_from_u64(x: u64) -> Self {
        FWrap((A::spec_from_u64(x),))
    }

    open spec fn spec_serialized(&self) -> Seq<u8> {
        self.0.0.spec_serialized()
    }

    open spec fn spec_deserialized(b: Seq<u8>) -> Self {
        FWrap((A::spec_deserialized(b),))
    }

    proof fn lemma_serialized_len(&self) {
        self.0.0.lemma_serialized_len();
    }

    proof fn lemma_serialize_round_trip(&self) {
        self.0.0.lemma_serialize_round_trip();
    }

    proof fn lemma_deserialized_wf(b: Seq<u8>) {
        A::lemma_deserialized_wf(b);
    }

    fn bytes() -> (r: usize) {
        A::bytes()
    }

    fn zero() -> (r: Self) {
        FWrap((A::zero(),))
    }

    fn one() -> (r: Self) {
        FWrap((A::one(),))
    }

    fn is_zero(&self) -> (r: bool) {
        self.0.0.is_zero()
    }

    fn from_u64(x: u64) -> (r: Self) {
        FWrap((A::from_u64(x),))
    }

    fn eq_elem(&self, other: &Self) -> (r: bool) {
        self.0.0.eq_elem(&other.0.0)
    }

    fn dup(&self) -> (r: Self) {
        FWrap((self.0.0.dup(),))
    }

    fn is_well_formed(&self) -> (r: bool) {
        self.0.0.is_well_formed()
    }

    fn num_bytes(&self) -> (r: usize) {
        A::bytes()
    }

    fn to_bytes(&self, out: &mut Vec<u8>) {
        self.0.0.to_bytes(out);
    }

    fn from_bytes(b: &[u8]) -> (r: Self) {
        FWrap((A::from_bytes(b),))
    }
}

impl<A: BoundedBytes + Adds> Adds for FWrap<(A,)> {
    open spec fn spec_add(self, other: Self) -> Self {
        FWrap((self.0.0.spec_add(other.0.0),))
    }

    fn add_elem(&self, other: &Self) -> (r: Self) {
        FWrap((self.0.0.add_elem(&other.0.0),))
    }
}

impl<A: BoundedBytes + Subs> Subs for FWrap<(A,)> {
    open spec fn spec_sub(self, other: Self) -> Self {
        FWrap((self.0.0.spec_sub(other.0.0),))
    }

    fn sub_elem(&self, other: &Self) -> (r: Self) {
        FWrap((self.0.0.sub_elem(&other.0.0),))
    }
}

impl<A: BoundedBytes + Muls> Muls for FWrap<(A,)> {
    open spec fn spec_mul(self, other: Self) -> Self {
        FWrap((self.0.0.spec_mul(other.0.0),))
    }

    fn mul_elem(&self, other: &Self) -> (r: Self) {
        FWrap((self.0.0.mul_elem(&other.0.0),))
    }
}

impl<A: BoundedBytes + Ring> Ring for FWrap<(A,)> {

}

impl<A: BoundedBytes + RandElement> RandElement for FWrap<(A,)> {
    fn rand() -> (r: Self) {
        FWrap((A::rand(),))
    }
}

impl<A: BoundedBytes, B: BoundedBytes> ConstInt for FWrap<(A, B)> {
    open spec fn spec_bytes() -> nat {
        A::spec_bytes() + B::spec_bytes()
    }

    open spec fn wf(&self) -> bool {
        self.0.0.wf() && self.0.1.wf()
    }

    open spec fn spec_zero() -> Self {
        FWrap((A::spec_zero(), B::spec_zero()))
    }

    open spec fn spec_one() -> Self {
        FWrap((A::spec_one(), B::spec_one()))
    }

    open spec fn spec_from_u64(x: u64) -> Self {
        FWrap((A::spec_from_u64(x), B::spec_from_u64(x)))
    }

    open spec fn spec_serialized(&self) -> Seq<u8> {
        self.0.0.spec_serialized() + self.0.1.spec_serialized()
    }

    open spec fn spec_deserialized(b: Seq<u8>) -> Self {
        FWrap(
            (
                A::spec_deserialized(b.take(A::spec_bytes() as int)),
                B::spec_deserialized(b.skip(A::spec_bytes() as int)),
            ),
        )
    }

    proof fn lemma_serialized_len(&self) {
        self.0.0.lemma_serialized_len();
        self.0.1.lemma_serialized_len();
    }

    proof fn lemma_serialize_round_trip(&self) {
        self.0.0.lemma_serialized_len();
        self.0.1.lemma_serialized_len();
        self.0.0.lemma_serialize_round_trip();
        self.0.1.lemma_serialize_round_trip();
        assert(self.spec_serialized().take(A::spec_bytes() as int) =~= self.0.0.spec_serialized());
        assert(self.spec_serialized().skip(A::spec_bytes() as int) =~= self.0.1.spec_serialized());
    }

    proof fn lemma_deserialized_wf(b: Seq<u8>) {
        A::lemma_deserialized_wf(b.take(A::spec_bytes() as int));
        B::lemma_deserialized_wf(b.skip(A::spec_bytes() as int));
    }

    fn bytes() -> (r: usize) {
        proof {
            A::lemma_bytes_bounded();
            B::lemma_bytes_bounded();
        }
        A::bytes() + B::bytes()
    }

    fn zero() -> (r: Self) {
        FWrap((A::zero(), B::zero()))
    }

    fn one() -> (r: Self) {
        FWrap((A::one(), B::one()))
    }

    fn is_zero(&self) -> (r: bool) {
        self.0.0.is_zero() && self.0.1.is_zero()
    }

    fn from_u64(x: u64) -> (r: Self) {
        FWrap((A::from_u64(x), B::from_u64(x)))
    }

    fn eq_elem(&self, other: &Self) -> (r: bool) {
        self.0.0.eq_elem(&other.0.0) && self.0.1.eq_elem(&other.0.1)
    }

    fn dup(&self) -> (r: Self) {
        FWrap((self.0.0.dup(), self.0.1.dup()))
    }

    fn is_well_formed(&self) -> (r: bool) {
        self.0.0.is_well_formed() && self.0.1.is_well_formed()
    }

    fn num_bytes(&self) -> (r: usize) {
        proof {
            A::lemma_bytes_bounded();
            B::lemma_bytes_bounded();
        }
        A::bytes() + B::bytes()
    }

    fn to_bytes(&self, out: &mut Vec<u8>) {
        proof {
            self.0.0.lemma_serialized_len();
        }
        self.0.0.to_bytes(out);
        self.0.1.to_bytes(out);
        proof {
            assert(final(out)@ =~= old(out)@ + self.spec_serialized());
        }
    }

    fn from_bytes(b: &[u8]) -> (r: Self) {
        proof {
            A::lemma_bytes_bounded();
        }
        let split: usize = A::bytes();
        let first = A::from_bytes(vstd::slice::slice_subrange(b, 0, split));
        let second = B::from_bytes(vstd::slice::slice_subrange(b, split, b.len()));
        proof {
            assert(b@.subrange(0, split as int) =~= b@.take(A::spec_bytes() as int));
            assert(b@.subrange(split as int, b@.len() as int) =~= b@.skip(
                A::spec_bytes() as int,
            ));
        }
        FWrap((first, second))
    }
}

impl<A: BoundedBytes + Adds, B: BoundedBytes + Adds> Adds for FWrap<(A, B)> {
    open spec fn spec_add(self, other: Self) -> Self {
        FWrap((self.0.0.spec_add(other.0.0), self.0.1.spec_add(other.0.1)))
    }

    fn add_elem(&self, other: &Self) -> (r: Self) {
        FWrap((self.0.0.add_elem(&other.0.0), self.0.1.add_elem(&other.0.1)))
    }
}

impl<A: BoundedBytes + Subs, B: BoundedBytes + Subs> Subs for FWrap<(A, B)> {
    open spec fn spec_sub(self, other: Self) -> Self {
        FWrap((self.0.0.spec_sub(other.0.0), self.0.1.spec_sub(other.0.1)))
    }

    fn sub_elem(&self, other: &Self) -> (r: Self) {
        FWrap((self.0.0.sub_elem(&other.0.0), self.0.1.sub_elem(&other.0.1)))
    }
}

impl<A: BoundedBytes + Muls, B: BoundedBytes + Muls> Muls for FWrap<(A, B)> {
    open spec fn spec_mul(self, other: Self) -> Self {
        FWrap((self.0.0.spec_mul(other.0.0), self.0.1.spec_mul(other.0.1)))
    }

    fn mul_elem(&self, other: &Self) -> (r: Self) {
        FWrap((self.0.0.mul_elem(&other.0.0), self.0.1.mul_elem(&other.0.1)))
    }
}

impl<A: BoundedBytes + Ring, B: BoundedBytes + Ring> Ring for FWrap<(A, B)> {

}

impl<A: BoundedBytes + RandElement, B: BoundedBytes + RandElement> RandElement for FWrap<(A, B)> {
    fn rand() -> (r: Self) {
        FWrap((A::rand(), B::rand()))
    }
}

impl<A: BoundedBytes, B: BoundedBytes, C: BoundedBytes> ConstInt for FWrap<(A, B, C)> {
    open spec fn spec_bytes() -> nat {
        A::spec_bytes() + B::spec_bytes() + C::spec_bytes()
    }

    open spec fn wf(&self) -> bool {
        self.0.0.wf() && self.0.1.wf() && self.0.2.wf()
    }

    open spec fn spec_zero() -> Self {
        FWrap((A::spec_zero(), B::spec_zero(), C::spec_zero()))
    }

    open spec fn spec_one() -> Self {
        FWrap((A::spec_one(), B::spec_one(), C::spec_one()))
    }

    open spec fn spec_from_u64(x: u64) -> Self {
        FWrap((A::spec_from_u64(x), B::spec_from_u64(x), C::spec_from_u64(x)))
    }

    open spec fn spec_serialized(&self) -> Seq<u8> {
        self.0.0.spec_serialized() + self.0.1.spec_serialized() + self.0.2.spec_serialized()
    }

    open spec fn spec_deserialized(b: Seq<u8>) -> Self {
        FWrap(
            (
                A::spec_deserialized(b.take(A::spec_bytes() as int)),
                B::spec_deserialized(b.skip(A::spec_bytes() as int).take(B::spec_bytes() as int)),
                C::spec_deserialized(b.skip((A::spec_bytes() + B::spec_bytes()) as int)),
            ),
        )
    }

    proof fn lemma_serialized_len(&self) {
        self.0.0.lemma_serialized_len();
        self.0.1.lemma_serialized_len();
        self.0.2.lemma_serialized_len();
    }

    proof fn lemma_serialize_round_trip(&self) {
        self.0.0.lemma_serialized_len();
        self.0.1.lemma_serialized_len();
        self.0.2.lemma_serialized_len();
        self.0.0.lemma_serialize_round_trip();
        self.0.1.lemma_serialize_round_trip();
        self.0.2.lemma_serialize_round_trip();
        let s = self.spec_serialized();
        assert(s.take(A::spec_bytes() as int) =~= self.0.0.spec_serialized());
        assert(s.skip(A::spec_bytes() as int).take(B::spec_bytes() as int)
            =~= self.0.1.spec_serialized());
        assert(s.skip((A::spec_bytes() + B::spec_bytes()) as int) =~= self.0.2.spec_serialized());
    }

    proof fn lemma_deserialized_wf(b: Seq<u8>) {
        A::lemma_deserialized_wf(b.take(A::spec_bytes() as int));
        B::lemma_deserialized_wf(b.skip(A::spec_bytes() as int).take(B::spec_bytes() as int));
        C::lemma_deserialized_wf(b.skip((A::spec_bytes() + B::spec_bytes()) as int));
    }

    fn bytes() -> (r: usize) {
        proof {
            A::lemma_bytes_bounded();
            B::lemma_bytes_bounded();
            C::lemma_bytes_bounded();
        }
        A::bytes() + B::bytes() + C::bytes()
    }

    fn zero() -> (r: Self) {
        FWrap((A::zero(), B::zero(), C::zero()))
    }

    fn one() -> (r: Self) {
        FWrap((A::one(), B::one(), C::one()))
    }

    fn is_zero(&self) -> (r: bool) {
        self.0.0.is_zero() && self.0.1.is_zero() && self.0.2.is_zero()
    }

    fn from_u64(x: u64) -> (r: Self) {
        FWrap((A::from_u64(x), B::from_u64(x), C::from_u64(x)))
    }

    fn eq_elem(&self, other: &Self) -> (r: bool) {
        self.0.0.eq_elem(&other.0.0) && self.0.1.eq_elem(&other.0.1) && self.0.2.eq_elem(
            &other.0.2,
        )
    }

    fn dup(&self) -> (r: Self) {
        FWrap((self.0.0.dup(), self.0.1.dup(), self.0.2.dup()))
    }

    fn is_well_formed(&self) -> (r: bool) {
        self.0.0.is_well_formed() && self.0.1.is_well_formed() && self.0.2.is_well_formed()
    }

    fn num_bytes(&self) -> (r: usize) {
        proof {
            A::lemma_bytes_bounded();
            B::lemma_bytes_bounded();
            C::lemma_bytes_bounded();
        }
        A::bytes() + B::bytes() + C::bytes()
    }

    fn to_bytes(&self, out: &mut Vec<u8>) {
        proof {
            self.0.0.lemma_serialized_len();
            self.0.1.lemma_serialized_len();
        }
        self.0.0.to_bytes(out);
        self.0.1.to_bytes(out);
        self.0.2.to_bytes(out);
        proof {
            assert(final(out)@ =~= old(out)@ + self.spec_serialized());
        }
    }

    fn from_bytes(b: &[u8]) -> (r: Self) {
        proof {
            A::lemma_bytes_bounded();
            B::lemma_bytes_bounded();
        }
        let split1: usize = A::bytes();
        let split2: usize = split1 + B::bytes();
        let first = A::from_bytes(vstd::slice::slice_subrange(b, 0, split1));
        let second = B::from_bytes(vstd::slice::slice_subrange(b, split1, split2));
        let third = C::from_bytes(vstd::slice::slice_subrange(b, split2, b.len()));
        proof {
            assert(b@.subrange(0, split1 as int) =~= b@.take(A::spec_bytes() as int));
            assert(b@.subrange(split1 as int, split2 as int) =~= b@.skip(
                A::spec_bytes() as int,
            ).take(B::spec_bytes() as int));
            assert(b@.subrange(split2 as int, b@.len() as int) =~= b@.skip(
                (A::spec_bytes() + B::spec_bytes()) as int,
            ));
        }
        FWrap((first, second, third))
    }
}

impl<A: BoundedBytes + Adds, B: BoundedBytes + Adds, C: BoundedBytes + Adds> Adds for FWrap<
    (A, B, C),
> {
    open spec fn spec_add(self, other: Self) -> Self {
        FWrap(
            (
                self.0.0.spec_add(other.0.0),
                self.0.1.spec_add(other.0.1),
                self.0.2.spec_add(other.0.2),
            ),
        )
    }

    fn add_elem(&self, other: &Self) -> (r: Self) {
        FWrap(
            (
                self.0.0.add_elem(&other.0.0),
                self.0.1.add_elem(&other.0.1),
                self.0.2.add_elem(&other.0.2),
            ),
        )
    }
}

impl<A: BoundedBytes + Subs, B: BoundedBytes + Subs, C: BoundedBytes + Subs> Subs for FWrap<
    (A, B, C),
> {
    open spec fn spec_sub(self, other: Self) -> Self {
        FWrap(
            (
                self.0.0.spec_sub(other.0.0),
                self.0.1.spec_sub(other.0.1),
                self.0.2.spec_sub(other.0.2),
            ),
        )
    }

    fn sub_elem(&self, other: &Self) -> (r: Self) {
        FWrap(
            (
                self.0.0.sub_elem(&other.0.0),
                self.0.1.sub_elem(&other.0.1),
                self.0.2.sub_elem(&other.0.2),
            ),
        )
    }
}

impl<A: BoundedBytes + Muls, B: BoundedBytes + Muls, C: BoundedBytes + Muls> Muls for FWrap<
    (A, B, C),
> {
    open spec fn spec_mul(self, other: Self) -> Self {
        FWrap(
            (
                self.0.0.spec_mul(other.0.0),
                self.0.1.spec_mul(other.0.1),
                self.0.2.spec_mul(other.0.2),
            ),
        )
    }

    fn mul_elem(&self, other: &Self) -> (r: Self) {
        FWrap(
            (
                self.0.0.mul_elem(&other.0.0),
                self.0.1.mul_elem(&other.0.1),
                self.0.2.mul_elem(&other.0.2),
            ),
        )
    }
}

impl<A: BoundedBytes + Ring, B: BoundedBytes + Ring, C: BoundedBytes + Ring> Ring for FWrap<
    (A, B, C),
> {

}

impl<
    A: BoundedBytes + RandElement,
    B: BoundedBytes + RandElement,
    C: BoundedBytes + RandElement,
> RandElement for FWrap<(A, B, C)> {
    fn rand() -> (r: Self) {
        FWrap((A::rand(), B::rand(), C::rand()))
    }
}

impl<A: BoundedBytes, B: BoundedBytes, C: BoundedBytes, D: BoundedBytes> ConstInt for FWrap<
    (A, B, C, D),
> {
    open spec fn spec_bytes() -> nat {
        A::spec_bytes() + B::spec_bytes() + C::spec_bytes() + D::spec_bytes()
    }

    open spec fn wf(&self) -> bool {
        self.0.0.wf() && self.0.1.wf() && self.0.2.wf() && self.0.3.wf()
    }

    open spec fn spec_zero() -> Self {
        FWrap((A::spec_zero(), B::spec_zero(), C::spec_zero(), D::spec_zero()))
    }

    open spec fn spec_one() -> Self {
        FWrap((A::spec_one(), B::spec_one(), C::spec_one(), D::spec_one()))
    }

    open spec fn spec_from_u64(x: u64) -> Self {
        FWrap((A::spec_from_u64(x), B::spec_from_u64(x), C::spec_from_u64(x), D::spec_from_u64(x)))
    }

    open spec fn spec_serialized(&self) -> Seq<u8> {
        self.0.0.spec_serialized() + self.0.1.spec_serialized() + self.0.2.spec_serialized()
            + self.0.3.spec_serialized()
    }

    open spec fn spec_deserialized(b: Seq<u8>) -> Self {
        FWrap(
            (
                A::spec_deserialized(b.take(A::spec_bytes() as int)),
                B::spec_deserialized(b.skip(A::spec_bytes() as int).take(B::spec_bytes() as int)),
                C::spec_deserialized(
                    b.skip((A::spec_bytes() + B::spec_bytes()) as int).take(
                        C::spec_bytes() as int,
                    ),
                ),
                D::spec_deserialized(
                    b.skip((A::spec_bytes() + B::spec_bytes() + C::spec_bytes()) as int),
                ),
            ),
        )
    }

    proof fn lemma_serialized_len(&self) {
        self.0.0.lemma_serialized_len();
        self.0.1.lemma_serialized_len();
        self.0.2.lemma_serialized_len();
        self.0.3.lemma_serialized_len();
    }

    proof fn lemma_serialize_round_trip(&self) {
        self.0.0.lemma_serialized_len();
        self.0.1.lemma_serialized_len();
        self.0.2.lemma_serialized_len();
        self.0.3.lemma_serialized_len();
        self.0.0.lemma_serialize_round_trip();
        self.0.1.lemma_serialize_round_trip();
        self.0.2.lemma_serialize_round_trip();
        self.0.3.lemma_serialize_round_trip();
        let s = self.spec_serialized();
        assert(s.take(A::spec_bytes() as int) =~= self.0.0.spec_serialized());
        assert(s.skip(A::spec_bytes() as int).take(B::spec_bytes() as int)
            =~= self.0.1.spec_serialized());
        assert(s.skip((A::spec_bytes() + B::spec_bytes()) as int).take(C::spec_bytes() as int)
            =~= self.0.2.spec_serialized());
        assert(s.skip((A::spec_bytes() + B::spec_bytes() + C::spec_bytes()) as int)
            =~= self.0.3.spec_serialized());
    }

    proof fn lemma_deserialized_wf(b: Seq<u8>) {
        A::lemma_deserialized_wf(b.take(A::spec_bytes() as int));
        B::lemma_deserialized_wf(b.skip(A::spec_bytes() as int).take(B::spec_bytes() as int));
        C::lemma_deserialized_wf(
            b.skip((A::spec_bytes() + B::spec_bytes()) as int).take(C::spec_bytes() as int),
        );
        D::lemma_deserialized_wf(
            b.skip((A::spec_bytes() + B::spec_bytes() + C::spec_bytes()) as int),
        );
    }

    fn bytes() -> (r: usize) {
        proof {
            A::lemma_bytes_bounded();
            B::lemma_bytes_bounded();
            C::lemma_bytes_bounded();
            D::lemma_bytes_bounded();
        }
        A::bytes() + B::bytes() + C::bytes() + D::bytes()
    }

    fn zero() -> (r: Self) {
        FWrap((A::zero(), B::zero(), C::zero(), D::zero()))
    }

    fn one() -> (r: Self) {
        FWrap((A::one(), B::one(), C::one(), D::one()))
    }

    fn is_zero(&self) -> (r: bool) {
        self.0.0.is_zero() && self.0.1.is_zero() && self.0.2.is_zero() && self.0.3.is_zero()
    }

    fn from_u64(x: u64) -> (r: Self) {
        FWrap((A::from_u64(x), B::from_u64(x), C::from_u64(x), D::from_u64(x)))
    }

    fn eq_elem(&self, other: &Self) -> (r: bool) {
        self.0.0.eq_elem(&other.0.0) && self.0.1.eq_elem(&other.0.1) && self.0.2.eq_elem(
            &other.0.2,
        ) && self.0.3.eq_elem(&other.0.3)
    }

    fn dup(&self) -> (r: Self) {
        FWrap((self.0.0.dup(), self.0.1.dup(), self.0.2.dup(), self.0.3.dup()))
    }

    fn is_well_formed(&self) -> (r: bool) {
        self.0.0.is_well_formed() && self.0.1.is_well_formed() && self.0.2.is_well_formed()
            && self.0.3.is_well_formed()
    }

    fn num_bytes(&self) -> (r: usize) {
        proof {
            A::lemma_bytes_bounded();
            B::lemma_bytes_bounded();
            C::lemma_bytes_bounded();
            D::lemma_bytes_bounded();
        }
        A::bytes() + B::bytes() + C::bytes() + D::bytes()
    }

    fn to_bytes(&self, out: &mut Vec<u8>) {
        proof {
            self.0.0.lemma_serialized_len();
            self.0.1.lemma_serialized_len();
            self.0.2.lemma_serialized_len();
        }
        self.0.0.to_bytes(out);
        self.0.1.to_bytes(out);
        self.0.2.to_bytes(out);
        self.0.3.to_bytes(out);
        proof {
            assert(final(out)@ =~= old(out)@ + self.spec_serialized());
        }
    }

    fn from_bytes(b: &[u8]) -> (r: Self) {
        proof {
            A::lemma_bytes_bounded();
            B::lemma_bytes_bounded();
            C::lemma_bytes_bounded();
        }
        let split1: usize = A::bytes();
        let split2: usize = split1 + B::bytes();
        let split3: usize = split2 + C::bytes();
        let first = A::from_bytes(vstd::slice::slice_subrange(b, 0, split1));
        let second = B::from_bytes(vstd::slice::slice_subrange(b, split1, split2));
        let third = C::from_bytes(vstd::slice::slice_subrange(b, split2, split3));
        let fourth = D::from_bytes(vstd::slice::slice_subrange(b, split3, b.len()));
        proof {
            assert(b@.subrange(0, split1 as int) =~= b@.take(A::spec_bytes() as int));
            assert(b@.subrange(split1 as int, split2 as int) =~= b@.skip(
                A::spec_bytes() as int,
            ).take(B::spec_bytes() as int));
            assert(b@.subrange(split2 as int, split3 as int) =~= b@.skip(
                (A::spec_bytes() + B::spec_bytes()) as int,
            ).take(C::spec_bytes() as int));
            assert(b@.subrange(split3 as int, b@.len() as int) =~= b@.skip(
                (A::spec_bytes() + B::spec_bytes() + C::spec_bytes()) as int,
            ));
        }
        FWrap((first, second, third, fourth))
    }
}

impl<
    A: BoundedBytes + Adds,
    B: BoundedBytes + Adds,
    C: BoundedBytes + Adds,
    D: BoundedBytes + Adds,
> Adds for FWrap<(A, B, C, D)> {
    open spec fn spec_add(self, other: Self) -> Self {
        FWrap(
            (
                self.0.0.spec_add(other.0.0),
                self.0.1.spec_add(other.0.1),
                self.0.2.spec_add(other.0.2),
                self.0.3.spec_add(other.0.3),
            ),
        )
    }

    fn add_elem(&self, other: &Self) -> (r: Self) {
        FWrap(
            (
                self.0.0.add_elem(&other.0.0),
                self.0.1.add_elem(&other.0.1),
                self.0.2.add_elem(&other.0.2),
                self.0.3.add_elem(&other.0.3),
            ),
        )
    }
}

impl<
    A: BoundedBytes + Subs,
    B: BoundedBytes + Subs,
    C: BoundedBytes + Subs,
    D: BoundedBytes + Subs,
> Subs for FWrap<(A, B, C, D)> {
    open spec fn spec_sub(self, other: Self) -> Self {
        FWrap(
            (
                self.0.0.spec_sub(other.0.0),
                self.0.1.spec_sub(other.0.1),
                self.0.2.spec_sub(other.0.2),
                self.0.3.spec_sub(other.0.3),
            ),
        )
    }

    fn sub_elem(&self, other: &Self) -> (r: Self) {
        FWrap(
            (
                self.0.0.sub_elem(&other.0.0),
                self.0.1.sub_elem(&other.0.1),
                self.0.2.sub_elem(&other.0.2),
                self.0.3.sub_elem(&other.0.3),
            ),
        )
    }
}

impl<
    A: BoundedBytes + Muls,
    B: BoundedBytes + Muls,
    C: BoundedBytes + Muls,
    D: BoundedBytes + Muls,
> Muls for FWrap<(A, B, C, D)> {
    open spec fn spec_mul(self, other: Self) -> Self {
        FWrap(
            (
                self.0.0.spec_mul(other.0.0),
                self.0.1.spec_mul(other.0.1),
                self.0.2.spec_mul(other.0.2),
                self.0.3.spec_mul(other.0.3),
            ),
        )
    }

    fn mul_elem(&self, other: &Self) -> (r: Self) {
        FWrap(
            (
                self.0.0.mul_elem(&other.0.0),
                self.0.1.mul_elem(&other.0.1),
                self.0.2.mul_elem(&other.0.2),
                self.0.3.mul_elem(&other.0.3),
            ),
        )
    }
}

impl<
    A: BoundedBytes + Ring,
    B: BoundedBytes + Ring,
    C: BoundedBytes + Ring,
    D: BoundedBytes + Ring,
> Ring for FWrap<(A, B, C, D)> {

}

impl<
    A: BoundedBytes + RandElement,
    B: BoundedBytes + RandElement,
    C: BoundedBytes + RandElement,
    D: BoundedBytes + RandElement,
> RandElement for FWrap<(A, B, C, D)> {
    fn rand() -> (r: Self) {
        FWrap((A::rand(), B::rand(), C::rand(), D::rand()))
    }
}

} // verus!

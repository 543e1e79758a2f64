//! Dense polynomials over a ring, used to secret-share values: a degree-`t-1`
//! polynomial hides a secret in its constant term, and each party's share is
//! the evaluation at that party's point.

use vstd::prelude::*;
use crate::field::{Adds, ConstInt, Muls, RandElement, Ring};

verus! {

/// The value of the polynomial with the given coefficients (constant term
/// first) at `x`.
pub open spec fn spec_eval<T: Ring>(coeffs: Seq<T>, x: T) -> T
    decreases coeffs.len(),
{
    if coeffs.len() == 0 {
        T::spec_zero()
    } else {
        coeffs[0].spec_add(x.spec_mul(spec_eval(coeffs.skip(1), x)))
    }
}

/// A dense coefficient vector, constant term first; degree is
/// `coeffs.len() - 1`.
pub struct FixedPolynomial<T> {
    pub coeffs: Vec<T>,
}

impl<T: Ring> FixedPolynomial<T> {
    /// Every coefficient is well-formed.
    pub open spec fn wf(&self) -> bool {
        forall|i: int| 0 <= i < self.coeffs@.len() ==> #[trigger] self.coeffs@[i].wf()
    }

    /// The polynomial's value at `point`, computed by Horner's method.
    pub fn evaluate(&self, point: &T) -> (r: T)
        requires
            self.wf(),
            point.wf(),
        ensures
            r == spec_eval(self.coeffs@, *point),
            r.wf(),
    {
        let mut acc: T = T::zero();
        let mut i: usize = self.coeffs.len();
        while i > 0
            invariant
                self.wf(),
                point.wf(),
                i <= self.coeffs@.len(),
                acc == spec_eval(self.coeffs@.skip(i as int), *point),
                acc.wf(),
            decreases i,
        {
            let scaled = point.mul_elem(&acc);
            acc = self.coeffs[i - 1].add_elem(&scaled);
            proof {
                assert(self.coeffs@.skip(i - 1).skip(1) =~= self.coeffs@.skip(i as int));
            }
            i = i - 1;
        }
        proof {
            assert(self.coeffs@.skip(0) =~= self.coeffs@);
        }
        acc
    }
}

impl<T: Ring + RandElement> FixedPolynomial<T> {
    /// Samples every coefficient of a degree-`degree` polynomial uniformly.
    pub fn rand_polynomial(degree: usize) -> (r: Self)
        requires
            degree < usize::MAX,
        ensures
            r.coeffs@.len() == degree + 1,
            r.wf(),
    {
        let mut coeffs: Vec<T> = Vec::new();
        let mut k: usize = 0;
        while k < degree + 1
            invariant
                k <= degree + 1,
                degree < usize::MAX,
                coeffs@.len() == k,
                forall|i: int| 0 <= i < coeffs@.len() ==> #[trigger] coeffs@[i].wf(),
            decreases degree + 1 - k,
        {
            coeffs.push(T::rand());
            k = k + 1;
        }
        FixedPolynomial { coeffs }
    }
}

} // verus!

use vstd::prelude::*;

use crate::arithmetic::spec_sum_prefix;
use crate::generic::DspGeneric;
use crate::scalar::{
    add_bits, div_bits, f64_eq, f64_is_nan, f64_le, mul_bits, sqrt_bits, sub_bits, usize_bits,
    f_add, f_div, f_from_usize, f_max, f_min, f_mul, f_sqrt, f_sub, lemma_f64_eq_le,
    lemma_f64_le_trans, lemma_f64_total, Real,
};

verus! {

/// Marker for the floating-point element types of the vector layer.
pub trait DspFloat: DspGeneric {

}

impl DspFloat for Real {

}

/// No element of the buffer is a NaN.
pub open spec fn no_nans(s: Seq<Real>) -> bool {
    forall|i: int| 0 <= i < s.len() ==> !f64_is_nan(s[i].bits)
}

/// The mean of a real buffer: the left-folded sum divided by the length,
/// in double arithmetic (an empty buffer divides zero by zero).
pub open spec fn spec_f_mean(s: Seq<Real>) -> Real {
    Real {
        bits: div_bits(spec_sum_prefix(s, s.len() as int).bits, usize_bits(s.len() as usize)),
    }
}

/// The left-folded sum of squared deviations from `m` over the first `k`
/// elements, in double arithmetic.
pub open spec fn spec_f_sq_dev_fold(s: Seq<Real>, m: Real, k: int) -> Real
    decreases k,
{
    if k <= 0 {
        Real { bits: 0 }
    } else {
        Real {
            bits: add_bits(
                spec_f_sq_dev_fold(s, m, k - 1).bits,
                mul_bits(sub_bits(s[k - 1].bits, m.bits), sub_bits(s[k - 1].bits, m.bits)),
            ),
        }
    }
}

/// The population variance of a real buffer about its mean, in double
/// arithmetic.
pub open spec fn spec_f_var(s: Seq<Real>) -> Real {
    Real {
        bits: div_bits(
            spec_f_sq_dev_fold(s, spec_f_mean(s), s.len() as int).bits,
            usize_bits(s.len() as usize),
        ),
    }
}

/// Statistics and square roots of real buffers, in double precision.
pub trait FloatVectorMath: View<V = Seq<Real>> {
    /// The least element. NaN elements are passed over by the underlying
    /// minimum, and of the two zeros either may be kept, so the contract
    /// speaks of NaN-free buffers and compares with IEEE equality.
    fn min(&self) -> (r: Real)
        requires
            self@.len() >= 1,
        ensures
            no_nans(self@) ==> (forall|i: int|
                0 <= i < self@.len() ==> f64_le(r.bits, self@[i].bits)) && (exists|i: int|
                0 <= i < self@.len() && f64_eq(r.bits, self@[i].bits)),
    ;

    /// The greatest element, the mirror image of `min`.
    fn max(&self) -> (r: Real)
        requires
            self@.len() >= 1,
        ensures
            no_nans(self@) ==> (forall|i: int|
                0 <= i < self@.len() ==> f64_le(self@[i].bits, r.bits)) && (exists|i: int|
                0 <= i < self@.len() && f64_eq(r.bits, self@[i].bits)),
    ;

    /// The least and the greatest element.
    fn extremes(&self) -> (r: (Real, Real))
        requires
            self@.len() >= 1,
        ensures
            no_nans(self@) ==> (forall|i: int|
                0 <= i < self@.len() ==> f64_le(r.0.bits, self@[i].bits) && f64_le(
                    self@[i].bits,
                    r.1.bits,
                )) && (exists|i: int| 0 <= i < self@.len() && f64_eq(r.0.bits, self@[i].bits)) && (
            exists|i: int| 0 <= i < self@.len() && f64_eq(r.1.bits, self@[i].bits)),
    ;

    /// Write the elementwise square root into `out`.
    fn sqrt_into(&self, out: &mut Vec<Real>)
        requires
            old(out)@.len() == self@.len(),
        ensures
            final(out)@.len() == self@.len(),
            forall|i: int|
                0 <= i < self@.len() ==> final(out)@[i].bits == sqrt_bits(self@[i].bits),
    ;

    /// The elementwise square root.
    fn sqrt(&self) -> (r: Vec<Real>)
        ensures
            r@.len() == self@.len(),
            forall|i: int| 0 <= i < self@.len() ==> r@[i].bits == sqrt_bits(self@[i].bits),
    ;

    /// Replace every element by its square root.
    fn sqrt_inplace(&mut self)
        ensures
            final(self)@.len() == old(self)@.len(),
            forall|i: int|
                0 <= i < old(self)@.len() ==> final(self)@[i].bits == sqrt_bits(
                    old(self)@[i].bits,
                ),
    ;

    /// The mean (see `spec_f_mean`).
    fn mean(&self) -> (r: Real)
        ensures
            r == spec_f_mean(self@),
    ;

    /// The population variance about the mean (see `spec_f_var`).
    fn var(&self) -> (r: Real)
        ensures
            r == spec_f_var(self@),
    ;

    /// The standard deviation: the square root of the variance.
    fn std_dev(&self) -> (r: Real)
        ensures
            r.bits == sqrt_bits(spec_f_var(self@).bits),
    ;
}

impl FloatVectorMath for Vec<Real> {
    fn min(&self) -> (r: Real) {
        let n = self.len();
        let mut low = self[0];
        for i in 1..n
            invariant
                n == self@.len(),
                n >= 1,
                no_nans(self@) ==> (forall|j: int|
                    0 <= j < i ==> f64_le(low.bits, self@[j].bits)) && (exists|j: int|
                    0 <= j < i && f64_eq(low.bits, self@[j].bits)),
        {
            let prev = low;
            low = f_min(low, self[i]);
            proof {
                if no_nans(self@) {
                    lemma_f64_total(prev.bits, self@[i as int].bits);
                    assert forall|j: int| 0 <= j < i + 1 implies f64_le(
                        low.bits,
                        self@[j].bits,
                    ) by {
                        lemma_f64_total(low.bits, self@[j].bits);
                        lemma_f64_le_trans(low.bits, prev.bits, self@[j].bits);
                        lemma_f64_eq_le(low.bits, prev.bits, self@[j].bits);
                        lemma_f64_eq_le(low.bits, self@[i as int].bits, self@[j].bits);
                    }
                }
            }
        }
        low
    }

    fn max(&self) -> (r: Real) {
        let n = self.len();
        let mut high = self[0];
        for i in 1..n
            invariant
                n == self@.len(),
                n >= 1,
                no_nans(self@) ==> (forall|j: int|
                    0 <= j < i ==> f64_le(self@[j].bits, high.bits)) && (exists|j: int|
                    0 <= j < i && f64_eq(high.bits, self@[j].bits)),
        {
            let prev = high;
            high = f_max(high, self[i]);
            proof {
                if no_nans(self@) {
                    lemma_f64_total(prev.bits, self@[i as int].bits);
                    assert forall|j: int| 0 <= j < i + 1 implies f64_le(
                        self@[j].bits,
                        high.bits,
                    ) by {
                        lemma_f64_total(self@[j].bits, high.bits);
                        lemma_f64_le_trans(self@[j].bits, prev.bits, high.bits);
                        lemma_f64_eq_le(high.bits, prev.bits, self@[j].bits);
                        lemma_f64_eq_le(high.bits, self@[i as int].bits, self@[j].bits);
                    }
                }
            }
        }
        high
    }

    fn extremes(&self) -> (r: (Real, Real)) {
        (self.min(), self.max())
    }

    fn sqrt_into(&self, out: &mut Vec<Real>) {
        let n = self.len();
        for i in 0..n
            invariant
                n == self@.len(),
                out@.len() == n,
                forall|j: int| 0 <= j < i ==> out@[j].bits == sqrt_bits(self@[j].bits),
        {
            let v = f_sqrt(self[i]);
            out.set(i, v);
        }
    }

    fn sqrt(&self) -> (r: Vec<Real>) {
        let mut out: Vec<Real> = Vec::new();
        let n = self.len();
        for i in 0..n
            invariant
                n == self@.len(),
                out@.len() == i,
                forall|j: int| 0 <= j < i ==> out@[j].bits == sqrt_bits(self@[j].bits),
        {
            out.push(f_sqrt(self[i]));
        }
        out
    }

    fn sqrt_inplace(&mut self) {
        let n = self.len();
        for i in 0..n
            invariant
                n == old(self)@.len(),
                self@.len() == n,
                forall|j: int| 0 <= j < i ==> self@[j].bits == sqrt_bits(old(self)@[j].bits),
                forall|j: int| i <= j < n ==> self@[j] == old(self)@[j],
        {
            let v = f_sqrt(self[i]);
            self.set(i, v);
        }
    }

    fn mean(&self) -> (r: Real) {
        let n = self.len();
        let mut acc = Real { bits: 0 };
        for i in 0..n
            invariant
                n == self@.len(),
                acc == spec_sum_prefix(self@, i as int),
        {
            acc = f_add(acc, self[i]);
        }
        f_div(acc, f_from_usize(n))
    }

    fn var(&self) -> (r: Real) {
        let n = self.len();
        let m = self.mean();
        let mut acc = Real { bits: 0 };
        for i in 0..n
            invariant
                n == self@.len(),
                m == spec_f_mean(self@),
                acc == spec_f_sq_dev_fold(self@, m, i as int),
        {
            let d = f_sub(self[i], m);
            acc = f_add(acc, f_mul(d, d));
        }
        f_div(acc, f_from_usize(n))
    }

    fn std_dev(&self) -> (r: Real) {
        let v = self.var();
        f_sqrt(v)
    }
}

} // verus!

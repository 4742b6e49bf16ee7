use vstd::prelude::*;

use crate::scalar::{
    div_bits, f_cos, f_div, f_from_usize, f_mul, f_sub, mul_bits, sub_bits, usize_bits, Real,
    F64_25_BITS, F64_46_BITS, F64_HALF_BITS, F64_ONE_BITS, F64_PI_BITS, F64_TWO_BITS,
};

verus! {

/// The angle handed to the cosine for element `i` of a window of length
/// `n`: `2*pi*i / (n-1)`, every operation IEEE-754 double arithmetic (for
/// `n == 1` the division is zero by zero and the angle is a NaN).
pub open spec fn spec_cos_angle_at(n: int, i: int) -> u64 {
    div_bits(
        mul_bits(mul_bits(F64_TWO_BITS, F64_PI_BITS), usize_bits(i as usize)),
        usize_bits((n - 1) as usize),
    )
}

/// One cosine-sum window element built from a cosine sample `c`:
/// `alpha - (1 - alpha) * c`, every operation IEEE-754 double arithmetic.
pub open spec fn spec_cos_sum_term(alpha: Real, c: Real) -> Real {
    Real { bits: sub_bits(alpha.bits, mul_bits(sub_bits(F64_ONE_BITS, alpha.bits), c.bits)) }
}

/// `w` is the cosine-sum window with weight `alpha` built from the cosine
/// samples `c`.
pub open spec fn spec_cos_sum_from(alpha: Real, n: int, c: Seq<Real>, w: Seq<Real>) -> bool {
    &&& c.len() == n
    &&& w.len() == n
    &&& forall|i: int| 0 <= i < n ==> w[i] == spec_cos_sum_term(alpha, c[i])
}

/// `w` has the shape of a cosine-sum window with weight `alpha`: an affine
/// image of some cosine samples. The cosine itself has unspecified
/// precision, so the samples stay existential; the angles handed to the
/// cosine are fixed exactly by `cos_sum_angles`.
pub open spec fn spec_cos_sum_shape(alpha: Real, n: int, w: Seq<Real>) -> bool {
    exists|c: Seq<Real>| #[trigger] spec_cos_sum_from(alpha, n, c, w)
}

/// The angles a cosine-sum window of length `n` hands to the cosine.
pub fn cos_sum_angles(n: usize) -> (r: Vec<Real>)
    ensures
        r@.len() == n,
        forall|i: int| 0 <= i < n ==> r@[i].bits == spec_cos_angle_at(n as int, i),
{
    let two_pi = f_mul(Real { bits: F64_TWO_BITS }, Real { bits: F64_PI_BITS });
    let mut out: Vec<Real> = Vec::new();
    for i in 0..n
        invariant
            out@.len() == i,
            two_pi.bits == mul_bits(F64_TWO_BITS, F64_PI_BITS),
            forall|j: int| 0 <= j < i ==> out@[j].bits == spec_cos_angle_at(n as int, j),
    {
        out.push(f_div(f_mul(two_pi, f_from_usize(i)), f_from_usize(n - 1)));
    }
    out
}

/// Finish a cosine-sum window from the cosine samples the platform
/// returned: element `i` is `alpha - (1 - alpha) * cosines[i]`.
pub fn cos_sum_finish(alpha: Real, cosines: &Vec<Real>) -> (r: Vec<Real>)
    ensures
        r@.len() == cosines@.len(),
        forall|i: int| 0 <= i < cosines@.len() ==> r@[i] == spec_cos_sum_term(alpha, cosines@[i]),
{
    let one = Real { bits: F64_ONE_BITS };
    let mut out: Vec<Real> = Vec::new();
    let n = cosines.len();
    for i in 0..n
        invariant
            n == cosines@.len(),
            one.bits == F64_ONE_BITS,
            out@.len() == i,
            forall|j: int| 0 <= j < i ==> out@[j] == spec_cos_sum_term(alpha, cosines@[j]),
    {
        out.push(f_sub(alpha, f_mul(f_sub(one, alpha), cosines[i])));
    }
    out
}

/// The cosine-sum window family: a fixed-length real envelope from the
/// closed-form `alpha - (1-alpha)*cos(2*pi*i/(n-1))`. The angles are fixed
/// exactly (`cos_sum_angles`), the cosine's precision is unspecified, and
/// the affine finish is exact in the returned samples (`cos_sum_finish`).
pub fn cos_sum(n: usize, alpha: Real) -> (r: Vec<Real>)
    ensures
        r@.len() == n,
        spec_cos_sum_shape(alpha, n as int, r@),
{
    let angles = cos_sum_angles(n);
    let mut cosines: Vec<Real> = Vec::new();
    for i in 0..n
        invariant
            angles@.len() == n,
            cosines@.len() == i,
    {
        cosines.push(f_cos(angles[i]));
    }
    let w = cos_sum_finish(alpha, &cosines);
    proof {
        assert(spec_cos_sum_from(alpha, n as int, cosines@, w@));
        assert(spec_cos_sum_shape(alpha, n as int, w@));
    }
    w
}

/// The weight that the Hamming window hands to the cosine-sum formula.
pub open spec fn spec_hamming_alpha() -> Real {
    Real { bits: div_bits(F64_25_BITS, F64_46_BITS) }
}

/// The Hann window: the cosine-sum window with weight one half.
pub fn hann(n: usize) -> (r: Vec<Real>)
    ensures
        r@.len() == n,
        spec_cos_sum_shape(Real { bits: F64_HALF_BITS }, n as int, r@),
{
    cos_sum(n, Real { bits: F64_HALF_BITS })
}

/// The Hamming window: the cosine-sum window with weight `25/46`.
pub fn hamming(n: usize) -> (r: Vec<Real>)
    ensures
        r@.len() == n,
        spec_cos_sum_shape(spec_hamming_alpha(), n as int, r@),
{
    let alpha = f_div(Real { bits: F64_25_BITS }, Real { bits: F64_46_BITS });
    cos_sum(n, alpha)
}

} // verus!

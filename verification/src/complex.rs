use vstd::prelude::*;

use crate::scalar::{add_bits, div_bits, mul_bits, sub_bits, Real, F64_SIGN_BIT};

verus! {

/// A complex sample: a pair of real samples with standard complex field
/// arithmetic, performed in double precision.
#[derive(Clone, Copy, PartialEq, Eq, Structural, Debug)]
pub struct Complex {
    pub re: Real,
    pub im: Real,
}

/// The complex conjugate. Negating a double flips exactly its sign bit, so
/// the conjugate is a pure bit operation.
pub open spec fn spec_conj(c: Complex) -> Complex {
    Complex { re: c.re, im: Real { bits: c.im.bits ^ F64_SIGN_BIT } }
}

/// The complex product, written out as num_complex computes it:
/// `(a.re*b.re - a.im*b.im) + i (a.re*b.im + a.im*b.re)`, each operation
/// IEEE-754 double arithmetic.
pub open spec fn spec_cmul(a: Complex, b: Complex) -> Complex {
    Complex {
        re: Real { bits: sub_bits(mul_bits(a.re.bits, b.re.bits), mul_bits(a.im.bits, b.im.bits)) },
        im: Real { bits: add_bits(mul_bits(a.re.bits, b.im.bits), mul_bits(a.im.bits, b.re.bits)) },
    }
}

/// The squared norm `c*c + d*d` that num_complex divides by.
pub open spec fn spec_cnorm_sqr(b: Complex) -> u64 {
    add_bits(mul_bits(b.re.bits, b.re.bits), mul_bits(b.im.bits, b.im.bits))
}

/// The complex quotient, written out as num_complex computes it:
/// `((a.re*b.re + a.im*b.im) / n) + i ((a.im*b.re - a.re*b.im) / n)` with
/// `n` the squared norm of the divisor.
pub open spec fn spec_cdiv(a: Complex, b: Complex) -> Complex {
    Complex {
        re: Real {
            bits: div_bits(
                add_bits(mul_bits(a.re.bits, b.re.bits), mul_bits(a.im.bits, b.im.bits)),
                spec_cnorm_sqr(b),
            ),
        },
        im: Real {
            bits: div_bits(
                sub_bits(mul_bits(a.im.bits, b.re.bits), mul_bits(a.re.bits, b.im.bits)),
                spec_cnorm_sqr(b),
            ),
        },
    }
}

/// The complex zero, whose components are the all-zero bit pattern (the
/// positive zero of the format).
pub open spec fn spec_czero() -> Complex {
    Complex { re: Real { bits: 0 }, im: Real { bits: 0 } }
}

impl Complex {
    /// The complex zero.
    pub fn zero() -> (r: Complex)
        ensures
            r == spec_czero(),
    {
        Complex { re: Real { bits: 0 }, im: Real { bits: 0 } }
    }

    /// Build a complex sample from the two components.
    pub fn new(re: Real, im: Real) -> (r: Complex)
        ensures
            r == (Complex { re, im }),
    {
        Complex { re, im }
    }

    /// The complex conjugate, computed by flipping the sign bit of the
    /// imaginary part, which is exactly IEEE-754 negation.
    pub fn conj(self) -> (r: Complex)
        ensures
            r == spec_conj(self),
    {
        Complex { re: self.re, im: Real { bits: self.im.bits ^ F64_SIGN_BIT } }
    }
}

/// Erase the NaN payloads of both components.
fn canon_complex(x: Complex) -> (r: Complex)
    ensures
        r.re.bits == crate::scalar::f64_canon(x.re.bits),
        r.im.bits == crate::scalar::f64_canon(x.im.bits),
{
    Complex { re: crate::scalar::canon_nan(x.re), im: crate::scalar::canon_nan(x.im) }
}

/// Relies on num_complex multiplication of doubles, which computes
/// `(a.re*b.re - a.im*b.im) + i (a.re*b.im + a.im*b.re)`; `bytemuck::cast`
/// reinterprets between stored bits and floating-point values. Each
/// component's canonicalized bits are the stated composition of the
/// canonicalized operation names: whether a step yields a NaN never
/// depends on an earlier step's NaN payload, so erasing payloads commutes
/// with the composition.
#[verifier::external_body]
fn c_mul_raw(a: Complex, b: Complex) -> (r: Complex)
    ensures
        crate::scalar::f64_canon(r.re.bits) == sub_bits(
            mul_bits(a.re.bits, b.re.bits),
            mul_bits(a.im.bits, b.im.bits),
        ),
        crate::scalar::f64_canon(r.im.bits) == add_bits(
            mul_bits(a.re.bits, b.im.bits),
            mul_bits(a.im.bits, b.re.bits),
        ),
{
    let x = num::complex::Complex64::new(bytemuck::cast(a.re.bits), bytemuck::cast(a.im.bits));
    let y = num::complex::Complex64::new(bytemuck::cast(b.re.bits), bytemuck::cast(b.im.bits));
    let p = x * y;
    Complex { re: Real { bits: p.re.to_bits() }, im: Real { bits: p.im.to_bits() } }
}

/// The complex product with the NaN payloads of the result erased, so the
/// result is exactly `spec_cmul` of the operands.
pub(crate) fn c_mul(a: Complex, b: Complex) -> (r: Complex)
    ensures
        r == spec_cmul(a, b),
{
    canon_complex(c_mul_raw(a, b))
}

/// Relies on num_complex division of doubles, which divides the product
/// with the conjugate by the squared norm `b.re*b.re + b.im*b.im`, with
/// the canonicalization claim of `c_mul_raw`.
#[verifier::external_body]
fn c_div_raw(a: Complex, b: Complex) -> (r: Complex)
    ensures
        crate::scalar::f64_canon(r.re.bits) == div_bits(
            add_bits(mul_bits(a.re.bits, b.re.bits), mul_bits(a.im.bits, b.im.bits)),
            spec_cnorm_sqr(b),
        ),
        crate::scalar::f64_canon(r.im.bits) == div_bits(
            sub_bits(mul_bits(a.im.bits, b.re.bits), mul_bits(a.re.bits, b.im.bits)),
            spec_cnorm_sqr(b),
        ),
{
    let x = num::complex::Complex64::new(bytemuck::cast(a.re.bits), bytemuck::cast(a.im.bits));
    let y = num::complex::Complex64::new(bytemuck::cast(b.re.bits), bytemuck::cast(b.im.bits));
    let q = x / y;
    Complex { re: Real { bits: q.re.to_bits() }, im: Real { bits: q.im.to_bits() } }
}

/// The complex quotient with the NaN payloads of the result erased, so the
/// result is exactly `spec_cdiv` of the operands.
pub(crate) fn c_div(a: Complex, b: Complex) -> (r: Complex)
    ensures
        r == spec_cdiv(a, b),
{
    canon_complex(c_div_raw(a, b))
}

/// Relies on num_complex `exp`. Its components come from the standard
/// exponential, sine and cosine, whose precision is unspecified (the
/// results may differ between platforms and between invocations), so
/// nothing is promised of the result; callers treat it as an arbitrary
/// sample.
#[verifier::external_body]
pub(crate) fn c_exp(a: Complex) -> Complex {
    let x = num::complex::Complex64::new(bytemuck::cast(a.re.bits), bytemuck::cast(a.im.bits));
    let e = x.exp();
    Complex { re: Real { bits: e.re.to_bits() }, im: Real { bits: e.im.to_bits() } }
}

/// The elementwise complex product of two buffers of equal length.
pub fn multiply(a: &Vec<Complex>, b: &Vec<Complex>) -> (r: Vec<Complex>)
    requires
        a@.len() == b@.len(),
    ensures
        r@.len() == a@.len(),
        forall|i: int| 0 <= i < a@.len() ==> r@[i] == spec_cmul(a@[i], b@[i]),
{
    let mut out: Vec<Complex> = Vec::new();
    let n = a.len();
    for i in 0..n
        invariant
            n == a@.len(),
            a@.len() == b@.len(),
            out@.len() == i,
            forall|j: int| 0 <= j < i ==> out@[j] == spec_cmul(a@[j], b@[j]),
    {
        out.push(c_mul(a[i], b[i]));
    }
    out
}

/// Multiply every element of the buffer by a constant, in place.
pub fn multiply_const_inplace(v: &mut Vec<Complex>, c: Complex)
    ensures
        final(v)@.len() == old(v)@.len(),
        forall|i: int| 0 <= i < old(v)@.len() ==> final(v)@[i] == spec_cmul(old(v)@[i], c),
{
    let n = v.len();
    for i in 0..n
        invariant
            n == old(v)@.len(),
            v@.len() == n,
            forall|j: int| 0 <= j < i ==> v@[j] == spec_cmul(old(v)@[j], c),
            forall|j: int| i <= j < n ==> v@[j] == old(v)@[j],
    {
        let p = c_mul(v[i], c);
        v.set(i, p);
    }
}

/// Divide every element of the buffer by a constant, in place.
pub fn divide_const_inplace(v: &mut Vec<Complex>, c: Complex)
    ensures
        final(v)@.len() == old(v)@.len(),
        forall|i: int| 0 <= i < old(v)@.len() ==> final(v)@[i] == spec_cdiv(old(v)@[i], c),
{
    let n = v.len();
    for i in 0..n
        invariant
            n == old(v)@.len(),
            v@.len() == n,
            forall|j: int| 0 <= j < i ==> v@[j] == spec_cdiv(old(v)@[j], c),
            forall|j: int| i <= j < n ==> v@[j] == old(v)@[j],
    {
        let q = c_div(v[i], c);
        v.set(i, q);
    }
}

/// Elementwise operations on complex buffers.
pub trait YttriaVectorComplex: View<V = Seq<Complex>> {
    /// The real components, in order.
    fn real_part(&self) -> (r: Vec<Real>)
        ensures
            r@.len() == self@.len(),
            forall|i: int| 0 <= i < self@.len() ==> r@[i] == self@[i].re,
    ;

    /// The imaginary components, in order.
    fn imag(&self) -> (r: Vec<Real>)
        ensures
            r@.len() == self@.len(),
            forall|i: int| 0 <= i < self@.len() ==> r@[i] == self@[i].im,
    ;

    /// The elementwise complex conjugate.
    fn conj(&self) -> (r: Vec<Complex>)
        ensures
            r@.len() == self@.len(),
            forall|i: int| 0 <= i < self@.len() ==> r@[i] == spec_conj(self@[i]),
    ;

    /// Conjugate every element in place.
    fn conj_inplace(&mut self)
        ensures
            final(self)@.len() == old(self)@.len(),
            forall|i: int|
                0 <= i < old(self)@.len() ==> final(self)@[i] == spec_conj(old(self)@[i]),
    ;

    /// Write the elementwise complex exponential into `out`. The
    /// exponential's precision is unspecified, so only the length is
    /// promised; the phases handed in are fixed exactly by the caller.
    fn exp_into(&self, out: &mut Vec<Complex>)
        requires
            old(out)@.len() == self@.len(),
        ensures
            final(out)@.len() == self@.len(),
    ;

    /// The elementwise complex exponential, with the promise `exp_into`
    /// makes.
    fn exp(&self) -> (r: Vec<Complex>)
        ensures
            r@.len() == self@.len(),
    ;

    /// Replace every element by its complex exponential, with the promise
    /// `exp_into` makes.
    fn exp_inplace(&mut self)
        ensures
            final(self)@.len() == old(self)@.len(),
    ;
}

impl YttriaVectorComplex for Vec<Complex> {
    fn real_part(&self) -> (r: Vec<Real>) {
        let mut out: Vec<Real> = Vec::new();
        let n = self.len();
        for i in 0..n
            invariant
                n == self@.len(),
                out@.len() == i,
                forall|j: int| 0 <= j < i ==> out@[j] == self@[j].re,
        {
            out.push(self[i].re);
        }
        out
    }

    fn imag(&self) -> (r: Vec<Real>) {
        let mut out: Vec<Real> = Vec::new();
        let n = self.len();
        for i in 0..n
            invariant
                n == self@.len(),
                out@.len() == i,
                forall|j: int| 0 <= j < i ==> out@[j] == self@[j].im,
        {
            out.push(self[i].im);
        }
        out
    }

    fn conj(&self) -> (r: Vec<Complex>) {
        let mut out: Vec<Complex> = Vec::new();
        let n = self.len();
        for i in 0..n
            invariant
                n == self@.len(),
                out@.len() == i,
                forall|j: int| 0 <= j < i ==> out@[j] == spec_conj(self@[j]),
        {
            out.push(self[i].conj());
        }
        out
    }

    fn conj_inplace(&mut self) {
        let n = self.len();
        for i in 0..n
            invariant
                n == old(self)@.len(),
                self@.len() == n,
                forall|j: int| 0 <= j < i ==> self@[j] == spec_conj(old(self)@[j]),
                forall|j: int| i <= j < n ==> self@[j] == old(self)@[j],
        {
            let c = self[i].conj();
            self.set(i, c);
        }
    }

    fn exp_into(&self, out: &mut Vec<Complex>) {
        let n = self.len();
        for i in 0..n
            invariant
                n == self@.len(),
                out@.len() == n,
        {
            let e = c_exp(self[i]);
            out.set(i, e);
        }
    }

    fn exp(&self) -> (r: Vec<Complex>) {
        let mut out: Vec<Complex> = Vec::new();
        let n = self.len();
        for i in 0..n
            invariant
                n == self@.len(),
                out@.len() == i,
        {
            out.push(c_exp(self[i]));
        }
        out
    }

    fn exp_inplace(&mut self) {
        let n = self.len();
        for i in 0..n
            invariant
                n == old(self)@.len(),
                self@.len() == n,
        {
            let e = c_exp(self[i]);
            self.set(i, e);
        }
    }
}

} // verus!

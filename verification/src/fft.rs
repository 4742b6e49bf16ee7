use vstd::prelude::*;

use crate::complex::{divide_const_inplace, spec_conj, spec_czero, Complex};
use crate::scalar::Real;

verus! {

/// The working buffer that the inverse-real transform feeds to the engine,
/// rebuilt from a half-spectrum `s` of length `M`: the first `M` bins are
/// `s` itself; bins `M ..= 2M-2` hold the conjugate of bin `2M-2-i`, the
/// mirrored negative frequencies; everything past `2M-2` is zero padding.
pub open spec fn spec_hermitian_padded(s: Seq<Complex>, i: int) -> Complex {
    if i < s.len() {
        s[i]
    } else if i <= 2 * s.len() - 2 {
        spec_conj(s[2 * s.len() - 2 - i])
    } else {
        spec_czero()
    }
}

/// Rebuild the full padded spectrum from a half-spectrum: copy the
/// half-spectrum forward, mirror it conjugated into the bins past the
/// midpoint, and zero-pad to twice the real output length.
pub fn hermitian_extend(s: &Vec<Complex>) -> (r: Vec<Complex>)
    requires
        s@.len() >= 2,
        4 * (s@.len() - 1) <= usize::MAX,
    ensures
        r@.len() == 4 * (s@.len() - 1),
        forall|i: int| 0 <= i < r@.len() ==> r@[i] == spec_hermitian_padded(s@, i),
{
    let m = s.len();
    let full = 4 * (m - 1);
    let mut out: Vec<Complex> = Vec::new();
    for i in 0..m
        invariant
            m == s@.len(),
            m >= 2,
            out@.len() == i,
            forall|j: int| 0 <= j < i ==> out@[j] == spec_hermitian_padded(s@, j),
    {
        out.push(s[i]);
    }
    let mirrored = 2 * m - 1;
    for i in m..mirrored
        invariant
            m == s@.len(),
            m >= 2,
            4 * (m - 1) <= usize::MAX,
            mirrored == 2 * m - 1,
            out@.len() == i,
            forall|j: int| 0 <= j < i ==> out@[j] == spec_hermitian_padded(s@, j),
    {
        out.push(s[2 * m - 2 - i].conj());
    }
    let mut i = mirrored;
    while i < full
        invariant
            m == s@.len(),
            m >= 2,
            mirrored == 2 * m - 1,
            full == 4 * (m - 1),
            out@.len() == i,
            mirrored <= i <= full,
            forall|j: int| 0 <= j < i ==> out@[j] == spec_hermitian_padded(s@, j),
        decreases full - i,
    {
        out.push(Complex::zero());
        i = i + 1;
    }
    out
}

/// The real components of the first `out_len` elements of a buffer.
pub fn real_prefix(v: &Vec<Complex>, out_len: usize) -> (r: Vec<Real>)
    requires
        out_len <= v@.len(),
    ensures
        r@.len() == out_len,
        forall|i: int| 0 <= i < out_len ==> r@[i] == v@[i].re,
{
    let mut out: Vec<Real> = Vec::new();
    for i in 0..out_len
        invariant
            out_len <= v@.len(),
            out@.len() == i,
            forall|j: int| 0 <= j < i ==> out@[j] == v@[j].re,
    {
        out.push(v[i].re);
    }
    out
}

/// Relies on rustfft's `FftPlanner` and `Fft::process`: the planner builds a
/// forward FFT of size `n`, and `process` splits the buffer into chunks of
/// size `n` and replaces each chunk by its unnormalized forward DFT, in
/// place. `process` panics unless the buffer's length is a nonzero multiple
/// of `n`, hence the preconditions; the buffer keeps its length.
#[verifier::external_body]
fn engine_forward(buf: &mut Vec<Complex>, n: usize)
    requires
        n >= 1,
        old(buf)@.len() >= n,
        old(buf)@.len() as int % (n as int) == 0,
    ensures
        final(buf)@.len() == old(buf)@.len(),
{
    let mut work: Vec<num::complex::Complex64> = buf
        .iter()
        .map(|c| num::complex::Complex64::new(bytemuck::cast(c.re.bits), bytemuck::cast(c.im.bits)))
        .collect();
    let mut planner = rustfft::FftPlanner::new();
    planner.plan_fft_forward(n).process(&mut work);
    *buf = work
        .iter()
        .map(|c| Complex { re: Real { bits: c.re.to_bits() }, im: Real { bits: c.im.to_bits() } })
        .collect();
}

/// Relies on rustfft exactly as `engine_forward` does, with the planner
/// building the unnormalized inverse FFT of size `n` instead.
#[verifier::external_body]
fn engine_inverse(buf: &mut Vec<Complex>, n: usize)
    requires
        n >= 1,
        old(buf)@.len() >= n,
        old(buf)@.len() as int % (n as int) == 0,
    ensures
        final(buf)@.len() == old(buf)@.len(),
{
    let mut work: Vec<num::complex::Complex64> = buf
        .iter()
        .map(|c| num::complex::Complex64::new(bytemuck::cast(c.re.bits), bytemuck::cast(c.im.bits)))
        .collect();
    let mut planner = rustfft::FftPlanner::new();
    planner.plan_fft_inverse(n).process(&mut work);
    *buf = work
        .iter()
        .map(|c| Complex { re: Real { bits: c.re.to_bits() }, im: Real { bits: c.im.to_bits() } })
        .collect();
}

/// Copy a complex buffer element by element.
fn copy_buffer(s: &Vec<Complex>) -> (r: Vec<Complex>)
    ensures
        r@ == s@,
{
    let mut out: Vec<Complex> = Vec::new();
    let n = s.len();
    for i in 0..n
        invariant
            n == s@.len(),
            out@.len() == i,
            forall|j: int| 0 <= j < i ==> out@[j] == s@[j],
    {
        out.push(s[i]);
    }
    proof {
        assert(out@ =~= s@);
    }
    out
}

/// The scale factor `count + 0i` that both transform directions divide by.
fn scale_of(count: usize) -> (r: Complex)
    ensures
        r.re.bits == crate::scalar::usize_bits(count),
        r.im.bits == 0,
{
    Complex { re: crate::scalar::f_from_usize(count), im: Real { bits: 0 } }
}

/// Discrete Fourier transforms of complex buffers, with this library's
/// scaling convention: both directions divide by the transform length.
pub trait YttriaVectorComplexFft: View<V = Seq<Complex>> {
    /// The forward transform, scaled by the reciprocal of the length,
    /// written into `out`.
    fn fft_into(&self, out: &mut Vec<Complex>)
        requires
            self@.len() >= 1,
            old(out)@.len() == self@.len(),
        ensures
            final(out)@.len() == self@.len(),
    ;

    /// The forward transform, scaled by the reciprocal of the length.
    fn fft(&self) -> (r: Vec<Complex>)
        requires
            self@.len() >= 1,
        ensures
            r@.len() == self@.len(),
    ;

    /// The inverse transform, also scaled by the reciprocal of the length.
    /// The unnormalized engine pair composes to the length times the
    /// identity, so with both directions scaled the round trip attenuates
    /// by the length instead of returning its input.
    fn ifft_into(&self, out: &mut Vec<Complex>)
        requires
            self@.len() >= 1,
            old(out)@.len() == self@.len(),
        ensures
            final(out)@.len() == self@.len(),
    ;

    /// The inverse transform, also scaled by the reciprocal of the length.
    fn ifft(&self) -> (r: Vec<Complex>)
        requires
            self@.len() >= 1,
        ensures
            r@.len() == self@.len(),
    ;

    /// The inverse transform of the real signal whose half-spectrum is
    /// `self`, written into `out`: the half-spectrum is mirrored into a full
    /// spectrum (see `spec_hermitian_padded`), inverse-transformed at the
    /// real output length, scaled, and the real components are kept.
    fn irfft_into(&self, out: &mut Vec<Real>)
        requires
            self@.len() >= 2,
            4 * (self@.len() - 1) <= usize::MAX,
            old(out)@.len() == 2 * (self@.len() - 1),
        ensures
            final(out)@.len() == 2 * (self@.len() - 1),
    ;

    /// The inverse transform of the real signal whose half-spectrum is
    /// `self`; a half-spectrum of length `M` yields `2*(M-1)` real samples.
    fn irfft(&self) -> (r: Vec<Real>)
        requires
            self@.len() >= 2,
            4 * (self@.len() - 1) <= usize::MAX,
        ensures
            r@.len() == 2 * (self@.len() - 1),
    ;
}

impl YttriaVectorComplexFft for Vec<Complex> {
    fn fft_into(&self, out: &mut Vec<Complex>) {
        let r = self.fft();
        *out = r;
    }

    fn fft(&self) -> (r: Vec<Complex>) {
        let n = self.len();
        let mut work = copy_buffer(self);
        engine_forward(&mut work, n);
        let scale = scale_of(n);
        divide_const_inplace(&mut work, scale);
        work
    }

    fn ifft_into(&self, out: &mut Vec<Complex>) {
        let r = self.ifft();
        *out = r;
    }

    fn ifft(&self) -> (r: Vec<Complex>) {
        let n = self.len();
        let mut work = copy_buffer(self);
        engine_inverse(&mut work, n);
        let scale = scale_of(n);
        divide_const_inplace(&mut work, scale);
        work
    }

    fn irfft_into(&self, out: &mut Vec<Real>) {
        let r = self.irfft();
        *out = r;
    }

    fn irfft(&self) -> (r: Vec<Real>) {
        let m = self.len();
        let out_len = 2 * (m - 1);
        let mut herm = hermitian_extend(self);
        proof {
            assert(herm@.len() == 2 * (out_len as int));
            assert((2 * (out_len as int)) % (out_len as int) == 0) by (nonlinear_arith)
                requires
                    out_len as int >= 1,
            ;
        }
        engine_inverse(&mut herm, out_len);
        let scale = scale_of(out_len);
        divide_const_inplace(&mut herm, scale);
        real_prefix(&herm, out_len)
    }
}

} // verus!

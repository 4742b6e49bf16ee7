use vstd::prelude::*;

use crate::arithmetic::{spec_interp_one, RadioVectorArithmetic};
use crate::complex::{multiply, multiply_const_inplace, spec_cmul, Complex, YttriaVectorComplex};
use crate::fft::YttriaVectorComplexFft;
use crate::scalar::{
    add_bits, div_bits, f64_eq, f64_is_zero, f_add, f_div, f_from_usize, f_mul, f_sub, mul_bits,
    sub_bits, usize_bits, Real, F64_EPSILON_BITS, F64_NEG_TWO_BITS, F64_ONE_BITS, F64_PI_BITS,
};
use crate::windows::{hamming, spec_cos_sum_shape, spec_hamming_alpha};

verus! {

/// Map a value from one linear range onto another:
/// `(value - from_low) * ((to_high - to_low) / (from_high - from_low)) + to_low`,
/// every operation IEEE-754 double arithmetic.
pub fn map(value: Real, from_low: Real, from_high: Real, to_low: Real, to_high: Real) -> (r: Real)
    ensures
        r.bits == add_bits(
            mul_bits(
                sub_bits(value.bits, from_low.bits),
                div_bits(sub_bits(to_high.bits, to_low.bits), sub_bits(from_high.bits, from_low.bits)),
            ),
            to_low.bits,
        ),
{
    f_add(f_mul(f_sub(value, from_low), f_div(f_sub(to_high, to_low), f_sub(from_high, from_low))), to_low)
}

/// The step that `linspace` advances by: the span divided by the count,
/// or by one less than the count when the endpoint is included.
pub open spec fn spec_linspace_delta(start: Real, stop: Real, size: int, endpoint: bool) -> u64 {
    div_bits(
        sub_bits(stop.bits, start.bits),
        usize_bits(if endpoint { (size - 1) as usize } else { size as usize }),
    )
}

/// `size` points from `start` towards `stop`: element `i` is
/// `start + delta * i` in double arithmetic. With `endpoint` the step is
/// chosen so the last element lands on `stop` up to rounding.
pub fn linspace(start: Real, stop: Real, size: usize, endpoint: bool) -> (r: Vec<Real>)
    requires
        endpoint ==> size >= 1,
    ensures
        r@.len() == size,
        forall|i: int|
            0 <= i < size ==> r@[i].bits == add_bits(
                start.bits,
                mul_bits(spec_linspace_delta(start, stop, size as int, endpoint), usize_bits(i as usize)),
            ),
{
    let span = f_sub(stop, start);
    let delta = if endpoint {
        f_div(span, f_from_usize(size - 1))
    } else {
        f_div(span, f_from_usize(size))
    };
    let mut out: Vec<Real> = Vec::new();
    for i in 0..size
        invariant
            out@.len() == i,
            delta.bits == spec_linspace_delta(start, stop, size as int, endpoint),
            forall|j: int|
                0 <= j < i ==> out@[j].bits == add_bits(
                    start.bits,
                    mul_bits(delta.bits, usize_bits(j as usize)),
                ),
    {
        out.push(f_add(start, f_mul(delta, f_from_usize(i))));
    }
    out
}

/// Evenly stepped integers from `start` (inclusive) towards `stop`
/// (exclusive).
pub fn arange(start: i64, stop: i64, step: i64) -> (r: Vec<i64>)
    requires
        start < stop ==> step >= 1,
        start < stop ==> stop as int + step as int - 1 <= i64::MAX as int,
    ensures
        forall|i: int| 0 <= i < r@.len() ==> r@[i] as int == start as int + i * step as int,
        start >= stop ==> r@.len() == 0,
        start < stop ==> r@.len() >= 1 && (start as int + (r@.len() - 1) * step as int) < (stop as int)
            && (stop as int) <= start as int + r@.len() * step as int,
{
    if start >= stop {
        let out: Vec<i64> = Vec::new();
        return out;
    }
    let mut out: Vec<i64> = Vec::new();
    let mut curr = start;
    proof {
        assert((out@.len() as int) * (step as int) == 0) by (nonlinear_arith)
            requires
                out@.len() == 0,
        ;
    }
    while curr < stop
        invariant
            step >= 1,
            stop as int + step as int - 1 <= i64::MAX as int,
            curr as int == start as int + (out@.len() as int) * (step as int),
            forall|i: int| 0 <= i < out@.len() ==> #[trigger] (out@[i]) as int == start as int + i * step as int,
            out@.len() >= 1 ==> (start as int + (out@.len() - 1) * step as int) < (stop as int),
            out@.len() == 0 ==> curr == start,
            curr >= stop ==> out@.len() >= 1 || start >= stop,
        decreases (if curr < stop { stop as int - curr as int } else { 0 }),
    {
        proof {
            let k = out@.len() as int;
            assert((k + 1) * step as int == k * step as int + step as int) by (nonlinear_arith);
        }
        out.push(curr);
        curr = curr + step;
    }
    out
}

/// The smallest power of two at least `n` (and one for `n` at most one).
pub open spec fn spec_npow2(n: int) -> int
    decreases n,
{
    if n <= 1 {
        1
    } else {
        2 * spec_npow2((n + 1) / 2)
    }
}

/// The smallest power of two at least `n` lies between `n` and `2n - 2`.
pub proof fn lemma_npow2_bounds(n: int)
    requires
        n >= 1,
    ensures
        spec_npow2(n) >= n,
        spec_npow2(n) >= 1,
        n >= 2 ==> spec_npow2(n) <= 2 * n - 2,
    decreases n,
{
    if n >= 2 {
        let m = (n + 1) / 2;
        lemma_npow2_bounds(m);
    }
}

/// The smallest power of two at least `n`, which sizes the frequency grid.
pub fn npow2(n: usize) -> (v: usize)
    requires
        1 <= n <= usize::MAX / 8,
    ensures
        v == spec_npow2(n as int),
    decreases n,
{
    if n <= 1 {
        1
    } else {
        proof {
            lemma_npow2_bounds(((n + 1) / 2) as int);
            lemma_npow2_bounds(n as int);
        }
        2 * npow2((n + 1) / 2)
    }
}

/// The number of grid points that the designer interpolates the response
/// onto: one more than the smallest power of two reaching `numtaps`.
pub open spec fn spec_nfreqs(numtaps: int) -> int {
    1 + spec_npow2(numtaps)
}

/// An invalid filter specification: the boundary gains demanded by the
/// selected linear-phase filter type are not zero.
#[derive(Clone, Copy, PartialEq, Eq, Structural, Debug)]
pub enum FirwinError {
    /// A type II filter (symmetric, even length) needs zero gain at the
    /// Nyquist frequency.
    TypeIiNyquistGain,
    /// A type III filter (antisymmetric, odd length) needs zero gain at the
    /// zero and Nyquist frequencies.
    TypeIiiBoundaryGain,
    /// A type IV filter (antisymmetric, even length) needs zero gain at the
    /// zero frequency.
    TypeIvZeroGain,
}

/// The boundary-gain fault of a requested design, if any: the filter type
/// follows from the symmetry flag and the parity of the tap count, and each
/// type but type I demands zero gain at one or both ends of the response.
pub open spec fn spec_firwin_fault(gains: Seq<Real>, numtaps: int, antisymmetric: bool) -> Option<
    FirwinError,
> {
    let even = numtaps % 2 == 0;
    if !antisymmetric && even && !f64_is_zero(gains[gains.len() - 1].bits) {
        Some(FirwinError::TypeIiNyquistGain)
    } else if antisymmetric && !even && !(f64_is_zero(gains[0].bits) && f64_is_zero(
        gains[gains.len() - 1].bits,
    )) {
        Some(FirwinError::TypeIiiBoundaryGain)
    } else if antisymmetric && even && !f64_is_zero(gains[0].bits) {
        Some(FirwinError::TypeIvZeroGain)
    } else {
        None
    }
}

/// One step of the duplicate-frequency perturbation: when breakpoints `i`
/// and `i+1` compare equal, nudge the first down and the second up by one
/// machine epsilon.
pub open spec fn spec_perturb_step(s: Seq<Real>, i: int) -> Seq<Real> {
    if 0 <= i && i + 1 < s.len() && f64_eq(s[i].bits, s[i + 1].bits) {
        s.update(i, Real { bits: sub_bits(s[i].bits, F64_EPSILON_BITS) }).update(
            i + 1,
            Real { bits: add_bits(s[i + 1].bits, F64_EPSILON_BITS) },
        )
    } else {
        s
    }
}

/// The perturbation applied left to right over the first `k` adjacent
/// pairs, each step seeing the outcome of the previous ones.
pub open spec fn spec_perturbed_upto(s: Seq<Real>, k: int) -> Seq<Real>
    decreases k,
{
    if k <= 0 {
        s
    } else {
        spec_perturb_step(spec_perturbed_upto(s, k - 1), k - 1)
    }
}

/// The fully perturbed breakpoint sequence.
pub open spec fn spec_perturbed(s: Seq<Real>) -> Seq<Real> {
    spec_perturbed_upto(s, s.len() - 1)
}

/// Perturbation keeps the length of the sequence.
pub proof fn lemma_perturbed_len(s: Seq<Real>, k: int)
    ensures
        spec_perturbed_upto(s, k).len() == s.len(),
    decreases k,
{
    if k > 0 {
        lemma_perturbed_len(s, k - 1);
    }
}

/// Grid point `i` of the uniform frequency grid over `[0, 1]` with
/// `nfreqs` points, exactly as `linspace` from zero to one produces it.
pub open spec fn spec_grid_at(nfreqs: int, i: int) -> Real {
    Real {
        bits: add_bits(
            0,
            mul_bits(
                spec_linspace_delta(
                    Real { bits: 0 },
                    Real { bits: F64_ONE_BITS },
                    nfreqs,
                    true,
                ),
                usize_bits(i as usize),
            ),
        ),
    }
}

/// The phase angle at grid point `i`: `((numtaps - 1) / -2) * pi * x / 1`,
/// every operation IEEE-754 double arithmetic.
pub open spec fn spec_theta(numtaps: int, nfreqs: int, i: int) -> u64 {
    div_bits(
        mul_bits(
            mul_bits(
                div_bits(sub_bits(usize_bits(numtaps as usize), F64_ONE_BITS), F64_NEG_TWO_BITS),
                F64_PI_BITS,
            ),
            spec_grid_at(nfreqs, i).bits,
        ),
        F64_ONE_BITS,
    )
}

/// The purely imaginary phase handed to the complex exponential at grid
/// point `i`.
pub open spec fn spec_phase_at(numtaps: int, nfreqs: int, i: int) -> Complex {
    Complex { re: Real { bits: 0 }, im: Real { bits: spec_theta(numtaps, nfreqs, i) } }
}

/// The interpolated target gain at grid point `i`, taken against the
/// perturbed breakpoints.
pub open spec fn spec_response_at(freqs: Seq<Real>, gains: Seq<Real>, nfreqs: int, i: int) -> Real {
    spec_interp_one(spec_perturbed(freqs), gains, spec_grid_at(nfreqs, i))
}

/// One half-spectrum bin built from an interpolated gain `g` and a shift
/// sample `s`: the shift is rotated a quarter turn for antisymmetric
/// designs, then multiplied by the gain as a real factor.
pub open spec fn spec_combined(g: Real, s: Complex, antisymmetric: bool) -> Complex {
    let shift = if antisymmetric {
        spec_cmul(s, Complex { re: Real { bits: 0 }, im: Real { bits: F64_ONE_BITS } })
    } else {
        s
    };
    spec_cmul(Complex { re: g, im: Real { bits: 0 } }, shift)
}

/// `h` is the half-spectrum built by combining the exact interpolated
/// response with the shift samples `es` that the complex exponential
/// returned.
pub open spec fn spec_half_given(
    freqs: Seq<Real>,
    gains: Seq<Real>,
    numtaps: int,
    antisymmetric: bool,
    es: Seq<Complex>,
    h: Seq<Complex>,
) -> bool {
    &&& es.len() == spec_nfreqs(numtaps)
    &&& h.len() == spec_nfreqs(numtaps)
    &&& forall|i: int|
        0 <= i < h.len() ==> h[i] == spec_combined(
            spec_response_at(freqs, gains, spec_nfreqs(numtaps), i),
            es[i],
            antisymmetric,
        )
}

/// `h` has the shape of the designer's half-spectrum: the exact response
/// combined with some shift samples. The exponential's precision is
/// unspecified, so the shift samples stay existential; the phases handed
/// to the exponential are fixed exactly by `firwin2_phases`.
pub open spec fn spec_half_shape(
    freqs: Seq<Real>,
    gains: Seq<Real>,
    numtaps: int,
    antisymmetric: bool,
    h: Seq<Complex>,
) -> bool {
    exists|es: Seq<Complex>| #[trigger] spec_half_given(freqs, gains, numtaps, antisymmetric, es, h)
}

/// The target response interpolated onto the uniform grid: perturb
/// duplicate breakpoints, then evaluate the piecewise-linear response at
/// every grid point; exact in the inputs.
pub fn firwin2_response(numtaps: usize, freqs: &Vec<Real>, gains: &Vec<Real>) -> (r: Vec<Real>)
    requires
        1 <= numtaps,
        numtaps <= usize::MAX / 8,
        freqs@.len() == gains@.len(),
        freqs@.len() >= 1,
    ensures
        r@.len() == spec_nfreqs(numtaps as int),
        forall|i: int|
            0 <= i < r@.len() ==> r@[i] == spec_response_at(
                freqs@,
                gains@,
                spec_nfreqs(numtaps as int),
                i,
            ),
{
    let nfreqs = 1 + npow2(numtaps);
    let flen = freqs.len();
    let mut fr: Vec<Real> = Vec::new();
    for i in 0..flen
        invariant
            flen == freqs@.len(),
            fr@.len() == i,
            forall|j: int| 0 <= j < i ==> fr@[j] == freqs@[j],
    {
        fr.push(freqs[i]);
    }
    proof {
        assert(fr@ =~= freqs@);
    }
    for i in 0..flen - 1
        invariant
            flen == freqs@.len(),
            flen >= 1,
            fr@ == spec_perturbed_upto(freqs@, i as int),
            fr@.len() == flen,
    {
        let ghost pre = fr@;
        if fr[i].eq_ieee(fr[i + 1]) {
            let a = f_sub(fr[i], Real { bits: F64_EPSILON_BITS });
            let b = f_add(fr[i + 1], Real { bits: F64_EPSILON_BITS });
            fr.set(i, a);
            fr.set(i + 1, b);
        }
        proof {
            assert(fr@ =~= spec_perturb_step(pre, i as int));
            lemma_perturbed_len(freqs@, i as int + 1);
        }
    }
    let x = linspace(Real { bits: 0 }, Real { bits: F64_ONE_BITS }, nfreqs, true);
    proof {
        assert forall|j: int| 0 <= j < x@.len() implies x@[j] == spec_grid_at(
            nfreqs as int,
            j,
        ) by {
            assert(x@[j].bits == spec_grid_at(nfreqs as int, j).bits);
        }
    }
    x.interp(&fr, gains)
}

/// The purely imaginary phases the designer hands to the complex
/// exponential, one per grid point; exact in `numtaps`.
pub fn firwin2_phases(numtaps: usize) -> (r: Vec<Complex>)
    requires
        1 <= numtaps,
        numtaps <= usize::MAX / 8,
    ensures
        r@.len() == spec_nfreqs(numtaps as int),
        forall|i: int|
            0 <= i < r@.len() ==> r@[i] == spec_phase_at(
                numtaps as int,
                spec_nfreqs(numtaps as int),
                i,
            ),
{
    let nfreqs = 1 + npow2(numtaps);
    let x = linspace(Real { bits: 0 }, Real { bits: F64_ONE_BITS }, nfreqs, true);
    proof {
        assert forall|j: int| 0 <= j < x@.len() implies x@[j] == spec_grid_at(
            nfreqs as int,
            j,
        ) by {
            assert(x@[j].bits == spec_grid_at(nfreqs as int, j).bits);
        }
    }
    let t3 = f_mul(
        f_div(
            f_sub(f_from_usize(numtaps), Real { bits: F64_ONE_BITS }),
            Real { bits: F64_NEG_TWO_BITS },
        ),
        Real { bits: F64_PI_BITS },
    );
    let mut phases: Vec<Complex> = Vec::new();
    for i in 0..nfreqs
        invariant
            phases@.len() == i,
            x@.len() == nfreqs,
            t3.bits == mul_bits(
                div_bits(sub_bits(usize_bits(numtaps), F64_ONE_BITS), F64_NEG_TWO_BITS),
                F64_PI_BITS,
            ),
            forall|j: int| 0 <= j < x@.len() ==> x@[j] == spec_grid_at(nfreqs as int, j),
            forall|j: int|
                0 <= j < i ==> phases@[j] == spec_phase_at(numtaps as int, nfreqs as int, j),
    {
        let th = f_div(f_mul(t3, x[i]), Real { bits: F64_ONE_BITS });
        phases.push(Complex { re: Real { bits: 0 }, im: th });
    }
    phases
}

/// Combine the interpolated response with the shift samples the
/// exponential returned: rotate the shift a quarter turn for antisymmetric
/// designs and multiply by the gain; exact in both arguments.
pub fn firwin2_combine(fx: &Vec<Real>, shift: &Vec<Complex>, antisymmetric: bool) -> (r: Vec<
    Complex,
>)
    requires
        fx@.len() == shift@.len(),
    ensures
        r@.len() == fx@.len(),
        forall|i: int|
            0 <= i < fx@.len() ==> r@[i] == spec_combined(fx@[i], shift@[i], antisymmetric),
{
    let n = shift.len();
    let mut sh: Vec<Complex> = Vec::new();
    for i in 0..n
        invariant
            n == shift@.len(),
            sh@.len() == i,
            forall|j: int| 0 <= j < i ==> sh@[j] == shift@[j],
    {
        sh.push(shift[i]);
    }
    if antisymmetric {
        multiply_const_inplace(
            &mut sh,
            Complex { re: Real { bits: 0 }, im: Real { bits: F64_ONE_BITS } },
        );
    }
    let mut fxc: Vec<Complex> = Vec::new();
    for i in 0..n
        invariant
            n == fx@.len(),
            fxc@.len() == i,
            forall|j: int|
                0 <= j < i ==> fxc@[j] == (Complex { re: fx@[j], im: Real { bits: 0 } }),
    {
        fxc.push(Complex { re: fx[i], im: Real { bits: 0 } });
    }
    let half = multiply(&fxc, &sh);
    proof {
        assert forall|i: int| 0 <= i < half@.len() implies half@[i] == spec_combined(
            fx@[i],
            shift@[i],
            antisymmetric,
        ) by {
            assert(fxc@[i] == (Complex { re: fx@[i], im: Real { bits: 0 } }));
        }
    }
    half
}

/// The complex half-spectrum that the designer hands to the inverse-real
/// transform: validate the boundary gains for the selected filter type,
/// interpolate the response (`firwin2_response`, exact), take the complex
/// exponential of the exact phases (`firwin2_phases`; the exponential's
/// outcome is left open), and combine (`firwin2_combine`, exact).
pub fn firwin2_half_spectrum(
    numtaps: usize,
    freqs: &Vec<Real>,
    gains: &Vec<Real>,
    antisymmetric: bool,
) -> (r: Result<Vec<Complex>, FirwinError>)
    requires
        1 <= numtaps,
        numtaps <= usize::MAX / 8,
        freqs@.len() == gains@.len(),
        freqs@.len() >= 1,
    ensures
        r is Err <==> spec_firwin_fault(gains@, numtaps as int, antisymmetric) is Some,
        r matches Err(e) ==> spec_firwin_fault(gains@, numtaps as int, antisymmetric) == Some(e),
        r matches Ok(h) ==> h@.len() == spec_nfreqs(numtaps as int) && spec_half_shape(
            freqs@,
            gains@,
            numtaps as int,
            antisymmetric,
            h@,
        ),
{
    let glen = gains.len();
    let even = numtaps % 2 == 0;
    if !antisymmetric && even && !gains[glen - 1].is_zero() {
        return Err(FirwinError::TypeIiNyquistGain);
    }
    if antisymmetric && !even && !(gains[0].is_zero() && gains[glen - 1].is_zero()) {
        return Err(FirwinError::TypeIiiBoundaryGain);
    }
    if antisymmetric && even && !gains[0].is_zero() {
        return Err(FirwinError::TypeIvZeroGain);
    }
    let fx = firwin2_response(numtaps, freqs, gains);
    let phases = firwin2_phases(numtaps);
    let shift = phases.exp();
    let half = firwin2_combine(&fx, &shift, antisymmetric);
    proof {
        assert(spec_half_given(
            freqs@,
            gains@,
            numtaps as int,
            antisymmetric,
            shift@,
            half@,
        ));
        assert(spec_half_shape(freqs@, gains@, numtaps as int, antisymmetric, half@));
    }
    Ok(half)
}

/// `out` holds the finished taps for the raw time-domain samples `raw`
/// and the window `win`: the first `numtaps` samples multiplied by the
/// window, with the center tap forced to exactly zero for a type III
/// design.
pub open spec fn spec_finished_taps(
    raw: Seq<Real>,
    win: Seq<Real>,
    numtaps: int,
    antisymmetric: bool,
    out: Seq<Real>,
) -> bool {
    &&& out.len() == numtaps
    &&& forall|i: int|
        0 <= i < numtaps && !(antisymmetric && numtaps % 2 == 1 && i == numtaps / 2)
            ==> out[i].bits == mul_bits(raw[i].bits, win[i].bits)
    &&& (antisymmetric && numtaps % 2 == 1) ==> out[numtaps / 2] == (Real { bits: 0 })
}

/// `out` is a finished tap buffer for some raw transform result of the
/// full grid length and some Hamming-shaped window.
pub open spec fn spec_firwin2_ok(out: Seq<Real>, numtaps: int, antisymmetric: bool) -> bool {
    exists|raw: Seq<Real>, win: Seq<Real>|
        raw.len() == 2 * (spec_nfreqs(numtaps) - 1) && spec_cos_sum_shape(
            spec_hamming_alpha(),
            numtaps,
            win,
        ) && #[trigger] spec_finished_taps(raw, win, numtaps, antisymmetric, out)
}

/// The tail of the designer, a pure function of the raw time-domain
/// samples the transform returned and of the window: keep the first
/// `numtaps` samples, taper them with the window, and for a type III
/// design force the center tap to exactly zero.
pub fn firwin2_finish(
    raw: &Vec<Real>,
    window: &Vec<Real>,
    numtaps: usize,
    antisymmetric: bool,
) -> (r: Vec<Real>)
    requires
        raw@.len() >= numtaps,
        window@.len() == numtaps,
    ensures
        spec_finished_taps(raw@, window@, numtaps as int, antisymmetric, r@),
{
    let mut out: Vec<Real> = Vec::new();
    for i in 0..numtaps
        invariant
            raw@.len() >= numtaps,
            out@.len() == i,
            forall|j: int| 0 <= j < i ==> out@[j] == raw@[j],
    {
        out.push(raw[i]);
    }
    out.multiply_inplace(window);
    if antisymmetric && numtaps % 2 == 1 {
        out.set(numtaps / 2, Real { bits: 0 });
    }
    out
}

/// Design `numtaps` FIR coefficients approximating the piecewise-linear
/// frequency response through `(freqs, gains)`: build the shifted
/// half-spectrum (`firwin2_half_spectrum`), inverse-transform it at twice
/// the grid length, and finish the taps (`firwin2_finish`). An invalid
/// boundary gain for the selected filter type is reported before any
/// transform work.
pub fn firwin2(
    numtaps: usize,
    freqs: &Vec<Real>,
    gains: &Vec<Real>,
    antisymmetric: bool,
) -> (r: Result<Vec<Real>, FirwinError>)
    requires
        1 <= numtaps,
        numtaps <= usize::MAX / 8,
        freqs@.len() == gains@.len(),
        freqs@.len() >= 1,
    ensures
        r is Err <==> spec_firwin_fault(gains@, numtaps as int, antisymmetric) is Some,
        r matches Err(e) ==> spec_firwin_fault(gains@, numtaps as int, antisymmetric) == Some(e),
        r matches Ok(out) ==> out@.len() == numtaps,
        r matches Ok(out) ==> ((antisymmetric && numtaps % 2 == 1) ==> out@[numtaps as int / 2]
            == (Real { bits: 0 })),
        r matches Ok(out) ==> spec_firwin2_ok(out@, numtaps as int, antisymmetric),
{
    match firwin2_half_spectrum(numtaps, freqs, gains, antisymmetric) {
        Err(e) => Err(e),
        Ok(h) => {
            proof {
                lemma_npow2_bounds(numtaps as int);
            }
            let out_full = h.irfft();
            let win = hamming(numtaps);
            let finished = firwin2_finish(&out_full, &win, numtaps, antisymmetric);
            proof {
                assert(out_full@.len() == 2 * (spec_nfreqs(numtaps as int) - 1));
                assert(spec_finished_taps(
                    out_full@,
                    win@,
                    numtaps as int,
                    antisymmetric,
                    finished@,
                ));
                assert(spec_firwin2_ok(finished@, numtaps as int, antisymmetric));
            }
            Ok(finished)
        },
    }
}

} // verus!

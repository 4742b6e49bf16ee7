use vstd::prelude::*;

use crate::scalar::{
    add_bits, div_bits, f64_le, f64_lt, mul_bits, rem_euclid_bits, sub_bits, f_add, f_div, f_mul,
    f_rem_euclid, f_sub, Real, F64_ONE_BITS, F64_PI_BITS, F64_TWO_BITS,
};

verus! {

/// The running sum of the first `n` elements, folded left from zero exactly
/// as the accumulation loop performs it.
pub open spec fn spec_sum_prefix(s: Seq<Real>, n: int) -> Real
    decreases n,
{
    if n <= 0 {
        Real { bits: 0 }
    } else {
        Real { bits: add_bits(spec_sum_prefix(s, n - 1).bits, s[n - 1].bits) }
    }
}

/// Clamping as num implements it: below the lower bound take the bound,
/// above the upper bound take that bound, otherwise (including NaN) keep
/// the value.
pub open spec fn spec_clamp(x: Real, lo: Real, hi: Real) -> Real {
    if f64_lt(x.bits, lo.bits) {
        lo
    } else if f64_lt(hi.bits, x.bits) {
        hi
    } else {
        x
    }
}

/// The first index at or after `k` whose breakpoint is at least `x`
/// (IEEE `>=`), or the length when there is none.
pub open spec fn first_ge_from(xp: Seq<Real>, x: Real, k: int) -> int
    decreases xp.len() - k,
{
    if k < 0 || k >= xp.len() {
        xp.len() as int
    } else if f64_le(x.bits, xp[k].bits) {
        k
    } else {
        first_ge_from(xp, x, k + 1)
    }
}

/// Piecewise-linear interpolation of one query point against breakpoints
/// `xp` with values `fp`: find the first breakpoint at least the query,
/// clamp to the first or last value outside the breakpoint range, and
/// otherwise interpolate linearly between the bracketing breakpoints,
/// with every operation IEEE-754 double arithmetic.
pub open spec fn spec_interp_one(xp: Seq<Real>, fp: Seq<Real>, x: Real) -> Real {
    let bin = first_ge_from(xp, x, 0);
    if bin == 0 {
        fp[0]
    } else if bin == xp.len() {
        fp[xp.len() - 1]
    } else {
        let slope = div_bits(
            sub_bits(fp[bin].bits, fp[bin - 1].bits),
            sub_bits(xp[bin].bits, xp[bin - 1].bits),
        );
        Real { bits: add_bits(fp[bin - 1].bits, mul_bits(slope, sub_bits(x.bits, xp[bin - 1].bits))) }
    }
}

/// `x` raised to the power `p` by repeated multiplication from one, in
/// double arithmetic.
pub open spec fn spec_powi(x: u64, p: int) -> u64
    decreases p,
{
    if p <= 0 {
        F64_ONE_BITS
    } else {
        mul_bits(spec_powi(x, p - 1), x)
    }
}

/// The running sum of `self[k-1] * self[k] / two` over the first `k`
/// adjacent pairs, folded left from zero as the loop accumulates it.
pub open spec fn spec_trapz_prefix(s: Seq<Real>, two: u64, k: int) -> Real
    decreases k,
{
    if k <= 0 {
        Real { bits: 0 }
    } else {
        Real {
            bits: add_bits(
                spec_trapz_prefix(s, two, k - 1).bits,
                div_bits(mul_bits(s[k - 1].bits, s[k].bits), two),
            ),
        }
    }
}

/// The first kernel index the convolution sums at output slot `o`.
pub open spec fn conv_lb(o: int, alen: int) -> int {
    if o + 1 - alen > 0 {
        o + 1 - alen
    } else {
        0
    }
}

/// The kernel index the convolution stops before at output slot `o`.
pub open spec fn conv_ub(o: int, blen: int) -> int {
    if blen < o {
        blen
    } else {
        o
    }
}

/// The convolution sum at output slot `o`, folded left from zero over
/// kernel indices below `k`: each step adds `a[o - j] * b[j]`.
pub open spec fn spec_conv_fold(a: Seq<Real>, b: Seq<Real>, o: int, k: int) -> Real
    decreases k - conv_lb(o, a.len() as int),
{
    if k <= conv_lb(o, a.len() as int) {
        Real { bits: 0 }
    } else {
        Real {
            bits: add_bits(
                spec_conv_fold(a, b, o, k - 1).bits,
                mul_bits(a[o - (k - 1)].bits, b[k - 1].bits),
            ),
        }
    }
}

/// The period the unwrap uses: the given one, or two pi.
pub open spec fn spec_unwrap_period(period: Option<Real>) -> u64 {
    match period {
        Some(p) => p.bits,
        None => mul_bits(F64_TWO_BITS, F64_PI_BITS),
    }
}

/// A phase difference wrapped into `[-period/2, period/2)`: shift by half
/// the period, take the least non-negative remainder, and shift back.
pub open spec fn spec_wrapped_diff(diff: u64, period: u64) -> u64 {
    let discont = div_bits(period, F64_TWO_BITS);
    sub_bits(rem_euclid_bits(add_bits(diff, discont), period), discont)
}

/// The unwrapped phase at `idx`, seeded at `seed`, with each step adding
/// the wrapped difference of the pristine neighbouring samples.
pub open spec fn spec_unwrap_at(s: Seq<Real>, seed: Real, period: u64, idx: int) -> Real
    decreases idx,
{
    if idx <= 0 {
        seed
    } else {
        Real {
            bits: add_bits(
                spec_unwrap_at(s, seed, period, idx - 1).bits,
                spec_wrapped_diff(sub_bits(s[idx].bits, s[idx - 1].bits), period),
            ),
        }
    }
}

/// The unwrapped phase at `idx` for the in-place variant, whose differences
/// read the already-unwrapped previous slot rather than the pristine one.
pub open spec fn spec_unwrap_inplace_at(s: Seq<Real>, period: u64, idx: int) -> Real
    decreases idx,
{
    if idx <= 0 {
        s[0]
    } else {
        let prev = spec_unwrap_inplace_at(s, period, idx - 1);
        Real {
            bits: add_bits(
                prev.bits,
                spec_wrapped_diff(sub_bits(s[idx].bits, prev.bits), period),
            ),
        }
    }
}

/// Elementwise arithmetic over real buffers, each operation performed in
/// IEEE-754 double precision.
pub trait RadioVectorArithmetic: View<V = Seq<Real>> {
    /// The left-folded sum of the buffer, starting from zero.
    fn sum(&self) -> (r: Real)
        ensures
            r == spec_sum_prefix(self@, self@.len() as int),
    ;

    /// Elementwise sum of two buffers of equal length.
    fn add(&self, other: &Vec<Real>) -> (r: Vec<Real>)
        requires
            self@.len() == other@.len(),
        ensures
            r@.len() == self@.len(),
            forall|i: int|
                0 <= i < self@.len() ==> r@[i].bits == add_bits(self@[i].bits, other@[i].bits),
    ;

    /// Add a constant to every element.
    fn add_const(&self, addend: Real) -> (r: Vec<Real>)
        ensures
            r@.len() == self@.len(),
            forall|i: int|
                0 <= i < self@.len() ==> r@[i].bits == add_bits(self@[i].bits, addend.bits),
    ;

    /// Subtract a constant from every element.
    fn subtract_const(&self, subtrahend: Real) -> (r: Vec<Real>)
        ensures
            r@.len() == self@.len(),
            forall|i: int|
                0 <= i < self@.len() ==> r@[i].bits == sub_bits(self@[i].bits, subtrahend.bits),
    ;

    /// Elementwise difference of two buffers of equal length.
    fn subtract(&self, other: &Vec<Real>) -> (r: Vec<Real>)
        requires
            self@.len() == other@.len(),
        ensures
            r@.len() == self@.len(),
            forall|i: int|
                0 <= i < self@.len() ==> r@[i].bits == sub_bits(self@[i].bits, other@[i].bits),
    ;

    /// Elementwise product of two buffers of equal length.
    fn multiply(&self, other: &Vec<Real>) -> (r: Vec<Real>)
        requires
            self@.len() == other@.len(),
        ensures
            r@.len() == self@.len(),
            forall|i: int|
                0 <= i < self@.len() ==> r@[i].bits == mul_bits(self@[i].bits, other@[i].bits),
    ;

    /// Multiply elementwise by another buffer of equal length, in place.
    fn multiply_inplace(&mut self, other: &Vec<Real>)
        requires
            old(self)@.len() == other@.len(),
        ensures
            final(self)@.len() == old(self)@.len(),
            forall|i: int|
                0 <= i < old(self)@.len() ==> final(self)@[i].bits == mul_bits(
                    old(self)@[i].bits,
                    other@[i].bits,
                ),
    ;

    /// Multiply every element by a constant.
    fn multiply_const(&self, multiplier: Real) -> (r: Vec<Real>)
        ensures
            r@.len() == self@.len(),
            forall|i: int|
                0 <= i < self@.len() ==> r@[i].bits == mul_bits(self@[i].bits, multiplier.bits),
    ;

    /// Elementwise quotient of two buffers of equal length.
    fn divide(&self, other: &Vec<Real>) -> (r: Vec<Real>)
        requires
            self@.len() == other@.len(),
        ensures
            r@.len() == self@.len(),
            forall|i: int|
                0 <= i < self@.len() ==> r@[i].bits == div_bits(self@[i].bits, other@[i].bits),
    ;

    /// Divide every element by a constant.
    fn divide_const(&self, divisor: Real) -> (r: Vec<Real>)
        ensures
            r@.len() == self@.len(),
            forall|i: int|
                0 <= i < self@.len() ==> r@[i].bits == div_bits(self@[i].bits, divisor.bits),
    ;

    /// Consecutive differences: element `i` is `self[i+1] - self[i]`.
    fn diff(&self) -> (r: Vec<Real>)
        requires
            self@.len() >= 1,
        ensures
            r@.len() == self@.len() - 1,
            forall|i: int|
                0 <= i < self@.len() - 1 ==> r@[i].bits == sub_bits(
                    self@[i + 1].bits,
                    self@[i].bits,
                ),
    ;

    /// Running sums: element `i` is the left-folded sum of the first `i+1`
    /// elements.
    fn cumsum(&self) -> (r: Vec<Real>)
        ensures
            r@.len() == self@.len(),
            forall|i: int| 0 <= i < self@.len() ==> r@[i] == spec_sum_prefix(self@, i + 1),
    ;

    /// Clamp every element between the two bounds.
    fn clamp(&self, min: Real, max: Real) -> (r: Vec<Real>)
        ensures
            r@.len() == self@.len(),
            forall|i: int| 0 <= i < self@.len() ==> r@[i] == spec_clamp(self@[i], min, max),
    ;

    /// Write each element raised to the power into `out`, by repeated
    /// multiplication from one.
    fn powi_into(&self, power: u8, out: &mut Vec<Real>)
        requires
            old(out)@.len() == self@.len(),
        ensures
            final(out)@.len() == self@.len(),
            forall|i: int|
                0 <= i < self@.len() ==> final(out)@[i].bits == spec_powi(
                    self@[i].bits,
                    power as int,
                ),
    ;

    /// Each element raised to the power, by repeated multiplication from
    /// one.
    fn powi(&mut self, power: u8) -> (r: Vec<Real>)
        ensures
            final(self)@ == old(self)@,
            r@.len() == old(self)@.len(),
            forall|i: int|
                0 <= i < old(self)@.len() ==> r@[i].bits == spec_powi(
                    old(self)@[i].bits,
                    power as int,
                ),
    ;

    /// Raise each element to the power in place.
    fn powi_inplace(&mut self, power: u8)
        ensures
            final(self)@.len() == old(self)@.len(),
            forall|i: int|
                0 <= i < old(self)@.len() ==> final(self)@[i].bits == spec_powi(
                    old(self)@[i].bits,
                    power as int,
                ),
    ;

    /// The running sum of `self[k] * self[k+1] / 2` over adjacent pairs.
    fn trapz(&self) -> (r: Real)
        requires
            self@.len() >= 1,
        ensures
            r == spec_trapz_prefix(
                self@,
                add_bits(F64_ONE_BITS, F64_ONE_BITS),
                self@.len() - 1,
            ),
    ;

    /// The convolution of the buffer with a kernel, one output per input
    /// slot (see `spec_conv_fold`; the sum at slot `o` stops before kernel
    /// index `o`, so the first output is always zero).
    fn convolve(&self, other: &Vec<Real>) -> (r: Vec<Real>)
        ensures
            r@.len() == self@.len(),
            forall|o: int|
                0 <= o < self@.len() ==> r@[o] == spec_conv_fold(
                    self@,
                    other@,
                    o,
                    conv_ub(o, other@.len() as int),
                ),
    ;

    /// Unwrap phase jumps into `out`, seeded by the first element already
    /// in `out`; differences read this pristine buffer (see
    /// `spec_unwrap_at`).
    fn angle_unwrap_into(&self, out: &mut Vec<Real>, period: Option<Real>)
        requires
            old(out)@.len() == self@.len(),
        ensures
            final(out)@.len() == self@.len(),
            self@.len() >= 1 ==> final(out)@[0] == old(out)@[0],
            forall|i: int|
                1 <= i < self@.len() ==> final(out)@[i] == spec_unwrap_at(
                    self@,
                    old(out)@[0],
                    spec_unwrap_period(period),
                    i,
                ),
    ;

    /// Unwrap phase jumps, seeding the result at zero.
    fn angle_unwrap(&self, period: Option<Real>) -> (r: Vec<Real>)
        requires
            self@.len() >= 1,
        ensures
            r@.len() == self@.len(),
            r@[0] == (Real { bits: 0 }),
            forall|i: int|
                1 <= i < self@.len() ==> r@[i] == spec_unwrap_at(
                    self@,
                    Real { bits: 0 },
                    spec_unwrap_period(period),
                    i,
                ),
    ;

    /// Unwrap phase jumps in place; each difference reads the previous,
    /// already unwrapped slot (see `spec_unwrap_inplace_at`).
    fn angle_unwrap_in_place(&mut self, period: Option<Real>)
        ensures
            final(self)@.len() == old(self)@.len(),
            old(self)@.len() >= 1 ==> final(self)@[0] == old(self)@[0],
            forall|i: int|
                1 <= i < old(self)@.len() ==> final(self)@[i] == spec_unwrap_inplace_at(
                    old(self)@,
                    spec_unwrap_period(period),
                    i,
                ),
    ;

    /// Interpolate every element against the breakpoints `xp` with values
    /// `fp`, writing into `out` (see `spec_interp_one`).
    fn interp_into(&self, out: &mut Vec<Real>, xp: &Vec<Real>, fp: &Vec<Real>)
        requires
            old(out)@.len() == self@.len(),
            xp@.len() == fp@.len(),
            xp@.len() >= 1,
        ensures
            final(out)@.len() == self@.len(),
            forall|i: int|
                0 <= i < self@.len() ==> final(out)@[i] == spec_interp_one(xp@, fp@, self@[i]),
    ;

    /// Interpolate every element against the breakpoints `xp` with values
    /// `fp` (see `spec_interp_one`).
    fn interp(&self, xp: &Vec<Real>, fp: &Vec<Real>) -> (r: Vec<Real>)
        requires
            xp@.len() == fp@.len(),
            xp@.len() >= 1,
        ensures
            r@.len() == self@.len(),
            forall|i: int| 0 <= i < self@.len() ==> r@[i] == spec_interp_one(xp@, fp@, self@[i]),
    ;

    /// Interpolate every element in place (see `spec_interp_one`).
    fn interp_in_place(&mut self, xp: &Vec<Real>, fp: &Vec<Real>)
        requires
            xp@.len() == fp@.len(),
            xp@.len() >= 1,
        ensures
            final(self)@.len() == old(self)@.len(),
            forall|i: int|
                0 <= i < old(self)@.len() ==> final(self)@[i] == spec_interp_one(
                    xp@,
                    fp@,
                    old(self)@[i],
                ),
    ;
}

/// When no breakpoint from `k` on reaches the query, the search runs off
/// the end.
proof fn lemma_first_ge_none(xp: Seq<Real>, x: Real, k: int)
    requires
        0 <= k <= xp.len(),
        forall|j: int| k <= j < xp.len() ==> !f64_le(x.bits, xp[j].bits),
    ensures
        first_ge_from(xp, x, k) == xp.len(),
    decreases xp.len() - k,
{
    if k < xp.len() {
        lemma_first_ge_none(xp, x, k + 1);
    }
}

/// Interpolation clamps at the ends: a query strictly below the first
/// breakpoint takes the first value, and, when the breakpoints are
/// non-decreasing, a query strictly above the last breakpoint takes the
/// last value.
pub proof fn lemma_interp_boundary(xp: Seq<Real>, fp: Seq<Real>, x: Real)
    requires
        xp.len() == fp.len(),
        xp.len() >= 1,
    ensures
        f64_lt(x.bits, xp[0].bits) ==> spec_interp_one(xp, fp, x) == fp[0],
        ((forall|i: int, j: int|
            0 <= i <= j < xp.len() ==> f64_le(#[trigger] xp[i].bits, #[trigger] xp[j].bits))
            && f64_lt(xp[xp.len() - 1].bits, x.bits)) ==> spec_interp_one(xp, fp, x)
            == fp[xp.len() - 1],
{
    if f64_lt(x.bits, xp[0].bits) {
        assert(f64_le(x.bits, xp[0].bits));
        assert(first_ge_from(xp, x, 0) == 0);
    }
    if (forall|i: int, j: int|
        0 <= i <= j < xp.len() ==> f64_le(#[trigger] xp[i].bits, #[trigger] xp[j].bits))
        && f64_lt(xp[xp.len() - 1].bits, x.bits) {
        assert forall|j: int| 0 <= j < xp.len() implies !f64_le(x.bits, xp[j].bits) by {
            assert(f64_le(xp[j].bits, xp[xp.len() - 1].bits));
            crate::scalar::lemma_f64_order_trans(xp[j].bits, xp[xp.len() - 1].bits, x.bits);
            crate::scalar::lemma_f64_order_asym(xp[j].bits, x.bits);
        }
        lemma_first_ge_none(xp, x, 0);
    }
}

/// The first index whose breakpoint is at least `x`, or the length when
/// there is none.
fn find_first_ge(xp: &Vec<Real>, x: Real) -> (bin: usize)
    ensures
        bin == first_ge_from(xp@, x, 0),
        0 <= bin <= xp@.len(),
{
    let n = xp.len();
    let mut k: usize = 0;
    while k < n
        invariant
            n == xp@.len(),
            0 <= k <= n,
            first_ge_from(xp@, x, 0) == first_ge_from(xp@, x, k as int),
        decreases n - k,
    {
        if x.le(xp[k]) {
            return k;
        }
        k = k + 1;
    }
    k
}

/// One value raised to a power by repeated multiplication from one.
fn pow_one(x: Real, power: u8) -> (r: Real)
    ensures
        r.bits == spec_powi(x.bits, power as int),
{
    let mut acc = Real { bits: F64_ONE_BITS };
    let mut k: u8 = 0;
    while k < power
        invariant
            k <= power,
            acc.bits == spec_powi(x.bits, k as int),
        decreases power - k,
    {
        acc = f_mul(acc, x);
        k = k + 1;
    }
    acc
}

/// Interpolate one query point (see `spec_interp_one`).
fn interp_one(xp: &Vec<Real>, fp: &Vec<Real>, x: Real) -> (r: Real)
    requires
        xp@.len() == fp@.len(),
        xp@.len() >= 1,
    ensures
        r == spec_interp_one(xp@, fp@, x),
{
    let bin = find_first_ge(xp, x);
    if bin == 0 {
        fp[0]
    } else if bin == xp.len() {
        fp[fp.len() - 1]
    } else {
        let slope = f_div(f_sub(fp[bin], fp[bin - 1]), f_sub(xp[bin], xp[bin - 1]));
        f_add(fp[bin - 1], f_mul(slope, f_sub(x, xp[bin - 1])))
    }
}

impl RadioVectorArithmetic for Vec<Real> {
    fn sum(&self) -> (r: Real) {
        let mut acc = Real { bits: 0 };
        let n = self.len();
        for i in 0..n
            invariant
                n == self@.len(),
                acc == spec_sum_prefix(self@, i as int),
        {
            acc = f_add(acc, self[i]);
        }
        acc
    }

    fn add(&self, other: &Vec<Real>) -> (r: Vec<Real>) {
        let mut out: Vec<Real> = Vec::new();
        let n = self.len();
        for i in 0..n
            invariant
                n == self@.len(),
                self@.len() == other@.len(),
                out@.len() == i,
                forall|j: int|
                    0 <= j < i ==> out@[j].bits == add_bits(self@[j].bits, other@[j].bits),
        {
            out.push(f_add(self[i], other[i]));
        }
        out
    }

    fn add_const(&self, addend: Real) -> (r: Vec<Real>) {
        let mut out: Vec<Real> = Vec::new();
        let n = self.len();
        for i in 0..n
            invariant
                n == self@.len(),
                out@.len() == i,
                forall|j: int| 0 <= j < i ==> out@[j].bits == add_bits(self@[j].bits, addend.bits),
        {
            out.push(f_add(self[i], addend));
        }
        out
    }

    fn subtract_const(&self, subtrahend: Real) -> (r: Vec<Real>) {
        let mut out: Vec<Real> = Vec::new();
        let n = self.len();
        for i in 0..n
            invariant
                n == self@.len(),
                out@.len() == i,
                forall|j: int|
                    0 <= j < i ==> out@[j].bits == sub_bits(self@[j].bits, subtrahend.bits),
        {
            out.push(f_sub(self[i], subtrahend));
        }
        out
    }

    fn subtract(&self, other: &Vec<Real>) -> (r: Vec<Real>) {
        let mut out: Vec<Real> = Vec::new();
        let n = self.len();
        for i in 0..n
            invariant
                n == self@.len(),
                self@.len() == other@.len(),
                out@.len() == i,
                forall|j: int|
                    0 <= j < i ==> out@[j].bits == sub_bits(self@[j].bits, other@[j].bits),
        {
            out.push(f_sub(self[i], other[i]));
        }
        out
    }

    fn multiply(&self, other: &Vec<Real>) -> (r: Vec<Real>) {
        let mut out: Vec<Real> = Vec::new();
        let n = self.len();
        for i in 0..n
            invariant
                n == self@.len(),
                self@.len() == other@.len(),
                out@.len() == i,
                forall|j: int|
                    0 <= j < i ==> out@[j].bits == mul_bits(self@[j].bits, other@[j].bits),
        {
            out.push(f_mul(self[i], other[i]));
        }
        out
    }

    fn multiply_inplace(&mut self, other: &Vec<Real>) {
        let n = self.len();
        for i in 0..n
            invariant
                n == old(self)@.len(),
                self@.len() == n,
                other@.len() == n,
                forall|j: int|
                    0 <= j < i ==> self@[j].bits == mul_bits(old(self)@[j].bits, other@[j].bits),
                forall|j: int| i <= j < n ==> self@[j] == old(self)@[j],
        {
            let p = f_mul(self[i], other[i]);
            self.set(i, p);
        }
    }

    fn multiply_const(&self, multiplier: Real) -> (r: Vec<Real>) {
        let mut out: Vec<Real> = Vec::new();
        let n = self.len();
        for i in 0..n
            invariant
                n == self@.len(),
                out@.len() == i,
                forall|j: int|
                    0 <= j < i ==> out@[j].bits == mul_bits(self@[j].bits, multiplier.bits),
        {
            out.push(f_mul(self[i], multiplier));
        }
        out
    }

    fn divide(&self, other: &Vec<Real>) -> (r: Vec<Real>) {
        let mut out: Vec<Real> = Vec::new();
        let n = self.len();
        for i in 0..n
            invariant
                n == self@.len(),
                self@.len() == other@.len(),
                out@.len() == i,
                forall|j: int|
                    0 <= j < i ==> out@[j].bits == div_bits(self@[j].bits, other@[j].bits),
        {
            out.push(f_div(self[i], other[i]));
        }
        out
    }

    fn divide_const(&self, divisor: Real) -> (r: Vec<Real>) {
        let mut out: Vec<Real> = Vec::new();
        let n = self.len();
        for i in 0..n
            invariant
                n == self@.len(),
                out@.len() == i,
                forall|j: int| 0 <= j < i ==> out@[j].bits == div_bits(self@[j].bits, divisor.bits),
        {
            out.push(f_div(self[i], divisor));
        }
        out
    }

    fn diff(&self) -> (r: Vec<Real>) {
        let mut out: Vec<Real> = Vec::new();
        let n = self.len() - 1;
        for i in 0..n
            invariant
                n == self@.len() - 1,
                out@.len() == i,
                forall|j: int|
                    0 <= j < i ==> out@[j].bits == sub_bits(self@[j + 1].bits, self@[j].bits),
        {
            out.push(f_sub(self[i + 1], self[i]));
        }
        out
    }

    fn cumsum(&self) -> (r: Vec<Real>) {
        let mut out: Vec<Real> = Vec::new();
        let mut acc = Real { bits: 0 };
        let n = self.len();
        for i in 0..n
            invariant
                n == self@.len(),
                out@.len() == i,
                acc == spec_sum_prefix(self@, i as int),
                forall|j: int| 0 <= j < i ==> out@[j] == spec_sum_prefix(self@, j + 1),
        {
            acc = f_add(acc, self[i]);
            out.push(acc);
        }
        out
    }

    fn clamp(&self, min: Real, max: Real) -> (r: Vec<Real>) {
        let mut out: Vec<Real> = Vec::new();
        let n = self.len();
        for i in 0..n
            invariant
                n == self@.len(),
                out@.len() == i,
                forall|j: int| 0 <= j < i ==> out@[j] == spec_clamp(self@[j], min, max),
        {
            let x = self[i];
            let clamped = if x.lt(min) {
                min
            } else if max.lt(x) {
                max
            } else {
                x
            };
            out.push(clamped);
        }
        out
    }

    fn powi_into(&self, power: u8, out: &mut Vec<Real>) {
        let n = self.len();
        for i in 0..n
            invariant
                n == self@.len(),
                out@.len() == n,
                forall|j: int|
                    0 <= j < i ==> out@[j].bits == spec_powi(self@[j].bits, power as int),
        {
            let v = pow_one(self[i], power);
            out.set(i, v);
        }
    }

    fn powi(&mut self, power: u8) -> (r: Vec<Real>) {
        let mut out: Vec<Real> = Vec::new();
        let n = self.len();
        for i in 0..n
            invariant
                n == old(self)@.len(),
                self@ == old(self)@,
                out@.len() == i,
                forall|j: int|
                    0 <= j < i ==> out@[j].bits == spec_powi(old(self)@[j].bits, power as int),
        {
            out.push(pow_one(self[i], power));
        }
        out
    }

    fn powi_inplace(&mut self, power: u8) {
        let n = self.len();
        for i in 0..n
            invariant
                n == old(self)@.len(),
                self@.len() == n,
                forall|j: int|
                    0 <= j < i ==> self@[j].bits == spec_powi(old(self)@[j].bits, power as int),
                forall|j: int| i <= j < n ==> self@[j] == old(self)@[j],
        {
            let v = pow_one(self[i], power);
            self.set(i, v);
        }
    }

    fn trapz(&self) -> (r: Real) {
        let two = f_add(Real { bits: F64_ONE_BITS }, Real { bits: F64_ONE_BITS });
        let mut acc = Real { bits: 0 };
        let n = self.len();
        for k in 0..n - 1
            invariant
                n == self@.len(),
                n >= 1,
                two.bits == add_bits(F64_ONE_BITS, F64_ONE_BITS),
                acc == spec_trapz_prefix(self@, two.bits, k as int),
        {
            acc = f_add(acc, f_div(f_mul(self[k], self[k + 1]), two));
        }
        acc
    }

    fn convolve(&self, other: &Vec<Real>) -> (r: Vec<Real>) {
        let n = self.len();
        let m = other.len();
        let mut out: Vec<Real> = Vec::new();
        for o in 0..n
            invariant
                n == self@.len(),
                m == other@.len(),
                out@.len() == o,
                forall|j: int|
                    0 <= j < o ==> out@[j] == spec_conv_fold(
                        self@,
                        other@,
                        j,
                        conv_ub(j, m as int),
                    ),
        {
            let lb = if o + 1 > n {
                o + 1 - n
            } else {
                0
            };
            let ub = if m < o {
                m
            } else {
                o
            };
            let mut acc = Real { bits: 0 };
            let mut k = lb;
            while k < ub
                invariant
                    n == self@.len(),
                    m == other@.len(),
                    o < n,
                    lb == conv_lb(o as int, n as int),
                    ub == conv_ub(o as int, m as int),
                    lb <= k <= if ub > lb {
                        ub as int
                    } else {
                        lb as int
                    },
                    acc == spec_conv_fold(self@, other@, o as int, k as int),
                decreases ub as int - k as int,
            {
                acc = f_add(acc, f_mul(self[o - k], other[k]));
                k = k + 1;
            }
            proof {
                if ub <= lb {
                    assert(acc == spec_conv_fold(self@, other@, o as int, conv_ub(o as int, m as int)));
                }
            }
            out.push(acc);
        }
        out
    }

    fn angle_unwrap_into(&self, out: &mut Vec<Real>, period: Option<Real>) {
        let p = match period {
            Some(v) => v,
            None => f_mul(Real { bits: F64_TWO_BITS }, Real { bits: F64_PI_BITS }),
        };
        let discont = f_div(p, Real { bits: F64_TWO_BITS });
        let n = out.len();
        if n == 0 {
            return ;
        }
        for idx in 1..n
            invariant
                n == self@.len(),
                n >= 1,
                out@.len() == n,
                p.bits == spec_unwrap_period(period),
                discont.bits == div_bits(p.bits, F64_TWO_BITS),
                out@[0] == old(out)@[0],
                forall|j: int|
                    1 <= j < idx ==> out@[j] == spec_unwrap_at(
                        self@,
                        old(out)@[0],
                        p.bits,
                        j,
                    ),
        {
            let diff = f_sub(self[idx], self[idx - 1]);
            let wrapped = f_sub(f_rem_euclid(f_add(diff, discont), p), discont);
            let v = f_add(out[idx - 1], wrapped);
            proof {
                assert(out@[idx - 1] == spec_unwrap_at(self@, old(out)@[0], p.bits, idx - 1));
                assert(wrapped.bits == spec_wrapped_diff(
                    sub_bits(self@[idx as int].bits, self@[idx - 1].bits),
                    p.bits,
                ));
                assert(v == spec_unwrap_at(self@, old(out)@[0], p.bits, idx as int));
            }
            out.set(idx, v);
        }
    }

    fn angle_unwrap(&self, period: Option<Real>) -> (r: Vec<Real>) {
        let p = match period {
            Some(v) => v,
            None => f_mul(Real { bits: F64_TWO_BITS }, Real { bits: F64_PI_BITS }),
        };
        let discont = f_div(p, Real { bits: F64_TWO_BITS });
        let n = self.len();
        let mut out: Vec<Real> = Vec::new();
        let mut acc = Real { bits: 0 };
        out.push(acc);
        for idx in 1..n
            invariant
                n == self@.len(),
                n >= 1,
                out@.len() == idx,
                p.bits == spec_unwrap_period(period),
                discont.bits == div_bits(p.bits, F64_TWO_BITS),
                out@[0] == (Real { bits: 0 }),
                acc == spec_unwrap_at(self@, Real { bits: 0 }, p.bits, idx - 1),
                forall|j: int|
                    1 <= j < idx ==> out@[j] == spec_unwrap_at(
                        self@,
                        Real { bits: 0 },
                        p.bits,
                        j,
                    ),
        {
            let diff = f_sub(self[idx], self[idx - 1]);
            let wrapped = f_sub(f_rem_euclid(f_add(diff, discont), p), discont);
            acc = f_add(acc, wrapped);
            out.push(acc);
        }
        out
    }

    fn angle_unwrap_in_place(&mut self, period: Option<Real>) {
        let p = match period {
            Some(v) => v,
            None => f_mul(Real { bits: F64_TWO_BITS }, Real { bits: F64_PI_BITS }),
        };
        let discont = f_div(p, Real { bits: F64_TWO_BITS });
        let n = self.len();
        if n == 0 {
            return ;
        }
        for idx in 1..n
            invariant
                n == old(self)@.len(),
                n >= 1,
                self@.len() == n,
                p.bits == spec_unwrap_period(period),
                discont.bits == div_bits(p.bits, F64_TWO_BITS),
                self@[0] == old(self)@[0],
                forall|j: int|
                    1 <= j < idx ==> self@[j] == spec_unwrap_inplace_at(old(self)@, p.bits, j),
                forall|j: int| idx <= j < n ==> self@[j] == old(self)@[j],
        {
            let diff = f_sub(self[idx], self[idx - 1]);
            let wrapped = f_sub(f_rem_euclid(f_add(diff, discont), p), discont);
            let v = f_add(self[idx - 1], wrapped);
            proof {
                assert(self@[idx - 1] == spec_unwrap_inplace_at(old(self)@, p.bits, idx - 1));
                assert(self@[idx as int] == old(self)@[idx as int]);
                assert(v == spec_unwrap_inplace_at(old(self)@, p.bits, idx as int));
            }
            self.set(idx, v);
        }
    }

    fn interp_into(&self, out: &mut Vec<Real>, xp: &Vec<Real>, fp: &Vec<Real>) {
        let n = self.len();
        for i in 0..n
            invariant
                n == self@.len(),
                out@.len() == n,
                xp@.len() == fp@.len(),
                xp@.len() >= 1,
                forall|j: int| 0 <= j < i ==> out@[j] == spec_interp_one(xp@, fp@, self@[j]),
        {
            let y = interp_one(xp, fp, self[i]);
            out.set(i, y);
        }
    }

    fn interp(&self, xp: &Vec<Real>, fp: &Vec<Real>) -> (r: Vec<Real>) {
        let mut out: Vec<Real> = Vec::new();
        let n = self.len();
        for i in 0..n
            invariant
                n == self@.len(),
                out@.len() == i,
                xp@.len() == fp@.len(),
                xp@.len() >= 1,
                forall|j: int| 0 <= j < i ==> out@[j] == spec_interp_one(xp@, fp@, self@[j]),
        {
            out.push(interp_one(xp, fp, self[i]));
        }
        out
    }

    fn interp_in_place(&mut self, xp: &Vec<Real>, fp: &Vec<Real>) {
        let n = self.len();
        for i in 0..n
            invariant
                n == old(self)@.len(),
                self@.len() == n,
                xp@.len() == fp@.len(),
                xp@.len() >= 1,
                forall|j: int| 0 <= j < i ==> self@[j] == spec_interp_one(xp@, fp@, old(self)@[j]),
                forall|j: int| i <= j < n ==> self@[j] == old(self)@[j],
        {
            let y = interp_one(xp, fp, self[i]);
            self.set(i, y);
        }
    }
}

} // verus!

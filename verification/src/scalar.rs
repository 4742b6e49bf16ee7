use vstd::prelude::*;

verus! {

/// A real sample, stored as the bit pattern of an IEEE-754 double-precision
/// value. Ordering, equality and zero tests are defined directly over the
/// bits, where the format fixes them exactly. Arithmetic goes through the
/// trusted primitives below: the format determines every result up to the
/// payload of a NaN, so each primitive's canonicalized result is named by
/// an uninterpreted function of the operand bits and the stored result has
/// its NaN payload erased to match. The cosine carries no name at all: its
/// precision is unspecified, and callers treat it as an arbitrary sample.
#[derive(Clone, Copy, PartialEq, Eq, Structural, Debug)]
pub struct Real {
    pub bits: u64,
}

/// Magnitude mask: everything but the sign bit.
pub const F64_MAG_MASK: u64 = 0x7FFF_FFFF_FFFF_FFFF;

/// Bit pattern of positive infinity; magnitudes above it are NaNs.
pub const F64_INF_BITS: u64 = 0x7FF0_0000_0000_0000;

/// The sign bit.
pub const F64_SIGN_BIT: u64 = 0x8000_0000_0000_0000;

/// The bit pattern of the double `1.0`.
pub const F64_ONE_BITS: u64 = 0x3FF0_0000_0000_0000;

/// The bit pattern of the double `0.5`.
pub const F64_HALF_BITS: u64 = 0x3FE0_0000_0000_0000;

/// The bit pattern of the double `2.0`.
pub const F64_TWO_BITS: u64 = 0x4000_0000_0000_0000;

/// The bit pattern of the double `-2.0`.
pub const F64_NEG_TWO_BITS: u64 = 0xC000_0000_0000_0000;

/// The bit pattern of the double nearest to pi.
pub const F64_PI_BITS: u64 = 0x4009_21FB_5444_2D18;

/// The bit pattern of the double machine epsilon, `2^-52`.
pub const F64_EPSILON_BITS: u64 = 0x3CB0_0000_0000_0000;

/// The bit pattern of the double `25.0`.
pub const F64_25_BITS: u64 = 0x4039_0000_0000_0000;

/// The bit pattern of the double `46.0`.
pub const F64_46_BITS: u64 = 0x4047_0000_0000_0000;

/// The bit pattern of the canonical quiet NaN.
pub const F64_CANON_NAN_BITS: u64 = 0x7FF8_0000_0000_0000;

/// The sign of a double, read off its bit pattern.
pub open spec fn f64_sign(b: u64) -> bool {
    b >= F64_SIGN_BIT
}

/// The magnitude (exponent and mantissa) of a double's bit pattern.
pub open spec fn f64_mag(b: u64) -> u64 {
    b & F64_MAG_MASK
}

/// A double is NaN exactly when its magnitude bits exceed those of infinity.
pub open spec fn f64_is_nan(b: u64) -> bool {
    f64_mag(b) > F64_INF_BITS
}

/// A double is zero exactly when its magnitude bits are all zero; the sign
/// is free, so both positive and negative zero satisfy this.
pub open spec fn f64_is_zero(b: u64) -> bool {
    f64_mag(b) == 0
}

/// A double is finite when its magnitude bits fall below those of infinity.
pub open spec fn f64_is_finite(b: u64) -> bool {
    f64_mag(b) < F64_INF_BITS
}

/// A bit pattern with its NaN payload erased: every NaN stands as the
/// canonical quiet NaN, every other value as itself. IEEE-754 determines
/// the value of an arithmetic result exactly, and determines *whether* it
/// is a NaN, but not which NaN; this map is the part that is determined.
pub open spec fn f64_canon(b: u64) -> u64 {
    if f64_is_nan(b) {
        F64_CANON_NAN_BITS
    } else {
        b
    }
}

/// IEEE-754 `<` on doubles, as a function of the bit patterns: false when
/// either side is NaN; the two zeros are equal; otherwise the sign decides,
/// and within one sign the magnitude bits order the values (for equal signs
/// the format makes the bit order agree with the numeric order).
pub open spec fn f64_lt(a: u64, b: u64) -> bool {
    &&& !f64_is_nan(a)
    &&& !f64_is_nan(b)
    &&& if f64_sign(a) && !f64_sign(b) {
        !(f64_is_zero(a) && f64_is_zero(b))
    } else if !f64_sign(a) && f64_sign(b) {
        false
    } else if !f64_sign(a) {
        f64_mag(a) < f64_mag(b)
    } else {
        f64_mag(b) < f64_mag(a)
    }
}

/// IEEE-754 `==` on doubles: false when either side is NaN, true for the two
/// zeros, and otherwise exactly bit equality.
pub open spec fn f64_eq(a: u64, b: u64) -> bool {
    &&& !f64_is_nan(a)
    &&& !f64_is_nan(b)
    &&& (a == b || (f64_is_zero(a) && f64_is_zero(b)))
}

/// IEEE-754 `<=` on doubles.
pub open spec fn f64_le(a: u64, b: u64) -> bool {
    f64_lt(a, b) || f64_eq(a, b)
}

/// The IEEE-754 order is asymmetric: a strictly smaller value is neither
/// greater than nor equal to the larger one.
pub proof fn lemma_f64_order_asym(a: u64, b: u64)
    ensures
        f64_lt(a, b) ==> !f64_le(b, a),
{
}

/// The IEEE-754 order is transitive across `<=` and `<`.
pub proof fn lemma_f64_order_trans(a: u64, b: u64, c: u64)
    ensures
        f64_le(a, b) && f64_lt(b, c) ==> f64_lt(a, c),
{
}

/// The IEEE-754 `<=` is transitive.
pub proof fn lemma_f64_le_trans(a: u64, b: u64, c: u64)
    ensures
        f64_le(a, b) && f64_le(b, c) ==> f64_le(a, c),
{
}

/// Equal values bound the same values.
pub proof fn lemma_f64_eq_le(a: u64, b: u64, c: u64)
    ensures
        f64_eq(a, b) && f64_le(b, c) ==> f64_le(a, c),
        f64_eq(a, b) && f64_le(c, b) ==> f64_le(c, a),
{
}

/// A word is identified by its sign bit together with its magnitude bits.
pub proof fn lemma_f64_sign_mag_identify(a: u64, b: u64)
    ensures
        (f64_sign(a) == f64_sign(b) && f64_mag(a) == f64_mag(b)) ==> a == b,
{
    assert(((a >= 0x8000_0000_0000_0000u64) == (b >= 0x8000_0000_0000_0000u64) && (a
        & 0x7FFF_FFFF_FFFF_FFFFu64) == (b & 0x7FFF_FFFF_FFFF_FFFFu64)) ==> a == b)
        by (bit_vector);
}

/// Two values that are not NaN always compare: one is less, or they are
/// equal.
pub proof fn lemma_f64_total(a: u64, b: u64)
    ensures
        !f64_is_nan(a) && !f64_is_nan(b) ==> f64_lt(a, b) || f64_eq(a, b) || f64_lt(b, a),
{
    lemma_f64_sign_mag_identify(a, b);
}

impl Real {
    /// Reassemble a sample from a raw bit pattern.
    pub fn from_bits(bits: u64) -> (r: Real)
        ensures
            r.bits == bits,
    {
        Real { bits }
    }

    /// The raw bit pattern of the sample.
    pub fn to_bits(self) -> (r: u64)
        ensures
            r == self.bits,
    {
        self.bits
    }

    /// `<` on samples, with IEEE-754 semantics.
    pub fn lt(self, other: Real) -> (r: bool)
        ensures
            r == f64_lt(self.bits, other.bits),
    {
        let ma = self.bits & F64_MAG_MASK;
        let mb = other.bits & F64_MAG_MASK;
        if ma > F64_INF_BITS || mb > F64_INF_BITS {
            false
        } else if self.bits >= F64_SIGN_BIT && other.bits < F64_SIGN_BIT {
            !(ma == 0 && mb == 0)
        } else if self.bits < F64_SIGN_BIT && other.bits >= F64_SIGN_BIT {
            false
        } else if self.bits < F64_SIGN_BIT {
            ma < mb
        } else {
            mb < ma
        }
    }

    /// `<=` on samples, with IEEE-754 semantics.
    pub fn le(self, other: Real) -> (r: bool)
        ensures
            r == f64_le(self.bits, other.bits),
    {
        self.lt(other) || self.eq_ieee(other)
    }

    /// `==` on samples, with IEEE-754 semantics (distinct from `==` on the
    /// struct, which compares the bits and so tells the two zeros apart).
    pub fn eq_ieee(self, other: Real) -> (r: bool)
        ensures
            r == f64_eq(self.bits, other.bits),
    {
        let ma = self.bits & F64_MAG_MASK;
        let mb = other.bits & F64_MAG_MASK;
        if ma > F64_INF_BITS || mb > F64_INF_BITS {
            false
        } else {
            self.bits == other.bits || (ma == 0 && mb == 0)
        }
    }

    /// Whether the sample compares equal to zero.
    pub fn is_zero(self) -> (r: bool)
        ensures
            r == f64_is_zero(self.bits),
    {
        self.bits & F64_MAG_MASK == 0
    }
}

/// The canonicalized bits of the sum of two doubles, as a function of the
/// operand bits: the correctly rounded IEEE-754 sum where that sum is not a
/// NaN, and the canonical quiet NaN where it is (the payload of a NaN
/// produced by arithmetic is not specified, so only the canonicalized
/// result is a function of the operands).
pub uninterp spec fn add_bits(a: u64, b: u64) -> u64;

/// The canonicalized bits of the difference of two doubles.
pub uninterp spec fn sub_bits(a: u64, b: u64) -> u64;

/// The canonicalized bits of the product of two doubles.
pub uninterp spec fn mul_bits(a: u64, b: u64) -> u64;

/// The canonicalized bits of the quotient of two doubles.
pub uninterp spec fn div_bits(a: u64, b: u64) -> u64;

/// The canonicalized bits of the square root of a double.
pub uninterp spec fn sqrt_bits(a: u64) -> u64;

/// The canonicalized bits of the least non-negative remainder of two
/// doubles.
pub uninterp spec fn rem_euclid_bits(a: u64, b: u64) -> u64;

/// The bits of the double nearest to a machine word count.
pub uninterp spec fn usize_bits(n: usize) -> u64;

/// Erase a NaN payload: a NaN becomes the canonical quiet NaN, every
/// other value stays itself.
pub(crate) fn canon_nan(x: Real) -> (r: Real)
    ensures
        r.bits == f64_canon(x.bits),
{
    if x.bits & F64_MAG_MASK > F64_INF_BITS {
        Real { bits: F64_CANON_NAN_BITS }
    } else {
        x
    }
}

/// Relies on IEEE-754 double addition (`+` on the standard double type);
/// `bytemuck::cast` reinterprets between the stored bit pattern and the
/// floating-point value. A non-NaN sum is correctly rounded from the
/// operands alone, and whether the sum is a NaN depends on the operands
/// alone, so the sum's canonicalized bits are the pure function of the
/// operand bits named `add_bits`; the payload of a NaN sum is unspecified
/// and nothing is claimed of it.
#[verifier::external_body]
fn f_add_raw(a: Real, b: Real) -> (r: Real)
    ensures
        f64_canon(r.bits) == add_bits(a.bits, b.bits),
{
    let v = num::complex::Complex64::new(bytemuck::cast(a.bits), bytemuck::cast(b.bits));
    Real { bits: (v.re + v.im).to_bits() }
}

/// Addition with the NaN payload of the result erased, so that the result
/// bits are exactly `add_bits` of the operand bits.
pub(crate) fn f_add(a: Real, b: Real) -> (r: Real)
    ensures
        r.bits == add_bits(a.bits, b.bits),
{
    canon_nan(f_add_raw(a, b))
}

/// Relies on IEEE-754 double subtraction, with the claim `f_add_raw` makes
/// for addition.
#[verifier::external_body]
fn f_sub_raw(a: Real, b: Real) -> (r: Real)
    ensures
        f64_canon(r.bits) == sub_bits(a.bits, b.bits),
{
    let v = num::complex::Complex64::new(bytemuck::cast(a.bits), bytemuck::cast(b.bits));
    Real { bits: (v.re - v.im).to_bits() }
}

/// Subtraction with the NaN payload of the result erased.
pub(crate) fn f_sub(a: Real, b: Real) -> (r: Real)
    ensures
        r.bits == sub_bits(a.bits, b.bits),
{
    canon_nan(f_sub_raw(a, b))
}

/// Relies on IEEE-754 double multiplication, with the claim `f_add_raw`
/// makes for addition.
#[verifier::external_body]
fn f_mul_raw(a: Real, b: Real) -> (r: Real)
    ensures
        f64_canon(r.bits) == mul_bits(a.bits, b.bits),
{
    let v = num::complex::Complex64::new(bytemuck::cast(a.bits), bytemuck::cast(b.bits));
    Real { bits: (v.re * v.im).to_bits() }
}

/// Multiplication with the NaN payload of the result erased.
pub(crate) fn f_mul(a: Real, b: Real) -> (r: Real)
    ensures
        r.bits == mul_bits(a.bits, b.bits),
{
    canon_nan(f_mul_raw(a, b))
}

/// Relies on IEEE-754 double division, with the claim `f_add_raw` makes
/// for addition; a zero divisor yields an infinity or NaN, never a fault.
#[verifier::external_body]
fn f_div_raw(a: Real, b: Real) -> (r: Real)
    ensures
        f64_canon(r.bits) == div_bits(a.bits, b.bits),
{
    let v = num::complex::Complex64::new(bytemuck::cast(a.bits), bytemuck::cast(b.bits));
    Real { bits: (v.re / v.im).to_bits() }
}

/// Division with the NaN payload of the result erased.
pub(crate) fn f_div(a: Real, b: Real) -> (r: Real)
    ensures
        r.bits == div_bits(a.bits, b.bits),
{
    canon_nan(f_div_raw(a, b))
}

/// Relies on the standard double square root: correctly rounded for
/// non-negative arguments, and a NaN of unspecified payload for negative
/// ones, so only the canonicalized result is claimed.
#[verifier::external_body]
fn f_sqrt_raw(a: Real) -> (r: Real)
    ensures
        f64_canon(r.bits) == sqrt_bits(a.bits),
{
    let v = num::complex::Complex64::new(bytemuck::cast(a.bits), bytemuck::cast(a.bits));
    Real { bits: v.re.sqrt().to_bits() }
}

/// The square root with the NaN payload of the result erased.
pub(crate) fn f_sqrt(a: Real) -> (r: Real)
    ensures
        r.bits == sqrt_bits(a.bits),
{
    canon_nan(f_sqrt_raw(a))
}

/// Relies on the standard double `min`: with a NaN it returns the other
/// argument, of the two zeros it may return either, and otherwise it
/// returns the lesser value.
#[verifier::external_body]
pub(crate) fn f_min(a: Real, b: Real) -> (r: Real)
    ensures
        f64_is_nan(a.bits) && !f64_is_nan(b.bits) ==> r == b,
        !f64_is_nan(a.bits) && f64_is_nan(b.bits) ==> r == a,
        f64_is_nan(a.bits) && f64_is_nan(b.bits) ==> f64_is_nan(r.bits),
        f64_is_zero(a.bits) && f64_is_zero(b.bits) ==> (r == a || r == b),
        (!f64_is_nan(a.bits) && !f64_is_nan(b.bits) && !(f64_is_zero(a.bits) && f64_is_zero(
            b.bits,
        ))) ==> r == (if f64_lt(a.bits, b.bits) {
            a
        } else {
            b
        }),
{
    let v = num::complex::Complex64::new(bytemuck::cast(a.bits), bytemuck::cast(b.bits));
    Real { bits: v.re.min(v.im).to_bits() }
}

/// Relies on the standard double `max`, the mirror image of `f_min`.
#[verifier::external_body]
pub(crate) fn f_max(a: Real, b: Real) -> (r: Real)
    ensures
        f64_is_nan(a.bits) && !f64_is_nan(b.bits) ==> r == b,
        !f64_is_nan(a.bits) && f64_is_nan(b.bits) ==> r == a,
        f64_is_nan(a.bits) && f64_is_nan(b.bits) ==> f64_is_nan(r.bits),
        f64_is_zero(a.bits) && f64_is_zero(b.bits) ==> (r == a || r == b),
        (!f64_is_nan(a.bits) && !f64_is_nan(b.bits) && !(f64_is_zero(a.bits) && f64_is_zero(
            b.bits,
        ))) ==> r == (if f64_lt(b.bits, a.bits) {
            a
        } else {
            b
        }),
{
    let v = num::complex::Complex64::new(bytemuck::cast(a.bits), bytemuck::cast(b.bits));
    Real { bits: v.re.max(v.im).to_bits() }
}

/// Relies on the standard double `rem_euclid`, the least non-negative
/// remainder, built from the exact `%`; a zero divisor yields a NaN, never
/// a fault, so only the canonicalized result is claimed.
#[verifier::external_body]
fn f_rem_euclid_raw(a: Real, b: Real) -> (r: Real)
    ensures
        f64_canon(r.bits) == rem_euclid_bits(a.bits, b.bits),
{
    let v = num::complex::Complex64::new(bytemuck::cast(a.bits), bytemuck::cast(b.bits));
    Real { bits: v.re.rem_euclid(v.im).to_bits() }
}

/// The least non-negative remainder with the NaN payload of the result
/// erased.
pub(crate) fn f_rem_euclid(a: Real, b: Real) -> (r: Real)
    ensures
        r.bits == rem_euclid_bits(a.bits, b.bits),
{
    canon_nan(f_rem_euclid_raw(a, b))
}

/// Relies on the standard double cosine. Its precision is unspecified: the
/// result may differ between platforms and even between invocations, so
/// nothing is promised of it; callers treat the returned sample as an
/// arbitrary value.
#[verifier::external_body]
pub(crate) fn f_cos(a: Real) -> Real {
    let v = num::complex::Complex64::new(bytemuck::cast(a.bits), bytemuck::cast(a.bits));
    Real { bits: v.re.cos().to_bits() }
}

/// Relies on num's `FromPrimitive` for doubles, whose `from_usize` always
/// returns the double nearest to `n` (the plain integer-to-double
/// conversion); it never returns `None`.
#[verifier::external_body]
pub(crate) fn f_from_usize(n: usize) -> (r: Real)
    ensures
        r.bits == usize_bits(n),
{
    let v = num::complex::Complex64::new(
        num::FromPrimitive::from_usize(n).unwrap(),
        bytemuck::cast(0u64),
    );
    Real { bits: v.re.to_bits() }
}

} // verus!

use vstd::prelude::*;

verus! {

/// `r` is the integer square root of `x`: the greatest value whose square
/// does not exceed `x`.
pub open spec fn is_isqrt(x: int, r: int) -> bool {
    r >= 0 && r * r <= x && (r + 1) * (r + 1) > x
}

/// An integer square root is no larger than its argument.
pub proof fn lemma_isqrt_le(x: int, r: int)
    requires
        is_isqrt(x, r),
    ensures
        r <= x,
{
    if r >= 1 {
        assert(r <= r * r) by (nonlinear_arith)
            requires
                r >= 1,
        ;
    }
}

/// The integer square root of a machine word, by binary search.
pub fn isqrt_u64(x: u64) -> (r: u64)
    ensures
        is_isqrt(x as int, r as int),
        r <= 0xFFFF_FFFF,
{
    let mut lo: u64 = 0;
    let mut hi: u64 = 0x1_0000_0000;
    while lo + 1 < hi
        invariant
            lo < hi <= 0x1_0000_0000,
            (lo as int) * (lo as int) <= x as int,
            (hi as int) * (hi as int) > x as int,
        decreases hi - lo,
    {
        let mid = lo + (hi - lo) / 2;
        proof {
            assert((mid as int) * (mid as int) < 0x1_0000_0000_0000_0000) by (nonlinear_arith)
                requires
                    mid < 0x1_0000_0000,
            ;
        }
        if mid * mid <= x {
            lo = mid;
        } else {
            hi = mid;
        }
    }
    lo
}

/// The integer square root of a non-negative signed word.
pub fn isqrt_i64(x: i64) -> (r: i64)
    requires
        x >= 0,
    ensures
        is_isqrt(x as int, r as int),
{
    let r = isqrt_u64(x as u64);
    r as i64
}

/// The square root of a single value, with the rounding the element type
/// makes natural; for the integer types it is the greatest root whose
/// square does not exceed the value.
pub trait RadioUnitSqrt<T> {
    /// The square root of the value.
    fn sqrt(&self) -> T;
}

impl RadioUnitSqrt<u8> for u8 {
    fn sqrt(&self) -> (r: u8)
        ensures
            is_isqrt(*self as int, r as int),
    {
        let r = isqrt_u64(*self as u64);
        proof {
            lemma_isqrt_le(*self as int, r as int);
        }
        r as u8
    }
}

impl RadioUnitSqrt<u16> for u16 {
    fn sqrt(&self) -> (r: u16)
        ensures
            is_isqrt(*self as int, r as int),
    {
        let r = isqrt_u64(*self as u64);
        proof {
            lemma_isqrt_le(*self as int, r as int);
        }
        r as u16
    }
}

impl RadioUnitSqrt<u32> for u32 {
    fn sqrt(&self) -> (r: u32)
        ensures
            is_isqrt(*self as int, r as int),
    {
        let r = isqrt_u64(*self as u64);
        proof {
            lemma_isqrt_le(*self as int, r as int);
        }
        r as u32
    }
}

impl RadioUnitSqrt<u64> for u64 {
    fn sqrt(&self) -> (r: u64)
        ensures
            is_isqrt(*self as int, r as int),
    {
        isqrt_u64(*self)
    }
}

impl RadioUnitSqrt<usize> for usize {
    fn sqrt(&self) -> (r: usize)
        ensures
            is_isqrt(*self as int, r as int),
    {
        let r = isqrt_u64(*self as u64);
        proof {
            lemma_isqrt_le(*self as int, r as int);
        }
        r as usize
    }
}

} // verus!

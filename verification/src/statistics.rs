use vstd::prelude::*;

use crate::sqrt::{is_isqrt, isqrt_i64};

verus! {

/// Division rounding towards zero, as the machine division of the element
/// type rounds.
pub open spec fn trunc_div(a: int, b: int) -> int {
    if a >= 0 {
        a / b
    } else {
        -((-a) / b)
    }
}

/// The sum of the first `n` elements, as an unbounded integer.
pub open spec fn spec_i64_sum(s: Seq<i64>, n: int) -> int
    decreases n,
{
    if n <= 0 {
        0
    } else {
        spec_i64_sum(s, n - 1) + s[n - 1]
    }
}

/// Every partial sum of the buffer stays representable in the element
/// type, so the accumulation loop cannot overflow.
pub open spec fn sums_representable(s: Seq<i64>) -> bool {
    forall|k: int| 0 <= k <= s.len() ==> i64::MIN <= #[trigger] spec_i64_sum(s, k) <= i64::MAX
}

/// The mean with the division truncated towards zero.
pub open spec fn spec_mean(s: Seq<i64>) -> int {
    trunc_div(spec_i64_sum(s, s.len() as int), s.len() as int)
}

/// The sum of squared deviations from `m` over the first `n` elements.
pub open spec fn spec_sq_dev_sum(s: Seq<i64>, m: int, n: int) -> int
    decreases n,
{
    if n <= 0 {
        0
    } else {
        spec_sq_dev_sum(s, m, n - 1) + (s[n - 1] - m) * (s[n - 1] - m)
    }
}

/// Every deviation from `m`, its square, and every partial sum of the
/// squares stays representable in the element type.
pub open spec fn sq_devs_representable(s: Seq<i64>, m: int) -> bool {
    &&& forall|k: int|
        0 <= k < s.len() ==> i64::MIN <= #[trigger] (s[k] - m) <= i64::MAX && i64::MIN <= (s[k] - m)
            * (s[k] - m) <= i64::MAX
    &&& forall|k: int|
        0 <= k <= s.len() ==> i64::MIN <= #[trigger] spec_sq_dev_sum(s, m, k) <= i64::MAX
}

/// The population variance with both divisions truncated towards zero.
pub open spec fn spec_var(s: Seq<i64>) -> int {
    trunc_div(spec_sq_dev_sum(s, spec_mean(s), s.len() as int), s.len() as int)
}

/// A sum of squared deviations is never negative.
pub proof fn lemma_sq_dev_sum_nonneg(s: Seq<i64>, m: int, n: int)
    ensures
        spec_sq_dev_sum(s, m, n) >= 0,
    decreases n,
{
    if n > 0 {
        lemma_sq_dev_sum_nonneg(s, m, n - 1);
        let d = s[n - 1] - m;
        assert(d * d >= 0) by (nonlinear_arith);
    }
}

/// Order statistics and moments of an integer buffer.
pub trait YttriaVectorStatistics: View<V = Seq<i64>> {
    /// The least element.
    fn min(&self) -> (r: i64)
        requires
            self@.len() >= 1,
        ensures
            self@.contains(r),
            forall|i: int| 0 <= i < self@.len() ==> r <= self@[i],
    ;

    /// The greatest element.
    fn max(&self) -> (r: i64)
        requires
            self@.len() >= 1,
        ensures
            self@.contains(r),
            forall|i: int| 0 <= i < self@.len() ==> r >= self@[i],
    ;

    /// The least and the greatest element, in one pass.
    fn extremes(&self) -> (r: (i64, i64))
        requires
            self@.len() >= 1,
        ensures
            self@.contains(r.0),
            forall|i: int| 0 <= i < self@.len() ==> r.0 <= self@[i],
            self@.contains(r.1),
            forall|i: int| 0 <= i < self@.len() ==> r.1 >= self@[i],
    ;

    /// The mean, with the division truncated towards zero.
    fn mean(&self) -> (r: i64)
        requires
            self@.len() >= 1,
            self@.len() <= i64::MAX,
            sums_representable(self@),
        ensures
            r as int == spec_mean(self@),
    ;

    /// The population variance about the truncated mean.
    fn var(&self) -> (r: i64)
        requires
            self@.len() >= 1,
            self@.len() <= i64::MAX,
            sums_representable(self@),
            sq_devs_representable(self@, spec_mean(self@)),
        ensures
            r as int == spec_var(self@),
    ;

    /// The standard deviation: the integer square root of the variance.
    fn std_dev(&self) -> (r: i64)
        requires
            self@.len() >= 1,
            self@.len() <= i64::MAX,
            sums_representable(self@),
            sq_devs_representable(self@, spec_mean(self@)),
        ensures
            is_isqrt(spec_var(self@), r as int),
    ;
}

impl YttriaVectorStatistics for Vec<i64> {
    fn min(&self) -> (r: i64) {
        let n = self.len();
        let mut low = self[0];
        for i in 1..n
            invariant
                n == self@.len(),
                n >= 1,
                exists|j: int| 0 <= j < i && self@[j] == low,
                forall|j: int| 0 <= j < i ==> low <= self@[j],
        {
            low = if self[i] < low {
                self[i]
            } else {
                low
            };
        }
        low
    }

    fn max(&self) -> (r: i64) {
        let n = self.len();
        let mut high = self[0];
        for i in 1..n
            invariant
                n == self@.len(),
                n >= 1,
                exists|j: int| 0 <= j < i && self@[j] == high,
                forall|j: int| 0 <= j < i ==> high >= self@[j],
        {
            high = if self[i] > high {
                self[i]
            } else {
                high
            };
        }
        high
    }

    fn extremes(&self) -> (r: (i64, i64)) {
        let n = self.len();
        let mut low = self[0];
        let mut high = self[0];
        for i in 1..n
            invariant
                n == self@.len(),
                n >= 1,
                exists|j: int| 0 <= j < i && self@[j] == low,
                forall|j: int| 0 <= j < i ==> low <= self@[j],
                exists|j: int| 0 <= j < i && self@[j] == high,
                forall|j: int| 0 <= j < i ==> high >= self@[j],
        {
            low = if self[i] < low {
                self[i]
            } else {
                low
            };
            high = if self[i] > high {
                self[i]
            } else {
                high
            };
        }
        (low, high)
    }

    fn mean(&self) -> (r: i64) {
        let n = self.len();
        let mut acc: i64 = 0;
        for i in 0..n
            invariant
                n == self@.len(),
                n <= i64::MAX,
                sums_representable(self@),
                acc as int == spec_i64_sum(self@, i as int),
        {
            proof {
                assert(i64::MIN <= spec_i64_sum(self@, i as int + 1) <= i64::MAX);
            }
            acc = acc + self[i];
        }
        acc / (n as i64)
    }

    fn var(&self) -> (r: i64) {
        let n = self.len();
        let m = self.mean();
        let mut acc: i64 = 0;
        for i in 0..n
            invariant
                n == self@.len(),
                n <= i64::MAX,
                m as int == spec_mean(self@),
                sq_devs_representable(self@, spec_mean(self@)),
                acc as int == spec_sq_dev_sum(self@, m as int, i as int),
        {
            proof {
                assert(i64::MIN <= spec_sq_dev_sum(self@, m as int, i as int + 1) <= i64::MAX);
                assert(i64::MIN <= self@[i as int] - m as int <= i64::MAX);
            }
            let d = self[i] - m;
            acc = acc + d * d;
        }
        acc / (n as i64)
    }

    fn std_dev(&self) -> (r: i64) {
        let v = self.var();
        proof {
            lemma_sq_dev_sum_nonneg(self@, spec_mean(self@), self@.len() as int);
        }
        isqrt_i64(v)
    }
}

} // verus!

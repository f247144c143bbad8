//! Overlap metrics between hotspots of one representation, as exact ratios
//! of integer areas.
use vstd::prelude::*;

use vstd::arithmetic::mul::lemma_mul_upper_bound;

use crate::hotspot::{max, min, Rect};

verus! {

/// An exact ratio `numerator / denominator` between two areas.
///
/// Every ratio that this crate returns has a positive denominator and a
/// numerator no larger than it, so its value lies in `[0, 1]`.
#[derive(Debug, Clone, Copy, PartialEq, Eq, Structural)]
pub struct OverlapRatio {
    pub numerator: u64,
    pub denominator: u64,
}

impl View for OverlapRatio {
    type V = (int, int);

    open spec fn view(&self) -> (int, int) {
        (self.numerator as int, self.denominator as int)
    }
}

/// The ratio `num / den` with its zero policy: a zero denominator gives the
/// ratio `0 / 1`.
pub open spec fn fraction(num: int, den: int) -> (int, int) {
    if den == 0 {
        (0, 1)
    } else {
        (num, den)
    }
}

/// The ratio lies in `[0, 1]` and has a positive denominator.
pub open spec fn is_unit_fraction(f: (int, int)) -> bool {
    0 <= f.0 <= f.1 && 0 < f.1
}

/// The larger of two ratios with positive denominators; `p` when they are
/// equal.
pub open spec fn max_fraction(p: (int, int), q: (int, int)) -> (int, int) {
    if q.0 * p.1 <= p.0 * q.1 {
        p
    } else {
        q
    }
}

/// The length shared by the intervals `[lo_a, hi_a]` and `[lo_b, hi_b]`:
/// zero when they do not meet.
pub open spec fn shared_length(lo_a: int, hi_a: int, lo_b: int, hi_b: int) -> int {
    let len = min(hi_a, hi_b) - max(lo_a, lo_b);
    if len > 0 {
        len
    } else {
        0
    }
}

impl Rect {
    /// The area that `self` and `other` have in common.
    pub open spec fn intersection_area(self, other: Rect) -> int {
        shared_length(self.x_lo, self.x_hi, other.x_lo, other.x_hi) * shared_length(
            self.y_lo,
            self.y_hi,
            other.y_lo,
            other.y_hi,
        )
    }

    /// The area covered by `self`, `other` or both.
    pub open spec fn union_area(self, other: Rect) -> int {
        self.area() + other.area() - self.intersection_area(other)
    }

    /// The interiors of `self` and `other` do not meet.
    pub open spec fn disjoint(self, other: Rect) -> bool {
        ||| min(self.x_hi, other.x_hi) <= max(self.x_lo, other.x_lo)
        ||| min(self.y_hi, other.y_hi) <= max(self.y_lo, other.y_lo)
    }
}

/// Intersection over union of `a` and `b`; zero when the union is empty.
pub open spec fn overlap_fraction(a: Rect, b: Rect) -> (int, int) {
    fraction(a.intersection_area(b), a.union_area(b))
}

/// The share of `a`'s area that `b` covers; zero when `a` has no area.
pub open spec fn overlap_in_fraction(a: Rect, b: Rect) -> (int, int) {
    fraction(a.intersection_area(b), a.area())
}

/// The intersection of two well-formed rectangles is no larger than either.
pub proof fn lemma_intersection_bounded(a: Rect, b: Rect)
    requires
        a.wf(),
        b.wf(),
    ensures
        0 <= a.intersection_area(b) <= a.area(),
        a.intersection_area(b) <= b.area(),
        0 <= a.area(),
        0 <= b.area(),
        a.disjoint(b) ==> a.intersection_area(b) == 0,
{
    let w = shared_length(a.x_lo, a.x_hi, b.x_lo, b.x_hi);
    let h = shared_length(a.y_lo, a.y_hi, b.y_lo, b.y_hi);
    lemma_mul_upper_bound(w, a.width(), h, a.height());
    lemma_mul_upper_bound(w, b.width(), h, b.height());
    lemma_mul_upper_bound(0, w, 0, h);
    lemma_mul_upper_bound(0, a.width(), 0, a.height());
    lemma_mul_upper_bound(0, b.width(), 0, b.height());
    if a.disjoint(b) {
        assert(w == 0 || h == 0);
        assert(w * h == 0) by (nonlinear_arith)
            requires
                w == 0 || h == 0,
        ;
    }
}

/// Length shared by two intervals of scalars.
pub(crate) fn shared_span(lo_a: u16, hi_a: u16, lo_b: u16, hi_b: u16) -> (r: u32)
    ensures
        r == shared_length(lo_a as int, hi_a as int, lo_b as int, hi_b as int),
        r <= u16::MAX,
{
    let hi = if hi_a < hi_b {
        hi_a
    } else {
        hi_b
    };
    let lo = if lo_a > lo_b {
        lo_a
    } else {
        lo_b
    };
    (hi as u32).saturating_sub(lo as u32)
}

} // verus!

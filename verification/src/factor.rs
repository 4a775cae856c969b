//! Exact fractions that scale screen coordinates, and points of the unit square.

use vstd::prelude::*;
use vstd::arithmetic::div_mod::lemma_fundamental_div_mod;
use crate::geometry::{Point, Rect, ScreenCoord};

verus! {

/// A non-negative factor, held as a fraction of two integers.
///
/// A denominator of zero is read as one, so every value of the type is a factor.
#[derive(Clone, Copy, Debug, PartialEq, Eq, Structural)]
pub struct ScreenFactor {
    /// The numerator.
    pub num: u16,
    /// The denominator; zero counts as one.
    pub den: u16,
}

impl ScreenFactor {
    /// The denominator that the factor divides by.
    pub open spec fn divisor(self) -> int {
        if self.den == 0 {
            1
        } else {
            self.den as int
        }
    }

    /// The coordinate `c` times this factor, rounded down and stopped at the
    /// largest coordinate.
    pub open spec fn spec_scale(self, c: ScreenCoord) -> ScreenCoord {
        let q = (c * self.num) / self.divisor();
        if q > 255 {
            255
        } else {
            q as ScreenCoord
        }
    }

    /// The fraction `num / den`.
    pub fn new(num: u16, den: u16) -> (f: ScreenFactor)
        ensures
            f == (ScreenFactor { num, den }),
    {
        ScreenFactor { num, den }
    }

    /// The whole number `n`.
    pub fn whole(n: u16) -> (f: ScreenFactor)
        ensures
            f == (ScreenFactor { num: n, den: 1 }),
    {
        ScreenFactor { num: n, den: 1 }
    }

    /// The factor one.
    pub open spec fn spec_one() -> ScreenFactor {
        ScreenFactor { num: 1, den: 1 }
    }

    /// The factor one.
    #[verifier::when_used_as_spec(spec_one)]
    pub fn one() -> (f: ScreenFactor)
        ensures
            f == ScreenFactor::spec_one(),
    {
        ScreenFactor { num: 1, den: 1 }
    }

    /// Scales a coordinate by this factor: the product is rounded down and
    /// stops at the largest coordinate.
    #[verifier::when_used_as_spec(spec_scale)]
    pub fn scale(self, c: ScreenCoord) -> (r: ScreenCoord)
        ensures
            r == self.spec_scale(c),
    {
        let den: u32 = if self.den == 0 {
            1
        } else {
            self.den as u32
        };
        assert(c * self.num <= 255 * 65535) by (nonlinear_arith)
            requires
                c <= 255,
                self.num <= 65535,
        ;
        let product: u32 = c as u32 * self.num as u32;
        let q: u32 = product / den;
        if q > 255 {
            255
        } else {
            q as ScreenCoord
        }
    }
}

/// A representation of a point relative to a unit rectangle.
#[derive(Clone, Copy, Debug, PartialEq, Eq, Structural)]
pub struct UnitPoint {
    /// The horizontal fraction: 0 is the left edge, 1 the right edge.
    pub u: ScreenFactor,
    /// The vertical fraction: 0 is the top edge, 1 the bottom edge.
    pub v: ScreenFactor,
}

/// The fraction 0.
pub open spec fn frac_zero() -> ScreenFactor {
    ScreenFactor { num: 0, den: 1 }
}

/// The fraction 1/2.
pub open spec fn frac_half() -> ScreenFactor {
    ScreenFactor { num: 1, den: 2 }
}

/// The fraction 1.
pub open spec fn frac_one() -> ScreenFactor {
    ScreenFactor { num: 1, den: 1 }
}

impl UnitPoint {
    /// Create a new UnitPoint.
    ///
    /// The `u` and `v` coordinates describe the point, with (0, 0) being
    /// the top-left, and (1, 1) being the bottom-right.
    pub fn new(u: ScreenFactor, v: ScreenFactor) -> (p: UnitPoint)
        ensures
            p == (UnitPoint { u, v }),
    {
        UnitPoint { u, v }
    }

    /// The top-left corner.
    pub fn top_left() -> (p: UnitPoint)
        ensures
            p == (UnitPoint { u: frac_zero(), v: frac_zero() }),
    {
        UnitPoint { u: ScreenFactor { num: 0, den: 1 }, v: ScreenFactor { num: 0, den: 1 } }
    }

    /// The middle of the top edge.
    pub fn top() -> (p: UnitPoint)
        ensures
            p == (UnitPoint { u: frac_half(), v: frac_zero() }),
    {
        UnitPoint { u: ScreenFactor { num: 1, den: 2 }, v: ScreenFactor { num: 0, den: 1 } }
    }

    /// The top-right corner.
    pub fn top_right() -> (p: UnitPoint)
        ensures
            p == (UnitPoint { u: frac_one(), v: frac_zero() }),
    {
        UnitPoint { u: ScreenFactor { num: 1, den: 1 }, v: ScreenFactor { num: 0, den: 1 } }
    }

    /// The middle of the left edge.
    pub fn left() -> (p: UnitPoint)
        ensures
            p == (UnitPoint { u: frac_zero(), v: frac_half() }),
    {
        UnitPoint { u: ScreenFactor { num: 0, den: 1 }, v: ScreenFactor { num: 1, den: 2 } }
    }

    /// The center.
    pub open spec fn spec_center() -> UnitPoint {
        UnitPoint { u: frac_half(), v: frac_half() }
    }

    /// The center.
    #[verifier::when_used_as_spec(spec_center)]
    pub fn center() -> (p: UnitPoint)
        ensures
            p == UnitPoint::spec_center(),
    {
        UnitPoint { u: ScreenFactor { num: 1, den: 2 }, v: ScreenFactor { num: 1, den: 2 } }
    }

    /// The middle of the right edge.
    pub fn right() -> (p: UnitPoint)
        ensures
            p == (UnitPoint { u: frac_one(), v: frac_half() }),
    {
        UnitPoint { u: ScreenFactor { num: 1, den: 1 }, v: ScreenFactor { num: 1, den: 2 } }
    }

    /// The bottom-left corner.
    pub fn bottom_left() -> (p: UnitPoint)
        ensures
            p == (UnitPoint { u: frac_zero(), v: frac_one() }),
    {
        UnitPoint { u: ScreenFactor { num: 0, den: 1 }, v: ScreenFactor { num: 1, den: 1 } }
    }

    /// The middle of the bottom edge.
    pub fn bottom() -> (p: UnitPoint)
        ensures
            p == (UnitPoint { u: frac_half(), v: frac_one() }),
    {
        UnitPoint { u: ScreenFactor { num: 1, den: 2 }, v: ScreenFactor { num: 1, den: 1 } }
    }

    /// The bottom-right corner.
    pub fn bottom_right() -> (p: UnitPoint)
        ensures
            p == (UnitPoint { u: frac_one(), v: frac_one() }),
    {
        UnitPoint { u: ScreenFactor { num: 1, den: 1 }, v: ScreenFactor { num: 1, den: 1 } }
    }

    /// The point of `rect` that this unit point stands for: on each axis the
    /// near edge plus the extent times the fraction.
    pub open spec fn spec_resolve(&self, rect: Rect) -> Point {
        Point {
            x: rect.x0.saturating_add(self.u.spec_scale(rect.x1.saturating_sub(rect.x0))),
            y: rect.y0.saturating_add(self.v.spec_scale(rect.y1.saturating_sub(rect.y0))),
        }
    }

    /// Given a rectangle, resolve the point within the rectangle.
    #[verifier::when_used_as_spec(spec_resolve)]
    pub fn resolve(&self, rect: Rect) -> (p: Point)
        ensures
            p == self.spec_resolve(rect),
    {
        Point {
            x: rect.x0.saturating_add(self.u.scale(rect.x1.saturating_sub(rect.x0))),
            y: rect.y0.saturating_add(self.v.scale(rect.y1.saturating_sub(rect.y0))),
        }
    }
}

/// Scaling by one half halves a coordinate, rounding down; scaling by one
/// keeps it and scaling by zero gives zero.
pub proof fn lemma_scale_simple_fractions(c: ScreenCoord)
    ensures
        frac_half().spec_scale(c) == c / 2,
        frac_one().spec_scale(c) == c,
        frac_zero().spec_scale(c) == 0,
{
    assert(c * 1 == c);
    assert(c * 0 == 0);
}

/// A factor that is at most one never enlarges a coordinate.
pub proof fn lemma_scale_at_most_one(f: ScreenFactor, c: ScreenCoord)
    requires
        f.num <= f.divisor(),
    ensures
        f.spec_scale(c) <= c,
{
    let d = f.divisor();
    let p = c * f.num;
    assert(p <= c * d) by (nonlinear_arith)
        requires
            p == c * f.num,
            f.num <= d,
            c >= 0,
    ;
    lemma_fundamental_div_mod(p, d);
    assert(p / d <= c) by (nonlinear_arith)
        requires
            p == d * (p / d) + p % d,
            0 <= p % d < d,
            p <= c * d,
            d > 0,
    ;
}

} // verus!

//! Exact rational values produced by the camera transforms.
//!
//! A screen pixel maps to a world position that is a ratio of integers
//! (the screen dimensions divide the zoomed extent), so the transforms
//! return a `Frac` — an exact numerator/denominator pair — instead of a
//! rounded value.  Two fractions are compared by cross-multiplication.

use vstd::prelude::*;

verus! {

/// An exact rational number `num / den` with a positive denominator.
#[derive(Clone, Copy, Debug, PartialEq, Eq, Structural)]
pub struct Frac {
    pub num: i128,
    pub den: i128,
}

/// The rational pairs `(num, den)` denote the same number, stated by
/// cross-multiplication; meaningful when both denominators are nonzero.
pub open spec fn rat_eqv(a: (int, int), b: (int, int)) -> bool {
    a.0 * b.1 == b.0 * a.1
}

/// `a + b` on rational pairs `(num, den)`.
pub open spec fn rat_add(a: (int, int), b: (int, int)) -> (int, int) {
    (a.0 * b.1 + b.0 * a.1, a.1 * b.1)
}

/// `a - b` on rational pairs `(num, den)`.
pub open spec fn rat_sub(a: (int, int), b: (int, int)) -> (int, int) {
    (a.0 * b.1 - b.0 * a.1, a.1 * b.1)
}

/// `a * b` on rational pairs `(num, den)`.
pub open spec fn rat_mul(a: (int, int), b: (int, int)) -> (int, int) {
    (a.0 * b.0, a.1 * b.1)
}

impl Frac {
    /// The fraction as a rational pair of mathematical integers.
    pub open spec fn ratio(self) -> (int, int) {
        (self.num as int, self.den as int)
    }

    /// The denominator is positive.
    pub open spec fn wf(self) -> bool {
        self.den > 0
    }

    /// Wraps a numerator and a positive denominator.
    pub fn new(num: i128, den: i128) -> (r: Frac)
        requires
            den > 0,
        ensures
            r.num == num,
            r.den == den,
            r.wf(),
    {
        Frac { num, den }
    }

    /// Whether two fractions denote the same rational number, decided
    /// exactly by cross-multiplication.
    pub fn eq_frac(&self, other: &Frac) -> (r: bool)
        requires
            self.wf(),
            other.wf(),
            -0x7fff_ffff_ffff_ffff_ffff_ffff_ffff_ffff
                <= self.num * other.den
                <= 0x7fff_ffff_ffff_ffff_ffff_ffff_ffff_ffff,
            -0x7fff_ffff_ffff_ffff_ffff_ffff_ffff_ffff
                <= other.num * self.den
                <= 0x7fff_ffff_ffff_ffff_ffff_ffff_ffff_ffff,
        ensures
            r == rat_eqv(self.ratio(), other.ratio()),
    {
        self.num * other.den == other.num * self.den
    }
}

/// A 2-D world-space position in exact rational coordinates.
#[derive(Clone, Copy, Debug, PartialEq, Eq, Structural)]
pub struct FracVec {
    pub x: Frac,
    pub y: Frac,
}

} // verus!

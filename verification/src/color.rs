//! Three-component colors over one shared positive denominator.
//!
//! Channel values are unconstrained: they may exceed one or go negative.
//! Clamping to the displayable range happens only at encode time.

use vstd::prelude::*;
use crate::scalar::Scalar;
use crate::scalar::VALUE_LIMIT;
use crate::util::lemma_prod_bound;
use crate::util::rat_approx;

verus! {

/// A color `(r, g, b) / den` with `den > 0`.
#[derive(Clone, Copy, Debug, PartialEq, Eq, Structural)]
pub struct Color {
    pub r: i128,
    pub g: i128,
    pub b: i128,
    pub den: i128,
}

impl Color {
    /// A color is well formed when its shared denominator is positive.
    pub open spec fn wf(self) -> bool {
        0 < self.den
    }

    /// All numerators and the denominator are no larger in magnitude than `b`.
    pub open spec fn bounded(self, b: int) -> bool {
        &&& -b <= self.r <= b
        &&& -b <= self.g <= b
        &&& -b <= self.b <= b
        &&& self.den <= b
    }

    /// Channel-wise equality within the epsilon tolerance.
    pub open spec fn approx(self, other: Color) -> bool {
        &&& rat_approx(self.r as int, self.den as int, other.r as int, other.den as int)
        &&& rat_approx(self.g as int, self.den as int, other.g as int, other.den as int)
        &&& rat_approx(self.b as int, self.den as int, other.b as int, other.den as int)
    }

    /// Construct the color `(r, g, b) / den`.
    pub fn new(r: i128, g: i128, b: i128, den: i128) -> (c: Color)
        requires
            0 < den,
        ensures
            c == (Color { r, g, b, den }),
            c.wf(),
    {
        Color { r, g, b, den }
    }

    /// The color black: all channels zero.
    pub fn new_black() -> (c: Color)
        ensures
            c == (Color { r: 0, g: 0, b: 0, den: 1 }),
            c.wf(),
    {
        Color { r: 0, g: 0, b: 0, den: 1 }
    }

    /// Whether `self` and `other` are equal channel-wise within the epsilon.
    pub fn approx_eq(&self, other: &Color) -> (res: bool)
        requires
            self.wf(),
            other.wf(),
            self.bounded(VALUE_LIMIT as int),
            other.bounded(VALUE_LIMIT as int),
        ensures
            res == self.approx(*other),
    {
        let sr = Scalar { num: self.r, den: self.den };
        let or = Scalar { num: other.r, den: other.den };
        let sg = Scalar { num: self.g, den: self.den };
        let og = Scalar { num: other.g, den: other.den };
        let sb = Scalar { num: self.b, den: self.den };
        let ob = Scalar { num: other.b, den: other.den };
        crate::util::approx_equal(&sr, &or) && crate::util::approx_equal(&sg, &og)
            && crate::util::approx_equal(&sb, &ob)
    }

    /// Channel-wise sum.
    pub fn add(&self, other: &Color) -> (c: Color)
        requires
            self.wf(),
            other.wf(),
            self.bounded(VALUE_LIMIT as int),
            other.bounded(VALUE_LIMIT as int),
        ensures
            c.wf(),
            c.den == self.den * other.den,
            c.r == self.r * other.den + other.r * self.den,
            c.g == self.g * other.den + other.g * self.den,
            c.b == self.b * other.den + other.b * self.den,
    {
        proof {
            lemma_color_prods(*self, *other);
        }
        Color {
            r: self.r * other.den + other.r * self.den,
            g: self.g * other.den + other.g * self.den,
            b: self.b * other.den + other.b * self.den,
            den: self.den * other.den,
        }
    }

    /// Channel-wise difference.
    pub fn sub(&self, other: &Color) -> (c: Color)
        requires
            self.wf(),
            other.wf(),
            self.bounded(VALUE_LIMIT as int),
            other.bounded(VALUE_LIMIT as int),
        ensures
            c.wf(),
            c.den == self.den * other.den,
            c.r == self.r * other.den - other.r * self.den,
            c.g == self.g * other.den - other.g * self.den,
            c.b == self.b * other.den - other.b * self.den,
    {
        proof {
            lemma_color_prods(*self, *other);
        }
        Color {
            r: self.r * other.den - other.r * self.den,
            g: self.g * other.den - other.g * self.den,
            b: self.b * other.den - other.b * self.den,
            den: self.den * other.den,
        }
    }

    /// Multiplication by a scalar, channel-wise.
    pub fn scale(&self, s: &Scalar) -> (c: Color)
        requires
            self.wf(),
            s.wf(),
            self.bounded(VALUE_LIMIT as int),
            s.bounded(VALUE_LIMIT as int),
        ensures
            c.wf(),
            c.den == self.den * s.den,
            c.r == self.r * s.num,
            c.g == self.g * s.num,
            c.b == self.b * s.num,
    {
        proof {
            let l = VALUE_LIMIT as int;
            lemma_prod_bound(self.r as int, s.num as int, l, l);
            lemma_prod_bound(self.g as int, s.num as int, l, l);
            lemma_prod_bound(self.b as int, s.num as int, l, l);
            lemma_prod_bound(self.den as int, s.den as int, l, l);
        }
        Color { r: self.r * s.num, g: self.g * s.num, b: self.b * s.num, den: self.den * s.den }
    }

    /// Hadamard product: channel-wise multiplication.
    pub fn hadamard(&self, other: &Color) -> (c: Color)
        requires
            self.wf(),
            other.wf(),
            self.bounded(VALUE_LIMIT as int),
            other.bounded(VALUE_LIMIT as int),
        ensures
            c.wf(),
            c.den == self.den * other.den,
            c.r == self.r * other.r,
            c.g == self.g * other.g,
            c.b == self.b * other.b,
    {
        proof {
            let l = VALUE_LIMIT as int;
            lemma_prod_bound(self.r as int, other.r as int, l, l);
            lemma_prod_bound(self.g as int, other.g as int, l, l);
            lemma_prod_bound(self.b as int, other.b as int, l, l);
            lemma_prod_bound(self.den as int, other.den as int, l, l);
        }
        Color {
            r: self.r * other.r,
            g: self.g * other.g,
            b: self.b * other.b,
            den: self.den * other.den,
        }
    }
}

/// Products of one color's numerators with another color's denominator stay
/// inside `i128` when both are bounded.
proof fn lemma_color_prods(a: Color, b: Color)
    requires
        a.wf(),
        b.wf(),
        a.bounded(VALUE_LIMIT as int),
        b.bounded(VALUE_LIMIT as int),
    ensures
        -(VALUE_LIMIT * VALUE_LIMIT) <= a.r * b.den <= VALUE_LIMIT * VALUE_LIMIT,
        -(VALUE_LIMIT * VALUE_LIMIT) <= a.g * b.den <= VALUE_LIMIT * VALUE_LIMIT,
        -(VALUE_LIMIT * VALUE_LIMIT) <= a.b * b.den <= VALUE_LIMIT * VALUE_LIMIT,
        -(VALUE_LIMIT * VALUE_LIMIT) <= b.r * a.den <= VALUE_LIMIT * VALUE_LIMIT,
        -(VALUE_LIMIT * VALUE_LIMIT) <= b.g * a.den <= VALUE_LIMIT * VALUE_LIMIT,
        -(VALUE_LIMIT * VALUE_LIMIT) <= b.b * a.den <= VALUE_LIMIT * VALUE_LIMIT,
        0 < a.den * b.den <= VALUE_LIMIT * VALUE_LIMIT,
{
    let l = VALUE_LIMIT as int;
    lemma_prod_bound(a.r as int, b.den as int, l, l);
    lemma_prod_bound(a.g as int, b.den as int, l, l);
    lemma_prod_bound(a.b as int, b.den as int, l, l);
    lemma_prod_bound(b.r as int, a.den as int, l, l);
    lemma_prod_bound(b.g as int, a.den as int, l, l);
    lemma_prod_bound(b.b as int, a.den as int, l, l);
    lemma_prod_bound(a.den as int, b.den as int, l, l);
}

} // verus!

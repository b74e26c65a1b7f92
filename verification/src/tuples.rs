//! Four-component tuples: `w == 1` marks a point, `w == 0` a vector.
//!
//! A tuple stores four rational components over one shared positive
//! denominator: component `x` has the value `x / den`, and so on.

use vstd::prelude::*;
use crate::scalar::Scalar;
use crate::scalar::VALUE_LIMIT;
use crate::util::lemma_prod_bound;
use crate::util::rat_approx;

verus! {

/// A 4-component value `(x, y, z, w) / den` distinguishing points (`w = 1`)
/// from vectors (`w = 0`) by convention; the arithmetic does not enforce the
/// convention.
#[derive(Clone, Copy, Debug, PartialEq, Eq, Structural)]
pub struct Tuple {
    pub x: i128,
    pub y: i128,
    pub z: i128,
    pub w: i128,
    pub den: i128,
}

impl Tuple {
    /// A tuple is well formed when its shared denominator is positive.
    pub open spec fn wf(self) -> bool {
        0 < self.den
    }

    /// All numerators and the denominator are no larger in magnitude than `b`.
    pub open spec fn bounded(self, b: int) -> bool {
        &&& -b <= self.x <= b
        &&& -b <= self.y <= b
        &&& -b <= self.z <= b
        &&& -b <= self.w <= b
        &&& self.den <= b
    }

    /// The rational value of the `w` component equals the integer `v`.
    pub open spec fn w_is(self, v: int) -> bool {
        self.w == v * self.den
    }

    /// Component-wise equality within the epsilon tolerance.
    pub open spec fn approx(self, other: Tuple) -> bool {
        &&& rat_approx(self.x as int, self.den as int, other.x as int, other.den as int)
        &&& rat_approx(self.y as int, self.den as int, other.y as int, other.den as int)
        &&& rat_approx(self.z as int, self.den as int, other.z as int, other.den as int)
        &&& rat_approx(self.w as int, self.den as int, other.w as int, other.den as int)
    }

    /// Whether `self` and `other` are equal component-wise within the epsilon.
    pub fn approx_eq(&self, other: &Tuple) -> (r: bool)
        requires
            self.wf(),
            other.wf(),
            self.bounded(VALUE_LIMIT as int),
            other.bounded(VALUE_LIMIT as int),
        ensures
            r == self.approx(*other),
    {
        let sx = Scalar { num: self.x, den: self.den };
        let ox = Scalar { num: other.x, den: other.den };
        let sy = Scalar { num: self.y, den: self.den };
        let oy = Scalar { num: other.y, den: other.den };
        let sz = Scalar { num: self.z, den: self.den };
        let oz = Scalar { num: other.z, den: other.den };
        let sw = Scalar { num: self.w, den: self.den };
        let ow = Scalar { num: other.w, den: other.den };
        crate::util::approx_equal(&sx, &ox) && crate::util::approx_equal(&sy, &oy)
            && crate::util::approx_equal(&sz, &oz) && crate::util::approx_equal(&sw, &ow)
    }

    /// Component-wise sum: `(a/da) + (b/db) == (a*db + b*da) / (da*db)`.
    pub fn add(&self, other: &Tuple) -> (r: Tuple)
        requires
            self.wf(),
            other.wf(),
            self.bounded(VALUE_LIMIT as int),
            other.bounded(VALUE_LIMIT as int),
        ensures
            r.wf(),
            r.den == self.den * other.den,
            r.x == self.x * other.den + other.x * self.den,
            r.y == self.y * other.den + other.y * self.den,
            r.z == self.z * other.den + other.z * self.den,
            r.w == self.w * other.den + other.w * self.den,
    {
        proof {
            lemma_tuple_prods(*self, *other);
        }
        Tuple {
            x: self.x * other.den + other.x * self.den,
            y: self.y * other.den + other.y * self.den,
            z: self.z * other.den + other.z * self.den,
            w: self.w * other.den + other.w * self.den,
            den: self.den * other.den,
        }
    }

    /// Component-wise difference; subtracting two points yields a vector,
    /// subtracting a vector from a point yields a point.
    pub fn sub(&self, other: &Tuple) -> (r: Tuple)
        requires
            self.wf(),
            other.wf(),
            self.bounded(VALUE_LIMIT as int),
            other.bounded(VALUE_LIMIT as int),
        ensures
            r.wf(),
            r.den == self.den * other.den,
            r.x == self.x * other.den - other.x * self.den,
            r.y == self.y * other.den - other.y * self.den,
            r.z == self.z * other.den - other.z * self.den,
            r.w == self.w * other.den - other.w * self.den,
    {
        proof {
            lemma_tuple_prods(*self, *other);
        }
        Tuple {
            x: self.x * other.den - other.x * self.den,
            y: self.y * other.den - other.y * self.den,
            z: self.z * other.den - other.z * self.den,
            w: self.w * other.den - other.w * self.den,
            den: self.den * other.den,
        }
    }

    /// Component-wise negation.
    pub fn negate(&self) -> (r: Tuple)
        requires
            self.wf(),
            self.bounded(VALUE_LIMIT as int),
        ensures
            r.wf(),
            r.den == self.den,
            r.x == -self.x,
            r.y == -self.y,
            r.z == -self.z,
            r.w == -self.w,
    {
        Tuple { x: -self.x, y: -self.y, z: -self.z, w: -self.w, den: self.den }
    }

    /// Multiplication by a scalar, component-wise.
    pub fn scale(&self, s: &Scalar) -> (r: Tuple)
        requires
            self.wf(),
            s.wf(),
            self.bounded(VALUE_LIMIT as int),
            s.bounded(VALUE_LIMIT as int),
        ensures
            r.wf(),
            r.den == self.den * s.den,
            r.x == self.x * s.num,
            r.y == self.y * s.num,
            r.z == self.z * s.num,
            r.w == self.w * s.num,
    {
        proof {
            lemma_scalar_prods(*self, *s);
        }
        Tuple {
            x: self.x * s.num,
            y: self.y * s.num,
            z: self.z * s.num,
            w: self.w * s.num,
            den: self.den * s.den,
        }
    }

    /// Division by a nonzero scalar, component-wise. A zero divisor has no
    /// rational result, so it is excluded here; the caller must test for it.
    pub fn divide(&self, s: &Scalar) -> (r: Tuple)
        requires
            self.wf(),
            s.wf(),
            s.num != 0,
            self.bounded(VALUE_LIMIT as int),
            s.bounded(VALUE_LIMIT as int),
        ensures
            r.wf(),
            s.num > 0 ==> r.den == self.den * s.num && r.x == self.x * s.den && r.y == self.y
                * s.den && r.z == self.z * s.den && r.w == self.w * s.den,
            s.num < 0 ==> r.den == self.den * -s.num && r.x == -(self.x * s.den) && r.y == -(self.y
                * s.den) && r.z == -(self.z * s.den) && r.w == -(self.w * s.den),
    {
        proof {
            lemma_scalar_prods(*self, *s);
            lemma_prod_bound(self.x as int, s.den as int, VALUE_LIMIT as int, VALUE_LIMIT as int);
            lemma_prod_bound(self.y as int, s.den as int, VALUE_LIMIT as int, VALUE_LIMIT as int);
            lemma_prod_bound(self.z as int, s.den as int, VALUE_LIMIT as int, VALUE_LIMIT as int);
            lemma_prod_bound(self.w as int, s.den as int, VALUE_LIMIT as int, VALUE_LIMIT as int);
            lemma_prod_bound(self.den as int, s.num as int, VALUE_LIMIT as int, VALUE_LIMIT as int);
            lemma_prod_bound(self.den as int, -s.num as int, VALUE_LIMIT as int, VALUE_LIMIT as int);
        }
        if s.num > 0 {
            Tuple {
                x: self.x * s.den,
                y: self.y * s.den,
                z: self.z * s.den,
                w: self.w * s.den,
                den: self.den * s.num,
            }
        } else {
            Tuple {
                x: -(self.x * s.den),
                y: -(self.y * s.den),
                z: -(self.z * s.den),
                w: -(self.w * s.den),
                den: self.den * -s.num,
            }
        }
    }

    /// Dot product over all four components:
    /// `x*x' + y*y' + z*z' + w*w'`, as an exact rational.
    pub fn dot(&self, rhs: &Tuple) -> (r: Scalar)
        requires
            self.wf(),
            rhs.wf(),
            self.bounded(VALUE_LIMIT as int),
            rhs.bounded(VALUE_LIMIT as int),
        ensures
            r.wf(),
            r.den == self.den * rhs.den,
            r.num == self.x * rhs.x + self.y * rhs.y + self.z * rhs.z + self.w * rhs.w,
    {
        proof {
            lemma_tuple_pair_prods(*self, *rhs);
        }
        Scalar {
            num: self.x * rhs.x + self.y * rhs.y + self.z * rhs.z + self.w * rhs.w,
            den: self.den * rhs.den,
        }
    }

    /// Three-component cross product; the result is a vector (`w == 0`).
    pub fn cross(&self, rhs: &Tuple) -> (r: Tuple)
        requires
            self.wf(),
            rhs.wf(),
            self.bounded(VALUE_LIMIT as int),
            rhs.bounded(VALUE_LIMIT as int),
        ensures
            r.wf(),
            r.den == self.den * rhs.den,
            r.x == self.y * rhs.z - self.z * rhs.y,
            r.y == self.z * rhs.x - self.x * rhs.z,
            r.z == self.x * rhs.y - self.y * rhs.x,
            r.w == 0,
            r.w_is(0),
    {
        proof {
            lemma_tuple_pair_prods(*self, *rhs);
        }
        Tuple {
            x: self.y * rhs.z - self.z * rhs.y,
            y: self.z * rhs.x - self.x * rhs.z,
            z: self.x * rhs.y - self.y * rhs.x,
            w: 0,
            den: self.den * rhs.den,
        }
    }
}

/// Products of one tuple's numerators with another tuple's denominator stay
/// inside `i128` when both are bounded.
proof fn lemma_tuple_prods(a: Tuple, b: Tuple)
    requires
        a.wf(),
        b.wf(),
        a.bounded(VALUE_LIMIT as int),
        b.bounded(VALUE_LIMIT as int),
    ensures
        -(VALUE_LIMIT * VALUE_LIMIT) <= a.x * b.den <= VALUE_LIMIT * VALUE_LIMIT,
        -(VALUE_LIMIT * VALUE_LIMIT) <= a.y * b.den <= VALUE_LIMIT * VALUE_LIMIT,
        -(VALUE_LIMIT * VALUE_LIMIT) <= a.z * b.den <= VALUE_LIMIT * VALUE_LIMIT,
        -(VALUE_LIMIT * VALUE_LIMIT) <= a.w * b.den <= VALUE_LIMIT * VALUE_LIMIT,
        -(VALUE_LIMIT * VALUE_LIMIT) <= b.x * a.den <= VALUE_LIMIT * VALUE_LIMIT,
        -(VALUE_LIMIT * VALUE_LIMIT) <= b.y * a.den <= VALUE_LIMIT * VALUE_LIMIT,
        -(VALUE_LIMIT * VALUE_LIMIT) <= b.z * a.den <= VALUE_LIMIT * VALUE_LIMIT,
        -(VALUE_LIMIT * VALUE_LIMIT) <= b.w * a.den <= VALUE_LIMIT * VALUE_LIMIT,
        0 < a.den * b.den <= VALUE_LIMIT * VALUE_LIMIT,
{
    let l = VALUE_LIMIT as int;
    lemma_prod_bound(a.x as int, b.den as int, l, l);
    lemma_prod_bound(a.y as int, b.den as int, l, l);
    lemma_prod_bound(a.z as int, b.den as int, l, l);
    lemma_prod_bound(a.w as int, b.den as int, l, l);
    lemma_prod_bound(b.x as int, a.den as int, l, l);
    lemma_prod_bound(b.y as int, a.den as int, l, l);
    lemma_prod_bound(b.z as int, a.den as int, l, l);
    lemma_prod_bound(b.w as int, a.den as int, l, l);
    lemma_prod_bound(a.den as int, b.den as int, l, l);
}

/// Products of two tuples' numerators, pairwise, stay inside `i128` when both
/// tuples are bounded.
proof fn lemma_tuple_pair_prods(a: Tuple, b: Tuple)
    requires
        a.wf(),
        b.wf(),
        a.bounded(VALUE_LIMIT as int),
        b.bounded(VALUE_LIMIT as int),
    ensures
        -(VALUE_LIMIT * VALUE_LIMIT) <= a.x * b.x <= VALUE_LIMIT * VALUE_LIMIT,
        -(VALUE_LIMIT * VALUE_LIMIT) <= a.y * b.y <= VALUE_LIMIT * VALUE_LIMIT,
        -(VALUE_LIMIT * VALUE_LIMIT) <= a.z * b.z <= VALUE_LIMIT * VALUE_LIMIT,
        -(VALUE_LIMIT * VALUE_LIMIT) <= a.w * b.w <= VALUE_LIMIT * VALUE_LIMIT,
        -(VALUE_LIMIT * VALUE_LIMIT) <= a.y * b.z <= VALUE_LIMIT * VALUE_LIMIT,
        -(VALUE_LIMIT * VALUE_LIMIT) <= a.z * b.y <= VALUE_LIMIT * VALUE_LIMIT,
        -(VALUE_LIMIT * VALUE_LIMIT) <= a.z * b.x <= VALUE_LIMIT * VALUE_LIMIT,
        -(VALUE_LIMIT * VALUE_LIMIT) <= a.x * b.z <= VALUE_LIMIT * VALUE_LIMIT,
        -(VALUE_LIMIT * VALUE_LIMIT) <= a.x * b.y <= VALUE_LIMIT * VALUE_LIMIT,
        -(VALUE_LIMIT * VALUE_LIMIT) <= a.y * b.x <= VALUE_LIMIT * VALUE_LIMIT,
        0 < a.den * b.den <= VALUE_LIMIT * VALUE_LIMIT,
{
    let l = VALUE_LIMIT as int;
    lemma_prod_bound(a.x as int, b.x as int, l, l);
    lemma_prod_bound(a.y as int, b.y as int, l, l);
    lemma_prod_bound(a.z as int, b.z as int, l, l);
    lemma_prod_bound(a.w as int, b.w as int, l, l);
    lemma_prod_bound(a.y as int, b.z as int, l, l);
    lemma_prod_bound(a.z as int, b.y as int, l, l);
    lemma_prod_bound(a.z as int, b.x as int, l, l);
    lemma_prod_bound(a.x as int, b.z as int, l, l);
    lemma_prod_bound(a.x as int, b.y as int, l, l);
    lemma_prod_bound(a.y as int, b.x as int, l, l);
    lemma_prod_bound(a.den as int, b.den as int, l, l);
}

/// Proof helper for scaling: products with a scalar stay inside `i128`.
proof fn lemma_scalar_prods(a: Tuple, s: Scalar)
    requires
        a.wf(),
        s.wf(),
        a.bounded(VALUE_LIMIT as int),
        s.bounded(VALUE_LIMIT as int),
    ensures
        -(VALUE_LIMIT * VALUE_LIMIT) <= a.x * s.num <= VALUE_LIMIT * VALUE_LIMIT,
        -(VALUE_LIMIT * VALUE_LIMIT) <= a.y * s.num <= VALUE_LIMIT * VALUE_LIMIT,
        -(VALUE_LIMIT * VALUE_LIMIT) <= a.z * s.num <= VALUE_LIMIT * VALUE_LIMIT,
        -(VALUE_LIMIT * VALUE_LIMIT) <= a.w * s.num <= VALUE_LIMIT * VALUE_LIMIT,
        0 < a.den * s.den <= VALUE_LIMIT * VALUE_LIMIT,
{
    let l = VALUE_LIMIT as int;
    lemma_prod_bound(a.x as int, s.num as int, l, l);
    lemma_prod_bound(a.y as int, s.num as int, l, l);
    lemma_prod_bound(a.z as int, s.num as int, l, l);
    lemma_prod_bound(a.w as int, s.num as int, l, l);
    lemma_prod_bound(a.den as int, s.den as int, l, l);
}

/// Construct the tuple `(x, y, z, w) / den`.
pub fn tuple(x: i128, y: i128, z: i128, w: i128, den: i128) -> (r: Tuple)
    requires
        0 < den,
    ensures
        r == (Tuple { x, y, z, w, den }),
        r.wf(),
{
    Tuple { x, y, z, w, den }
}

/// Construct the point `(x, y, z) / den`: its `w` component is one.
pub fn point(x: i128, y: i128, z: i128, den: i128) -> (r: Tuple)
    requires
        0 < den,
    ensures
        r == (Tuple { x, y, z, w: den, den }),
        r.wf(),
        r.w_is(1),
{
    Tuple { x, y, z, w: den, den }
}

/// Construct the vector `(x, y, z) / den`: its `w` component is zero.
pub fn vector(x: i128, y: i128, z: i128, den: i128) -> (r: Tuple)
    requires
        0 < den,
    ensures
        r == (Tuple { x, y, z, w: 0, den }),
        r.wf(),
        r.w_is(0),
{
    Tuple { x, y, z, w: 0, den }
}

} // verus!

//! Exact rational scalars: an integer numerator over a positive denominator.

use vstd::prelude::*;

verus! {

/// Headroom bound on numerators and denominators of scalar-level values.
/// Products of two values bounded by this limit, and sums of a few such
/// products, stay comfortably inside `i128`.
pub const VALUE_LIMIT: i128 = 10000000000000000;

/// An exact rational number `num / den` with `den > 0`.
#[derive(Clone, Copy, Debug, PartialEq, Eq, Structural)]
pub struct Scalar {
    pub num: i128,
    pub den: i128,
}

impl Scalar {
    /// A scalar is well formed when its denominator is positive.
    pub open spec fn wf(self) -> bool {
        0 < self.den
    }

    /// Numerator and denominator are no larger in magnitude than `b`.
    pub open spec fn bounded(self, b: int) -> bool {
        -b <= self.num <= b && self.den <= b
    }

    /// Construct the rational `num / den`.
    pub fn new(num: i128, den: i128) -> (r: Scalar)
        requires
            0 < den,
        ensures
            r.num == num,
            r.den == den,
            r.wf(),
    {
        Scalar { num, den }
    }

    /// Construct the integer `n` as a rational.
    pub fn from_int(n: i128) -> (r: Scalar)
        ensures
            r.num == n,
            r.den == 1,
            r.wf(),
    {
        Scalar { num: n, den: 1 }
    }
}

} // verus!

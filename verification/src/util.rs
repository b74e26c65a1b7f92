//! The tolerance constant and the approximate-equality predicate shared by
//! every component.

use vstd::prelude::*;
use crate::scalar::Scalar;
use crate::scalar::VALUE_LIMIT;

verus! {

/// Numerator of the comparison tolerance.
pub const EPSILON_NUM: i128 = 1;

/// Denominator of the comparison tolerance: the epsilon is `1 / 100000`.
pub const EPSILON_DEN: i128 = 100000;

/// Magnitude of an integer.
pub open spec fn abs_val(x: int) -> int {
    if x < 0 {
        -x
    } else {
        x
    }
}

/// The rationals `an / ad` and `bn / bd` are exactly equal.
pub open spec fn rat_eq(an: int, ad: int, bn: int, bd: int) -> bool {
    an * bd == bn * ad
}

/// The rationals `an / ad` and `bn / bd` (with positive denominators) differ
/// by at most the epsilon: `|an/ad - bn/bd| <= EPSILON_NUM / EPSILON_DEN`,
/// cross-multiplied so only integers appear.
pub open spec fn rat_approx(an: int, ad: int, bn: int, bd: int) -> bool {
    abs_val(an * bd - bn * ad) * EPSILON_DEN <= ad * bd * EPSILON_NUM
}

/// Exact equality of rationals implies equality within the epsilon.
pub proof fn lemma_rat_eq_approx(an: int, ad: int, bn: int, bd: int)
    requires
        0 < ad,
        0 < bd,
        rat_eq(an, ad, bn, bd),
    ensures
        rat_approx(an, ad, bn, bd),
{
    assert(ad * bd * EPSILON_NUM >= 0) by (nonlinear_arith)
        requires
            0 < ad,
            0 < bd,
    ;
}

/// A product of two values bounded by `ba` and `bb` is bounded by `ba * bb`,
/// and a product of positives is positive.
pub proof fn lemma_prod_bound(a: int, b: int, ba: int, bb: int)
    by (nonlinear_arith)
    requires
        -ba <= a <= ba,
        -bb <= b <= bb,
    ensures
        -(ba * bb) <= a * b <= ba * bb,
        0 < a && 0 < b ==> 0 < a * b,
{
}

/// Whether two scalars are equal within the epsilon tolerance.
///
/// The bound on the inputs keeps the cross-multiplied comparison inside
/// `i128`.
pub fn approx_equal(a: &Scalar, b: &Scalar) -> (r: bool)
    requires
        a.wf(),
        b.wf(),
        a.bounded(VALUE_LIMIT as int),
        b.bounded(VALUE_LIMIT as int),
    ensures
        r == rat_approx(a.num as int, a.den as int, b.num as int, b.den as int),
{
    proof {
        lemma_prod_bound(a.num as int, b.den as int, VALUE_LIMIT as int, VALUE_LIMIT as int);
        lemma_prod_bound(b.num as int, a.den as int, VALUE_LIMIT as int, VALUE_LIMIT as int);
        lemma_prod_bound(a.den as int, b.den as int, VALUE_LIMIT as int, VALUE_LIMIT as int);
    }
    let diff = a.num * b.den - b.num * a.den;
    let mag = if diff < 0 { -diff } else { diff };
    mag * EPSILON_DEN <= a.den * b.den * EPSILON_NUM
}

/// Whether two sequences of scalars agree element by element, within the
/// epsilon, over the length of the shorter one.
pub fn array_approx_equal(a: &[Scalar], b: &[Scalar]) -> (r: bool)
    requires
        forall|i: int| 0 <= i < a@.len() ==> (#[trigger] a@[i]).wf() && a@[i].bounded(VALUE_LIMIT as int),
        forall|i: int| 0 <= i < b@.len() ==> (#[trigger] b@[i]).wf() && b@[i].bounded(VALUE_LIMIT as int),
    ensures
        r == forall|i: int| 0 <= i < a@.len() && i < b@.len()
            ==> #[trigger] rat_approx(a@[i].num as int, a@[i].den as int, b@[i].num as int, b@[i].den as int),
{
    let n = if a.len() < b.len() { a.len() } else { b.len() };
    let mut i: usize = 0;
    while i < n
        invariant
            n == if a@.len() < b@.len() { a@.len() } else { b@.len() },
            0 <= i <= n,
            forall|j: int| 0 <= j < a@.len() ==> (#[trigger] a@[j]).wf() && a@[j].bounded(VALUE_LIMIT as int),
            forall|j: int| 0 <= j < b@.len() ==> (#[trigger] b@[j]).wf() && b@[j].bounded(VALUE_LIMIT as int),
            forall|j: int| 0 <= j < i
                ==> #[trigger] rat_approx(a@[j].num as int, a@[j].den as int, b@[j].num as int, b@[j].den as int),
        decreases n - i,
    {
        if !approx_equal(&a[i], &b[i]) {
            return false;
        }
        i += 1;
    }
    true
}

} // verus!

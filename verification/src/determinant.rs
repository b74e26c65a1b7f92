//! Integer determinants of small square grids, and the algebraic identities
//! behind matrix inversion.
//!
//! A matrix of rationals with one shared denominator has an integer numerator
//! grid; its determinant and cofactors are integer polynomials in those
//! numerators. The spec functions here mirror cofactor expansion along row
//! zero, and the lemmas state expansion along an arbitrary row, which yields
//! the determinant on the diagonal and zero elsewhere: the identity behind
//! `inverse`.

use vstd::prelude::*;
use vstd::arithmetic::mul::lemma_mul_is_associative;
use vstd::arithmetic::mul::lemma_mul_is_commutative;
use vstd::arithmetic::mul::lemma_mul_is_distributive_add;
use vstd::arithmetic::mul::lemma_mul_is_distributive_sub;

verus! {

/// Determinant of a 2x2 integer grid, rows listed left to right.
pub open spec fn det2(a: int, b: int, c: int, d: int) -> int {
    a * d - b * c
}

/// Determinant of a 3x3 integer grid: cofactor expansion along row zero.
pub open spec fn det3(
    a: int, b: int, c: int,
    d: int, e: int, f: int,
    g: int, h: int, i: int,
) -> int {
    a * det2(e, f, h, i) - b * det2(d, f, g, i) + c * det2(d, e, g, h)
}

/// Determinant of a 4x4 integer grid: cofactor expansion along row zero.
pub open spec fn det4(
    m00: int, m01: int, m02: int, m03: int,
    m10: int, m11: int, m12: int, m13: int,
    m20: int, m21: int, m22: int, m23: int,
    m30: int, m31: int, m32: int, m33: int,
) -> int {
    m00 * det3(m11, m12, m13, m21, m22, m23, m31, m32, m33)
        - m01 * det3(m10, m12, m13, m20, m22, m23, m30, m32, m33)
        + m02 * det3(m10, m11, m13, m20, m21, m23, m30, m31, m33)
        - m03 * det3(m10, m11, m12, m20, m21, m22, m30, m31, m32)
}

/// A 2x2 determinant of cells bounded by `b` is bounded by `2 b^2`.
pub proof fn lemma_det2_bound(a: int, bb: int, c: int, d: int, b: int)
    by (nonlinear_arith)
    requires
        0 <= b,
        -b <= a <= b,
        -b <= bb <= b,
        -b <= c <= b,
        -b <= d <= b,
    ensures
        -(2 * b * b) <= det2(a, bb, c, d) <= 2 * b * b,
{
}

/// A 3x3 determinant of cells bounded by `b` is bounded by `6 b^3`.
pub proof fn lemma_det3_bound(
    a: int, bb: int, c: int,
    d: int, e: int, f: int,
    g: int, h: int, i: int,
    b: int,
)
    requires
        0 <= b,
        -b <= a <= b,
        -b <= bb <= b,
        -b <= c <= b,
        -b <= d <= b,
        -b <= e <= b,
        -b <= f <= b,
        -b <= g <= b,
        -b <= h <= b,
        -b <= i <= b,
    ensures
        -(6 * b * b * b) <= det3(a, bb, c, d, e, f, g, h, i) <= 6 * b * b * b,
{
    lemma_det2_bound(e, f, h, i, b);
    lemma_det2_bound(d, f, g, i, b);
    lemma_det2_bound(d, e, g, h, b);
    crate::util::lemma_prod_bound(a, det2(e, f, h, i), b, 2 * b * b);
    crate::util::lemma_prod_bound(bb, det2(d, f, g, i), b, 2 * b * b);
    crate::util::lemma_prod_bound(c, det2(d, e, g, h), b, 2 * b * b);
    let m = b * (2 * b * b);
    assert(-(3 * m) <= det3(a, bb, c, d, e, f, g, h, i) <= 3 * m);
    assert(3 * (b * (2 * b * b)) == 6 * b * b * b) by (nonlinear_arith);
}

/// A 4x4 determinant of cells bounded by `b` is bounded by `24 b^4`.
pub proof fn lemma_det4_bound(
    m00: int, m01: int, m02: int, m03: int,
    m10: int, m11: int, m12: int, m13: int,
    m20: int, m21: int, m22: int, m23: int,
    m30: int, m31: int, m32: int, m33: int,
    b: int,
)
    requires
        0 <= b,
        -b <= m00 <= b, -b <= m01 <= b, -b <= m02 <= b, -b <= m03 <= b,
        -b <= m10 <= b, -b <= m11 <= b, -b <= m12 <= b, -b <= m13 <= b,
        -b <= m20 <= b, -b <= m21 <= b, -b <= m22 <= b, -b <= m23 <= b,
        -b <= m30 <= b, -b <= m31 <= b, -b <= m32 <= b, -b <= m33 <= b,
    ensures
        -(24 * b * b * b * b)
            <= det4(
                m00, m01, m02, m03,
                m10, m11, m12, m13,
                m20, m21, m22, m23,
                m30, m31, m32, m33,
            ) <= 24 * b * b * b * b,
{
    lemma_det3_bound(m11, m12, m13, m21, m22, m23, m31, m32, m33, b);
    lemma_det3_bound(m10, m12, m13, m20, m22, m23, m30, m32, m33, b);
    lemma_det3_bound(m10, m11, m13, m20, m21, m23, m30, m31, m33, b);
    lemma_det3_bound(m10, m11, m12, m20, m21, m22, m30, m31, m32, b);
    let c = 6 * b * b * b;
    crate::util::lemma_prod_bound(m00, det3(m11, m12, m13, m21, m22, m23, m31, m32, m33), b, c);
    crate::util::lemma_prod_bound(m01, det3(m10, m12, m13, m20, m22, m23, m30, m32, m33), b, c);
    crate::util::lemma_prod_bound(m02, det3(m10, m11, m13, m20, m21, m23, m30, m31, m33), b, c);
    crate::util::lemma_prod_bound(m03, det3(m10, m11, m12, m20, m21, m22, m30, m31, m32), b, c);
    assert(4 * (b * (6 * b * b * b)) == 24 * b * b * b * b) by (nonlinear_arith);
}

/// Expansion of a factor times a 3x3 determinant into signed monomials,
/// with the factor placed at depth 0 of each product.
pub proof fn lemma_mul_det3_pos0(x: int, a: int, b: int, c: int, d: int, e: int, f: int, g: int, h: int, i: int)
    ensures
        x * det3(a, b, c, d, e, f, g, h, i) == x * (a * (e * (i))) - x * (a * (f * (h))) - x * (b * (d * (i))) + x * (b * (f * (g))) + x * (c * (d * (h))) - x * (c * (e * (g))),
{
    lemma_mul_is_distributive_sub(a, e * i, f * h);
    lemma_mul_is_distributive_sub(b, d * i, f * g);
    lemma_mul_is_distributive_sub(c, d * h, e * g);
    lemma_mul_is_distributive_add(x, a * det2(e, f, h, i) - b * det2(d, f, g, i), c * det2(d, e, g, h));
    lemma_mul_is_distributive_sub(x, a * det2(e, f, h, i), b * det2(d, f, g, i));
    lemma_mul_is_distributive_sub(x, a * (e * i), a * (f * h));
    lemma_mul_is_distributive_sub(x, b * (d * i), b * (f * g));
    lemma_mul_is_distributive_sub(x, c * (d * h), c * (e * g));
}

/// Expansion of a factor times a 3x3 determinant into signed monomials,
/// with the factor placed at depth 1 of each product.
pub proof fn lemma_mul_det3_pos1(x: int, a: int, b: int, c: int, d: int, e: int, f: int, g: int, h: int, i: int)
    ensures
        x * det3(a, b, c, d, e, f, g, h, i) == a * (x * (e * (i))) - a * (x * (f * (h))) - b * (x * (d * (i))) + b * (x * (f * (g))) + c * (x * (d * (h))) - c * (x * (e * (g))),
{
    lemma_mul_is_distributive_sub(a, e * i, f * h);
    lemma_mul_is_distributive_sub(b, d * i, f * g);
    lemma_mul_is_distributive_sub(c, d * h, e * g);
    lemma_mul_is_distributive_add(x, a * det2(e, f, h, i) - b * det2(d, f, g, i), c * det2(d, e, g, h));
    lemma_mul_is_distributive_sub(x, a * det2(e, f, h, i), b * det2(d, f, g, i));
    lemma_mul_is_distributive_sub(x, a * (e * i), a * (f * h));
    lemma_mul_is_distributive_sub(x, b * (d * i), b * (f * g));
    lemma_mul_is_distributive_sub(x, c * (d * h), c * (e * g));
    lemma_mul_is_associative(x, a, e * i);
    lemma_mul_is_commutative(x, a);
    lemma_mul_is_associative(a, x, e * i);
    lemma_mul_is_associative(x, a, f * h);
    lemma_mul_is_associative(a, x, f * h);
    lemma_mul_is_associative(x, b, d * i);
    lemma_mul_is_commutative(x, b);
    lemma_mul_is_associative(b, x, d * i);
    lemma_mul_is_associative(x, b, f * g);
    lemma_mul_is_associative(b, x, f * g);
    lemma_mul_is_associative(x, c, d * h);
    lemma_mul_is_commutative(x, c);
    lemma_mul_is_associative(c, x, d * h);
    lemma_mul_is_associative(x, c, e * g);
    lemma_mul_is_associative(c, x, e * g);
}

/// Expansion of a factor times a 3x3 determinant into signed monomials,
/// with the factor placed at depth 2 of each product.
pub proof fn lemma_mul_det3_pos2(x: int, a: int, b: int, c: int, d: int, e: int, f: int, g: int, h: int, i: int)
    ensures
        x * det3(a, b, c, d, e, f, g, h, i) == a * (e * (x * (i))) - a * (f * (x * (h))) - b * (d * (x * (i))) + b * (f * (x * (g))) + c * (d * (x * (h))) - c * (e * (x * (g))),
{
    lemma_mul_is_distributive_sub(a, e * i, f * h);
    lemma_mul_is_distributive_sub(b, d * i, f * g);
    lemma_mul_is_distributive_sub(c, d * h, e * g);
    lemma_mul_is_distributive_add(x, a * det2(e, f, h, i) - b * det2(d, f, g, i), c * det2(d, e, g, h));
    lemma_mul_is_distributive_sub(x, a * det2(e, f, h, i), b * det2(d, f, g, i));
    lemma_mul_is_distributive_sub(x, a * (e * i), a * (f * h));
    lemma_mul_is_distributive_sub(x, b * (d * i), b * (f * g));
    lemma_mul_is_distributive_sub(x, c * (d * h), c * (e * g));
    lemma_mul_is_associative(x, a, e * i);
    lemma_mul_is_commutative(x, a);
    lemma_mul_is_associative(a, x, e * i);
    lemma_mul_is_associative(x, e, i);
    lemma_mul_is_commutative(x, e);
    lemma_mul_is_associative(e, x, i);
    lemma_mul_is_associative(x, a, f * h);
    lemma_mul_is_associative(a, x, f * h);
    lemma_mul_is_associative(x, f, h);
    lemma_mul_is_commutative(x, f);
    lemma_mul_is_associative(f, x, h);
    lemma_mul_is_associative(x, b, d * i);
    lemma_mul_is_commutative(x, b);
    lemma_mul_is_associative(b, x, d * i);
    lemma_mul_is_associative(x, d, i);
    lemma_mul_is_commutative(x, d);
    lemma_mul_is_associative(d, x, i);
    lemma_mul_is_associative(x, b, f * g);
    lemma_mul_is_associative(b, x, f * g);
    lemma_mul_is_associative(x, f, g);
    lemma_mul_is_associative(f, x, g);
    lemma_mul_is_associative(x, c, d * h);
    lemma_mul_is_commutative(x, c);
    lemma_mul_is_associative(c, x, d * h);
    lemma_mul_is_associative(x, d, h);
    lemma_mul_is_associative(d, x, h);
    lemma_mul_is_associative(x, c, e * g);
    lemma_mul_is_associative(c, x, e * g);
    lemma_mul_is_associative(x, e, g);
    lemma_mul_is_associative(e, x, g);
}

/// Expansion of a factor times a 3x3 determinant into signed monomials,
/// with the factor placed at depth 3 of each product.
pub proof fn lemma_mul_det3_pos3(x: int, a: int, b: int, c: int, d: int, e: int, f: int, g: int, h: int, i: int)
    ensures
        x * det3(a, b, c, d, e, f, g, h, i) == a * (e * (i * (x))) - a * (f * (h * (x))) - b * (d * (i * (x))) + b * (f * (g * (x))) + c * (d * (h * (x))) - c * (e * (g * (x))),
{
    lemma_mul_is_distributive_sub(a, e * i, f * h);
    lemma_mul_is_distributive_sub(b, d * i, f * g);
    lemma_mul_is_distributive_sub(c, d * h, e * g);
    lemma_mul_is_distributive_add(x, a * det2(e, f, h, i) - b * det2(d, f, g, i), c * det2(d, e, g, h));
    lemma_mul_is_distributive_sub(x, a * det2(e, f, h, i), b * det2(d, f, g, i));
    lemma_mul_is_distributive_sub(x, a * (e * i), a * (f * h));
    lemma_mul_is_distributive_sub(x, b * (d * i), b * (f * g));
    lemma_mul_is_distributive_sub(x, c * (d * h), c * (e * g));
    lemma_mul_is_associative(x, a, e * i);
    lemma_mul_is_commutative(x, a);
    lemma_mul_is_associative(a, x, e * i);
    lemma_mul_is_associative(x, e, i);
    lemma_mul_is_commutative(x, e);
    lemma_mul_is_associative(e, x, i);
    lemma_mul_is_commutative(x, i);
    lemma_mul_is_associative(x, a, f * h);
    lemma_mul_is_associative(a, x, f * h);
    lemma_mul_is_associative(x, f, h);
    lemma_mul_is_commutative(x, f);
    lemma_mul_is_associative(f, x, h);
    lemma_mul_is_commutative(x, h);
    lemma_mul_is_associative(x, b, d * i);
    lemma_mul_is_commutative(x, b);
    lemma_mul_is_associative(b, x, d * i);
    lemma_mul_is_associative(x, d, i);
    lemma_mul_is_commutative(x, d);
    lemma_mul_is_associative(d, x, i);
    lemma_mul_is_associative(x, b, f * g);
    lemma_mul_is_associative(b, x, f * g);
    lemma_mul_is_associative(x, f, g);
    lemma_mul_is_associative(f, x, g);
    lemma_mul_is_commutative(x, g);
    lemma_mul_is_associative(x, c, d * h);
    lemma_mul_is_commutative(x, c);
    lemma_mul_is_associative(c, x, d * h);
    lemma_mul_is_associative(x, d, h);
    lemma_mul_is_associative(d, x, h);
    lemma_mul_is_associative(x, c, e * g);
    lemma_mul_is_associative(c, x, e * g);
    lemma_mul_is_associative(x, e, g);
    lemma_mul_is_associative(e, x, g);
}

/// Cofactor expansion along row 0: combining row 0 with the cofactors
/// of row 0 yields the determinant.
pub proof fn lemma_row_cofactors_0_0(
    c00: int, c01: int, c02: int, c03: int,
    c10: int, c11: int, c12: int, c13: int,
    c20: int, c21: int, c22: int, c23: int,
    c30: int, c31: int, c32: int, c33: int,
)
    ensures
        c00 * det3(c11, c12, c13, c21, c22, c23, c31, c32, c33) + c02 * det3(c10, c11, c13, c20, c21, c23, c30, c31, c33) - c01 * det3(c10, c12, c13, c20, c22, c23, c30, c32, c33) - c03 * det3(c10, c11, c12, c20, c21, c22, c30, c31, c32) == det4(c00, c01, c02, c03, c10, c11, c12, c13, c20, c21, c22, c23, c30, c31, c32, c33),
{
    lemma_mul_det3_pos0(c00, c11, c12, c13, c21, c22, c23, c31, c32, c33);
    lemma_mul_det3_pos0(c01, c10, c12, c13, c20, c22, c23, c30, c32, c33);
    lemma_mul_det3_pos0(c02, c10, c11, c13, c20, c21, c23, c30, c31, c33);
    lemma_mul_det3_pos0(c03, c10, c11, c12, c20, c21, c22, c30, c31, c32);
}

/// Combining row 0 with the cofactors of row 1 yields zero: it is the
/// determinant of a grid with two equal rows.
pub proof fn lemma_row_cofactors_0_1(
    c00: int, c01: int, c02: int, c03: int,
    c10: int, c11: int, c12: int, c13: int,
    c20: int, c21: int, c22: int, c23: int,
    c30: int, c31: int, c32: int, c33: int,
)
    ensures
        c01 * det3(c00, c02, c03, c20, c22, c23, c30, c32, c33) + c03 * det3(c00, c01, c02, c20, c21, c22, c30, c31, c32) - c00 * det3(c01, c02, c03, c21, c22, c23, c31, c32, c33) - c02 * det3(c00, c01, c03, c20, c21, c23, c30, c31, c33) == 0,
{
    lemma_mul_det3_pos0(c00, c01, c02, c03, c21, c22, c23, c31, c32, c33);
    lemma_mul_det3_pos0(c01, c00, c02, c03, c20, c22, c23, c30, c32, c33);
    lemma_mul_det3_pos0(c02, c00, c01, c03, c20, c21, c23, c30, c31, c33);
    lemma_mul_det3_pos0(c03, c00, c01, c02, c20, c21, c22, c30, c31, c32);
    lemma_mul_is_associative(c01, c00, c22 * (c33));
    lemma_mul_is_commutative(c01, c00);
    lemma_mul_is_associative(c00, c01, c22 * (c33));
    lemma_mul_is_associative(c01, c00, c23 * (c32));
    lemma_mul_is_associative(c00, c01, c23 * (c32));
    lemma_mul_is_associative(c02, c00, c21 * (c33));
    lemma_mul_is_commutative(c02, c00);
    lemma_mul_is_associative(c00, c02, c21 * (c33));
    lemma_mul_is_associative(c02, c00, c23 * (c31));
    lemma_mul_is_associative(c00, c02, c23 * (c31));
    lemma_mul_is_associative(c02, c01, c20 * (c33));
    lemma_mul_is_commutative(c02, c01);
    lemma_mul_is_associative(c01, c02, c20 * (c33));
    lemma_mul_is_associative(c02, c01, c23 * (c30));
    lemma_mul_is_associative(c01, c02, c23 * (c30));
    lemma_mul_is_associative(c03, c00, c21 * (c32));
    lemma_mul_is_commutative(c03, c00);
    lemma_mul_is_associative(c00, c03, c21 * (c32));
    lemma_mul_is_associative(c03, c00, c22 * (c31));
    lemma_mul_is_associative(c00, c03, c22 * (c31));
    lemma_mul_is_associative(c03, c01, c20 * (c32));
    lemma_mul_is_commutative(c03, c01);
    lemma_mul_is_associative(c01, c03, c20 * (c32));
    lemma_mul_is_associative(c03, c01, c22 * (c30));
    lemma_mul_is_associative(c01, c03, c22 * (c30));
    lemma_mul_is_associative(c03, c02, c20 * (c31));
    lemma_mul_is_commutative(c03, c02);
    lemma_mul_is_associative(c02, c03, c20 * (c31));
    lemma_mul_is_associative(c03, c02, c21 * (c30));
    lemma_mul_is_associative(c02, c03, c21 * (c30));
}

/// Combining row 0 with the cofactors of row 2 yields zero: it is the
/// determinant of a grid with two equal rows.
pub proof fn lemma_row_cofactors_0_2(
    c00: int, c01: int, c02: int, c03: int,
    c10: int, c11: int, c12: int, c13: int,
    c20: int, c21: int, c22: int, c23: int,
    c30: int, c31: int, c32: int, c33: int,
)
    ensures
        c00 * det3(c01, c02, c03, c11, c12, c13, c31, c32, c33) + c02 * det3(c00, c01, c03, c10, c11, c13, c30, c31, c33) - c01 * det3(c00, c02, c03, c10, c12, c13, c30, c32, c33) - c03 * det3(c00, c01, c02, c10, c11, c12, c30, c31, c32) == 0,
{
    lemma_mul_det3_pos0(c00, c01, c02, c03, c11, c12, c13, c31, c32, c33);
    lemma_mul_det3_pos0(c01, c00, c02, c03, c10, c12, c13, c30, c32, c33);
    lemma_mul_det3_pos0(c02, c00, c01, c03, c10, c11, c13, c30, c31, c33);
    lemma_mul_det3_pos0(c03, c00, c01, c02, c10, c11, c12, c30, c31, c32);
    lemma_mul_is_associative(c01, c00, c12 * (c33));
    lemma_mul_is_commutative(c01, c00);
    lemma_mul_is_associative(c00, c01, c12 * (c33));
    lemma_mul_is_associative(c01, c00, c13 * (c32));
    lemma_mul_is_associative(c00, c01, c13 * (c32));
    lemma_mul_is_associative(c02, c00, c11 * (c33));
    lemma_mul_is_commutative(c02, c00);
    lemma_mul_is_associative(c00, c02, c11 * (c33));
    lemma_mul_is_associative(c02, c00, c13 * (c31));
    lemma_mul_is_associative(c00, c02, c13 * (c31));
    lemma_mul_is_associative(c02, c01, c10 * (c33));
    lemma_mul_is_commutative(c02, c01);
    lemma_mul_is_associative(c01, c02, c10 * (c33));
    lemma_mul_is_associative(c02, c01, c13 * (c30));
    lemma_mul_is_associative(c01, c02, c13 * (c30));
    lemma_mul_is_associative(c03, c00, c11 * (c32));
    lemma_mul_is_commutative(c03, c00);
    lemma_mul_is_associative(c00, c03, c11 * (c32));
    lemma_mul_is_associative(c03, c00, c12 * (c31));
    lemma_mul_is_associative(c00, c03, c12 * (c31));
    lemma_mul_is_associative(c03, c01, c10 * (c32));
    lemma_mul_is_commutative(c03, c01);
    lemma_mul_is_associative(c01, c03, c10 * (c32));
    lemma_mul_is_associative(c03, c01, c12 * (c30));
    lemma_mul_is_associative(c01, c03, c12 * (c30));
    lemma_mul_is_associative(c03, c02, c10 * (c31));
    lemma_mul_is_commutative(c03, c02);
    lemma_mul_is_associative(c02, c03, c10 * (c31));
    lemma_mul_is_associative(c03, c02, c11 * (c30));
    lemma_mul_is_associative(c02, c03, c11 * (c30));
}

/// Combining row 0 with the cofactors of row 3 yields zero: it is the
/// determinant of a grid with two equal rows.
pub proof fn lemma_row_cofactors_0_3(
    c00: int, c01: int, c02: int, c03: int,
    c10: int, c11: int, c12: int, c13: int,
    c20: int, c21: int, c22: int, c23: int,
    c30: int, c31: int, c32: int, c33: int,
)
    ensures
        c01 * det3(c00, c02, c03, c10, c12, c13, c20, c22, c23) + c03 * det3(c00, c01, c02, c10, c11, c12, c20, c21, c22) - c00 * det3(c01, c02, c03, c11, c12, c13, c21, c22, c23) - c02 * det3(c00, c01, c03, c10, c11, c13, c20, c21, c23) == 0,
{
    lemma_mul_det3_pos0(c00, c01, c02, c03, c11, c12, c13, c21, c22, c23);
    lemma_mul_det3_pos0(c01, c00, c02, c03, c10, c12, c13, c20, c22, c23);
    lemma_mul_det3_pos0(c02, c00, c01, c03, c10, c11, c13, c20, c21, c23);
    lemma_mul_det3_pos0(c03, c00, c01, c02, c10, c11, c12, c20, c21, c22);
    lemma_mul_is_associative(c01, c00, c12 * (c23));
    lemma_mul_is_commutative(c01, c00);
    lemma_mul_is_associative(c00, c01, c12 * (c23));
    lemma_mul_is_associative(c01, c00, c13 * (c22));
    lemma_mul_is_associative(c00, c01, c13 * (c22));
    lemma_mul_is_associative(c02, c00, c11 * (c23));
    lemma_mul_is_commutative(c02, c00);
    lemma_mul_is_associative(c00, c02, c11 * (c23));
    lemma_mul_is_associative(c02, c00, c13 * (c21));
    lemma_mul_is_associative(c00, c02, c13 * (c21));
    lemma_mul_is_associative(c02, c01, c10 * (c23));
    lemma_mul_is_commutative(c02, c01);
    lemma_mul_is_associative(c01, c02, c10 * (c23));
    lemma_mul_is_associative(c02, c01, c13 * (c20));
    lemma_mul_is_associative(c01, c02, c13 * (c20));
    lemma_mul_is_associative(c03, c00, c11 * (c22));
    lemma_mul_is_commutative(c03, c00);
    lemma_mul_is_associative(c00, c03, c11 * (c22));
    lemma_mul_is_associative(c03, c00, c12 * (c21));
    lemma_mul_is_associative(c00, c03, c12 * (c21));
    lemma_mul_is_associative(c03, c01, c10 * (c22));
    lemma_mul_is_commutative(c03, c01);
    lemma_mul_is_associative(c01, c03, c10 * (c22));
    lemma_mul_is_associative(c03, c01, c12 * (c20));
    lemma_mul_is_associative(c01, c03, c12 * (c20));
    lemma_mul_is_associative(c03, c02, c10 * (c21));
    lemma_mul_is_commutative(c03, c02);
    lemma_mul_is_associative(c02, c03, c10 * (c21));
    lemma_mul_is_associative(c03, c02, c11 * (c20));
    lemma_mul_is_associative(c02, c03, c11 * (c20));
}

/// Combining row 1 with the cofactors of row 0 yields zero: it is the
/// determinant of a grid with two equal rows.
pub proof fn lemma_row_cofactors_1_0(
    c00: int, c01: int, c02: int, c03: int,
    c10: int, c11: int, c12: int, c13: int,
    c20: int, c21: int, c22: int, c23: int,
    c30: int, c31: int, c32: int, c33: int,
)
    ensures
        c10 * det3(c11, c12, c13, c21, c22, c23, c31, c32, c33) + c12 * det3(c10, c11, c13, c20, c21, c23, c30, c31, c33) - c11 * det3(c10, c12, c13, c20, c22, c23, c30, c32, c33) - c13 * det3(c10, c11, c12, c20, c21, c22, c30, c31, c32) == 0,
{
    lemma_mul_det3_pos0(c10, c11, c12, c13, c21, c22, c23, c31, c32, c33);
    lemma_mul_det3_pos0(c11, c10, c12, c13, c20, c22, c23, c30, c32, c33);
    lemma_mul_det3_pos0(c12, c10, c11, c13, c20, c21, c23, c30, c31, c33);
    lemma_mul_det3_pos0(c13, c10, c11, c12, c20, c21, c22, c30, c31, c32);
    lemma_mul_is_associative(c11, c10, c22 * (c33));
    lemma_mul_is_commutative(c11, c10);
    lemma_mul_is_associative(c10, c11, c22 * (c33));
    lemma_mul_is_associative(c11, c10, c23 * (c32));
    lemma_mul_is_associative(c10, c11, c23 * (c32));
    lemma_mul_is_associative(c12, c10, c21 * (c33));
    lemma_mul_is_commutative(c12, c10);
    lemma_mul_is_associative(c10, c12, c21 * (c33));
    lemma_mul_is_associative(c12, c10, c23 * (c31));
    lemma_mul_is_associative(c10, c12, c23 * (c31));
    lemma_mul_is_associative(c12, c11, c20 * (c33));
    lemma_mul_is_commutative(c12, c11);
    lemma_mul_is_associative(c11, c12, c20 * (c33));
    lemma_mul_is_associative(c12, c11, c23 * (c30));
    lemma_mul_is_associative(c11, c12, c23 * (c30));
    lemma_mul_is_associative(c13, c10, c21 * (c32));
    lemma_mul_is_commutative(c13, c10);
    lemma_mul_is_associative(c10, c13, c21 * (c32));
    lemma_mul_is_associative(c13, c10, c22 * (c31));
    lemma_mul_is_associative(c10, c13, c22 * (c31));
    lemma_mul_is_associative(c13, c11, c20 * (c32));
    lemma_mul_is_commutative(c13, c11);
    lemma_mul_is_associative(c11, c13, c20 * (c32));
    lemma_mul_is_associative(c13, c11, c22 * (c30));
    lemma_mul_is_associative(c11, c13, c22 * (c30));
    lemma_mul_is_associative(c13, c12, c20 * (c31));
    lemma_mul_is_commutative(c13, c12);
    lemma_mul_is_associative(c12, c13, c20 * (c31));
    lemma_mul_is_associative(c13, c12, c21 * (c30));
    lemma_mul_is_associative(c12, c13, c21 * (c30));
}

/// Cofactor expansion along row 1: combining row 1 with the cofactors
/// of row 1 yields the determinant.
pub proof fn lemma_row_cofactors_1_1(
    c00: int, c01: int, c02: int, c03: int,
    c10: int, c11: int, c12: int, c13: int,
    c20: int, c21: int, c22: int, c23: int,
    c30: int, c31: int, c32: int, c33: int,
)
    ensures
        c11 * det3(c00, c02, c03, c20, c22, c23, c30, c32, c33) + c13 * det3(c00, c01, c02, c20, c21, c22, c30, c31, c32) - c10 * det3(c01, c02, c03, c21, c22, c23, c31, c32, c33) - c12 * det3(c00, c01, c03, c20, c21, c23, c30, c31, c33) == det4(c00, c01, c02, c03, c10, c11, c12, c13, c20, c21, c22, c23, c30, c31, c32, c33),
{
    lemma_mul_det3_pos1(c10, c01, c02, c03, c21, c22, c23, c31, c32, c33);
    lemma_mul_det3_pos1(c11, c00, c02, c03, c20, c22, c23, c30, c32, c33);
    lemma_mul_det3_pos1(c12, c00, c01, c03, c20, c21, c23, c30, c31, c33);
    lemma_mul_det3_pos1(c13, c00, c01, c02, c20, c21, c22, c30, c31, c32);
    lemma_mul_det3_pos0(c00, c11, c12, c13, c21, c22, c23, c31, c32, c33);
    lemma_mul_det3_pos0(c01, c10, c12, c13, c20, c22, c23, c30, c32, c33);
    lemma_mul_det3_pos0(c02, c10, c11, c13, c20, c21, c23, c30, c31, c33);
    lemma_mul_det3_pos0(c03, c10, c11, c12, c20, c21, c22, c30, c31, c32);
}

/// Combining row 1 with the cofactors of row 2 yields zero: it is the
/// determinant of a grid with two equal rows.
pub proof fn lemma_row_cofactors_1_2(
    c00: int, c01: int, c02: int, c03: int,
    c10: int, c11: int, c12: int, c13: int,
    c20: int, c21: int, c22: int, c23: int,
    c30: int, c31: int, c32: int, c33: int,
)
    ensures
        c10 * det3(c01, c02, c03, c11, c12, c13, c31, c32, c33) + c12 * det3(c00, c01, c03, c10, c11, c13, c30, c31, c33) - c11 * det3(c00, c02, c03, c10, c12, c13, c30, c32, c33) - c13 * det3(c00, c01, c02, c10, c11, c12, c30, c31, c32) == 0,
{
    lemma_mul_det3_pos1(c10, c01, c02, c03, c11, c12, c13, c31, c32, c33);
    lemma_mul_det3_pos1(c11, c00, c02, c03, c10, c12, c13, c30, c32, c33);
    lemma_mul_det3_pos1(c12, c00, c01, c03, c10, c11, c13, c30, c31, c33);
    lemma_mul_det3_pos1(c13, c00, c01, c02, c10, c11, c12, c30, c31, c32);
    lemma_mul_is_associative(c11, c10, c33);
    lemma_mul_is_commutative(c11, c10);
    lemma_mul_is_associative(c10, c11, c33);
    lemma_mul_is_associative(c11, c10, c32);
    lemma_mul_is_associative(c10, c11, c32);
    lemma_mul_is_associative(c12, c11, c33);
    lemma_mul_is_commutative(c12, c11);
    lemma_mul_is_associative(c11, c12, c33);
    lemma_mul_is_associative(c12, c10, c33);
    lemma_mul_is_commutative(c12, c10);
    lemma_mul_is_associative(c10, c12, c33);
    lemma_mul_is_associative(c12, c10, c31);
    lemma_mul_is_associative(c10, c12, c31);
    lemma_mul_is_associative(c12, c11, c30);
    lemma_mul_is_associative(c11, c12, c30);
    lemma_mul_is_associative(c13, c11, c32);
    lemma_mul_is_commutative(c13, c11);
    lemma_mul_is_associative(c11, c13, c32);
    lemma_mul_is_associative(c13, c12, c31);
    lemma_mul_is_commutative(c13, c12);
    lemma_mul_is_associative(c12, c13, c31);
    lemma_mul_is_associative(c13, c10, c32);
    lemma_mul_is_commutative(c13, c10);
    lemma_mul_is_associative(c10, c13, c32);
    lemma_mul_is_associative(c13, c12, c30);
    lemma_mul_is_associative(c12, c13, c30);
    lemma_mul_is_associative(c13, c10, c31);
    lemma_mul_is_associative(c10, c13, c31);
    lemma_mul_is_associative(c13, c11, c30);
    lemma_mul_is_associative(c11, c13, c30);
}

/// Combining row 1 with the cofactors of row 3 yields zero: it is the
/// determinant of a grid with two equal rows.
pub proof fn lemma_row_cofactors_1_3(
    c00: int, c01: int, c02: int, c03: int,
    c10: int, c11: int, c12: int, c13: int,
    c20: int, c21: int, c22: int, c23: int,
    c30: int, c31: int, c32: int, c33: int,
)
    ensures
        c11 * det3(c00, c02, c03, c10, c12, c13, c20, c22, c23) + c13 * det3(c00, c01, c02, c10, c11, c12, c20, c21, c22) - c10 * det3(c01, c02, c03, c11, c12, c13, c21, c22, c23) - c12 * det3(c00, c01, c03, c10, c11, c13, c20, c21, c23) == 0,
{
    lemma_mul_det3_pos1(c10, c01, c02, c03, c11, c12, c13, c21, c22, c23);
    lemma_mul_det3_pos1(c11, c00, c02, c03, c10, c12, c13, c20, c22, c23);
    lemma_mul_det3_pos1(c12, c00, c01, c03, c10, c11, c13, c20, c21, c23);
    lemma_mul_det3_pos1(c13, c00, c01, c02, c10, c11, c12, c20, c21, c22);
    lemma_mul_is_associative(c11, c10, c23);
    lemma_mul_is_commutative(c11, c10);
    lemma_mul_is_associative(c10, c11, c23);
    lemma_mul_is_associative(c11, c10, c22);
    lemma_mul_is_associative(c10, c11, c22);
    lemma_mul_is_associative(c12, c11, c23);
    lemma_mul_is_commutative(c12, c11);
    lemma_mul_is_associative(c11, c12, c23);
    lemma_mul_is_associative(c12, c10, c23);
    lemma_mul_is_commutative(c12, c10);
    lemma_mul_is_associative(c10, c12, c23);
    lemma_mul_is_associative(c12, c10, c21);
    lemma_mul_is_associative(c10, c12, c21);
    lemma_mul_is_associative(c12, c11, c20);
    lemma_mul_is_associative(c11, c12, c20);
    lemma_mul_is_associative(c13, c11, c22);
    lemma_mul_is_commutative(c13, c11);
    lemma_mul_is_associative(c11, c13, c22);
    lemma_mul_is_associative(c13, c12, c21);
    lemma_mul_is_commutative(c13, c12);
    lemma_mul_is_associative(c12, c13, c21);
    lemma_mul_is_associative(c13, c10, c22);
    lemma_mul_is_commutative(c13, c10);
    lemma_mul_is_associative(c10, c13, c22);
    lemma_mul_is_associative(c13, c12, c20);
    lemma_mul_is_associative(c12, c13, c20);
    lemma_mul_is_associative(c13, c10, c21);
    lemma_mul_is_associative(c10, c13, c21);
    lemma_mul_is_associative(c13, c11, c20);
    lemma_mul_is_associative(c11, c13, c20);
}

/// Combining row 2 with the cofactors of row 0 yields zero: it is the
/// determinant of a grid with two equal rows.
pub proof fn lemma_row_cofactors_2_0(
    c00: int, c01: int, c02: int, c03: int,
    c10: int, c11: int, c12: int, c13: int,
    c20: int, c21: int, c22: int, c23: int,
    c30: int, c31: int, c32: int, c33: int,
)
    ensures
        c20 * det3(c11, c12, c13, c21, c22, c23, c31, c32, c33) + c22 * det3(c10, c11, c13, c20, c21, c23, c30, c31, c33) - c21 * det3(c10, c12, c13, c20, c22, c23, c30, c32, c33) - c23 * det3(c10, c11, c12, c20, c21, c22, c30, c31, c32) == 0,
{
    lemma_mul_det3_pos1(c20, c11, c12, c13, c21, c22, c23, c31, c32, c33);
    lemma_mul_det3_pos1(c21, c10, c12, c13, c20, c22, c23, c30, c32, c33);
    lemma_mul_det3_pos1(c22, c10, c11, c13, c20, c21, c23, c30, c31, c33);
    lemma_mul_det3_pos1(c23, c10, c11, c12, c20, c21, c22, c30, c31, c32);
    lemma_mul_is_associative(c21, c20, c33);
    lemma_mul_is_commutative(c21, c20);
    lemma_mul_is_associative(c20, c21, c33);
    lemma_mul_is_associative(c21, c20, c32);
    lemma_mul_is_associative(c20, c21, c32);
    lemma_mul_is_associative(c22, c21, c33);
    lemma_mul_is_commutative(c22, c21);
    lemma_mul_is_associative(c21, c22, c33);
    lemma_mul_is_associative(c22, c20, c33);
    lemma_mul_is_commutative(c22, c20);
    lemma_mul_is_associative(c20, c22, c33);
    lemma_mul_is_associative(c22, c20, c31);
    lemma_mul_is_associative(c20, c22, c31);
    lemma_mul_is_associative(c22, c21, c30);
    lemma_mul_is_associative(c21, c22, c30);
    lemma_mul_is_associative(c23, c21, c32);
    lemma_mul_is_commutative(c23, c21);
    lemma_mul_is_associative(c21, c23, c32);
    lemma_mul_is_associative(c23, c22, c31);
    lemma_mul_is_commutative(c23, c22);
    lemma_mul_is_associative(c22, c23, c31);
    lemma_mul_is_associative(c23, c20, c32);
    lemma_mul_is_commutative(c23, c20);
    lemma_mul_is_associative(c20, c23, c32);
    lemma_mul_is_associative(c23, c22, c30);
    lemma_mul_is_associative(c22, c23, c30);
    lemma_mul_is_associative(c23, c20, c31);
    lemma_mul_is_associative(c20, c23, c31);
    lemma_mul_is_associative(c23, c21, c30);
    lemma_mul_is_associative(c21, c23, c30);
}

/// Combining row 2 with the cofactors of row 1 yields zero: it is the
/// determinant of a grid with two equal rows.
pub proof fn lemma_row_cofactors_2_1(
    c00: int, c01: int, c02: int, c03: int,
    c10: int, c11: int, c12: int, c13: int,
    c20: int, c21: int, c22: int, c23: int,
    c30: int, c31: int, c32: int, c33: int,
)
    ensures
        c21 * det3(c00, c02, c03, c20, c22, c23, c30, c32, c33) + c23 * det3(c00, c01, c02, c20, c21, c22, c30, c31, c32) - c20 * det3(c01, c02, c03, c21, c22, c23, c31, c32, c33) - c22 * det3(c00, c01, c03, c20, c21, c23, c30, c31, c33) == 0,
{
    lemma_mul_det3_pos1(c20, c01, c02, c03, c21, c22, c23, c31, c32, c33);
    lemma_mul_det3_pos1(c21, c00, c02, c03, c20, c22, c23, c30, c32, c33);
    lemma_mul_det3_pos1(c22, c00, c01, c03, c20, c21, c23, c30, c31, c33);
    lemma_mul_det3_pos1(c23, c00, c01, c02, c20, c21, c22, c30, c31, c32);
    lemma_mul_is_associative(c21, c20, c33);
    lemma_mul_is_commutative(c21, c20);
    lemma_mul_is_associative(c20, c21, c33);
    lemma_mul_is_associative(c21, c20, c32);
    lemma_mul_is_associative(c20, c21, c32);
    lemma_mul_is_associative(c22, c21, c33);
    lemma_mul_is_commutative(c22, c21);
    lemma_mul_is_associative(c21, c22, c33);
    lemma_mul_is_associative(c22, c20, c33);
    lemma_mul_is_commutative(c22, c20);
    lemma_mul_is_associative(c20, c22, c33);
    lemma_mul_is_associative(c22, c20, c31);
    lemma_mul_is_associative(c20, c22, c31);
    lemma_mul_is_associative(c22, c21, c30);
    lemma_mul_is_associative(c21, c22, c30);
    lemma_mul_is_associative(c23, c21, c32);
    lemma_mul_is_commutative(c23, c21);
    lemma_mul_is_associative(c21, c23, c32);
    lemma_mul_is_associative(c23, c22, c31);
    lemma_mul_is_commutative(c23, c22);
    lemma_mul_is_associative(c22, c23, c31);
    lemma_mul_is_associative(c23, c20, c32);
    lemma_mul_is_commutative(c23, c20);
    lemma_mul_is_associative(c20, c23, c32);
    lemma_mul_is_associative(c23, c22, c30);
    lemma_mul_is_associative(c22, c23, c30);
    lemma_mul_is_associative(c23, c20, c31);
    lemma_mul_is_associative(c20, c23, c31);
    lemma_mul_is_associative(c23, c21, c30);
    lemma_mul_is_associative(c21, c23, c30);
}

/// Cofactor expansion along row 2: combining row 2 with the cofactors
/// of row 2 yields the determinant.
pub proof fn lemma_row_cofactors_2_2(
    c00: int, c01: int, c02: int, c03: int,
    c10: int, c11: int, c12: int, c13: int,
    c20: int, c21: int, c22: int, c23: int,
    c30: int, c31: int, c32: int, c33: int,
)
    ensures
        c20 * det3(c01, c02, c03, c11, c12, c13, c31, c32, c33) + c22 * det3(c00, c01, c03, c10, c11, c13, c30, c31, c33) - c21 * det3(c00, c02, c03, c10, c12, c13, c30, c32, c33) - c23 * det3(c00, c01, c02, c10, c11, c12, c30, c31, c32) == det4(c00, c01, c02, c03, c10, c11, c12, c13, c20, c21, c22, c23, c30, c31, c32, c33),
{
    lemma_mul_det3_pos2(c20, c01, c02, c03, c11, c12, c13, c31, c32, c33);
    lemma_mul_det3_pos2(c21, c00, c02, c03, c10, c12, c13, c30, c32, c33);
    lemma_mul_det3_pos2(c22, c00, c01, c03, c10, c11, c13, c30, c31, c33);
    lemma_mul_det3_pos2(c23, c00, c01, c02, c10, c11, c12, c30, c31, c32);
    lemma_mul_det3_pos0(c00, c11, c12, c13, c21, c22, c23, c31, c32, c33);
    lemma_mul_det3_pos0(c01, c10, c12, c13, c20, c22, c23, c30, c32, c33);
    lemma_mul_det3_pos0(c02, c10, c11, c13, c20, c21, c23, c30, c31, c33);
    lemma_mul_det3_pos0(c03, c10, c11, c12, c20, c21, c22, c30, c31, c32);
}

/// Combining row 2 with the cofactors of row 3 yields zero: it is the
/// determinant of a grid with two equal rows.
pub proof fn lemma_row_cofactors_2_3(
    c00: int, c01: int, c02: int, c03: int,
    c10: int, c11: int, c12: int, c13: int,
    c20: int, c21: int, c22: int, c23: int,
    c30: int, c31: int, c32: int, c33: int,
)
    ensures
        c21 * det3(c00, c02, c03, c10, c12, c13, c20, c22, c23) + c23 * det3(c00, c01, c02, c10, c11, c12, c20, c21, c22) - c20 * det3(c01, c02, c03, c11, c12, c13, c21, c22, c23) - c22 * det3(c00, c01, c03, c10, c11, c13, c20, c21, c23) == 0,
{
    lemma_mul_det3_pos2(c20, c01, c02, c03, c11, c12, c13, c21, c22, c23);
    lemma_mul_det3_pos2(c21, c00, c02, c03, c10, c12, c13, c20, c22, c23);
    lemma_mul_det3_pos2(c22, c00, c01, c03, c10, c11, c13, c20, c21, c23);
    lemma_mul_det3_pos2(c23, c00, c01, c02, c10, c11, c12, c20, c21, c22);
    lemma_mul_is_commutative(c21, c20);
    lemma_mul_is_commutative(c22, c21);
    lemma_mul_is_commutative(c22, c20);
    lemma_mul_is_commutative(c23, c22);
    lemma_mul_is_commutative(c23, c21);
    lemma_mul_is_commutative(c23, c20);
}

/// Combining row 3 with the cofactors of row 0 yields zero: it is the
/// determinant of a grid with two equal rows.
pub proof fn lemma_row_cofactors_3_0(
    c00: int, c01: int, c02: int, c03: int,
    c10: int, c11: int, c12: int, c13: int,
    c20: int, c21: int, c22: int, c23: int,
    c30: int, c31: int, c32: int, c33: int,
)
    ensures
        c30 * det3(c11, c12, c13, c21, c22, c23, c31, c32, c33) + c32 * det3(c10, c11, c13, c20, c21, c23, c30, c31, c33) - c31 * det3(c10, c12, c13, c20, c22, c23, c30, c32, c33) - c33 * det3(c10, c11, c12, c20, c21, c22, c30, c31, c32) == 0,
{
    lemma_mul_det3_pos2(c30, c11, c12, c13, c21, c22, c23, c31, c32, c33);
    lemma_mul_det3_pos2(c31, c10, c12, c13, c20, c22, c23, c30, c32, c33);
    lemma_mul_det3_pos2(c32, c10, c11, c13, c20, c21, c23, c30, c31, c33);
    lemma_mul_det3_pos2(c33, c10, c11, c12, c20, c21, c22, c30, c31, c32);
    lemma_mul_is_commutative(c31, c30);
    lemma_mul_is_commutative(c32, c31);
    lemma_mul_is_commutative(c32, c30);
    lemma_mul_is_commutative(c33, c32);
    lemma_mul_is_commutative(c33, c31);
    lemma_mul_is_commutative(c33, c30);
}

/// Combining row 3 with the cofactors of row 1 yields zero: it is the
/// determinant of a grid with two equal rows.
pub proof fn lemma_row_cofactors_3_1(
    c00: int, c01: int, c02: int, c03: int,
    c10: int, c11: int, c12: int, c13: int,
    c20: int, c21: int, c22: int, c23: int,
    c30: int, c31: int, c32: int, c33: int,
)
    ensures
        c31 * det3(c00, c02, c03, c20, c22, c23, c30, c32, c33) + c33 * det3(c00, c01, c02, c20, c21, c22, c30, c31, c32) - c30 * det3(c01, c02, c03, c21, c22, c23, c31, c32, c33) - c32 * det3(c00, c01, c03, c20, c21, c23, c30, c31, c33) == 0,
{
    lemma_mul_det3_pos2(c30, c01, c02, c03, c21, c22, c23, c31, c32, c33);
    lemma_mul_det3_pos2(c31, c00, c02, c03, c20, c22, c23, c30, c32, c33);
    lemma_mul_det3_pos2(c32, c00, c01, c03, c20, c21, c23, c30, c31, c33);
    lemma_mul_det3_pos2(c33, c00, c01, c02, c20, c21, c22, c30, c31, c32);
    lemma_mul_is_commutative(c31, c30);
    lemma_mul_is_commutative(c32, c31);
    lemma_mul_is_commutative(c32, c30);
    lemma_mul_is_commutative(c33, c32);
    lemma_mul_is_commutative(c33, c31);
    lemma_mul_is_commutative(c33, c30);
}

/// Combining row 3 with the cofactors of row 2 yields zero: it is the
/// determinant of a grid with two equal rows.
pub proof fn lemma_row_cofactors_3_2(
    c00: int, c01: int, c02: int, c03: int,
    c10: int, c11: int, c12: int, c13: int,
    c20: int, c21: int, c22: int, c23: int,
    c30: int, c31: int, c32: int, c33: int,
)
    ensures
        c30 * det3(c01, c02, c03, c11, c12, c13, c31, c32, c33) + c32 * det3(c00, c01, c03, c10, c11, c13, c30, c31, c33) - c31 * det3(c00, c02, c03, c10, c12, c13, c30, c32, c33) - c33 * det3(c00, c01, c02, c10, c11, c12, c30, c31, c32) == 0,
{
    lemma_mul_det3_pos2(c30, c01, c02, c03, c11, c12, c13, c31, c32, c33);
    lemma_mul_det3_pos2(c31, c00, c02, c03, c10, c12, c13, c30, c32, c33);
    lemma_mul_det3_pos2(c32, c00, c01, c03, c10, c11, c13, c30, c31, c33);
    lemma_mul_det3_pos2(c33, c00, c01, c02, c10, c11, c12, c30, c31, c32);
    lemma_mul_is_commutative(c31, c30);
    lemma_mul_is_commutative(c32, c31);
    lemma_mul_is_commutative(c32, c30);
    lemma_mul_is_commutative(c33, c32);
    lemma_mul_is_commutative(c33, c31);
    lemma_mul_is_commutative(c33, c30);
}

/// Cofactor expansion along row 3: combining row 3 with the cofactors
/// of row 3 yields the determinant.
pub proof fn lemma_row_cofactors_3_3(
    c00: int, c01: int, c02: int, c03: int,
    c10: int, c11: int, c12: int, c13: int,
    c20: int, c21: int, c22: int, c23: int,
    c30: int, c31: int, c32: int, c33: int,
)
    ensures
        c31 * det3(c00, c02, c03, c10, c12, c13, c20, c22, c23) + c33 * det3(c00, c01, c02, c10, c11, c12, c20, c21, c22) - c30 * det3(c01, c02, c03, c11, c12, c13, c21, c22, c23) - c32 * det3(c00, c01, c03, c10, c11, c13, c20, c21, c23) == det4(c00, c01, c02, c03, c10, c11, c12, c13, c20, c21, c22, c23, c30, c31, c32, c33),
{
    lemma_mul_det3_pos3(c30, c01, c02, c03, c11, c12, c13, c21, c22, c23);
    lemma_mul_det3_pos3(c31, c00, c02, c03, c10, c12, c13, c20, c22, c23);
    lemma_mul_det3_pos3(c32, c00, c01, c03, c10, c11, c13, c20, c21, c23);
    lemma_mul_det3_pos3(c33, c00, c01, c02, c10, c11, c12, c20, c21, c22);
    lemma_mul_det3_pos0(c00, c11, c12, c13, c21, c22, c23, c31, c32, c33);
    lemma_mul_det3_pos0(c01, c10, c12, c13, c20, c22, c23, c30, c32, c33);
    lemma_mul_det3_pos0(c02, c10, c11, c13, c20, c21, c23, c30, c31, c33);
    lemma_mul_det3_pos0(c03, c10, c11, c12, c20, c21, c22, c30, c31, c32);
}

} // verus!

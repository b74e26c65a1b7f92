//! Builders for 4x4 affine transform matrices.
//!
//! Each builder starts from the identity and overwrites specific cells; the
//! numerators handed in share one positive denominator, and the identity's
//! diagonal becomes that denominator so every untouched cell keeps the value
//! one or zero. Rotations take the cosine and sine of the angle as rationals:
//! evaluating the trigonometric functions has no exact rational form and is
//! the caller's concern.

use vstd::prelude::*;
use crate::matrices::Matrix4x4;
use crate::scalar::VALUE_LIMIT;
use crate::tuples::Tuple;
use crate::util::rat_eq;

verus! {

/// The translation by `(x, y, z) / den`: column three of rows zero to two
/// holds the offsets.
pub fn translation(x: i128, y: i128, z: i128, den: i128) -> (r: Matrix4x4)
    requires
        0 < den,
    ensures
        r.den == den,
        r.m[0][0] == den && r.m[0][1] == 0 && r.m[0][2] == 0 && r.m[0][3] == x,
        r.m[1][0] == 0 && r.m[1][1] == den && r.m[1][2] == 0 && r.m[1][3] == y,
        r.m[2][0] == 0 && r.m[2][1] == 0 && r.m[2][2] == den && r.m[2][3] == z,
        r.m[3][0] == 0 && r.m[3][1] == 0 && r.m[3][2] == 0 && r.m[3][3] == den,
        r.wf(),
{
    Matrix4x4 {
        m: [
            [den, 0, 0, x],
            [0, den, 0, y],
            [0, 0, den, z],
            [0, 0, 0, den],
        ],
        den,
    }
}

/// The scaling by `(x, y, z) / den`: the first three diagonal cells hold
/// the factors.
pub fn scaling(x: i128, y: i128, z: i128, den: i128) -> (r: Matrix4x4)
    requires
        0 < den,
    ensures
        r.den == den,
        r.m[0][0] == x && r.m[0][1] == 0 && r.m[0][2] == 0 && r.m[0][3] == 0,
        r.m[1][0] == 0 && r.m[1][1] == y && r.m[1][2] == 0 && r.m[1][3] == 0,
        r.m[2][0] == 0 && r.m[2][1] == 0 && r.m[2][2] == z && r.m[2][3] == 0,
        r.m[3][0] == 0 && r.m[3][1] == 0 && r.m[3][2] == 0 && r.m[3][3] == den,
        r.wf(),
{
    Matrix4x4 {
        m: [
            [x, 0, 0, 0],
            [0, y, 0, 0],
            [0, 0, z, 0],
            [0, 0, 0, den],
        ],
        den,
    }
}

/// The right-handed rotation about the x axis whose cosine and sine are
/// `cos / den` and `sin / den`.
pub fn rotation_x(cos: i128, sin: i128, den: i128) -> (r: Matrix4x4)
    requires
        0 < den,
        -VALUE_LIMIT <= sin <= VALUE_LIMIT,
    ensures
        r.den == den,
        r.m[0][0] == den && r.m[0][1] == 0 && r.m[0][2] == 0 && r.m[0][3] == 0,
        r.m[1][0] == 0 && r.m[1][1] == cos && r.m[1][2] == -sin && r.m[1][3] == 0,
        r.m[2][0] == 0 && r.m[2][1] == sin && r.m[2][2] == cos && r.m[2][3] == 0,
        r.m[3][0] == 0 && r.m[3][1] == 0 && r.m[3][2] == 0 && r.m[3][3] == den,
        r.wf(),
{
    Matrix4x4 {
        m: [
            [den, 0, 0, 0],
            [0, cos, -sin, 0],
            [0, sin, cos, 0],
            [0, 0, 0, den],
        ],
        den,
    }
}

/// The right-handed rotation about the y axis whose cosine and sine are
/// `cos / den` and `sin / den`.
pub fn rotation_y(cos: i128, sin: i128, den: i128) -> (r: Matrix4x4)
    requires
        0 < den,
        -VALUE_LIMIT <= sin <= VALUE_LIMIT,
    ensures
        r.den == den,
        r.m[0][0] == cos && r.m[0][1] == 0 && r.m[0][2] == sin && r.m[0][3] == 0,
        r.m[1][0] == 0 && r.m[1][1] == den && r.m[1][2] == 0 && r.m[1][3] == 0,
        r.m[2][0] == -sin && r.m[2][1] == 0 && r.m[2][2] == cos && r.m[2][3] == 0,
        r.m[3][0] == 0 && r.m[3][1] == 0 && r.m[3][2] == 0 && r.m[3][3] == den,
        r.wf(),
{
    Matrix4x4 {
        m: [
            [cos, 0, sin, 0],
            [0, den, 0, 0],
            [-sin, 0, cos, 0],
            [0, 0, 0, den],
        ],
        den,
    }
}

/// The right-handed rotation about the z axis whose cosine and sine are
/// `cos / den` and `sin / den`.
pub fn rotation_z(cos: i128, sin: i128, den: i128) -> (r: Matrix4x4)
    requires
        0 < den,
        -VALUE_LIMIT <= sin <= VALUE_LIMIT,
    ensures
        r.den == den,
        r.m[0][0] == cos && r.m[0][1] == -sin && r.m[0][2] == 0 && r.m[0][3] == 0,
        r.m[1][0] == sin && r.m[1][1] == cos && r.m[1][2] == 0 && r.m[1][3] == 0,
        r.m[2][0] == 0 && r.m[2][1] == 0 && r.m[2][2] == den && r.m[2][3] == 0,
        r.m[3][0] == 0 && r.m[3][1] == 0 && r.m[3][2] == 0 && r.m[3][3] == den,
        r.wf(),
{
    Matrix4x4 {
        m: [
            [cos, -sin, 0, 0],
            [sin, cos, 0, 0],
            [0, 0, den, 0],
            [0, 0, 0, den],
        ],
        den,
    }
}

/// The shearing whose six off-diagonal factors are the given numerators
/// over `den`: `x_y` moves x in proportion to y, and so on.
pub fn shearing(x_y: i128, x_z: i128, y_x: i128, y_z: i128, z_x: i128, z_y: i128, den: i128) -> (r:
    Matrix4x4)
    requires
        0 < den,
    ensures
        r.den == den,
        r.m[0][0] == den && r.m[0][1] == x_y && r.m[0][2] == x_z && r.m[0][3] == 0,
        r.m[1][0] == y_x && r.m[1][1] == den && r.m[1][2] == y_z && r.m[1][3] == 0,
        r.m[2][0] == z_x && r.m[2][1] == z_y && r.m[2][2] == den && r.m[2][3] == 0,
        r.m[3][0] == 0 && r.m[3][1] == 0 && r.m[3][2] == 0 && r.m[3][3] == den,
        r.wf(),
{
    Matrix4x4 {
        m: [
            [den, x_y, x_z, 0],
            [y_x, den, y_z, 0],
            [z_x, z_y, den, 0],
            [0, 0, 0, den],
        ],
        den,
    }
}

/// A translation applied to a vector (`w == 0`) leaves every component's
/// value unchanged; applied to a point (`w == den`, the value one) it
/// offsets the components by `(x, y, z) / den` exactly.
pub proof fn lemma_translation_action(x: i128, y: i128, z: i128, den: i128, t: Matrix4x4, p: Tuple)
    requires
        0 < den,
        t.den == den,
        t.m[0][0] == den && t.m[0][1] == 0 && t.m[0][2] == 0 && t.m[0][3] == x,
        t.m[1][0] == 0 && t.m[1][1] == den && t.m[1][2] == 0 && t.m[1][3] == y,
        t.m[2][0] == 0 && t.m[2][1] == 0 && t.m[2][2] == den && t.m[2][3] == z,
        t.m[3][0] == 0 && t.m[3][1] == 0 && t.m[3][2] == 0 && t.m[3][3] == den,
        p.wf(),
    ensures
        p.w == 0 ==> rat_eq(crate::matrices::app4num(t, p, 0), t.den * p.den, p.x as int, p.den as int),
        p.w == 0 ==> rat_eq(crate::matrices::app4num(t, p, 1), t.den * p.den, p.y as int, p.den as int),
        p.w == 0 ==> rat_eq(crate::matrices::app4num(t, p, 2), t.den * p.den, p.z as int, p.den as int),
        p.w == 0 ==> rat_eq(crate::matrices::app4num(t, p, 3), t.den * p.den, p.w as int, p.den as int),
        p.w == p.den ==> rat_eq(
            crate::matrices::app4num(t, p, 0),
            t.den * p.den,
            p.x * den + x * p.den,
            p.den * den,
        ),
        p.w == p.den ==> rat_eq(
            crate::matrices::app4num(t, p, 1),
            t.den * p.den,
            p.y * den + y * p.den,
            p.den * den,
        ),
        p.w == p.den ==> rat_eq(
            crate::matrices::app4num(t, p, 2),
            t.den * p.den,
            p.z * den + z * p.den,
            p.den * den,
        ),
        p.w == p.den ==> rat_eq(
            crate::matrices::app4num(t, p, 3),
            t.den * p.den,
            p.w as int,
            p.den as int,
        ),
{
    let dp = p.den as int;
    let dt = den as int;
    let pw = p.w as int;
    let a0 = crate::matrices::app4num(t, p, 0);
    let a1 = crate::matrices::app4num(t, p, 1);
    let a2 = crate::matrices::app4num(t, p, 2);
    let a3 = crate::matrices::app4num(t, p, 3);
    assert(a0 == dt * p.x + x * pw);
    assert(a1 == dt * p.y + y * pw);
    assert(a2 == dt * p.z + z * pw);
    assert(a3 == dt * pw);
    if p.w == 0 {
        assert(a0 * dp == p.x * (dt * dp)) by (nonlinear_arith)
            requires
                a0 == dt * p.x + x * pw,
                pw == 0,
        ;
        assert(a1 * dp == p.y * (dt * dp)) by (nonlinear_arith)
            requires
                a1 == dt * p.y + y * pw,
                pw == 0,
        ;
        assert(a2 * dp == p.z * (dt * dp)) by (nonlinear_arith)
            requires
                a2 == dt * p.z + z * pw,
                pw == 0,
        ;
        assert(a3 * dp == pw * (dt * dp)) by (nonlinear_arith)
            requires
                a3 == dt * pw,
                pw == 0,
        ;
    }
    if p.w == p.den {
        assert(a0 * (dp * dt) == (p.x * dt + x * dp) * (dt * dp)) by (nonlinear_arith)
            requires
                a0 == dt * p.x + x * pw,
                pw == dp,
        ;
        assert(a1 * (dp * dt) == (p.y * dt + y * dp) * (dt * dp)) by (nonlinear_arith)
            requires
                a1 == dt * p.y + y * pw,
                pw == dp,
        ;
        assert(a2 * (dp * dt) == (p.z * dt + z * dp) * (dt * dp)) by (nonlinear_arith)
            requires
                a2 == dt * p.z + z * pw,
                pw == dp,
        ;
        assert(a3 * dp == pw * (dt * dp)) by (nonlinear_arith)
            requires
                a3 == dt * pw,
                pw == dp,
        ;
    }
}

} // verus!

//! Fixed-order square matrices over exact rationals.
//!
//! A matrix stores an `N x N` grid of integer numerators over one shared
//! positive denominator: the cell at `(r, c)` has the rational value
//! `m[r][c] / den`. Distinct orders are distinct types, so each order only
//! exposes the operations defined for it: the 2x2 order has no submatrix,
//! minor or cofactor, and only the 4x4 order has an identity, matrix
//! multiplication and application to a tuple.

use vstd::prelude::*;
use vstd::arithmetic::mul::lemma_mul_is_associative;
use vstd::arithmetic::mul::lemma_mul_is_commutative;
use vstd::arithmetic::mul::lemma_mul_by_zero_is_zero;
use vstd::arithmetic::mul::lemma_mul_is_distributive_add;
use vstd::arithmetic::mul::lemma_mul_unary_negation;
use crate::determinant::det2;
use crate::determinant::det3;
use crate::determinant::det4;
use crate::determinant::lemma_det2_bound;
use crate::determinant::lemma_row_cofactors_0_0;
use crate::determinant::lemma_row_cofactors_0_1;
use crate::determinant::lemma_row_cofactors_0_2;
use crate::determinant::lemma_row_cofactors_0_3;
use crate::determinant::lemma_row_cofactors_1_0;
use crate::determinant::lemma_row_cofactors_1_1;
use crate::determinant::lemma_row_cofactors_1_2;
use crate::determinant::lemma_row_cofactors_1_3;
use crate::determinant::lemma_row_cofactors_2_0;
use crate::determinant::lemma_row_cofactors_2_1;
use crate::determinant::lemma_row_cofactors_2_2;
use crate::determinant::lemma_row_cofactors_2_3;
use crate::determinant::lemma_row_cofactors_3_0;
use crate::determinant::lemma_row_cofactors_3_1;
use crate::determinant::lemma_row_cofactors_3_2;
use crate::determinant::lemma_row_cofactors_3_3;
use crate::determinant::lemma_det3_bound;
use crate::determinant::lemma_det4_bound;
use crate::scalar::Scalar;
use crate::scalar::VALUE_LIMIT;
use crate::tuples::Tuple;
use crate::util::abs_val;
use crate::util::lemma_prod_bound;
use crate::util::rat_approx;

verus! {

/// Headroom bound on the numerators and denominator of a matrix handed to
/// the determinant, minor, cofactor and inverse operations: their results
/// are fourth-degree products of cells, which then stay inside `i128`.
pub const DET_LIMIT: i128 = 1000000000;

/// A 2x2 matrix of rationals: cell `(r, c)` is `m[r][c] / den`.
#[derive(Clone, Copy, Debug)]
pub struct Matrix2x2 {
    pub m: [[i128; 2]; 2],
    pub den: i128,
}

/// A 3x3 matrix of rationals: cell `(r, c)` is `m[r][c] / den`.
#[derive(Clone, Copy, Debug)]
pub struct Matrix3x3 {
    pub m: [[i128; 3]; 3],
    pub den: i128,
}

/// A 4x4 matrix of rationals: cell `(r, c)` is `m[r][c] / den`.
#[derive(Clone, Copy, Debug)]
pub struct Matrix4x4 {
    pub m: [[i128; 4]; 4],
    pub den: i128,
}

/// Row or column index into the submatrix that deletes index `k`: indices
/// below `k` keep their place, the rest shift up by one.
pub open spec fn skip_index(k: int, i: int) -> int {
    if i < k {
        i
    } else {
        i + 1
    }
}

/// Integer determinant of the numerator grid of a 2x2 matrix.
pub open spec fn det2m(m: Matrix2x2) -> int {
    det2(m.m[0][0] as int, m.m[0][1] as int, m.m[1][0] as int, m.m[1][1] as int)
}

/// Integer determinant of the numerator grid of a 3x3 matrix.
pub open spec fn det3m(m: Matrix3x3) -> int {
    det3(
        m.m[0][0] as int, m.m[0][1] as int, m.m[0][2] as int,
        m.m[1][0] as int, m.m[1][1] as int, m.m[1][2] as int,
        m.m[2][0] as int, m.m[2][1] as int, m.m[2][2] as int,
    )
}

/// Integer determinant of the numerator grid of a 4x4 matrix.
pub open spec fn det4m(m: Matrix4x4) -> int {
    det4(
        m.m[0][0] as int, m.m[0][1] as int, m.m[0][2] as int, m.m[0][3] as int,
        m.m[1][0] as int, m.m[1][1] as int, m.m[1][2] as int, m.m[1][3] as int,
        m.m[2][0] as int, m.m[2][1] as int, m.m[2][2] as int, m.m[2][3] as int,
        m.m[3][0] as int, m.m[3][1] as int, m.m[3][2] as int, m.m[3][3] as int,
    )
}

/// Integer minor of a 3x3 numerator grid: the determinant of the 2x2 grid
/// left after deleting row `r` and column `c`.
pub open spec fn minor3m(m: Matrix3x3, r: int, c: int) -> int {
    det2(
        m.m[skip_index(r, 0)][skip_index(c, 0)] as int,
        m.m[skip_index(r, 0)][skip_index(c, 1)] as int,
        m.m[skip_index(r, 1)][skip_index(c, 0)] as int,
        m.m[skip_index(r, 1)][skip_index(c, 1)] as int,
    )
}

/// Integer cofactor of a 3x3 numerator grid: the minor, negated when
/// `r + c` is odd.
pub open spec fn cof3m(m: Matrix3x3, r: int, c: int) -> int {
    if (r + c) % 2 == 0 {
        minor3m(m, r, c)
    } else {
        -minor3m(m, r, c)
    }
}

/// Integer minor of a 4x4 numerator grid: the determinant of the 3x3 grid
/// left after deleting row `r` and column `c`.
pub open spec fn minor4m(m: Matrix4x4, r: int, c: int) -> int {
    det3(
        m.m[skip_index(r, 0)][skip_index(c, 0)] as int,
        m.m[skip_index(r, 0)][skip_index(c, 1)] as int,
        m.m[skip_index(r, 0)][skip_index(c, 2)] as int,
        m.m[skip_index(r, 1)][skip_index(c, 0)] as int,
        m.m[skip_index(r, 1)][skip_index(c, 1)] as int,
        m.m[skip_index(r, 1)][skip_index(c, 2)] as int,
        m.m[skip_index(r, 2)][skip_index(c, 0)] as int,
        m.m[skip_index(r, 2)][skip_index(c, 1)] as int,
        m.m[skip_index(r, 2)][skip_index(c, 2)] as int,
    )
}

/// Integer cofactor of a 4x4 numerator grid: the minor, negated when
/// `r + c` is odd.
pub open spec fn cof4m(m: Matrix4x4, r: int, c: int) -> int {
    if (r + c) % 2 == 0 {
        minor4m(m, r, c)
    } else {
        -minor4m(m, r, c)
    }
}

/// Integer cofactor of a 2x2 numerator grid: the complementary single cell,
/// negated when `r + c` is odd.
pub open spec fn cof2m(m: Matrix2x2, r: int, c: int) -> int {
    if r == 0 && c == 0 {
        m.m[1][1] as int
    } else if r == 0 && c == 1 {
        -(m.m[1][0] as int)
    } else if r == 1 && c == 0 {
        -(m.m[0][1] as int)
    } else {
        m.m[0][0] as int
    }
}

/// Numerator of cell `(i, j)` of the inverse of a 2x2 matrix, over the
/// denominator `abs(det2m(m))`: the transposed cofactor scaled by the
/// matrix denominator, with the determinant's sign folded in.
pub open spec fn inv2num(m: Matrix2x2, i: int, j: int) -> int {
    if det2m(m) < 0 {
        -(m.den * cof2m(m, j, i))
    } else {
        m.den * cof2m(m, j, i)
    }
}

/// Numerator of cell `(i, j)` of the inverse of a 3x3 matrix, over the
/// denominator `abs(det3m(m))`.
pub open spec fn inv3num(m: Matrix3x3, i: int, j: int) -> int {
    if det3m(m) < 0 {
        -(m.den * cof3m(m, j, i))
    } else {
        m.den * cof3m(m, j, i)
    }
}

/// Numerator of cell `(i, j)` of the inverse of a 4x4 matrix, over the
/// denominator `abs(det4m(m))`.
pub open spec fn inv4num(m: Matrix4x4, i: int, j: int) -> int {
    if det4m(m) < 0 {
        -(m.den * cof4m(m, j, i))
    } else {
        m.den * cof4m(m, j, i)
    }
}

/// Numerator of cell `(i, j)` of the product of two 4x4 matrices: the dot
/// product of row `i` of `a` with column `j` of `b`, over the denominator
/// `a.den * b.den`.
pub open spec fn mul4cell(a: Matrix4x4, b: Matrix4x4, i: int, j: int) -> int {
    a.m[i][0] * b.m[0][j] + a.m[i][1] * b.m[1][j] + a.m[i][2] * b.m[2][j] + a.m[i][3] * b.m[3][j]
}

/// Signed product of a cell numerator and a cofactor, used by the inverse:
/// exactly `inv2num`, `inv3num` or `inv4num` once connected to its matrix.
fn signed_adjugate_cell(den: i128, cof: i128, neg: bool, Ghost(cb): Ghost<int>) -> (r: i128)
    requires
        0 < den <= DET_LIMIT,
        0 <= cb,
        -cb <= cof <= cb,
        // 2^124: the product then stays well inside `i128`.
        DET_LIMIT * cb <= 0x10000000000000000000000000000000,
    ensures
        r == if neg {
            -(den * cof)
        } else {
            den * cof
        },
{
    proof {
        lemma_prod_bound(den as int, cof as int, DET_LIMIT as int, cb);
    }
    let t = den * cof;
    if neg {
        -t
    } else {
        t
    }
}

impl Matrix2x2 {
    /// A matrix is well formed when its shared denominator is positive.
    pub open spec fn wf(self) -> bool {
        0 < self.den
    }

    /// All numerators and the denominator are no larger in magnitude than `b`.
    pub open spec fn bounded(self, b: int) -> bool {
        &&& forall|i: int, j: int| 0 <= i < 2 && 0 <= j < 2 ==> -b <= #[trigger] self.m[i][j] <= b
        &&& self.den <= b
    }

    /// Cell-wise equality with `other`, within the epsilon tolerance.
    pub open spec fn approx(self, other: Matrix2x2) -> bool {
        forall|i: int, j: int|
            0 <= i < 2 && 0 <= j < 2 ==> #[trigger] rat_approx(
                self.m[i][j] as int,
                self.den as int,
                other.m[i][j] as int,
                other.den as int,
            )
    }

    /// Construct a matrix from its numerator grid and shared denominator.
    pub fn new(m: [[i128; 2]; 2], den: i128) -> (r: Matrix2x2)
        requires
            0 < den,
        ensures
            r.m == m,
            r.den == den,
            r.wf(),
    {
        Matrix2x2 { m, den }
    }

    /// The cell at `(row, col)` as a scalar.
    pub fn at(&self, row: usize, col: usize) -> (r: Scalar)
        requires
            self.wf(),
            row < 2,
            col < 2,
        ensures
            r.num == self.m[row as int][col as int],
            r.den == self.den,
            r.wf(),
    {
        Scalar { num: self.m[row][col], den: self.den }
    }

    /// Whether `self` and `other` are equal cell-wise within the epsilon.
    pub fn approx_eq(&self, other: &Matrix2x2) -> (r: bool)
        requires
            self.wf(),
            other.wf(),
            self.bounded(VALUE_LIMIT as int),
            other.bounded(VALUE_LIMIT as int),
        ensures
            r == self.approx(*other),
    {
        let mut row: usize = 0;
        while row < 2
            invariant
                0 <= row <= 2,
                self.wf(),
                other.wf(),
                self.bounded(VALUE_LIMIT as int),
                other.bounded(VALUE_LIMIT as int),
                forall|i: int, j: int|
                    0 <= i < row && 0 <= j < 2 ==> #[trigger] rat_approx(
                        self.m[i][j] as int,
                        self.den as int,
                        other.m[i][j] as int,
                        other.den as int,
                    ),
            decreases 2 - row,
        {
            let mut col: usize = 0;
            while col < 2
                invariant
                    0 <= row < 2,
                    0 <= col <= 2,
                    self.wf(),
                    other.wf(),
                    self.bounded(VALUE_LIMIT as int),
                    other.bounded(VALUE_LIMIT as int),
                    forall|i: int, j: int|
                        0 <= i < row && 0 <= j < 2 ==> #[trigger] rat_approx(
                            self.m[i][j] as int,
                            self.den as int,
                            other.m[i][j] as int,
                            other.den as int,
                        ),
                    forall|j: int|
                        0 <= j < col ==> #[trigger] rat_approx(
                            self.m[row as int][j] as int,
                            self.den as int,
                            other.m[row as int][j] as int,
                            other.den as int,
                        ),
                decreases 2 - col,
            {
                if !crate::util::approx_equal(&self.at(row, col), &other.at(row, col)) {
                    return false;
                }
                col += 1;
            }
            row += 1;
        }
        true
    }

    /// The mirrored matrix: cell `(r, c)` of the result is cell `(c, r)` of
    /// `self`, over the same denominator.
    pub fn transpose(&self) -> (r: Matrix2x2)
        requires
            self.wf(),
        ensures
            r.den == self.den,
            forall|i: int, j: int| 0 <= i < 2 && 0 <= j < 2 ==> #[trigger] r.m[i][j] == self.m[j][i],
            r.wf(),
    {
        Matrix2x2 {
            m: [
                [self.m[0][0], self.m[1][0]],
                [self.m[0][1], self.m[1][1]],
            ],
            den: self.den,
        }
    }

    /// The determinant `(a d - b c) / den^2`, exactly.
    pub fn determinant(&self) -> (r: Scalar)
        requires
            self.wf(),
            self.bounded(DET_LIMIT as int),
        ensures
            r.num == det2m(*self),
            r.den == self.den * self.den,
            r.wf(),
            -(2 * DET_LIMIT * DET_LIMIT) <= r.num <= 2 * DET_LIMIT * DET_LIMIT,
    {
        proof {
            let l = DET_LIMIT as int;
            lemma_prod_bound(self.m[0][0] as int, self.m[1][1] as int, l, l);
            lemma_prod_bound(self.m[0][1] as int, self.m[1][0] as int, l, l);
            lemma_prod_bound(self.den as int, self.den as int, l, l);
            lemma_det2_bound(
                self.m[0][0] as int,
                self.m[0][1] as int,
                self.m[1][0] as int,
                self.m[1][1] as int,
                l,
            );
        }
        Scalar {
            num: self.m[0][0] * self.m[1][1] - self.m[0][1] * self.m[1][0],
            den: self.den * self.den,
        }
    }

    /// Whether the determinant is nonzero; the test is exact, not
    /// epsilon-based, so a vanishingly small nonzero determinant still
    /// counts as invertible.
    pub fn is_invertible(&self) -> (r: bool)
        requires
            self.wf(),
            self.bounded(DET_LIMIT as int),
        ensures
            r == (det2m(*self) != 0),
    {
        self.determinant().num != 0
    }

    /// The inverse, when the determinant is nonzero; `None` otherwise.
    pub fn inverse(&self) -> (r: Option<Matrix2x2>)
        requires
            self.wf(),
            self.bounded(DET_LIMIT as int),
        ensures
            r is Some <==> det2m(*self) != 0,
            r matches Some(inv) ==> {
                &&& inv.wf()
                &&& inv.den == abs_val(det2m(*self))
                &&& forall|i: int, j: int|
                    0 <= i < 2 && 0 <= j < 2 ==> #[trigger] inv.m[i][j] == inv2num(*self, i, j)
            },
    {
        let d = self.determinant();
        if d.num == 0 {
            return None;
        }
        let neg = d.num < 0;
        let m00 = signed_adjugate_cell(self.den, self.m[1][1], neg, Ghost(DET_LIMIT as int));
        let m01 = signed_adjugate_cell(self.den, -self.m[0][1], neg, Ghost(DET_LIMIT as int));
        let m10 = signed_adjugate_cell(self.den, -self.m[1][0], neg, Ghost(DET_LIMIT as int));
        let m11 = signed_adjugate_cell(self.den, self.m[0][0], neg, Ghost(DET_LIMIT as int));
        let den = if d.num < 0 {
            -d.num
        } else {
            d.num
        };
        Some(Matrix2x2 { m: [[m00, m01], [m10, m11]], den })
    }
}

impl Matrix3x3 {
    /// A matrix is well formed when its shared denominator is positive.
    pub open spec fn wf(self) -> bool {
        0 < self.den
    }

    /// All numerators and the denominator are no larger in magnitude than `b`.
    pub open spec fn bounded(self, b: int) -> bool {
        &&& forall|i: int, j: int| 0 <= i < 3 && 0 <= j < 3 ==> -b <= #[trigger] self.m[i][j] <= b
        &&& self.den <= b
    }

    /// Cell-wise equality with `other`, within the epsilon tolerance.
    pub open spec fn approx(self, other: Matrix3x3) -> bool {
        forall|i: int, j: int|
            0 <= i < 3 && 0 <= j < 3 ==> #[trigger] rat_approx(
                self.m[i][j] as int,
                self.den as int,
                other.m[i][j] as int,
                other.den as int,
            )
    }

    /// Construct a matrix from its numerator grid and shared denominator.
    pub fn new(m: [[i128; 3]; 3], den: i128) -> (r: Matrix3x3)
        requires
            0 < den,
        ensures
            r.m == m,
            r.den == den,
            r.wf(),
    {
        Matrix3x3 { m, den }
    }

    /// The cell at `(row, col)` as a scalar.
    pub fn at(&self, row: usize, col: usize) -> (r: Scalar)
        requires
            self.wf(),
            row < 3,
            col < 3,
        ensures
            r.num == self.m[row as int][col as int],
            r.den == self.den,
            r.wf(),
    {
        Scalar { num: self.m[row][col], den: self.den }
    }

    /// Whether `self` and `other` are equal cell-wise within the epsilon.
    pub fn approx_eq(&self, other: &Matrix3x3) -> (r: bool)
        requires
            self.wf(),
            other.wf(),
            self.bounded(VALUE_LIMIT as int),
            other.bounded(VALUE_LIMIT as int),
        ensures
            r == self.approx(*other),
    {
        let mut row: usize = 0;
        while row < 3
            invariant
                0 <= row <= 3,
                self.wf(),
                other.wf(),
                self.bounded(VALUE_LIMIT as int),
                other.bounded(VALUE_LIMIT as int),
                forall|i: int, j: int|
                    0 <= i < row && 0 <= j < 3 ==> #[trigger] rat_approx(
                        self.m[i][j] as int,
                        self.den as int,
                        other.m[i][j] as int,
                        other.den as int,
                    ),
            decreases 3 - row,
        {
            let mut col: usize = 0;
            while col < 3
                invariant
                    0 <= row < 3,
                    0 <= col <= 3,
                    self.wf(),
                    other.wf(),
                    self.bounded(VALUE_LIMIT as int),
                    other.bounded(VALUE_LIMIT as int),
                    forall|i: int, j: int|
                        0 <= i < row && 0 <= j < 3 ==> #[trigger] rat_approx(
                            self.m[i][j] as int,
                            self.den as int,
                            other.m[i][j] as int,
                            other.den as int,
                        ),
                    forall|j: int|
                        0 <= j < col ==> #[trigger] rat_approx(
                            self.m[row as int][j] as int,
                            self.den as int,
                            other.m[row as int][j] as int,
                            other.den as int,
                        ),
                decreases 3 - col,
            {
                if !crate::util::approx_equal(&self.at(row, col), &other.at(row, col)) {
                    return false;
                }
                col += 1;
            }
            row += 1;
        }
        true
    }

    /// The mirrored matrix: cell `(r, c)` of the result is cell `(c, r)` of
    /// `self`, over the same denominator.
    pub fn transpose(&self) -> (r: Matrix3x3)
        requires
            self.wf(),
        ensures
            r.den == self.den,
            forall|i: int, j: int| 0 <= i < 3 && 0 <= j < 3 ==> #[trigger] r.m[i][j] == self.m[j][i],
            r.wf(),
    {
        Matrix3x3 {
            m: [
                [self.m[0][0], self.m[1][0], self.m[2][0]],
                [self.m[0][1], self.m[1][1], self.m[2][1]],
                [self.m[0][2], self.m[1][2], self.m[2][2]],
            ],
            den: self.den,
        }
    }

    /// The 2x2 submatrix left after deleting row `remove_row` and column
    /// `remove_col`.
    pub fn submatrix(&self, remove_row: usize, remove_col: usize) -> (r: Matrix2x2)
        requires
            self.wf(),
            remove_row < 3,
            remove_col < 3,
        ensures
            r.den == self.den,
            forall|i: int, j: int|
                0 <= i < 2 && 0 <= j < 2 ==> #[trigger] r.m[i][j] == self.m[skip_index(
                    remove_row as int,
                    i,
                )][skip_index(remove_col as int, j)],
            r.wf(),
    {
        let r0: usize = if remove_row == 0 { 1 } else { 0 };
        let r1: usize = if remove_row <= 1 { 2 } else { 1 };
        let c0: usize = if remove_col == 0 { 1 } else { 0 };
        let c1: usize = if remove_col <= 1 { 2 } else { 1 };
        Matrix2x2 {
            m: [
                [self.m[r0][c0], self.m[r0][c1]],
                [self.m[r1][c0], self.m[r1][c1]],
            ],
            den: self.den,
        }
    }

    /// The minor at `(row, col)`: the determinant of the submatrix that
    /// deletes that row and column.
    pub fn minor(&self, row: usize, col: usize) -> (r: Scalar)
        requires
            self.wf(),
            self.bounded(DET_LIMIT as int),
            row < 3,
            col < 3,
        ensures
            r.num == minor3m(*self, row as int, col as int),
            r.den == self.den * self.den,
            r.wf(),
            -(2 * DET_LIMIT * DET_LIMIT) <= r.num <= 2 * DET_LIMIT * DET_LIMIT,
    {
        let s = self.submatrix(row, col);
        assert(s.bounded(DET_LIMIT as int));
        s.determinant()
    }

    /// The cofactor at `(row, col)`: the minor, negated when `row + col` is
    /// odd.
    pub fn cofactor(&self, row: usize, col: usize) -> (r: Scalar)
        requires
            self.wf(),
            self.bounded(DET_LIMIT as int),
            row < 3,
            col < 3,
        ensures
            r.num == cof3m(*self, row as int, col as int),
            r.den == self.den * self.den,
            r.wf(),
            -(2 * DET_LIMIT * DET_LIMIT) <= r.num <= 2 * DET_LIMIT * DET_LIMIT,
    {
        let m = self.minor(row, col);
        if (row + col) % 2 == 0 {
            m
        } else {
            Scalar { num: -m.num, den: m.den }
        }
    }

    /// The determinant, by cofactor expansion along row zero, exactly:
    /// its value is `det3m(self) / den^3`.
    pub fn determinant(&self) -> (r: Scalar)
        requires
            self.wf(),
            self.bounded(DET_LIMIT as int),
        ensures
            r.num == det3m(*self),
            r.den == self.den * self.den * self.den,
            r.wf(),
            -(6 * DET_LIMIT * DET_LIMIT * DET_LIMIT) <= r.num <= 6 * DET_LIMIT * DET_LIMIT
                * DET_LIMIT,
    {
        let min0 = self.minor(0, 0);
        let min1 = self.minor(0, 1);
        let min2 = self.minor(0, 2);
        proof {
            let l = DET_LIMIT as int;
            lemma_prod_bound(self.m[0][0] as int, min0.num as int, l, 2 * l * l);
            lemma_prod_bound(self.m[0][1] as int, min1.num as int, l, 2 * l * l);
            lemma_prod_bound(self.m[0][2] as int, min2.num as int, l, 2 * l * l);
            lemma_prod_bound(self.den as int, self.den as int, l, l);
            lemma_prod_bound(self.den as int * self.den as int, self.den as int, l * l, l);
            lemma_det3_bound(
                self.m[0][0] as int, self.m[0][1] as int, self.m[0][2] as int,
                self.m[1][0] as int, self.m[1][1] as int, self.m[1][2] as int,
                self.m[2][0] as int, self.m[2][1] as int, self.m[2][2] as int,
                l,
            );
            assert(l * (2 * l * l) == 2 * l * l * l) by (nonlinear_arith);
        }
        let d2 = self.den * self.den;
        let d3 = d2 * self.den;
        Scalar {
            num: self.m[0][0] * min0.num - self.m[0][1] * min1.num + self.m[0][2] * min2.num,
            den: d3,
        }
    }

    /// Whether the determinant is nonzero; the test is exact, not
    /// epsilon-based.
    pub fn is_invertible(&self) -> (r: bool)
        requires
            self.wf(),
            self.bounded(DET_LIMIT as int),
        ensures
            r == (det3m(*self) != 0),
    {
        self.determinant().num != 0
    }

    /// The inverse, when the determinant is nonzero; `None` otherwise. Cell
    /// `(i, j)` of the result is the cofactor at `(j, i)` divided by the
    /// determinant, exactly.
    pub fn inverse(&self) -> (r: Option<Matrix3x3>)
        requires
            self.wf(),
            self.bounded(DET_LIMIT as int),
        ensures
            r is Some <==> det3m(*self) != 0,
            r matches Some(inv) ==> {
                &&& inv.wf()
                &&& inv.den == abs_val(det3m(*self))
                &&& forall|i: int, j: int|
                    0 <= i < 3 && 0 <= j < 3 ==> #[trigger] inv.m[i][j] == inv3num(*self, i, j)
            },
    {
        let d = self.determinant();
        if d.num == 0 {
            return None;
        }
        let neg = d.num < 0;
        let ghost cb = 2 * (DET_LIMIT as int) * (DET_LIMIT as int);
        let m00 = signed_adjugate_cell(self.den, self.cofactor(0, 0).num, neg, Ghost(cb));
        let m01 = signed_adjugate_cell(self.den, self.cofactor(1, 0).num, neg, Ghost(cb));
        let m02 = signed_adjugate_cell(self.den, self.cofactor(2, 0).num, neg, Ghost(cb));
        let m10 = signed_adjugate_cell(self.den, self.cofactor(0, 1).num, neg, Ghost(cb));
        let m11 = signed_adjugate_cell(self.den, self.cofactor(1, 1).num, neg, Ghost(cb));
        let m12 = signed_adjugate_cell(self.den, self.cofactor(2, 1).num, neg, Ghost(cb));
        let m20 = signed_adjugate_cell(self.den, self.cofactor(0, 2).num, neg, Ghost(cb));
        let m21 = signed_adjugate_cell(self.den, self.cofactor(1, 2).num, neg, Ghost(cb));
        let m22 = signed_adjugate_cell(self.den, self.cofactor(2, 2).num, neg, Ghost(cb));
        let den = if d.num < 0 {
            -d.num
        } else {
            d.num
        };
        Some(Matrix3x3 {
            m: [
                [m00, m01, m02],
                [m10, m11, m12],
                [m20, m21, m22],
            ],
            den,
        })
    }
}

/// Cell `(i, j)` of `m` holds the value of cell `(j, i)` of `a`: exactly
/// what `transpose` ensures of its result.
pub open spec fn is_transpose_of(m: Matrix4x4, a: Matrix4x4) -> bool {
    &&& m.den == a.den
    &&& forall|i: int, j: int| 0 <= i < 4 && 0 <= j < 4 ==> #[trigger] m.m[i][j] == a.m[j][i]
}

/// The matrix is the identity: denominator one, ones on the diagonal and
/// zeroes elsewhere.
pub open spec fn is_identity(m: Matrix4x4) -> bool {
    &&& m.den == 1
    &&& forall|i: int, j: int|
        0 <= i < 4 && 0 <= j < 4 ==> #[trigger] m.m[i][j] == if i == j {
            1int
        } else {
            0int
        }
}

/// Transposing twice yields the original matrix again, cell for cell.
pub proof fn lemma_transpose_involution(a: Matrix4x4, b: Matrix4x4, c: Matrix4x4)
    requires
        is_transpose_of(b, a),
        is_transpose_of(c, b),
    ensures
        c.den == a.den,
        forall|i: int, j: int| 0 <= i < 4 && 0 <= j < 4 ==> #[trigger] c.m[i][j] == a.m[i][j],
{
}

/// The transpose of the identity is the identity.
pub proof fn lemma_transpose_identity(a: Matrix4x4, b: Matrix4x4)
    requires
        is_identity(a),
        is_transpose_of(b, a),
    ensures
        is_identity(b),
{
}

/// Multiplying any matrix by the identity yields the same matrix again:
/// the product's cells and denominator are exactly those of `a`.
pub proof fn lemma_multiply_identity(a: Matrix4x4, id: Matrix4x4)
    requires
        is_identity(id),
    ensures
        forall|i: int, j: int|
            0 <= i < 4 && 0 <= j < 4 ==> #[trigger] mul4cell(a, id, i, j) == a.m[i][j],
        forall|i: int, j: int|
            0 <= i < 4 && 0 <= j < 4 ==> #[trigger] mul4cell(id, a, i, j) == a.m[i][j],
        a.den * id.den == a.den,
        id.den * a.den == a.den,
{
    assert forall|i: int, j: int| 0 <= i < 4 && 0 <= j < 4 implies #[trigger] mul4cell(a, id, i, j)
        == a.m[i][j] by {
        assert(id.m[0][j] == if 0 == j { 1int } else { 0int });
        assert(id.m[1][j] == if 1 == j { 1int } else { 0int });
        assert(id.m[2][j] == if 2 == j { 1int } else { 0int });
        assert(id.m[3][j] == if 3 == j { 1int } else { 0int });
    }
    assert forall|i: int, j: int| 0 <= i < 4 && 0 <= j < 4 implies #[trigger] mul4cell(id, a, i, j)
        == a.m[i][j] by {
        assert(id.m[i][0] == if i == 0 { 1int } else { 0int });
        assert(id.m[i][1] == if i == 1 { 1int } else { 0int });
        assert(id.m[i][2] == if i == 2 { 1int } else { 0int });
        assert(id.m[i][3] == if i == 3 { 1int } else { 0int });
    }
}

/// Applying the identity to a tuple yields the same tuple again: the
/// result's numerators and denominator are exactly those of `t`.
pub proof fn lemma_identity_apply(id: Matrix4x4, t: Tuple)
    requires
        is_identity(id),
    ensures
        app4num(id, t, 0) == t.x,
        app4num(id, t, 1) == t.y,
        app4num(id, t, 2) == t.z,
        app4num(id, t, 3) == t.w,
        id.den * t.den == t.den,
{
    assert forall|i: int, j: int| 0 <= i < 4 && 0 <= j < 4 implies #[trigger] id.m[i][j] == if i
        == j {
        1int
    } else {
        0int
    } by {}
    let tx = t.x as int;
    let ty = t.y as int;
    let tz = t.z as int;
    let tw = t.w as int;
    assert(app4num(id, t, 0) == 1 * tx + 0 * ty + 0 * tz + 0 * tw);
    assert(app4num(id, t, 1) == 0 * tx + 1 * ty + 0 * tz + 0 * tw);
    assert(app4num(id, t, 2) == 0 * tx + 0 * ty + 1 * tz + 0 * tw);
    assert(app4num(id, t, 3) == 0 * tx + 0 * ty + 0 * tz + 1 * tw);
}

/// Numerator of component `i` of a 4x4 matrix applied to a tuple: the dot
/// product of row `i` with `(x, y, z, w)`, over the denominator
/// `m.den * t.den`.
pub open spec fn app4num(m: Matrix4x4, t: Tuple, i: int) -> int {
    m.m[i][0] * t.x + m.m[i][1] * t.y + m.m[i][2] * t.z + m.m[i][3] * t.w
}

/// Dot product of row `i` of `a` with column `j` of `b`, used by `multiply`.
fn mul4_dot(a: &Matrix4x4, b: &Matrix4x4, i: usize, j: usize) -> (r: i128)
    requires
        a.wf(),
        b.wf(),
        a.bounded(VALUE_LIMIT as int),
        b.bounded(VALUE_LIMIT as int),
        i < 4,
        j < 4,
    ensures
        r == mul4cell(*a, *b, i as int, j as int),
{
    proof {
        let l = VALUE_LIMIT as int;
        lemma_prod_bound(a.m[i as int][0] as int, b.m[0][j as int] as int, l, l);
        lemma_prod_bound(a.m[i as int][1] as int, b.m[1][j as int] as int, l, l);
        lemma_prod_bound(a.m[i as int][2] as int, b.m[2][j as int] as int, l, l);
        lemma_prod_bound(a.m[i as int][3] as int, b.m[3][j as int] as int, l, l);
    }
    a.m[i][0] * b.m[0][j] + a.m[i][1] * b.m[1][j] + a.m[i][2] * b.m[2][j] + a.m[i][3] * b.m[3][j]
}

impl Matrix4x4 {
    /// A matrix is well formed when its shared denominator is positive.
    pub open spec fn wf(self) -> bool {
        0 < self.den
    }

    /// All numerators and the denominator are no larger in magnitude than `b`.
    pub open spec fn bounded(self, b: int) -> bool {
        &&& forall|i: int, j: int| 0 <= i < 4 && 0 <= j < 4 ==> -b <= #[trigger] self.m[i][j] <= b
        &&& self.den <= b
    }

    /// Cell-wise equality with `other`, within the epsilon tolerance.
    pub open spec fn approx(self, other: Matrix4x4) -> bool {
        forall|i: int, j: int|
            0 <= i < 4 && 0 <= j < 4 ==> #[trigger] rat_approx(
                self.m[i][j] as int,
                self.den as int,
                other.m[i][j] as int,
                other.den as int,
            )
    }

    /// Construct a matrix from its numerator grid and shared denominator.
    pub fn new(m: [[i128; 4]; 4], den: i128) -> (r: Matrix4x4)
        requires
            0 < den,
        ensures
            r.m == m,
            r.den == den,
            r.wf(),
    {
        Matrix4x4 { m, den }
    }

    /// The cell at `(row, col)` as a scalar.
    pub fn at(&self, row: usize, col: usize) -> (r: Scalar)
        requires
            self.wf(),
            row < 4,
            col < 4,
        ensures
            r.num == self.m[row as int][col as int],
            r.den == self.den,
            r.wf(),
    {
        Scalar { num: self.m[row][col], den: self.den }
    }

    /// The 4x4 identity matrix: ones on the diagonal over denominator one.
    pub fn identity() -> (r: Matrix4x4)
        ensures
            r.den == 1,
            forall|i: int, j: int|
                0 <= i < 4 && 0 <= j < 4 ==> #[trigger] r.m[i][j] == if i == j {
                    1int
                } else {
                    0int
                },
            r.wf(),
    {
        Matrix4x4 {
            m: [
                [1, 0, 0, 0],
                [0, 1, 0, 0],
                [0, 0, 1, 0],
                [0, 0, 0, 1],
            ],
            den: 1,
        }
    }

    /// Whether `self` and `other` are equal cell-wise within the epsilon.
    pub fn approx_eq(&self, other: &Matrix4x4) -> (r: bool)
        requires
            self.wf(),
            other.wf(),
            self.bounded(VALUE_LIMIT as int),
            other.bounded(VALUE_LIMIT as int),
        ensures
            r == self.approx(*other),
    {
        let mut row: usize = 0;
        while row < 4
            invariant
                0 <= row <= 4,
                self.wf(),
                other.wf(),
                self.bounded(VALUE_LIMIT as int),
                other.bounded(VALUE_LIMIT as int),
                forall|i: int, j: int|
                    0 <= i < row && 0 <= j < 4 ==> #[trigger] rat_approx(
                        self.m[i][j] as int,
                        self.den as int,
                        other.m[i][j] as int,
                        other.den as int,
                    ),
            decreases 4 - row,
        {
            let mut col: usize = 0;
            while col < 4
                invariant
                    0 <= row < 4,
                    0 <= col <= 4,
                    self.wf(),
                    other.wf(),
                    self.bounded(VALUE_LIMIT as int),
                    other.bounded(VALUE_LIMIT as int),
                    forall|i: int, j: int|
                        0 <= i < row && 0 <= j < 4 ==> #[trigger] rat_approx(
                            self.m[i][j] as int,
                            self.den as int,
                            other.m[i][j] as int,
                            other.den as int,
                        ),
                    forall|j: int|
                        0 <= j < col ==> #[trigger] rat_approx(
                            self.m[row as int][j] as int,
                            self.den as int,
                            other.m[row as int][j] as int,
                            other.den as int,
                        ),
                decreases 4 - col,
            {
                if !crate::util::approx_equal(&self.at(row, col), &other.at(row, col)) {
                    return false;
                }
                col += 1;
            }
            row += 1;
        }
        true
    }

    /// The mirrored matrix: cell `(r, c)` of the result is cell `(c, r)` of
    /// `self`, over the same denominator.
    pub fn transpose(&self) -> (r: Matrix4x4)
        requires
            self.wf(),
        ensures
            r.den == self.den,
            forall|i: int, j: int| 0 <= i < 4 && 0 <= j < 4 ==> #[trigger] r.m[i][j] == self.m[j][i],
            r.wf(),
    {
        Matrix4x4 {
            m: [
                [self.m[0][0], self.m[1][0], self.m[2][0], self.m[3][0]],
                [self.m[0][1], self.m[1][1], self.m[2][1], self.m[3][1]],
                [self.m[0][2], self.m[1][2], self.m[2][2], self.m[3][2]],
                [self.m[0][3], self.m[1][3], self.m[2][3], self.m[3][3]],
            ],
            den: self.den,
        }
    }

    /// The 3x3 submatrix left after deleting row `remove_row` and column
    /// `remove_col`.
    pub fn submatrix(&self, remove_row: usize, remove_col: usize) -> (r: Matrix3x3)
        requires
            self.wf(),
            remove_row < 4,
            remove_col < 4,
        ensures
            r.den == self.den,
            forall|i: int, j: int|
                0 <= i < 3 && 0 <= j < 3 ==> #[trigger] r.m[i][j] == self.m[skip_index(
                    remove_row as int,
                    i,
                )][skip_index(remove_col as int, j)],
            r.wf(),
    {
        let r0: usize = if remove_row == 0 { 1 } else { 0 };
        let r1: usize = if remove_row <= 1 { 2 } else { 1 };
        let r2: usize = if remove_row <= 2 { 3 } else { 2 };
        let c0: usize = if remove_col == 0 { 1 } else { 0 };
        let c1: usize = if remove_col <= 1 { 2 } else { 1 };
        let c2: usize = if remove_col <= 2 { 3 } else { 2 };
        Matrix3x3 {
            m: [
                [self.m[r0][c0], self.m[r0][c1], self.m[r0][c2]],
                [self.m[r1][c0], self.m[r1][c1], self.m[r1][c2]],
                [self.m[r2][c0], self.m[r2][c1], self.m[r2][c2]],
            ],
            den: self.den,
        }
    }

    /// The minor at `(row, col)`: the determinant of the submatrix that
    /// deletes that row and column.
    pub fn minor(&self, row: usize, col: usize) -> (r: Scalar)
        requires
            self.wf(),
            self.bounded(DET_LIMIT as int),
            row < 4,
            col < 4,
        ensures
            r.num == minor4m(*self, row as int, col as int),
            r.den == self.den * self.den * self.den,
            r.wf(),
            -(6 * DET_LIMIT * DET_LIMIT * DET_LIMIT) <= r.num <= 6 * DET_LIMIT * DET_LIMIT
                * DET_LIMIT,
    {
        let s = self.submatrix(row, col);
        assert(s.bounded(DET_LIMIT as int));
        s.determinant()
    }

    /// The cofactor at `(row, col)`: the minor, negated when `row + col` is
    /// odd.
    pub fn cofactor(&self, row: usize, col: usize) -> (r: Scalar)
        requires
            self.wf(),
            self.bounded(DET_LIMIT as int),
            row < 4,
            col < 4,
        ensures
            r.num == cof4m(*self, row as int, col as int),
            r.den == self.den * self.den * self.den,
            r.wf(),
            -(6 * DET_LIMIT * DET_LIMIT * DET_LIMIT) <= r.num <= 6 * DET_LIMIT * DET_LIMIT
                * DET_LIMIT,
    {
        let m = self.minor(row, col);
        if (row + col) % 2 == 0 {
            m
        } else {
            Scalar { num: -m.num, den: m.den }
        }
    }

    /// The determinant, by cofactor expansion along row zero, exactly:
    /// its value is `det4m(self) / den^4`.
    pub fn determinant(&self) -> (r: Scalar)
        requires
            self.wf(),
            self.bounded(DET_LIMIT as int),
        ensures
            r.num == det4m(*self),
            r.den == self.den * self.den * self.den * self.den,
            r.wf(),
            -(24 * DET_LIMIT * DET_LIMIT * DET_LIMIT * DET_LIMIT) <= r.num <= 24 * DET_LIMIT
                * DET_LIMIT * DET_LIMIT * DET_LIMIT,
    {
        let min0 = self.minor(0, 0);
        let min1 = self.minor(0, 1);
        let min2 = self.minor(0, 2);
        let min3 = self.minor(0, 3);
        proof {
            let l = DET_LIMIT as int;
            let c = 6 * l * l * l;
            lemma_prod_bound(self.m[0][0] as int, min0.num as int, l, c);
            lemma_prod_bound(self.m[0][1] as int, min1.num as int, l, c);
            lemma_prod_bound(self.m[0][2] as int, min2.num as int, l, c);
            lemma_prod_bound(self.m[0][3] as int, min3.num as int, l, c);
            lemma_prod_bound(self.den as int, self.den as int, l, l);
            lemma_prod_bound(self.den as int * self.den as int, self.den as int, l * l, l);
            lemma_prod_bound(
                self.den as int * self.den as int * self.den as int,
                self.den as int,
                l * l * l,
                l,
            );
            lemma_det4_bound(
                self.m[0][0] as int, self.m[0][1] as int, self.m[0][2] as int, self.m[0][3] as int,
                self.m[1][0] as int, self.m[1][1] as int, self.m[1][2] as int, self.m[1][3] as int,
                self.m[2][0] as int, self.m[2][1] as int, self.m[2][2] as int, self.m[2][3] as int,
                self.m[3][0] as int, self.m[3][1] as int, self.m[3][2] as int, self.m[3][3] as int,
                l,
            );
            assert(l * (6 * l * l * l) == 6 * l * l * l * l) by (nonlinear_arith);
        }
        let d2 = self.den * self.den;
        let d3 = d2 * self.den;
        let d4 = d3 * self.den;
        Scalar {
            num: self.m[0][0] * min0.num - self.m[0][1] * min1.num + self.m[0][2] * min2.num
                - self.m[0][3] * min3.num,
            den: d4,
        }
    }

    /// Whether the determinant is nonzero; the test is exact, not
    /// epsilon-based, so a vanishingly small nonzero determinant still
    /// counts as invertible.
    pub fn is_invertible(&self) -> (r: bool)
        requires
            self.wf(),
            self.bounded(DET_LIMIT as int),
        ensures
            r == (det4m(*self) != 0),
    {
        self.determinant().num != 0
    }

    /// The inverse, when the determinant is nonzero; `None` otherwise. Cell
    /// `(i, j)` of the result is the cofactor at `(j, i)` divided by the
    /// determinant, exactly.
    pub fn inverse(&self) -> (r: Option<Matrix4x4>)
        requires
            self.wf(),
            self.bounded(DET_LIMIT as int),
        ensures
            r is Some <==> det4m(*self) != 0,
            r matches Some(inv) ==> {
                &&& inv.wf()
                &&& inv.den == abs_val(det4m(*self))
                &&& forall|i: int, j: int|
                    0 <= i < 4 && 0 <= j < 4 ==> #[trigger] inv.m[i][j] == inv4num(*self, i, j)
            },
    {
        let d = self.determinant();
        if d.num == 0 {
            return None;
        }
        let neg = d.num < 0;
        let ghost cb = 6 * (DET_LIMIT as int) * (DET_LIMIT as int) * (DET_LIMIT as int);
        let m00 = signed_adjugate_cell(self.den, self.cofactor(0, 0).num, neg, Ghost(cb));
        let m01 = signed_adjugate_cell(self.den, self.cofactor(1, 0).num, neg, Ghost(cb));
        let m02 = signed_adjugate_cell(self.den, self.cofactor(2, 0).num, neg, Ghost(cb));
        let m03 = signed_adjugate_cell(self.den, self.cofactor(3, 0).num, neg, Ghost(cb));
        let m10 = signed_adjugate_cell(self.den, self.cofactor(0, 1).num, neg, Ghost(cb));
        let m11 = signed_adjugate_cell(self.den, self.cofactor(1, 1).num, neg, Ghost(cb));
        let m12 = signed_adjugate_cell(self.den, self.cofactor(2, 1).num, neg, Ghost(cb));
        let m13 = signed_adjugate_cell(self.den, self.cofactor(3, 1).num, neg, Ghost(cb));
        let m20 = signed_adjugate_cell(self.den, self.cofactor(0, 2).num, neg, Ghost(cb));
        let m21 = signed_adjugate_cell(self.den, self.cofactor(1, 2).num, neg, Ghost(cb));
        let m22 = signed_adjugate_cell(self.den, self.cofactor(2, 2).num, neg, Ghost(cb));
        let m23 = signed_adjugate_cell(self.den, self.cofactor(3, 2).num, neg, Ghost(cb));
        let m30 = signed_adjugate_cell(self.den, self.cofactor(0, 3).num, neg, Ghost(cb));
        let m31 = signed_adjugate_cell(self.den, self.cofactor(1, 3).num, neg, Ghost(cb));
        let m32 = signed_adjugate_cell(self.den, self.cofactor(2, 3).num, neg, Ghost(cb));
        let m33 = signed_adjugate_cell(self.den, self.cofactor(3, 3).num, neg, Ghost(cb));
        let den = if d.num < 0 {
            -d.num
        } else {
            d.num
        };
        Some(Matrix4x4 {
            m: [
                [m00, m01, m02, m03],
                [m10, m11, m12, m13],
                [m20, m21, m22, m23],
                [m30, m31, m32, m33],
            ],
            den,
        })
    }

    /// Matrix product: cell `(i, j)` of the result is the dot product of
    /// row `i` of `self` with column `j` of `rhs`, exactly.
    pub fn multiply(&self, rhs: &Matrix4x4) -> (r: Matrix4x4)
        requires
            self.wf(),
            rhs.wf(),
            self.bounded(VALUE_LIMIT as int),
            rhs.bounded(VALUE_LIMIT as int),
        ensures
            r.den == self.den * rhs.den,
            forall|i: int, j: int|
                0 <= i < 4 && 0 <= j < 4 ==> #[trigger] r.m[i][j] == mul4cell(*self, *rhs, i, j),
            r.wf(),
    {
        proof {
            lemma_prod_bound(
                self.den as int,
                rhs.den as int,
                VALUE_LIMIT as int,
                VALUE_LIMIT as int,
            );
        }
        Matrix4x4 {
            m: [
                [
                    mul4_dot(self, rhs, 0, 0),
                    mul4_dot(self, rhs, 0, 1),
                    mul4_dot(self, rhs, 0, 2),
                    mul4_dot(self, rhs, 0, 3),
                ],
                [
                    mul4_dot(self, rhs, 1, 0),
                    mul4_dot(self, rhs, 1, 1),
                    mul4_dot(self, rhs, 1, 2),
                    mul4_dot(self, rhs, 1, 3),
                ],
                [
                    mul4_dot(self, rhs, 2, 0),
                    mul4_dot(self, rhs, 2, 1),
                    mul4_dot(self, rhs, 2, 2),
                    mul4_dot(self, rhs, 2, 3),
                ],
                [
                    mul4_dot(self, rhs, 3, 0),
                    mul4_dot(self, rhs, 3, 1),
                    mul4_dot(self, rhs, 3, 2),
                    mul4_dot(self, rhs, 3, 3),
                ],
            ],
            den: self.den * rhs.den,
        }
    }

    /// Application to a tuple: component `i` of the result is the dot
    /// product of row `i` with the tuple as a column vector, exactly.
    pub fn apply(&self, t: &Tuple) -> (r: Tuple)
        requires
            self.wf(),
            t.wf(),
            self.bounded(VALUE_LIMIT as int),
            t.bounded(VALUE_LIMIT as int),
        ensures
            r.den == self.den * t.den,
            r.x == app4num(*self, *t, 0),
            r.y == app4num(*self, *t, 1),
            r.z == app4num(*self, *t, 2),
            r.w == app4num(*self, *t, 3),
            r.wf(),
    {
        proof {
            let l = VALUE_LIMIT as int;
            lemma_prod_bound(self.m[0][0] as int, t.x as int, l, l);
            lemma_prod_bound(self.m[0][1] as int, t.y as int, l, l);
            lemma_prod_bound(self.m[0][2] as int, t.z as int, l, l);
            lemma_prod_bound(self.m[0][3] as int, t.w as int, l, l);
            lemma_prod_bound(self.m[1][0] as int, t.x as int, l, l);
            lemma_prod_bound(self.m[1][1] as int, t.y as int, l, l);
            lemma_prod_bound(self.m[1][2] as int, t.z as int, l, l);
            lemma_prod_bound(self.m[1][3] as int, t.w as int, l, l);
            lemma_prod_bound(self.m[2][0] as int, t.x as int, l, l);
            lemma_prod_bound(self.m[2][1] as int, t.y as int, l, l);
            lemma_prod_bound(self.m[2][2] as int, t.z as int, l, l);
            lemma_prod_bound(self.m[2][3] as int, t.w as int, l, l);
            lemma_prod_bound(self.m[3][0] as int, t.x as int, l, l);
            lemma_prod_bound(self.m[3][1] as int, t.y as int, l, l);
            lemma_prod_bound(self.m[3][2] as int, t.z as int, l, l);
            lemma_prod_bound(self.m[3][3] as int, t.w as int, l, l);
            lemma_prod_bound(self.den as int, t.den as int, l, l);
        }
        Tuple {
            x: self.m[0][0] * t.x + self.m[0][1] * t.y + self.m[0][2] * t.z + self.m[0][3] * t.w,
            y: self.m[1][0] * t.x + self.m[1][1] * t.y + self.m[1][2] * t.z + self.m[1][3] * t.w,
            z: self.m[2][0] * t.x + self.m[2][1] * t.y + self.m[2][2] * t.z + self.m[2][3] * t.w,
            w: self.m[3][0] * t.x + self.m[3][1] * t.y + self.m[3][2] * t.z + self.m[3][3] * t.w,
            den: self.den * t.den,
        }
    }
}


/// Row `l` of `m` combined with the cofactors of row `j`.
pub open spec fn sum4cof(m: Matrix4x4, l: int, j: int) -> int {
    (m.m[l][0] as int) * cof4m(m, j, 0) + (m.m[l][1] as int) * cof4m(m, j, 1) + (m.m[l][2] as int)
        * cof4m(m, j, 2) + (m.m[l][3] as int) * cof4m(m, j, 3)
}

/// Numerator of cell `(i, j)` of `(a b) b^-1`: the product of `a b` (whose
/// cells `mul4cell` gives) with the inverse of `b` (whose cells `inv4num`
/// gives), over the denominator `prod3den`.
pub open spec fn prod3num(a: Matrix4x4, b: Matrix4x4, i: int, j: int) -> int {
    mul4cell(a, b, i, 0) * inv4num(b, 0, j) + mul4cell(a, b, i, 1) * inv4num(b, 1, j) + mul4cell(
        a,
        b,
        i,
        2,
    ) * inv4num(b, 2, j) + mul4cell(a, b, i, 3) * inv4num(b, 3, j)
}

/// Shared denominator of `(a b) b^-1`.
pub open spec fn prod3den(a: Matrix4x4, b: Matrix4x4) -> int {
    (a.den * b.den) * crate::util::abs_val(det4m(b))
}

/// A weighted sum of dot products, summed either way: combining the columns
/// first and weighting them equals weighting each row's combination.
pub proof fn lemma_sum_exchange(
    a0: int, a1: int, a2: int, a3: int,
    b00: int, b01: int, b02: int, b03: int,
    b10: int, b11: int, b12: int, b13: int,
    b20: int, b21: int, b22: int, b23: int,
    b30: int, b31: int, b32: int, b33: int,
    w0: int, w1: int, w2: int, w3: int,
)
    ensures
        (a0 * b00 + a1 * b10 + a2 * b20 + a3 * b30) * w0 + (a0 * b01 + a1 * b11 + a2 * b21 + a3 * b31) * w1 + (a0 * b02 + a1 * b12 + a2 * b22 + a3 * b32) * w2 + (a0 * b03 + a1 * b13 + a2 * b23 + a3 * b33) * w3 == a0 * (b00 * w0 + b01 * w1 + b02 * w2 + b03 * w3) + a1 * (b10 * w0 + b11 * w1 + b12 * w2 + b13 * w3) + a2 * (b20 * w0 + b21 * w1 + b22 * w2 + b23 * w3) + a3 * (b30 * w0 + b31 * w1 + b32 * w2 + b33 * w3),
{
    lemma_mul_is_commutative(a0 * b00 + a1 * b10 + a2 * b20 + a3 * b30, w0);
    lemma_mul_is_distributive_add(w0, a0 * b00, a1 * b10);
    lemma_mul_is_distributive_add(w0, a0 * b00 + a1 * b10, a2 * b20);
    lemma_mul_is_distributive_add(w0, a0 * b00 + a1 * b10 + a2 * b20, a3 * b30);
    lemma_mul_is_associative(w0, a0, b00);
    lemma_mul_is_commutative(w0, a0);
    lemma_mul_is_associative(a0, w0, b00);
    lemma_mul_is_commutative(w0, b00);
    lemma_mul_is_associative(w0, a1, b10);
    lemma_mul_is_commutative(w0, a1);
    lemma_mul_is_associative(a1, w0, b10);
    lemma_mul_is_commutative(w0, b10);
    lemma_mul_is_associative(w0, a2, b20);
    lemma_mul_is_commutative(w0, a2);
    lemma_mul_is_associative(a2, w0, b20);
    lemma_mul_is_commutative(w0, b20);
    lemma_mul_is_associative(w0, a3, b30);
    lemma_mul_is_commutative(w0, a3);
    lemma_mul_is_associative(a3, w0, b30);
    lemma_mul_is_commutative(w0, b30);
    lemma_mul_is_commutative(a0 * b01 + a1 * b11 + a2 * b21 + a3 * b31, w1);
    lemma_mul_is_distributive_add(w1, a0 * b01, a1 * b11);
    lemma_mul_is_distributive_add(w1, a0 * b01 + a1 * b11, a2 * b21);
    lemma_mul_is_distributive_add(w1, a0 * b01 + a1 * b11 + a2 * b21, a3 * b31);
    lemma_mul_is_associative(w1, a0, b01);
    lemma_mul_is_commutative(w1, a0);
    lemma_mul_is_associative(a0, w1, b01);
    lemma_mul_is_commutative(w1, b01);
    lemma_mul_is_associative(w1, a1, b11);
    lemma_mul_is_commutative(w1, a1);
    lemma_mul_is_associative(a1, w1, b11);
    lemma_mul_is_commutative(w1, b11);
    lemma_mul_is_associative(w1, a2, b21);
    lemma_mul_is_commutative(w1, a2);
    lemma_mul_is_associative(a2, w1, b21);
    lemma_mul_is_commutative(w1, b21);
    lemma_mul_is_associative(w1, a3, b31);
    lemma_mul_is_commutative(w1, a3);
    lemma_mul_is_associative(a3, w1, b31);
    lemma_mul_is_commutative(w1, b31);
    lemma_mul_is_commutative(a0 * b02 + a1 * b12 + a2 * b22 + a3 * b32, w2);
    lemma_mul_is_distributive_add(w2, a0 * b02, a1 * b12);
    lemma_mul_is_distributive_add(w2, a0 * b02 + a1 * b12, a2 * b22);
    lemma_mul_is_distributive_add(w2, a0 * b02 + a1 * b12 + a2 * b22, a3 * b32);
    lemma_mul_is_associative(w2, a0, b02);
    lemma_mul_is_commutative(w2, a0);
    lemma_mul_is_associative(a0, w2, b02);
    lemma_mul_is_commutative(w2, b02);
    lemma_mul_is_associative(w2, a1, b12);
    lemma_mul_is_commutative(w2, a1);
    lemma_mul_is_associative(a1, w2, b12);
    lemma_mul_is_commutative(w2, b12);
    lemma_mul_is_associative(w2, a2, b22);
    lemma_mul_is_commutative(w2, a2);
    lemma_mul_is_associative(a2, w2, b22);
    lemma_mul_is_commutative(w2, b22);
    lemma_mul_is_associative(w2, a3, b32);
    lemma_mul_is_commutative(w2, a3);
    lemma_mul_is_associative(a3, w2, b32);
    lemma_mul_is_commutative(w2, b32);
    lemma_mul_is_commutative(a0 * b03 + a1 * b13 + a2 * b23 + a3 * b33, w3);
    lemma_mul_is_distributive_add(w3, a0 * b03, a1 * b13);
    lemma_mul_is_distributive_add(w3, a0 * b03 + a1 * b13, a2 * b23);
    lemma_mul_is_distributive_add(w3, a0 * b03 + a1 * b13 + a2 * b23, a3 * b33);
    lemma_mul_is_associative(w3, a0, b03);
    lemma_mul_is_commutative(w3, a0);
    lemma_mul_is_associative(a0, w3, b03);
    lemma_mul_is_commutative(w3, b03);
    lemma_mul_is_associative(w3, a1, b13);
    lemma_mul_is_commutative(w3, a1);
    lemma_mul_is_associative(a1, w3, b13);
    lemma_mul_is_commutative(w3, b13);
    lemma_mul_is_associative(w3, a2, b23);
    lemma_mul_is_commutative(w3, a2);
    lemma_mul_is_associative(a2, w3, b23);
    lemma_mul_is_commutative(w3, b23);
    lemma_mul_is_associative(w3, a3, b33);
    lemma_mul_is_commutative(w3, a3);
    lemma_mul_is_associative(a3, w3, b33);
    lemma_mul_is_commutative(w3, b33);
    lemma_mul_is_distributive_add(a0, b00 * w0, b01 * w1);
    lemma_mul_is_distributive_add(a0, b00 * w0 + b01 * w1, b02 * w2);
    lemma_mul_is_distributive_add(a0, b00 * w0 + b01 * w1 + b02 * w2, b03 * w3);
    lemma_mul_is_distributive_add(a1, b10 * w0, b11 * w1);
    lemma_mul_is_distributive_add(a1, b10 * w0 + b11 * w1, b12 * w2);
    lemma_mul_is_distributive_add(a1, b10 * w0 + b11 * w1 + b12 * w2, b13 * w3);
    lemma_mul_is_distributive_add(a2, b20 * w0, b21 * w1);
    lemma_mul_is_distributive_add(a2, b20 * w0 + b21 * w1, b22 * w2);
    lemma_mul_is_distributive_add(a2, b20 * w0 + b21 * w1 + b22 * w2, b23 * w3);
    lemma_mul_is_distributive_add(a3, b30 * w0, b31 * w1);
    lemma_mul_is_distributive_add(a3, b30 * w0 + b31 * w1, b32 * w2);
    lemma_mul_is_distributive_add(a3, b30 * w0 + b31 * w1 + b32 * w2, b33 * w3);
}

/// Combining any row with the cofactors of any row yields the determinant
/// on the diagonal and zero elsewhere: expansion along a row, and the
/// vanishing of a determinant with two equal rows.
pub proof fn lemma_adjugate_rows(m: Matrix4x4)
    ensures
        forall|l: int, j: int|
            0 <= l < 4 && 0 <= j < 4 ==> #[trigger] sum4cof(m, l, j) == if l == j {
                det4m(m)
            } else {
                0
            },
{
    let c00 = m.m[0][0] as int;
    let c01 = m.m[0][1] as int;
    let c02 = m.m[0][2] as int;
    let c03 = m.m[0][3] as int;
    let c10 = m.m[1][0] as int;
    let c11 = m.m[1][1] as int;
    let c12 = m.m[1][2] as int;
    let c13 = m.m[1][3] as int;
    let c20 = m.m[2][0] as int;
    let c21 = m.m[2][1] as int;
    let c22 = m.m[2][2] as int;
    let c23 = m.m[2][3] as int;
    let c30 = m.m[3][0] as int;
    let c31 = m.m[3][1] as int;
    let c32 = m.m[3][2] as int;
    let c33 = m.m[3][3] as int;
    lemma_row_cofactors_0_0(c00, c01, c02, c03, c10, c11, c12, c13, c20, c21, c22, c23, c30, c31, c32, c33);
    lemma_row_cofactors_0_1(c00, c01, c02, c03, c10, c11, c12, c13, c20, c21, c22, c23, c30, c31, c32, c33);
    lemma_row_cofactors_0_2(c00, c01, c02, c03, c10, c11, c12, c13, c20, c21, c22, c23, c30, c31, c32, c33);
    lemma_row_cofactors_0_3(c00, c01, c02, c03, c10, c11, c12, c13, c20, c21, c22, c23, c30, c31, c32, c33);
    lemma_row_cofactors_1_0(c00, c01, c02, c03, c10, c11, c12, c13, c20, c21, c22, c23, c30, c31, c32, c33);
    lemma_row_cofactors_1_1(c00, c01, c02, c03, c10, c11, c12, c13, c20, c21, c22, c23, c30, c31, c32, c33);
    lemma_row_cofactors_1_2(c00, c01, c02, c03, c10, c11, c12, c13, c20, c21, c22, c23, c30, c31, c32, c33);
    lemma_row_cofactors_1_3(c00, c01, c02, c03, c10, c11, c12, c13, c20, c21, c22, c23, c30, c31, c32, c33);
    lemma_row_cofactors_2_0(c00, c01, c02, c03, c10, c11, c12, c13, c20, c21, c22, c23, c30, c31, c32, c33);
    lemma_row_cofactors_2_1(c00, c01, c02, c03, c10, c11, c12, c13, c20, c21, c22, c23, c30, c31, c32, c33);
    lemma_row_cofactors_2_2(c00, c01, c02, c03, c10, c11, c12, c13, c20, c21, c22, c23, c30, c31, c32, c33);
    lemma_row_cofactors_2_3(c00, c01, c02, c03, c10, c11, c12, c13, c20, c21, c22, c23, c30, c31, c32, c33);
    lemma_row_cofactors_3_0(c00, c01, c02, c03, c10, c11, c12, c13, c20, c21, c22, c23, c30, c31, c32, c33);
    lemma_row_cofactors_3_1(c00, c01, c02, c03, c10, c11, c12, c13, c20, c21, c22, c23, c30, c31, c32, c33);
    lemma_row_cofactors_3_2(c00, c01, c02, c03, c10, c11, c12, c13, c20, c21, c22, c23, c30, c31, c32, c33);
    lemma_row_cofactors_3_3(c00, c01, c02, c03, c10, c11, c12, c13, c20, c21, c22, c23, c30, c31, c32, c33);
    lemma_mul_unary_negation(c01, det3(c10, c12, c13, c20, c22, c23, c30, c32, c33));
    lemma_mul_unary_negation(c03, det3(c10, c11, c12, c20, c21, c22, c30, c31, c32));
    lemma_mul_unary_negation(c00, det3(c01, c02, c03, c21, c22, c23, c31, c32, c33));
    lemma_mul_unary_negation(c02, det3(c00, c01, c03, c20, c21, c23, c30, c31, c33));
    lemma_mul_unary_negation(c01, det3(c00, c02, c03, c10, c12, c13, c30, c32, c33));
    lemma_mul_unary_negation(c03, det3(c00, c01, c02, c10, c11, c12, c30, c31, c32));
    lemma_mul_unary_negation(c00, det3(c01, c02, c03, c11, c12, c13, c21, c22, c23));
    lemma_mul_unary_negation(c02, det3(c00, c01, c03, c10, c11, c13, c20, c21, c23));
    lemma_mul_unary_negation(c11, det3(c10, c12, c13, c20, c22, c23, c30, c32, c33));
    lemma_mul_unary_negation(c13, det3(c10, c11, c12, c20, c21, c22, c30, c31, c32));
    lemma_mul_unary_negation(c10, det3(c01, c02, c03, c21, c22, c23, c31, c32, c33));
    lemma_mul_unary_negation(c12, det3(c00, c01, c03, c20, c21, c23, c30, c31, c33));
    lemma_mul_unary_negation(c11, det3(c00, c02, c03, c10, c12, c13, c30, c32, c33));
    lemma_mul_unary_negation(c13, det3(c00, c01, c02, c10, c11, c12, c30, c31, c32));
    lemma_mul_unary_negation(c10, det3(c01, c02, c03, c11, c12, c13, c21, c22, c23));
    lemma_mul_unary_negation(c12, det3(c00, c01, c03, c10, c11, c13, c20, c21, c23));
    lemma_mul_unary_negation(c21, det3(c10, c12, c13, c20, c22, c23, c30, c32, c33));
    lemma_mul_unary_negation(c23, det3(c10, c11, c12, c20, c21, c22, c30, c31, c32));
    lemma_mul_unary_negation(c20, det3(c01, c02, c03, c21, c22, c23, c31, c32, c33));
    lemma_mul_unary_negation(c22, det3(c00, c01, c03, c20, c21, c23, c30, c31, c33));
    lemma_mul_unary_negation(c21, det3(c00, c02, c03, c10, c12, c13, c30, c32, c33));
    lemma_mul_unary_negation(c23, det3(c00, c01, c02, c10, c11, c12, c30, c31, c32));
    lemma_mul_unary_negation(c20, det3(c01, c02, c03, c11, c12, c13, c21, c22, c23));
    lemma_mul_unary_negation(c22, det3(c00, c01, c03, c10, c11, c13, c20, c21, c23));
    lemma_mul_unary_negation(c31, det3(c10, c12, c13, c20, c22, c23, c30, c32, c33));
    lemma_mul_unary_negation(c33, det3(c10, c11, c12, c20, c21, c22, c30, c31, c32));
    lemma_mul_unary_negation(c30, det3(c01, c02, c03, c21, c22, c23, c31, c32, c33));
    lemma_mul_unary_negation(c32, det3(c00, c01, c03, c20, c21, c23, c30, c31, c33));
    lemma_mul_unary_negation(c31, det3(c00, c02, c03, c10, c12, c13, c30, c32, c33));
    lemma_mul_unary_negation(c33, det3(c00, c01, c02, c10, c11, c12, c30, c31, c32));
    lemma_mul_unary_negation(c30, det3(c01, c02, c03, c11, c12, c13, c21, c22, c23));
    lemma_mul_unary_negation(c32, det3(c00, c01, c03, c10, c11, c13, c20, c21, c23));
    assert(sum4cof(m, 0, 0) == det4m(m));
    assert(sum4cof(m, 0, 1) == 0);
    assert(sum4cof(m, 0, 2) == 0);
    assert(sum4cof(m, 0, 3) == 0);
    assert(sum4cof(m, 1, 0) == 0);
    assert(sum4cof(m, 1, 1) == det4m(m));
    assert(sum4cof(m, 1, 2) == 0);
    assert(sum4cof(m, 1, 3) == 0);
    assert(sum4cof(m, 2, 0) == 0);
    assert(sum4cof(m, 2, 1) == 0);
    assert(sum4cof(m, 2, 2) == det4m(m));
    assert(sum4cof(m, 2, 3) == 0);
    assert(sum4cof(m, 3, 0) == 0);
    assert(sum4cof(m, 3, 1) == 0);
    assert(sum4cof(m, 3, 2) == 0);
    assert(sum4cof(m, 3, 3) == det4m(m));
    assert forall|l: int, j: int| 0 <= l < 4 && 0 <= j < 4 implies #[trigger] sum4cof(m, l, j)
        == if l == j {
        det4m(m)
    } else {
        0
    } by {}
}

/// One cell of `(a b) b^-1` equals the matching cell of `a`, as rationals.
proof fn lemma_inverse_cell(a: Matrix4x4, b: Matrix4x4, i: int, j: int)
    requires
        a.wf(),
        b.wf(),
        det4m(b) != 0,
        0 <= i < 4,
        0 <= j < 4,
    ensures
        crate::util::rat_eq(prod3num(a, b, i, j), prod3den(a, b), a.m[i][j] as int, a.den as int),
{
    lemma_adjugate_rows(b);
    let da = a.den as int;
    let db = b.den as int;
    let dd = det4m(b);
    let x = a.m[i][j] as int;
    let w0 = inv4num(b, 0, j);
    let w1 = inv4num(b, 1, j);
    let w2 = inv4num(b, 2, j);
    let w3 = inv4num(b, 3, j);
    lemma_sum_exchange(
        a.m[i][0] as int, a.m[i][1] as int, a.m[i][2] as int, a.m[i][3] as int,
        b.m[0][0] as int, b.m[0][1] as int, b.m[0][2] as int, b.m[0][3] as int,
        b.m[1][0] as int, b.m[1][1] as int, b.m[1][2] as int, b.m[1][3] as int,
        b.m[2][0] as int, b.m[2][1] as int, b.m[2][2] as int, b.m[2][3] as int,
        b.m[3][0] as int, b.m[3][1] as int, b.m[3][2] as int, b.m[3][3] as int,
        w0, w1, w2, w3,
    );
    assert(mul4cell(a, b, i, 0) == (a.m[i][0] as int) * (b.m[0][0] as int) + (a.m[i][1] as int) * (b.m[1][0] as int) + (a.m[i][2] as int) * (b.m[2][0] as int) + (a.m[i][3] as int) * (b.m[3][0] as int));
    assert(mul4cell(a, b, i, 1) == (a.m[i][0] as int) * (b.m[0][1] as int) + (a.m[i][1] as int) * (b.m[1][1] as int) + (a.m[i][2] as int) * (b.m[2][1] as int) + (a.m[i][3] as int) * (b.m[3][1] as int));
    assert(mul4cell(a, b, i, 2) == (a.m[i][0] as int) * (b.m[0][2] as int) + (a.m[i][1] as int) * (b.m[1][2] as int) + (a.m[i][2] as int) * (b.m[2][2] as int) + (a.m[i][3] as int) * (b.m[3][2] as int));
    assert(mul4cell(a, b, i, 3) == (a.m[i][0] as int) * (b.m[0][3] as int) + (a.m[i][1] as int) * (b.m[1][3] as int) + (a.m[i][2] as int) * (b.m[2][3] as int) + (a.m[i][3] as int) * (b.m[3][3] as int));
    assert(prod3num(a, b, i, j) == ((a.m[i][0] as int) * (b.m[0][0] as int) + (a.m[i][1] as int) * (b.m[1][0] as int) + (a.m[i][2] as int) * (b.m[2][0] as int) + (a.m[i][3] as int) * (b.m[3][0] as int)) * w0 + ((a.m[i][0] as int) * (b.m[0][1] as int) + (a.m[i][1] as int) * (b.m[1][1] as int) + (a.m[i][2] as int) * (b.m[2][1] as int) + (a.m[i][3] as int) * (b.m[3][1] as int)) * w1 + ((a.m[i][0] as int) * (b.m[0][2] as int) + (a.m[i][1] as int) * (b.m[1][2] as int) + (a.m[i][2] as int) * (b.m[2][2] as int) + (a.m[i][3] as int) * (b.m[3][2] as int)) * w2 + ((a.m[i][0] as int) * (b.m[0][3] as int) + (a.m[i][1] as int) * (b.m[1][3] as int) + (a.m[i][2] as int) * (b.m[2][3] as int) + (a.m[i][3] as int) * (b.m[3][3] as int)) * w3);
    assert(prod3num(a, b, i, j) == (a.m[i][0] as int) * ((b.m[0][0] as int) * w0 + (b.m[0][1] as int) * w1 + (b.m[0][2] as int) * w2 + (b.m[0][3] as int) * w3) + (a.m[i][1] as int) * ((b.m[1][0] as int) * w0 + (b.m[1][1] as int) * w1 + (b.m[1][2] as int) * w2 + (b.m[1][3] as int) * w3) + (a.m[i][2] as int) * ((b.m[2][0] as int) * w0 + (b.m[2][1] as int) * w1 + (b.m[2][2] as int) * w2 + (b.m[2][3] as int) * w3) + (a.m[i][3] as int) * ((b.m[3][0] as int) * w0 + (b.m[3][1] as int) * w1 + (b.m[3][2] as int) * w2 + (b.m[3][3] as int) * w3));
    assert(sum4cof(b, 0, j) == (b.m[0][0] as int) * cof4m(b, j, 0) + (b.m[0][1] as int) * cof4m(b, j, 1) + (b.m[0][2] as int) * cof4m(b, j, 2) + (b.m[0][3] as int) * cof4m(b, j, 3));
    assert(sum4cof(b, 1, j) == (b.m[1][0] as int) * cof4m(b, j, 0) + (b.m[1][1] as int) * cof4m(b, j, 1) + (b.m[1][2] as int) * cof4m(b, j, 2) + (b.m[1][3] as int) * cof4m(b, j, 3));
    assert(sum4cof(b, 2, j) == (b.m[2][0] as int) * cof4m(b, j, 0) + (b.m[2][1] as int) * cof4m(b, j, 1) + (b.m[2][2] as int) * cof4m(b, j, 2) + (b.m[2][3] as int) * cof4m(b, j, 3));
    assert(sum4cof(b, 3, j) == (b.m[3][0] as int) * cof4m(b, j, 0) + (b.m[3][1] as int) * cof4m(b, j, 1) + (b.m[3][2] as int) * cof4m(b, j, 2) + (b.m[3][3] as int) * cof4m(b, j, 3));
    if dd < 0 {
        lemma_mul_unary_negation((b.m[0][0] as int), db * cof4m(b, j, 0));
        lemma_mul_unary_negation((b.m[0][1] as int), db * cof4m(b, j, 1));
        lemma_mul_unary_negation((b.m[0][2] as int), db * cof4m(b, j, 2));
        lemma_mul_unary_negation((b.m[0][3] as int), db * cof4m(b, j, 3));
        lemma_mul_unary_negation((b.m[1][0] as int), db * cof4m(b, j, 0));
        lemma_mul_unary_negation((b.m[1][1] as int), db * cof4m(b, j, 1));
        lemma_mul_unary_negation((b.m[1][2] as int), db * cof4m(b, j, 2));
        lemma_mul_unary_negation((b.m[1][3] as int), db * cof4m(b, j, 3));
        lemma_mul_unary_negation((b.m[2][0] as int), db * cof4m(b, j, 0));
        lemma_mul_unary_negation((b.m[2][1] as int), db * cof4m(b, j, 1));
        lemma_mul_unary_negation((b.m[2][2] as int), db * cof4m(b, j, 2));
        lemma_mul_unary_negation((b.m[2][3] as int), db * cof4m(b, j, 3));
        lemma_mul_unary_negation((b.m[3][0] as int), db * cof4m(b, j, 0));
        lemma_mul_unary_negation((b.m[3][1] as int), db * cof4m(b, j, 1));
        lemma_mul_unary_negation((b.m[3][2] as int), db * cof4m(b, j, 2));
        lemma_mul_unary_negation((b.m[3][3] as int), db * cof4m(b, j, 3));
        lemma_mul_is_associative((b.m[0][0] as int), db, cof4m(b, j, 0));
        lemma_mul_is_commutative((b.m[0][0] as int), db);
        lemma_mul_is_associative(db, (b.m[0][0] as int), cof4m(b, j, 0));
        lemma_mul_is_associative((b.m[0][1] as int), db, cof4m(b, j, 1));
        lemma_mul_is_commutative((b.m[0][1] as int), db);
        lemma_mul_is_associative(db, (b.m[0][1] as int), cof4m(b, j, 1));
        lemma_mul_is_associative((b.m[0][2] as int), db, cof4m(b, j, 2));
        lemma_mul_is_commutative((b.m[0][2] as int), db);
        lemma_mul_is_associative(db, (b.m[0][2] as int), cof4m(b, j, 2));
        lemma_mul_is_associative((b.m[0][3] as int), db, cof4m(b, j, 3));
        lemma_mul_is_commutative((b.m[0][3] as int), db);
        lemma_mul_is_associative(db, (b.m[0][3] as int), cof4m(b, j, 3));
        lemma_mul_is_associative((b.m[1][0] as int), db, cof4m(b, j, 0));
        lemma_mul_is_commutative((b.m[1][0] as int), db);
        lemma_mul_is_associative(db, (b.m[1][0] as int), cof4m(b, j, 0));
        lemma_mul_is_associative((b.m[1][1] as int), db, cof4m(b, j, 1));
        lemma_mul_is_commutative((b.m[1][1] as int), db);
        lemma_mul_is_associative(db, (b.m[1][1] as int), cof4m(b, j, 1));
        lemma_mul_is_associative((b.m[1][2] as int), db, cof4m(b, j, 2));
        lemma_mul_is_commutative((b.m[1][2] as int), db);
        lemma_mul_is_associative(db, (b.m[1][2] as int), cof4m(b, j, 2));
        lemma_mul_is_associative((b.m[1][3] as int), db, cof4m(b, j, 3));
        lemma_mul_is_commutative((b.m[1][3] as int), db);
        lemma_mul_is_associative(db, (b.m[1][3] as int), cof4m(b, j, 3));
        lemma_mul_is_associative((b.m[2][0] as int), db, cof4m(b, j, 0));
        lemma_mul_is_commutative((b.m[2][0] as int), db);
        lemma_mul_is_associative(db, (b.m[2][0] as int), cof4m(b, j, 0));
        lemma_mul_is_associative((b.m[2][1] as int), db, cof4m(b, j, 1));
        lemma_mul_is_commutative((b.m[2][1] as int), db);
        lemma_mul_is_associative(db, (b.m[2][1] as int), cof4m(b, j, 1));
        lemma_mul_is_associative((b.m[2][2] as int), db, cof4m(b, j, 2));
        lemma_mul_is_commutative((b.m[2][2] as int), db);
        lemma_mul_is_associative(db, (b.m[2][2] as int), cof4m(b, j, 2));
        lemma_mul_is_associative((b.m[2][3] as int), db, cof4m(b, j, 3));
        lemma_mul_is_commutative((b.m[2][3] as int), db);
        lemma_mul_is_associative(db, (b.m[2][3] as int), cof4m(b, j, 3));
        lemma_mul_is_associative((b.m[3][0] as int), db, cof4m(b, j, 0));
        lemma_mul_is_commutative((b.m[3][0] as int), db);
        lemma_mul_is_associative(db, (b.m[3][0] as int), cof4m(b, j, 0));
        lemma_mul_is_associative((b.m[3][1] as int), db, cof4m(b, j, 1));
        lemma_mul_is_commutative((b.m[3][1] as int), db);
        lemma_mul_is_associative(db, (b.m[3][1] as int), cof4m(b, j, 1));
        lemma_mul_is_associative((b.m[3][2] as int), db, cof4m(b, j, 2));
        lemma_mul_is_commutative((b.m[3][2] as int), db);
        lemma_mul_is_associative(db, (b.m[3][2] as int), cof4m(b, j, 2));
        lemma_mul_is_associative((b.m[3][3] as int), db, cof4m(b, j, 3));
        lemma_mul_is_commutative((b.m[3][3] as int), db);
        lemma_mul_is_associative(db, (b.m[3][3] as int), cof4m(b, j, 3));
        lemma_mul_is_distributive_add(db, (b.m[0][0] as int) * cof4m(b, j, 0), (b.m[0][1] as int) * cof4m(b, j, 1));
        lemma_mul_is_distributive_add(db, (b.m[0][0] as int) * cof4m(b, j, 0) + (b.m[0][1] as int) * cof4m(b, j, 1), (b.m[0][2] as int) * cof4m(b, j, 2));
        lemma_mul_is_distributive_add(db, (b.m[0][0] as int) * cof4m(b, j, 0) + (b.m[0][1] as int) * cof4m(b, j, 1) + (b.m[0][2] as int) * cof4m(b, j, 2), (b.m[0][3] as int) * cof4m(b, j, 3));
        lemma_mul_is_distributive_add(db, (b.m[1][0] as int) * cof4m(b, j, 0), (b.m[1][1] as int) * cof4m(b, j, 1));
        lemma_mul_is_distributive_add(db, (b.m[1][0] as int) * cof4m(b, j, 0) + (b.m[1][1] as int) * cof4m(b, j, 1), (b.m[1][2] as int) * cof4m(b, j, 2));
        lemma_mul_is_distributive_add(db, (b.m[1][0] as int) * cof4m(b, j, 0) + (b.m[1][1] as int) * cof4m(b, j, 1) + (b.m[1][2] as int) * cof4m(b, j, 2), (b.m[1][3] as int) * cof4m(b, j, 3));
        lemma_mul_is_distributive_add(db, (b.m[2][0] as int) * cof4m(b, j, 0), (b.m[2][1] as int) * cof4m(b, j, 1));
        lemma_mul_is_distributive_add(db, (b.m[2][0] as int) * cof4m(b, j, 0) + (b.m[2][1] as int) * cof4m(b, j, 1), (b.m[2][2] as int) * cof4m(b, j, 2));
        lemma_mul_is_distributive_add(db, (b.m[2][0] as int) * cof4m(b, j, 0) + (b.m[2][1] as int) * cof4m(b, j, 1) + (b.m[2][2] as int) * cof4m(b, j, 2), (b.m[2][3] as int) * cof4m(b, j, 3));
        lemma_mul_is_distributive_add(db, (b.m[3][0] as int) * cof4m(b, j, 0), (b.m[3][1] as int) * cof4m(b, j, 1));
        lemma_mul_is_distributive_add(db, (b.m[3][0] as int) * cof4m(b, j, 0) + (b.m[3][1] as int) * cof4m(b, j, 1), (b.m[3][2] as int) * cof4m(b, j, 2));
        lemma_mul_is_distributive_add(db, (b.m[3][0] as int) * cof4m(b, j, 0) + (b.m[3][1] as int) * cof4m(b, j, 1) + (b.m[3][2] as int) * cof4m(b, j, 2), (b.m[3][3] as int) * cof4m(b, j, 3));
        lemma_mul_is_commutative(x * (db * dd), da);
        lemma_mul_is_associative(da, x, db * dd);
        lemma_mul_is_commutative(da, x);
        lemma_mul_is_associative(x, da, db * dd);
        lemma_mul_is_associative(da, db, dd);
        lemma_mul_unary_negation(x, db * dd);
        lemma_mul_unary_negation(x * (db * dd), da);
        lemma_mul_unary_negation(da * db, dd);
        lemma_mul_unary_negation(x, (da * db) * dd);
        assert(w0 == -(db * cof4m(b, j, 0)));
        assert(w1 == -(db * cof4m(b, j, 1)));
        assert(w2 == -(db * cof4m(b, j, 2)));
        assert(w3 == -(db * cof4m(b, j, 3)));
        assert((b.m[0][0] as int) * w0 + (b.m[0][1] as int) * w1 + (b.m[0][2] as int) * w2 + (b.m[0][3] as int) * w3 == -(db * sum4cof(b, 0, j)));
        assert((b.m[1][0] as int) * w0 + (b.m[1][1] as int) * w1 + (b.m[1][2] as int) * w2 + (b.m[1][3] as int) * w3 == -(db * sum4cof(b, 1, j)));
        assert((b.m[2][0] as int) * w0 + (b.m[2][1] as int) * w1 + (b.m[2][2] as int) * w2 + (b.m[2][3] as int) * w3 == -(db * sum4cof(b, 2, j)));
        assert((b.m[3][0] as int) * w0 + (b.m[3][1] as int) * w1 + (b.m[3][2] as int) * w2 + (b.m[3][3] as int) * w3 == -(db * sum4cof(b, 3, j)));
        assert(sum4cof(b, 0, j) == if 0 == j { dd } else { 0int });
        assert(sum4cof(b, 1, j) == if 1 == j { dd } else { 0int });
        assert(sum4cof(b, 2, j) == if 2 == j { dd } else { 0int });
        assert(sum4cof(b, 3, j) == if 3 == j { dd } else { 0int });
        if j == 0 {
            assert(sum4cof(b, 0, j) == dd);
            assert((b.m[0][0] as int) * w0 + (b.m[0][1] as int) * w1 + (b.m[0][2] as int) * w2 + (b.m[0][3] as int) * w3 == -(db * dd));
            assert(sum4cof(b, 1, j) == 0);
            assert((b.m[1][0] as int) * w0 + (b.m[1][1] as int) * w1 + (b.m[1][2] as int) * w2 + (b.m[1][3] as int) * w3 == 0);
            assert(sum4cof(b, 2, j) == 0);
            assert((b.m[2][0] as int) * w0 + (b.m[2][1] as int) * w1 + (b.m[2][2] as int) * w2 + (b.m[2][3] as int) * w3 == 0);
            assert(sum4cof(b, 3, j) == 0);
            assert((b.m[3][0] as int) * w0 + (b.m[3][1] as int) * w1 + (b.m[3][2] as int) * w2 + (b.m[3][3] as int) * w3 == 0);
            assert(x == a.m[i][0] as int);
            lemma_mul_by_zero_is_zero(a.m[i][1] as int);
            lemma_mul_by_zero_is_zero(a.m[i][2] as int);
            lemma_mul_by_zero_is_zero(a.m[i][3] as int);
            assert(prod3num(a, b, i, j) == x * (-(db * dd)));
        } else if j == 1 {
            assert(sum4cof(b, 0, j) == 0);
            assert((b.m[0][0] as int) * w0 + (b.m[0][1] as int) * w1 + (b.m[0][2] as int) * w2 + (b.m[0][3] as int) * w3 == 0);
            assert(sum4cof(b, 1, j) == dd);
            assert((b.m[1][0] as int) * w0 + (b.m[1][1] as int) * w1 + (b.m[1][2] as int) * w2 + (b.m[1][3] as int) * w3 == -(db * dd));
            assert(sum4cof(b, 2, j) == 0);
            assert((b.m[2][0] as int) * w0 + (b.m[2][1] as int) * w1 + (b.m[2][2] as int) * w2 + (b.m[2][3] as int) * w3 == 0);
            assert(sum4cof(b, 3, j) == 0);
            assert((b.m[3][0] as int) * w0 + (b.m[3][1] as int) * w1 + (b.m[3][2] as int) * w2 + (b.m[3][3] as int) * w3 == 0);
            assert(x == a.m[i][1] as int);
            lemma_mul_by_zero_is_zero(a.m[i][0] as int);
            lemma_mul_by_zero_is_zero(a.m[i][2] as int);
            lemma_mul_by_zero_is_zero(a.m[i][3] as int);
            assert(prod3num(a, b, i, j) == x * (-(db * dd)));
        } else if j == 2 {
            assert(sum4cof(b, 0, j) == 0);
            assert((b.m[0][0] as int) * w0 + (b.m[0][1] as int) * w1 + (b.m[0][2] as int) * w2 + (b.m[0][3] as int) * w3 == 0);
            assert(sum4cof(b, 1, j) == 0);
            assert((b.m[1][0] as int) * w0 + (b.m[1][1] as int) * w1 + (b.m[1][2] as int) * w2 + (b.m[1][3] as int) * w3 == 0);
            assert(sum4cof(b, 2, j) == dd);
            assert((b.m[2][0] as int) * w0 + (b.m[2][1] as int) * w1 + (b.m[2][2] as int) * w2 + (b.m[2][3] as int) * w3 == -(db * dd));
            assert(sum4cof(b, 3, j) == 0);
            assert((b.m[3][0] as int) * w0 + (b.m[3][1] as int) * w1 + (b.m[3][2] as int) * w2 + (b.m[3][3] as int) * w3 == 0);
            assert(x == a.m[i][2] as int);
            lemma_mul_by_zero_is_zero(a.m[i][0] as int);
            lemma_mul_by_zero_is_zero(a.m[i][1] as int);
            lemma_mul_by_zero_is_zero(a.m[i][3] as int);
            assert(prod3num(a, b, i, j) == x * (-(db * dd)));
        } else {
            assert(sum4cof(b, 0, j) == 0);
            assert((b.m[0][0] as int) * w0 + (b.m[0][1] as int) * w1 + (b.m[0][2] as int) * w2 + (b.m[0][3] as int) * w3 == 0);
            assert(sum4cof(b, 1, j) == 0);
            assert((b.m[1][0] as int) * w0 + (b.m[1][1] as int) * w1 + (b.m[1][2] as int) * w2 + (b.m[1][3] as int) * w3 == 0);
            assert(sum4cof(b, 2, j) == 0);
            assert((b.m[2][0] as int) * w0 + (b.m[2][1] as int) * w1 + (b.m[2][2] as int) * w2 + (b.m[2][3] as int) * w3 == 0);
            assert(sum4cof(b, 3, j) == dd);
            assert((b.m[3][0] as int) * w0 + (b.m[3][1] as int) * w1 + (b.m[3][2] as int) * w2 + (b.m[3][3] as int) * w3 == -(db * dd));
            assert(x == a.m[i][3] as int);
            lemma_mul_by_zero_is_zero(a.m[i][0] as int);
            lemma_mul_by_zero_is_zero(a.m[i][1] as int);
            lemma_mul_by_zero_is_zero(a.m[i][2] as int);
            assert(prod3num(a, b, i, j) == x * (-(db * dd)));
        }
        assert(crate::util::rat_eq(prod3num(a, b, i, j), prod3den(a, b), x, da));
    } else {
        lemma_mul_is_associative((b.m[0][0] as int), db, cof4m(b, j, 0));
        lemma_mul_is_commutative((b.m[0][0] as int), db);
        lemma_mul_is_associative(db, (b.m[0][0] as int), cof4m(b, j, 0));
        lemma_mul_is_associative((b.m[0][1] as int), db, cof4m(b, j, 1));
        lemma_mul_is_commutative((b.m[0][1] as int), db);
        lemma_mul_is_associative(db, (b.m[0][1] as int), cof4m(b, j, 1));
        lemma_mul_is_associative((b.m[0][2] as int), db, cof4m(b, j, 2));
        lemma_mul_is_commutative((b.m[0][2] as int), db);
        lemma_mul_is_associative(db, (b.m[0][2] as int), cof4m(b, j, 2));
        lemma_mul_is_associative((b.m[0][3] as int), db, cof4m(b, j, 3));
        lemma_mul_is_commutative((b.m[0][3] as int), db);
        lemma_mul_is_associative(db, (b.m[0][3] as int), cof4m(b, j, 3));
        lemma_mul_is_associative((b.m[1][0] as int), db, cof4m(b, j, 0));
        lemma_mul_is_commutative((b.m[1][0] as int), db);
        lemma_mul_is_associative(db, (b.m[1][0] as int), cof4m(b, j, 0));
        lemma_mul_is_associative((b.m[1][1] as int), db, cof4m(b, j, 1));
        lemma_mul_is_commutative((b.m[1][1] as int), db);
        lemma_mul_is_associative(db, (b.m[1][1] as int), cof4m(b, j, 1));
        lemma_mul_is_associative((b.m[1][2] as int), db, cof4m(b, j, 2));
        lemma_mul_is_commutative((b.m[1][2] as int), db);
        lemma_mul_is_associative(db, (b.m[1][2] as int), cof4m(b, j, 2));
        lemma_mul_is_associative((b.m[1][3] as int), db, cof4m(b, j, 3));
        lemma_mul_is_commutative((b.m[1][3] as int), db);
        lemma_mul_is_associative(db, (b.m[1][3] as int), cof4m(b, j, 3));
        lemma_mul_is_associative((b.m[2][0] as int), db, cof4m(b, j, 0));
        lemma_mul_is_commutative((b.m[2][0] as int), db);
        lemma_mul_is_associative(db, (b.m[2][0] as int), cof4m(b, j, 0));
        lemma_mul_is_associative((b.m[2][1] as int), db, cof4m(b, j, 1));
        lemma_mul_is_commutative((b.m[2][1] as int), db);
        lemma_mul_is_associative(db, (b.m[2][1] as int), cof4m(b, j, 1));
        lemma_mul_is_associative((b.m[2][2] as int), db, cof4m(b, j, 2));
        lemma_mul_is_commutative((b.m[2][2] as int), db);
        lemma_mul_is_associative(db, (b.m[2][2] as int), cof4m(b, j, 2));
        lemma_mul_is_associative((b.m[2][3] as int), db, cof4m(b, j, 3));
        lemma_mul_is_commutative((b.m[2][3] as int), db);
        lemma_mul_is_associative(db, (b.m[2][3] as int), cof4m(b, j, 3));
        lemma_mul_is_associative((b.m[3][0] as int), db, cof4m(b, j, 0));
        lemma_mul_is_commutative((b.m[3][0] as int), db);
        lemma_mul_is_associative(db, (b.m[3][0] as int), cof4m(b, j, 0));
        lemma_mul_is_associative((b.m[3][1] as int), db, cof4m(b, j, 1));
        lemma_mul_is_commutative((b.m[3][1] as int), db);
        lemma_mul_is_associative(db, (b.m[3][1] as int), cof4m(b, j, 1));
        lemma_mul_is_associative((b.m[3][2] as int), db, cof4m(b, j, 2));
        lemma_mul_is_commutative((b.m[3][2] as int), db);
        lemma_mul_is_associative(db, (b.m[3][2] as int), cof4m(b, j, 2));
        lemma_mul_is_associative((b.m[3][3] as int), db, cof4m(b, j, 3));
        lemma_mul_is_commutative((b.m[3][3] as int), db);
        lemma_mul_is_associative(db, (b.m[3][3] as int), cof4m(b, j, 3));
        lemma_mul_is_distributive_add(db, (b.m[0][0] as int) * cof4m(b, j, 0), (b.m[0][1] as int) * cof4m(b, j, 1));
        lemma_mul_is_distributive_add(db, (b.m[0][0] as int) * cof4m(b, j, 0) + (b.m[0][1] as int) * cof4m(b, j, 1), (b.m[0][2] as int) * cof4m(b, j, 2));
        lemma_mul_is_distributive_add(db, (b.m[0][0] as int) * cof4m(b, j, 0) + (b.m[0][1] as int) * cof4m(b, j, 1) + (b.m[0][2] as int) * cof4m(b, j, 2), (b.m[0][3] as int) * cof4m(b, j, 3));
        lemma_mul_is_distributive_add(db, (b.m[1][0] as int) * cof4m(b, j, 0), (b.m[1][1] as int) * cof4m(b, j, 1));
        lemma_mul_is_distributive_add(db, (b.m[1][0] as int) * cof4m(b, j, 0) + (b.m[1][1] as int) * cof4m(b, j, 1), (b.m[1][2] as int) * cof4m(b, j, 2));
        lemma_mul_is_distributive_add(db, (b.m[1][0] as int) * cof4m(b, j, 0) + (b.m[1][1] as int) * cof4m(b, j, 1) + (b.m[1][2] as int) * cof4m(b, j, 2), (b.m[1][3] as int) * cof4m(b, j, 3));
        lemma_mul_is_distributive_add(db, (b.m[2][0] as int) * cof4m(b, j, 0), (b.m[2][1] as int) * cof4m(b, j, 1));
        lemma_mul_is_distributive_add(db, (b.m[2][0] as int) * cof4m(b, j, 0) + (b.m[2][1] as int) * cof4m(b, j, 1), (b.m[2][2] as int) * cof4m(b, j, 2));
        lemma_mul_is_distributive_add(db, (b.m[2][0] as int) * cof4m(b, j, 0) + (b.m[2][1] as int) * cof4m(b, j, 1) + (b.m[2][2] as int) * cof4m(b, j, 2), (b.m[2][3] as int) * cof4m(b, j, 3));
        lemma_mul_is_distributive_add(db, (b.m[3][0] as int) * cof4m(b, j, 0), (b.m[3][1] as int) * cof4m(b, j, 1));
        lemma_mul_is_distributive_add(db, (b.m[3][0] as int) * cof4m(b, j, 0) + (b.m[3][1] as int) * cof4m(b, j, 1), (b.m[3][2] as int) * cof4m(b, j, 2));
        lemma_mul_is_distributive_add(db, (b.m[3][0] as int) * cof4m(b, j, 0) + (b.m[3][1] as int) * cof4m(b, j, 1) + (b.m[3][2] as int) * cof4m(b, j, 2), (b.m[3][3] as int) * cof4m(b, j, 3));
        lemma_mul_is_commutative(x * (db * dd), da);
        lemma_mul_is_associative(da, x, db * dd);
        lemma_mul_is_commutative(da, x);
        lemma_mul_is_associative(x, da, db * dd);
        lemma_mul_is_associative(da, db, dd);
        assert(w0 == db * cof4m(b, j, 0));
        assert(w1 == db * cof4m(b, j, 1));
        assert(w2 == db * cof4m(b, j, 2));
        assert(w3 == db * cof4m(b, j, 3));
        assert((b.m[0][0] as int) * w0 + (b.m[0][1] as int) * w1 + (b.m[0][2] as int) * w2 + (b.m[0][3] as int) * w3 == db * sum4cof(b, 0, j));
        assert((b.m[1][0] as int) * w0 + (b.m[1][1] as int) * w1 + (b.m[1][2] as int) * w2 + (b.m[1][3] as int) * w3 == db * sum4cof(b, 1, j));
        assert((b.m[2][0] as int) * w0 + (b.m[2][1] as int) * w1 + (b.m[2][2] as int) * w2 + (b.m[2][3] as int) * w3 == db * sum4cof(b, 2, j));
        assert((b.m[3][0] as int) * w0 + (b.m[3][1] as int) * w1 + (b.m[3][2] as int) * w2 + (b.m[3][3] as int) * w3 == db * sum4cof(b, 3, j));
        assert(sum4cof(b, 0, j) == if 0 == j { dd } else { 0int });
        assert(sum4cof(b, 1, j) == if 1 == j { dd } else { 0int });
        assert(sum4cof(b, 2, j) == if 2 == j { dd } else { 0int });
        assert(sum4cof(b, 3, j) == if 3 == j { dd } else { 0int });
        if j == 0 {
            assert(sum4cof(b, 0, j) == dd);
            assert((b.m[0][0] as int) * w0 + (b.m[0][1] as int) * w1 + (b.m[0][2] as int) * w2 + (b.m[0][3] as int) * w3 == db * dd);
            assert(sum4cof(b, 1, j) == 0);
            assert((b.m[1][0] as int) * w0 + (b.m[1][1] as int) * w1 + (b.m[1][2] as int) * w2 + (b.m[1][3] as int) * w3 == 0);
            assert(sum4cof(b, 2, j) == 0);
            assert((b.m[2][0] as int) * w0 + (b.m[2][1] as int) * w1 + (b.m[2][2] as int) * w2 + (b.m[2][3] as int) * w3 == 0);
            assert(sum4cof(b, 3, j) == 0);
            assert((b.m[3][0] as int) * w0 + (b.m[3][1] as int) * w1 + (b.m[3][2] as int) * w2 + (b.m[3][3] as int) * w3 == 0);
            assert(x == a.m[i][0] as int);
            lemma_mul_by_zero_is_zero(a.m[i][1] as int);
            lemma_mul_by_zero_is_zero(a.m[i][2] as int);
            lemma_mul_by_zero_is_zero(a.m[i][3] as int);
            assert(prod3num(a, b, i, j) == x * (db * dd));
        } else if j == 1 {
            assert(sum4cof(b, 0, j) == 0);
            assert((b.m[0][0] as int) * w0 + (b.m[0][1] as int) * w1 + (b.m[0][2] as int) * w2 + (b.m[0][3] as int) * w3 == 0);
            assert(sum4cof(b, 1, j) == dd);
            assert((b.m[1][0] as int) * w0 + (b.m[1][1] as int) * w1 + (b.m[1][2] as int) * w2 + (b.m[1][3] as int) * w3 == db * dd);
            assert(sum4cof(b, 2, j) == 0);
            assert((b.m[2][0] as int) * w0 + (b.m[2][1] as int) * w1 + (b.m[2][2] as int) * w2 + (b.m[2][3] as int) * w3 == 0);
            assert(sum4cof(b, 3, j) == 0);
            assert((b.m[3][0] as int) * w0 + (b.m[3][1] as int) * w1 + (b.m[3][2] as int) * w2 + (b.m[3][3] as int) * w3 == 0);
            assert(x == a.m[i][1] as int);
            lemma_mul_by_zero_is_zero(a.m[i][0] as int);
            lemma_mul_by_zero_is_zero(a.m[i][2] as int);
            lemma_mul_by_zero_is_zero(a.m[i][3] as int);
            assert(prod3num(a, b, i, j) == x * (db * dd));
        } else if j == 2 {
            assert(sum4cof(b, 0, j) == 0);
            assert((b.m[0][0] as int) * w0 + (b.m[0][1] as int) * w1 + (b.m[0][2] as int) * w2 + (b.m[0][3] as int) * w3 == 0);
            assert(sum4cof(b, 1, j) == 0);
            assert((b.m[1][0] as int) * w0 + (b.m[1][1] as int) * w1 + (b.m[1][2] as int) * w2 + (b.m[1][3] as int) * w3 == 0);
            assert(sum4cof(b, 2, j) == dd);
            assert((b.m[2][0] as int) * w0 + (b.m[2][1] as int) * w1 + (b.m[2][2] as int) * w2 + (b.m[2][3] as int) * w3 == db * dd);
            assert(sum4cof(b, 3, j) == 0);
            assert((b.m[3][0] as int) * w0 + (b.m[3][1] as int) * w1 + (b.m[3][2] as int) * w2 + (b.m[3][3] as int) * w3 == 0);
            assert(x == a.m[i][2] as int);
            lemma_mul_by_zero_is_zero(a.m[i][0] as int);
            lemma_mul_by_zero_is_zero(a.m[i][1] as int);
            lemma_mul_by_zero_is_zero(a.m[i][3] as int);
            assert(prod3num(a, b, i, j) == x * (db * dd));
        } else {
            assert(sum4cof(b, 0, j) == 0);
            assert((b.m[0][0] as int) * w0 + (b.m[0][1] as int) * w1 + (b.m[0][2] as int) * w2 + (b.m[0][3] as int) * w3 == 0);
            assert(sum4cof(b, 1, j) == 0);
            assert((b.m[1][0] as int) * w0 + (b.m[1][1] as int) * w1 + (b.m[1][2] as int) * w2 + (b.m[1][3] as int) * w3 == 0);
            assert(sum4cof(b, 2, j) == 0);
            assert((b.m[2][0] as int) * w0 + (b.m[2][1] as int) * w1 + (b.m[2][2] as int) * w2 + (b.m[2][3] as int) * w3 == 0);
            assert(sum4cof(b, 3, j) == dd);
            assert((b.m[3][0] as int) * w0 + (b.m[3][1] as int) * w1 + (b.m[3][2] as int) * w2 + (b.m[3][3] as int) * w3 == db * dd);
            assert(x == a.m[i][3] as int);
            lemma_mul_by_zero_is_zero(a.m[i][0] as int);
            lemma_mul_by_zero_is_zero(a.m[i][1] as int);
            lemma_mul_by_zero_is_zero(a.m[i][2] as int);
            assert(prod3num(a, b, i, j) == x * (db * dd));
        }
        assert(crate::util::rat_eq(prod3num(a, b, i, j), prod3den(a, b), x, da));
    }
}

/// For every 4x4 matrix `a` and invertible `b`, the product `(a b) b^-1`
/// equals `a` again: cell for cell as exact rationals, and so in
/// particular within the epsilon tolerance.
pub proof fn lemma_product_by_inverse(a: Matrix4x4, b: Matrix4x4)
    requires
        a.wf(),
        b.wf(),
        det4m(b) != 0,
    ensures
        forall|i: int, j: int|
            0 <= i < 4 && 0 <= j < 4 ==> #[trigger] crate::util::rat_eq(
                prod3num(a, b, i, j),
                prod3den(a, b),
                a.m[i][j] as int,
                a.den as int,
            ),
        forall|i: int, j: int|
            0 <= i < 4 && 0 <= j < 4 ==> #[trigger] crate::util::rat_approx(
                prod3num(a, b, i, j),
                prod3den(a, b),
                a.m[i][j] as int,
                a.den as int,
            ),
{
    assert forall|i: int, j: int| 0 <= i < 4 && 0 <= j < 4 implies #[trigger] crate::util::rat_eq(
        prod3num(a, b, i, j),
        prod3den(a, b),
        a.m[i][j] as int,
        a.den as int,
    ) by {
        lemma_inverse_cell(a, b, i, j);
    }
    let da = a.den as int;
    let db = b.den as int;
    let ad = crate::util::abs_val(det4m(b));
    lemma_prod_bound(da, db, da, db);
    lemma_prod_bound(da * db, ad, da * db, ad);
    assert forall|i: int, j: int| 0 <= i < 4 && 0 <= j < 4 implies #[trigger] crate::util::rat_approx(
        prod3num(a, b, i, j),
        prod3den(a, b),
        a.m[i][j] as int,
        a.den as int,
    ) by {
        crate::util::lemma_rat_eq_approx(
            prod3num(a, b, i, j),
            prod3den(a, b),
            a.m[i][j] as int,
            a.den as int,
        );
    }
}


} // verus!

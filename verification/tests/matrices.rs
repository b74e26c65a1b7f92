use rays_core::Scalar;
use rays_core::matrices::Matrix2x2;
use rays_core::matrices::Matrix3x3;
use rays_core::matrices::Matrix4x4;
use rays_core::tuples::tuple;
use rays_core::util::approx_equal;

#[test]
fn construct_4x4_matrix() {
    // Halves share the denominator two: 5.5 is 11/2, 13.5 is 27/2.
    let m = Matrix4x4::new(
        [
            [2, 4, 6, 8],
            [11, 13, 15, 17],
            [18, 20, 22, 24],
            [27, 29, 31, 33],
        ],
        2,
    );
    assert!(approx_equal(&Scalar::from_int(1), &m.at(0, 0)));
    assert!(approx_equal(&Scalar::from_int(4), &m.at(0, 3)));
    assert!(approx_equal(&Scalar::new(11, 2), &m.at(1, 0)));
    assert!(approx_equal(&Scalar::new(15, 2), &m.at(1, 2)));
    assert!(approx_equal(&Scalar::from_int(11), &m.at(2, 2)));
    assert!(approx_equal(&Scalar::new(27, 2), &m.at(3, 0)));
    assert!(approx_equal(&Scalar::new(31, 2), &m.at(3, 2)));
}

#[test]
fn construct_2x2_matrix() {
    let m = Matrix2x2::new([[-3, 5], [1, -2]], 1);
    assert!(approx_equal(&Scalar::from_int(-3), &m.at(0, 0)));
    assert!(approx_equal(&Scalar::from_int(5), &m.at(0, 1)));
    assert!(approx_equal(&Scalar::from_int(1), &m.at(1, 0)));
    assert!(approx_equal(&Scalar::from_int(-2), &m.at(1, 1)));
}

#[test]
fn construct_3x3_matrix() {
    let m = Matrix3x3::new([[-3, 5, 0], [1, -2, -7], [0, 1, 1]], 1);
    assert!(approx_equal(&Scalar::from_int(-3), &m.at(0, 0)));
    assert!(approx_equal(&Scalar::from_int(-2), &m.at(1, 1)));
    assert!(approx_equal(&Scalar::from_int(1), &m.at(2, 2)));
}

#[test]
fn matrix_equality_with_identical_matrices() {
    let a = Matrix4x4::new(
        [[1, 2, 3, 4], [5, 6, 7, 8], [9, 8, 7, 6], [5, 4, 3, 2]],
        1,
    );
    let b = Matrix4x4::new(
        [[1, 2, 3, 4], [5, 6, 7, 8], [9, 8, 7, 6], [5, 4, 3, 2]],
        1,
    );
    assert!(a.approx_eq(&b));
}

#[test]
fn matrix_equality_with_different_matrices() {
    let a = Matrix4x4::new(
        [[1, 2, 3, 4], [5, 6, 7, 8], [9, 8, 7, 6], [5, 4, 3, 2]],
        1,
    );
    let b = Matrix4x4::new(
        [[2, 3, 4, 5], [6, 7, 8, 9], [8, 7, 6, 5], [4, 3, 2, 1]],
        1,
    );
    assert!(!a.approx_eq(&b));
}

#[test]
fn multiply_two_matrices() {
    let a = Matrix4x4::new(
        [[1, 2, 3, 4], [5, 6, 7, 8], [9, 8, 7, 6], [5, 4, 3, 2]],
        1,
    );
    let b = Matrix4x4::new(
        [[-2, 1, 2, 3], [3, 2, 1, -1], [4, 3, 6, 5], [1, 2, 7, 8]],
        1,
    );
    let expected_result = Matrix4x4::new(
        [
            [20, 22, 50, 48],
            [44, 54, 114, 108],
            [40, 58, 110, 102],
            [16, 26, 46, 42],
        ],
        1,
    );
    assert!(a.multiply(&b).approx_eq(&expected_result));
}

#[test]
fn multiply_matrix_with_tuple() {
    let a = Matrix4x4::new(
        [[1, 2, 3, 4], [2, 4, 4, 2], [8, 6, 4, 1], [0, 0, 0, 1]],
        1,
    );
    let b = tuple(1, 2, 3, 1, 1);
    let expected_result = tuple(18, 24, 33, 1, 1);
    assert!(a.apply(&b).approx_eq(&expected_result));
}

#[test]
fn multiply_with_identity_yields_same_matrix() {
    let a = Matrix4x4::new(
        [[0, 1, 2, 4], [1, 2, 4, 8], [2, 4, 8, 16], [4, 8, 16, 32]],
        1,
    );
    let identity = Matrix4x4::identity();
    assert!(a.multiply(&identity).approx_eq(&a));
}

#[test]
fn multiply_tuple_with_identity_yields_same_tuple() {
    let a = tuple(1, 2, 3, 4, 1);
    let identity = Matrix4x4::identity();
    assert!(identity.apply(&a).approx_eq(&a));
}

#[test]
fn transpose_matrix() {
    let a = Matrix4x4::new(
        [[0, 9, 3, 0], [9, 8, 0, 8], [1, 8, 5, 3], [0, 0, 5, 8]],
        1,
    );
    let expected_result = Matrix4x4::new(
        [[0, 9, 1, 0], [9, 8, 8, 0], [3, 0, 5, 5], [0, 8, 3, 8]],
        1,
    );
    assert!(a.transpose().approx_eq(&expected_result));

    // The transpose of the identity equals the identity.
    assert!(Matrix4x4::identity().transpose().approx_eq(&Matrix4x4::identity()));
}

#[test]
fn transpose_twice_yields_same_matrix() {
    let a = Matrix4x4::new(
        [[0, 9, 3, 0], [9, 8, 0, 8], [1, 8, 5, 3], [0, 0, 5, 8]],
        2,
    );
    assert!(a.transpose().transpose().approx_eq(&a));
}

#[test]
fn determinant_of_2x2_matrix() {
    let a = Matrix2x2::new([[1, 5], [-3, 2]], 1);
    assert!(approx_equal(&a.determinant(), &Scalar::from_int(17)));
}

#[test]
fn submatrix_of_3x3_matrix() {
    let a = Matrix3x3::new([[1, 5, 0], [-3, 2, 7], [0, 6, -3]], 1);
    let b = Matrix2x2::new([[-3, 2], [0, 6]], 1);
    assert!(a.submatrix(0, 2).approx_eq(&b));
}

#[test]
fn submatrix_of_4x4_matrix() {
    let a = Matrix4x4::new(
        [[-6, 1, 1, 6], [-8, 5, 8, 6], [-1, 0, 8, 2], [-7, 1, -1, 1]],
        1,
    );
    let b = Matrix3x3::new([[-6, 1, 6], [-8, 8, 6], [-7, -1, 1]], 1);
    assert!(a.submatrix(2, 1).approx_eq(&b));
}

#[test]
fn calculate_minor_of_3x3_matrix() {
    let a = Matrix3x3::new([[-3, 5, 0], [1, -2, -7], [6, -1, 5]], 1);
    let det = a.submatrix(1, 0).determinant();
    assert!(approx_equal(&a.minor(1, 0), &det));
}

#[test]
fn calculate_cofactor_of_3x3_matrix() {
    let a = Matrix3x3::new([[3, 5, 0], [2, -1, -7], [6, -1, 5]], 1);
    assert!(approx_equal(&a.minor(0, 0), &Scalar::from_int(-12)));
    assert!(approx_equal(&a.cofactor(0, 0), &Scalar::from_int(-12)));
    assert!(approx_equal(&a.minor(1, 0), &Scalar::from_int(25)));
    assert!(approx_equal(&a.cofactor(1, 0), &Scalar::from_int(-25)));
}

#[test]
fn calculate_determinant_of_3x3_matrix() {
    let a = Matrix3x3::new([[1, 2, 6], [-5, 8, -4], [2, 6, 4]], 1);
    assert!(approx_equal(&a.cofactor(0, 0), &Scalar::from_int(56)));
    assert!(approx_equal(&a.cofactor(0, 1), &Scalar::from_int(12)));
    assert!(approx_equal(&a.cofactor(0, 2), &Scalar::from_int(-46)));
    assert!(approx_equal(&a.determinant(), &Scalar::from_int(-196)));
}

#[test]
fn calculate_determinant_of_4x4_matrix() {
    let a = Matrix4x4::new(
        [[-2, -8, 3, 5], [-3, 1, 7, 3], [1, 2, -9, 6], [-6, 7, 7, -9]],
        1,
    );
    assert!(approx_equal(&a.cofactor(0, 0), &Scalar::from_int(690)));
    assert!(approx_equal(&a.cofactor(0, 1), &Scalar::from_int(447)));
    assert!(approx_equal(&a.cofactor(0, 2), &Scalar::from_int(210)));
    assert!(approx_equal(&a.cofactor(0, 3), &Scalar::from_int(51)));
    assert!(approx_equal(&a.determinant(), &Scalar::from_int(-4071)));
}

#[test]
fn testing_matrix_invertibility_invertible() {
    let a = Matrix4x4::new(
        [[6, 4, 4, 4], [5, 5, 7, 6], [4, -9, 3, -7], [9, 1, 7, -6]],
        1,
    );
    assert!(approx_equal(&a.determinant(), &Scalar::from_int(-2120)));
}

#[test]
fn testing_matrix_invertibility_noninvertible() {
    let a = Matrix4x4::new(
        [[-4, 2, -2, -3], [9, 6, 2, 6], [0, -5, 1, -5], [0, 0, 0, 0]],
        1,
    );
    // If the determinant is zero, then a is not invertible.
    assert!(approx_equal(&a.determinant(), &Scalar::from_int(0)));
    assert_eq!(a.is_invertible(), false);
}

#[test]
fn calculating_inverse_of_matrices() {
    let a = Matrix4x4::new(
        [[-5, 2, 6, -8], [1, -5, 1, 8], [7, 7, -6, -7], [1, -3, 7, 4]],
        1,
    );
    let b = a.inverse().unwrap();
    // Five-decimal fixtures share the denominator 100000.
    let inv = Matrix4x4::new(
        [
            [21805, 45113, 24060, -4511],
            [-80827, -145677, -44361, 52068],
            [-7895, -22368, -5263, 19737],
            [-52256, -81391, -30075, 30639],
        ],
        100000,
    );
    assert!(approx_equal(&a.determinant(), &Scalar::from_int(532)));
    assert!(approx_equal(&a.cofactor(2, 3), &Scalar::from_int(-160)));
    assert!(approx_equal(&b.at(3, 2), &Scalar::new(-160, 532)));
    assert!(approx_equal(&a.cofactor(3, 2), &Scalar::from_int(105)));
    assert!(approx_equal(&b.at(2, 3), &Scalar::new(105, 532)));
    assert!(b.approx_eq(&inv));

    let a = Matrix4x4::new(
        [[8, -5, 9, 2], [7, 5, 6, 1], [-6, 0, 9, 6], [-3, 0, -9, -4]],
        1,
    );
    let b = a.inverse().unwrap();
    let inv = Matrix4x4::new(
        [
            [-15385, -15385, -28205, -53846],
            [-7692, 12308, 2564, 3077],
            [35897, 35897, 43590, 92308],
            [-69231, -69231, -76923, -192308],
        ],
        100000,
    );
    assert!(b.approx_eq(&inv));

    let a = Matrix4x4::new(
        [[9, 3, 0, 9], [-5, -2, -6, -3], [-4, 9, 6, 4], [-7, 6, 6, 2]],
        1,
    );
    let b = a.inverse().unwrap();
    let inv = Matrix4x4::new(
        [
            [-4074, -7778, 14444, -22222],
            [-7778, 3333, 36667, -33333],
            [-2901, -14630, -10926, 12963],
            [17778, 6667, -26667, 33333],
        ],
        100000,
    );
    assert!(b.approx_eq(&inv));
}

#[test]
fn calculating_a_product_by_inverse() {
    let a = Matrix4x4::new(
        [[3, -9, 7, 3], [3, -8, 2, -9], [-4, 4, 4, 1], [-6, 5, -1, 1]],
        1,
    );
    let b = Matrix4x4::new(
        [[8, 2, 2, 2], [3, -1, 7, 0], [7, 0, 5, 4], [6, -2, 0, 5]],
        1,
    );
    let product = a.multiply(&b);
    assert!(product.multiply(&b.inverse().unwrap()).approx_eq(&a));
}

#[test]
fn singular_matrix_has_no_inverse() {
    let a = Matrix4x4::new(
        [[-4, 2, -2, -3], [9, 6, 2, 6], [0, -5, 1, -5], [0, 0, 0, 0]],
        1,
    );
    assert!(a.inverse().is_none());
    let b = Matrix2x2::new([[1, 2], [2, 4]], 1);
    assert!(b.inverse().is_none());
    let c = Matrix3x3::new([[1, 2, 3], [2, 4, 6], [0, 1, 1]], 1);
    assert!(c.inverse().is_none());
}

#[test]
fn inverse_of_2x2_and_3x3_matrices() {
    let a = Matrix2x2::new([[4, 7], [2, 6]], 1);
    let inv = a.inverse().unwrap();
    // The inverse of [[4, 7], [2, 6]] is [[0.6, -0.7], [-0.2, 0.4]].
    assert!(inv.approx_eq(&Matrix2x2::new([[6, -7], [-2, 4]], 10)));

    let b = Matrix3x3::new([[1, 2, 0], [0, 1, 0], [0, 0, 2]], 1);
    let binv = b.inverse().unwrap();
    assert!(binv.approx_eq(&Matrix3x3::new([[2, -4, 0], [0, 2, 0], [0, 0, 1]], 2)));
}

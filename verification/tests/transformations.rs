use rays_core::transformations::rotation_x;
use rays_core::transformations::rotation_y;
use rays_core::transformations::rotation_z;
use rays_core::transformations::scaling;
use rays_core::transformations::shearing;
use rays_core::transformations::translation;
use rays_core::tuples::point;
use rays_core::tuples::vector;

// The cosine and sine of a quarter of a right angle, as the rational
// 707107 / 1000000: accurate to far below the comparison epsilon.
const HALF_SQRT2: i128 = 707107;
const ROT_DEN: i128 = 1000000;

#[test]
fn multiplying_by_translation_matrix() {
    let t = translation(5, -3, 2, 1);
    let p = point(-3, 4, 5, 1);
    let t_p = point(2, 1, 7, 1);
    assert!(t.apply(&p).approx_eq(&t_p));
}

#[test]
fn multiplying_by_inverse_translation_matrix() {
    let t = translation(5, -3, 2, 1);
    let p = point(-3, 4, 5, 1);
    let inv = t.inverse().unwrap();
    let inverse_p = point(-8, 7, 3, 1);
    assert!(inv.apply(&p).approx_eq(&inverse_p));
}

#[test]
fn translation_does_not_affect_vectors() {
    let t = translation(5, -3, 2, 1);
    let v = vector(-3, 4, 5, 1);
    assert!(t.apply(&v).approx_eq(&v));
}

#[test]
fn scaling_point() {
    let t = scaling(2, 3, 4, 1);
    let p = point(-4, 6, 8, 1);
    let scaled_p = point(-8, 18, 32, 1);
    assert!(t.apply(&p).approx_eq(&scaled_p));
}

#[test]
fn scaling_vector() {
    let t = scaling(2, 3, 4, 1);
    let v = vector(-4, 6, 8, 1);
    let scaled_v = vector(-8, 18, 32, 1);
    assert!(t.apply(&v).approx_eq(&scaled_v));
}

#[test]
fn multiply_by_inverse_matrix() {
    let t = scaling(2, 3, 4, 1);
    let inv = t.inverse().unwrap();
    let v = vector(-4, 6, 8, 1);
    let scaled_v = vector(-2, 2, 2, 1);
    assert!(inv.apply(&v).approx_eq(&scaled_v));
}

#[test]
fn reflection_is_scaling_by_a_negative_value() {
    let t = scaling(-1, 1, 1, 1);
    let p = point(2, 3, 4, 1);
    let reflected_p = point(-2, 3, 4, 1);
    assert!(t.apply(&p).approx_eq(&reflected_p));
}

#[test]
fn rotating_point_around_x_axis() {
    let p = point(0, 1, 0, 1);
    let half_quarter = rotation_x(HALF_SQRT2, HALF_SQRT2, ROT_DEN);
    let full_quarter = rotation_x(0, 1, 1);
    assert!(half_quarter.apply(&p).approx_eq(&point(0, HALF_SQRT2, HALF_SQRT2, ROT_DEN)));
    assert!(full_quarter.apply(&p).approx_eq(&point(0, 0, 1, 1)));
}

#[test]
fn inverse_rotating_point_around_x_axis() {
    let p = point(0, 1, 0, 1);
    let half_quarter = rotation_x(HALF_SQRT2, HALF_SQRT2, ROT_DEN);
    let inv = half_quarter.inverse().unwrap();
    assert!(inv.apply(&p).approx_eq(&point(0, HALF_SQRT2, -HALF_SQRT2, ROT_DEN)));
}

#[test]
fn rotating_point_around_y_axis() {
    let p = point(0, 0, 1, 1);
    let half_quarter = rotation_y(HALF_SQRT2, HALF_SQRT2, ROT_DEN);
    let full_quarter = rotation_y(0, 1, 1);
    assert!(half_quarter.apply(&p).approx_eq(&point(HALF_SQRT2, 0, HALF_SQRT2, ROT_DEN)));
    assert!(full_quarter.apply(&p).approx_eq(&point(1, 0, 0, 1)));
}

#[test]
fn rotating_point_around_z_axis() {
    let p = point(0, 1, 0, 1);
    let half_quarter = rotation_z(HALF_SQRT2, HALF_SQRT2, ROT_DEN);
    let full_quarter = rotation_z(0, 1, 1);
    assert!(half_quarter.apply(&p).approx_eq(&point(-HALF_SQRT2, HALF_SQRT2, 0, ROT_DEN)));
    assert!(full_quarter.apply(&p).approx_eq(&point(-1, 0, 0, 1)));
}

#[test]
fn shearing_all_axes() {
    let p = point(2, 3, 4, 1);
    let transform = shearing(1, 0, 0, 0, 0, 0, 1);
    assert!(transform.apply(&p).approx_eq(&point(5, 3, 4, 1)));

    let transform = shearing(0, 1, 0, 0, 0, 0, 1);
    assert!(transform.apply(&p).approx_eq(&point(6, 3, 4, 1)));

    let transform = shearing(0, 0, 1, 0, 0, 0, 1);
    assert!(transform.apply(&p).approx_eq(&point(2, 5, 4, 1)));

    let transform = shearing(0, 0, 0, 1, 0, 0, 1);
    assert!(transform.apply(&p).approx_eq(&point(2, 7, 4, 1)));

    let transform = shearing(0, 0, 0, 0, 1, 0, 1);
    assert!(transform.apply(&p).approx_eq(&point(2, 3, 6, 1)));

    let transform = shearing(0, 0, 0, 0, 0, 1, 1);
    assert!(transform.apply(&p).approx_eq(&point(2, 3, 7, 1)));
}

#[test]
fn fractional_translation_of_a_point() {
    // Translating by (0.5, 0, 0) moves a point by exactly one half.
    let t = translation(1, 0, 0, 2);
    let p = point(1, 1, 1, 1);
    assert!(t.apply(&p).approx_eq(&point(3, 2, 2, 2)));
}

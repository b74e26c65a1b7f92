use rays_core::Scalar;
use rays_core::tuples::point;
use rays_core::tuples::tuple;
use rays_core::tuples::vector;

#[test]
fn tuple_is_a_point() {
    // A tuple with w equal to one is a point; 4.3 is 43/10, and so on.
    let a = tuple(43, -42, 31, 10, 10);
    assert_eq!(a.x, 43);
    assert_eq!(a.y, -42);
    assert_eq!(a.z, 31);
    assert_eq!(a.w, 10);
}

#[test]
fn tuple_is_a_vector() {
    // A tuple with w equal to zero is a vector.
    let a = tuple(43, -42, 31, 0, 10);
    assert_eq!(a.x, 43);
    assert_eq!(a.y, -42);
    assert_eq!(a.z, 31);
    assert_eq!(a.w, 0);
}

#[test]
fn create_point() {
    let a = point(4, -4, 3, 1);
    let b = tuple(4, -4, 3, 1, 1);
    assert_eq!(a.x, 4);
    assert_eq!(a.y, -4);
    assert_eq!(a.z, 3);
    assert_eq!(a.w, 1);
    assert!(a.approx_eq(&b));
}

#[test]
fn create_vector() {
    let a = vector(4, -4, 3, 1);
    let b = tuple(4, -4, 3, 0, 1);
    assert_eq!(a.x, 4);
    assert_eq!(a.y, -4);
    assert_eq!(a.z, 3);
    assert_eq!(a.w, 0);
    assert!(a.approx_eq(&b));
}

#[test]
fn add_tuples() {
    let a = tuple(3, -2, 5, 1, 1);
    let b = tuple(-2, 3, 1, 0, 1);
    assert!(a.add(&b).approx_eq(&tuple(1, 1, 6, 1, 1)));
}

#[test]
fn subtracting_two_points() {
    let p1 = point(3, 2, 1, 1);
    let p2 = point(5, 6, 7, 1);
    assert!(p1.sub(&p2).approx_eq(&vector(-2, -4, -6, 1)));
}

#[test]
fn subtracting_vector_from_point() {
    let p1 = point(3, 2, 1, 1);
    let v = vector(5, 6, 7, 1);
    assert!(p1.sub(&v).approx_eq(&point(-2, -4, -6, 1)));
}

#[test]
fn subtracting_two_vectors() {
    let p1 = vector(3, 2, 1, 1);
    let p2 = vector(5, 6, 7, 1);
    assert!(p1.sub(&p2).approx_eq(&vector(-2, -4, -6, 1)));
}

#[test]
fn subtracting_vector_from_zero_vector() {
    let zero = vector(0, 0, 0, 1);
    let v = vector(1, -2, 3, 1);
    let sub = zero.sub(&v);
    assert!(sub.approx_eq(&vector(-1, 2, -3, 1)));
}

#[test]
fn negate_tuple() {
    let a = tuple(1, -2, 3, -4, 1);
    assert!(a.negate().approx_eq(&tuple(-1, 2, -3, 4, 1)));
}

#[test]
fn multiply_tuple_by_scalar() {
    let a = tuple(1, -2, 3, -4, 1);
    // 3.5 is 7/2.
    assert!(a.scale(&Scalar::new(7, 2)).approx_eq(&tuple(7, -14, 21, -28, 2)));
    // Also able to use an integer scalar.
    assert!(a.scale(&Scalar::from_int(3)).approx_eq(&tuple(3, -6, 9, -12, 1)));
}

#[test]
fn multiply_tuple_by_fraction() {
    let a = tuple(1, -2, 3, -4, 1);
    assert!(a.scale(&Scalar::new(1, 2)).approx_eq(&tuple(1, -2, 3, -4, 2)));
}

#[test]
fn divide_tuple_by_scalar() {
    let a = tuple(1, -2, 3, -4, 1);
    assert!(a.divide(&Scalar::from_int(2)).approx_eq(&tuple(1, -2, 3, -4, 2)));
    assert!(a.divide(&Scalar::new(2, 1)).approx_eq(&tuple(1, -2, 3, -4, 2)));
}

#[test]
fn compute_dot_product() {
    let a = vector(1, 2, 3, 1);
    let b = vector(2, 3, 4, 1);
    let d = a.dot(&b);
    assert_eq!(d.num, 20);
    assert_eq!(d.den, 1);
}

#[test]
fn compute_cross_product() {
    let a = vector(1, 2, 3, 1);
    let b = vector(2, 3, 4, 1);
    assert!(a.cross(&b).approx_eq(&vector(-1, 2, -1, 1)));
}

#[test]
fn divide_by_negative_scalar() {
    let a = tuple(2, -4, 6, 0, 1);
    let r = a.divide(&Scalar::new(-2, 1));
    assert!(r.approx_eq(&tuple(-1, 2, -3, 0, 1)));
    assert!(r.den > 0);
}

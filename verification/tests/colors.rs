use rays_core::Color;
use rays_core::Scalar;
use rays_core::util::approx_equal;
use rays_core::util::array_approx_equal;

#[test]
fn adding_colors() {
    // 0.9 is 90/100, and so on: one shared denominator per color.
    let c1 = Color::new(90, 60, 75, 100);
    let c2 = Color::new(70, 10, 25, 100);
    assert!(c1.add(&c2).approx_eq(&Color::new(160, 70, 100, 100)));
}

#[test]
fn subtracting_colors() {
    let c1 = Color::new(90, 60, 75, 100);
    let c2 = Color::new(70, 10, 25, 100);
    assert!(c1.sub(&c2).approx_eq(&Color::new(20, 50, 50, 100)));
}

#[test]
fn multiplying_color_by_scalar() {
    let c = Color::new(2, 3, 4, 10);
    assert!(c.scale(&Scalar::from_int(2)).approx_eq(&Color::new(4, 6, 8, 10)));
}

#[test]
fn multiplying_colors() {
    let c1 = Color::new(10, 2, 4, 10);
    let c2 = Color::new(9, 10, 1, 10);
    assert!(c1.hadamard(&c2).approx_eq(&Color::new(90, 20, 4, 100)));
}

#[test]
fn scalars_equal_within_epsilon() {
    // The tolerance is 1/100000, inclusive.
    let a = Scalar::new(0, 1);
    let near = Scalar::new(1, 100000);
    let far = Scalar::new(2, 100000);
    assert!(approx_equal(&a, &near));
    assert!(!approx_equal(&a, &far));
    // Different representations of the same rational are equal.
    assert!(approx_equal(&Scalar::new(1, 2), &Scalar::new(2, 4)));
}

#[test]
fn scalar_sequences_compared_elementwise() {
    let a = [Scalar::from_int(1), Scalar::from_int(2)];
    let b = [Scalar::new(2, 2), Scalar::new(4, 2)];
    let c = [Scalar::from_int(1), Scalar::from_int(3)];
    assert!(array_approx_equal(&a, &b));
    assert!(!array_approx_equal(&a, &c));
}

use rays_core::Canvas;
use rays_core::Color;
use rays_core::canvas::clamp;

#[test]
fn creating_a_canvas() {
    let c = Canvas::new(10, 20, None);
    let black = Color::new_black();
    assert!(c.pixel_at(0, 0).unwrap().approx_eq(&black));
    assert!(c.pixel_at(9, 19).unwrap().approx_eq(&black));
}

#[test]
fn writing_pixels_to_canvas() {
    let mut c = Canvas::new(10, 20, None);
    let red = Color::new(1, 0, 0, 1);

    // Handle overflow silently when calling write_pixel
    // and return None if out of bounds when calling pixel_at.
    c.write_pixel(10, 20, red);
    assert!(c.pixel_at(10, 20).is_none());

    c.write_pixel(0, 19, red);
    assert!(c.pixel_at(0, 19).unwrap().approx_eq(&red));
}

#[test]
fn constructing_ppm_header() {
    let c = Canvas::new(5, 3, None);
    let ppm = c.to_ppm();
    let ppm_test = "P3\n5 3\n255\n";
    assert_eq!(ppm.find(ppm_test), Some(0));
}

#[test]
fn constructing_ppm_pixel_data() {
    let mut c = Canvas::new(5, 3, None);
    // 1.5 is 3/2; 0.5 is 1/2; -0.5 is -1/2.
    let c1 = Color::new(3, 0, 0, 2);
    let c2 = Color::new(0, 1, 0, 2);
    let c3 = Color::new(-1, 0, 2, 2);

    c.write_pixel(0, 0, c1);
    c.write_pixel(2, 1, c2);
    c.write_pixel(4, 2, c3);

    let ppm = c.to_ppm();
    let ppm_test = "P3\n5 3\n255\n\
255 0 0 0 0 0 0 0 0 0 0 0 0 0 0 0 0 0 0 0 0 0 128 0 0 0 0 0 0 0\n\
0 0 0 0 0 0 0 0 0 0 0 0 0 0 255\n";
    assert_eq!(ppm, ppm_test);
}

#[test]
fn splitting_long_lines_in_ppm() {
    // 1.0, 0.8, 0.6 over the shared denominator ten; the channels round to
    // 255, 205 and 154, and every body line holds five whole triads.
    let c = Canvas::new(10, 2, Some(Color::new(10, 8, 6, 10)));
    let ppm = c.to_ppm();
    let ppm_test = "P3\n10 2\n255\n\
255 205 154 255 205 154 255 205 154 255 205 154 255 205 154\n\
255 205 154 255 205 154 255 205 154 255 205 154 255 205 154\n\
255 205 154 255 205 154 255 205 154 255 205 154 255 205 154\n\
255 205 154 255 205 154 255 205 154 255 205 154 255 205 154\n";
    assert_eq!(ppm, ppm_test);
    for line in ppm.lines() {
        assert!(line.len() <= 70);
    }
}

#[test]
fn empty_canvas_serializes_to_header_only() {
    let c = Canvas::new(0, 3, None);
    assert_eq!(c.to_ppm(), "P3\n0 3\n255\n");
    let mut c = Canvas::new(0, 0, None);
    // A write into an empty canvas does nothing and must not fail.
    c.write_pixel(0, 0, Color::new(1, 0, 0, 1));
    assert!(c.pixel_at(0, 0).is_none());
}

#[test]
fn header_holds_multi_digit_dimensions() {
    let c = Canvas::new(900, 1, None);
    assert_eq!(c.to_ppm().find("P3\n900 1\n255\n"), Some(0));
}

#[test]
fn out_of_range_write_lands_on_last_pixel() {
    let mut c = Canvas::new(2, 2, None);
    let green = Color::new(0, 1, 0, 1);
    c.write_pixel(5, 7, green);
    assert!(c.pixel_at(1, 1).unwrap().approx_eq(&green));
    assert!(c.pixel_at(0, 0).unwrap().approx_eq(&Color::new_black()));
}

#[test]
fn channel_values_clamp_at_encode_time() {
    let mut c = Canvas::new(2, 1, None);
    // 2.5 clamps to 255; -0.3 clamps to 0; 0.996 rounds up to 255.
    c.write_pixel(0, 0, Color::new(2500, -300, 996, 1000));
    c.write_pixel(1, 0, Color::new(500, 0, 0, 1000));
    let ppm = c.to_ppm();
    assert_eq!(ppm, "P3\n2 1\n255\n255 0 255 128 0 0\n");
}

#[test]
fn clamp_bounds_its_input() {
    assert_eq!(clamp(300, 0, 255), 255);
    assert_eq!(clamp(-5, 0, 255), 0);
    assert_eq!(clamp(128, 0, 255), 128);
}

use raytracer::image::{channel_byte, pixel_line, ppm_header, push_decimal};

#[test]
fn white_pixel_line() {
    assert_eq!(pixel_line(256, 256, 256), b"255 255 255\n".to_vec());
}

#[test]
fn black_pixel_line() {
    assert_eq!(pixel_line(0, 0, 0), b"0 0 0\n".to_vec());
}

#[test]
fn out_of_range_channels_are_clamped() {
    assert_eq!(pixel_line(-5, 300, i64::MAX), b"0 255 255\n".to_vec());
    assert_eq!(pixel_line(i64::MIN, 128, 255), b"0 128 255\n".to_vec());
}

#[test]
fn channel_byte_edges() {
    assert_eq!(channel_byte(-1), 0);
    assert_eq!(channel_byte(0), 0);
    assert_eq!(channel_byte(9), 9);
    assert_eq!(channel_byte(255), 255);
    assert_eq!(channel_byte(256), 255);
}

#[test]
fn header_of_two_by_two_image() {
    assert_eq!(ppm_header(2, 2), b"P3\n2 2\n255\n".to_vec());
}

#[test]
fn header_of_wide_image() {
    assert_eq!(ppm_header(1200, 675), b"P3\n1200 675\n255\n".to_vec());
}

#[test]
fn decimal_digits() {
    let mut out = b"x".to_vec();
    push_decimal(&mut out, 0);
    push_decimal(&mut out, 10);
    push_decimal(&mut out, 4294967295);
    assert_eq!(out, b"x0104294967295".to_vec());
}

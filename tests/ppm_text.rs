use raytracer::image::{Image, Rgb8};
use raytracer::ppm::{draw_image, push_decimal};

/// The header of a plain-text PPM file of the given size.
fn header(width: u64, height: u64) -> String {
    format!("P{}\n{} {}\n255\n", 3, width, height)
}

fn decimal_text(n: u64) -> String {
    let mut out = Vec::new();
    push_decimal(&mut out, n);
    String::from_utf8(out).unwrap()
}

#[test]
fn decimal_of_small_and_large_numbers() {
    assert_eq!(decimal_text(0), "0");
    assert_eq!(decimal_text(7), "7");
    assert_eq!(decimal_text(10), "10");
    assert_eq!(decimal_text(255), "255");
    assert_eq!(decimal_text(1000), "1000");
    assert_eq!(decimal_text(u64::MAX), "18446744073709551615");
}

#[test]
fn decimal_appends_to_existing_bytes() {
    let mut out = b"x=".to_vec();
    push_decimal(&mut out, 42);
    assert_eq!(out, b"x=42".to_vec());
}

#[test]
fn ppm_of_two_pixels() {
    let img = Image::from_pixels(2, 1, vec![Rgb8::new(255, 0, 0), Rgb8::new(0, 128, 7)]).unwrap();
    let text = String::from_utf8(draw_image(&img)).unwrap();
    assert_eq!(text, header(2, 1) + "255 0 0\n0 128 7\n");
}

#[test]
fn ppm_rows_in_row_major_order() {
    let mut img = Image::new(2, 2);
    img.set(1, 0, Rgb8::new(1, 1, 1));
    img.set(0, 1, Rgb8::new(2, 2, 2));
    img.set(1, 1, Rgb8::new(3, 3, 3));
    let text = String::from_utf8(draw_image(&img)).unwrap();
    assert_eq!(text, header(2, 2) + "0 0 0\n1 1 1\n2 2 2\n3 3 3\n");
}

#[test]
fn ppm_of_empty_grid_is_header_only() {
    let img = Image::new(0, 0);
    let text = String::from_utf8(draw_image(&img)).unwrap();
    assert_eq!(text, header(0, 0));
}

#[test]
fn ppm_line_count() {
    let img = Image::new(400, 225);
    let text = String::from_utf8(draw_image(&img)).unwrap();
    assert!(text.starts_with(&header(400, 225)));
    assert_eq!(text.lines().count(), 3 + 400 * 225);
}

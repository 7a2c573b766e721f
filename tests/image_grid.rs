use raytracer::image::{pixel_coords, Image, Rgb8};

#[test]
fn pixel_coords_are_row_major_from_top_left() {
    let coords = pixel_coords(3, 2);
    assert_eq!(coords, vec![(0, 0), (1, 0), (2, 0), (0, 1), (1, 1), (2, 1)]);
}

#[test]
fn pixel_coords_of_empty_grid() {
    assert!(pixel_coords(0, 5).is_empty());
    assert!(pixel_coords(4, 0).is_empty());
}

#[test]
fn pixel_coords_single_column() {
    assert_eq!(pixel_coords(1, 3), vec![(0, 0), (0, 1), (0, 2)]);
}

#[test]
fn new_image_is_black() {
    let img = Image::new(4, 3);
    assert_eq!(img.width(), 4);
    assert_eq!(img.height(), 3);
    assert_eq!(img.pixels().len(), 12);
    assert!(img.pixels().iter().all(|c| *c == Rgb8::black()));
}

#[test]
fn set_writes_exactly_one_cell() {
    let mut img = Image::new(3, 2);
    let c = Rgb8::new(10, 20, 30);
    img.set(2, 1, c);
    assert_eq!(img.get(2, 1), c);
    assert_eq!(img.pixels()[5], c);
    for i in 0..5 {
        assert_eq!(img.pixels()[i], Rgb8::black());
    }
}

#[test]
fn from_pixels_checks_the_count() {
    let px = vec![Rgb8::new(1, 2, 3), Rgb8::new(4, 5, 6)];
    assert!(Image::from_pixels(1, 3, px.clone()).is_none());
    assert!(Image::from_pixels(3, 1, px.clone()).is_none());
    let img = Image::from_pixels(2, 1, px).unwrap();
    assert_eq!(img.get(0, 0), Rgb8::new(1, 2, 3));
    assert_eq!(img.get(1, 0), Rgb8::new(4, 5, 6));
}

#[test]
fn from_pixels_rejects_overflowing_size() {
    assert!(Image::from_pixels(u64::MAX, 2, Vec::new()).is_none());
}

#[test]
fn every_coordinate_addresses_its_own_cell() {
    let (w, h) = (5u64, 4u64);
    let coords = pixel_coords(w, h);
    let mut img = Image::new(w, h);
    for (i, (x, y)) in coords.iter().enumerate() {
        img.set(*x, *y, Rgb8::new(i as u8, 0, 0));
    }
    for (i, c) in img.pixels().iter().enumerate() {
        assert_eq!(c.r, i as u8);
    }
}

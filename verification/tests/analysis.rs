use mandelbrot::analysis::{fraction_black, Fraction};
use mandelbrot::image::Image;

#[test]
fn fraction_black_of_a_black_raster_is_one() {
    let image = Image::new(4, 3, 0).unwrap();
    assert_eq!(fraction_black(&image), Fraction { numerator: 12, denominator: 12 });
}

#[test]
fn fraction_black_of_a_raster_without_black_is_zero() {
    let image = Image::new(4, 3, 0xFF_FF_FF).unwrap();
    assert_eq!(fraction_black(&image), Fraction { numerator: 0, denominator: 12 });
}

#[test]
fn fraction_black_counts_only_pure_black() {
    let image = Image { rows: vec![vec![0, 1, 0], vec![0x01_00_00, 0, 0x00_01_00]] };
    assert_eq!(fraction_black(&image), Fraction { numerator: 3, denominator: 6 });
}

#[test]
fn fraction_black_of_one_pixel() {
    let black = Image { rows: vec![vec![0]] };
    assert_eq!(fraction_black(&black), Fraction { numerator: 1, denominator: 1 });
    let other = Image { rows: vec![vec![7]] };
    assert_eq!(fraction_black(&other), Fraction { numerator: 0, denominator: 1 });
}

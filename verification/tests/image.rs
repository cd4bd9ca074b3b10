use mandelbrot::error::RenderError;
use mandelbrot::image::Image;

#[test]
fn new_image_has_the_sides_asked_for() {
    let image = Image::new(3, 2, 0).unwrap();
    assert_eq!(image.width(), 3);
    assert_eq!(image.height(), 2);
    assert_eq!(image.rows, vec![vec![0u32; 3]; 2]);
}

#[test]
fn new_image_is_filled_with_one_colour() {
    let image = Image::new(4, 5, 0xDE_AD_00).unwrap();
    for y in 0..5 {
        for x in 0..4 {
            assert_eq!(image.pixel(x, y), Some(0xDE_AD_00));
        }
    }
}

#[test]
fn image_without_width_is_refused() {
    assert_eq!(Image::new(0, 10, 0).err(), Some(RenderError::InvalidDimensions));
}

#[test]
fn image_without_height_is_refused() {
    assert_eq!(Image::new(10, 0, 0).err(), Some(RenderError::InvalidDimensions));
    assert_eq!(Image::new(0, 0, 0).err(), Some(RenderError::InvalidDimensions));
}

#[test]
fn image_with_more_pixels_than_can_be_counted_is_refused() {
    assert_eq!(Image::new(usize::MAX, 2, 0).err(), Some(RenderError::InvalidDimensions));
    assert_eq!(Image::new(2, usize::MAX, 0).err(), Some(RenderError::InvalidDimensions));
    assert_eq!(
        Image::new(usize::MAX / 2 + 1, 2, 0).err(),
        Some(RenderError::InvalidDimensions)
    );
}

#[test]
fn pixel_outside_the_raster_is_none() {
    let image = Image::new(3, 2, 9).unwrap();
    assert_eq!(image.pixel(2, 1), Some(9));
    assert_eq!(image.pixel(3, 1), None);
    assert_eq!(image.pixel(2, 2), None);
    assert_eq!(image.pixel(usize::MAX, 0), None);
    assert_eq!(image.pixel(0, usize::MAX), None);
}

#[test]
fn pixel_reads_column_then_row() {
    let image = Image { rows: vec![vec![1, 2, 3], vec![4, 5, 6]] };
    assert_eq!(image.pixel(0, 0), Some(1));
    assert_eq!(image.pixel(2, 0), Some(3));
    assert_eq!(image.pixel(0, 1), Some(4));
    assert_eq!(image.pixel(1, 1), Some(5));
}

#[test]
fn raster_from_new_is_well_formed() {
    assert!(Image::new(1, 1, 0).unwrap().is_well_formed());
    assert!(Image::new(7, 3, 5).unwrap().is_well_formed());
}

#[test]
fn ragged_or_empty_raster_is_not_well_formed() {
    assert!(!Image { rows: vec![] }.is_well_formed());
    assert!(!Image { rows: vec![vec![]] }.is_well_formed());
    assert!(!Image { rows: vec![vec![], vec![]] }.is_well_formed());
    assert!(!Image { rows: vec![vec![1, 2], vec![3]] }.is_well_formed());
    assert!(!Image { rows: vec![vec![1], vec![2, 3]] }.is_well_formed());
    assert!(!Image { rows: vec![vec![1, 2], vec![3, 4], vec![]] }.is_well_formed());
    assert!(Image { rows: vec![vec![1, 2], vec![3, 4]] }.is_well_formed());
}

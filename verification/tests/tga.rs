use mandelbrot::error::RenderError;
use mandelbrot::image::Image;
use mandelbrot::tga::encode_tga;

#[test]
fn header_of_a_1920_by_1200_raster() {
    let image = Image::new(1920, 1200, 0).unwrap();
    let bytes = encode_tga(&image).unwrap();
    assert_eq!(
        bytes[..18],
        [0, 0, 2, 0, 0, 0, 0, 0, 0, 0, 0, 0, 0x80, 0x07, 0xB0, 0x04, 24, 0]
    );
    assert_eq!(bytes.len(), 18 + 3 * 1920 * 1200);
}

#[test]
fn one_pixel_is_written_low_byte_first() {
    let image = Image { rows: vec![vec![0x01_02_03]] };
    let bytes = encode_tga(&image).unwrap();
    assert_eq!(
        bytes,
        vec![0, 0, 2, 0, 0, 0, 0, 0, 0, 0, 0, 0, 1, 0, 1, 0, 24, 0, 3, 2, 1]
    );
}

#[test]
fn pixels_are_written_in_row_order() {
    let image = Image { rows: vec![vec![0x00_00_01, 0x00_00_02], vec![0x00_00_03, 0x00_00_04]] };
    let bytes = encode_tga(&image).unwrap();
    assert_eq!(bytes[12..16], [2, 0, 2, 0]);
    assert_eq!(bytes[18..], [1, 0, 0, 2, 0, 0, 3, 0, 0, 4, 0, 0]);
}

#[test]
fn pixel_bytes_stand_where_the_layout_says() {
    let (width, height) = (5usize, 3usize);
    let mut image = Image::new(width, height, 0).unwrap();
    for y in 0..height {
        for x in 0..width {
            image.rows[y][x] = (0x10_00_00 * (y as u32 + 1)) | (0x01_00 * (x as u32 + 1)) | 0xEE;
        }
    }
    let bytes = encode_tga(&image).unwrap();
    for y in 0..height {
        for x in 0..width {
            let at = 18 + 3 * (y * width + x);
            assert_eq!(bytes[at], 0xEE);
            assert_eq!(bytes[at + 1], x as u8 + 1);
            assert_eq!(bytes[at + 2], 0x10 * (y as u8 + 1));
        }
    }
}

#[test]
fn bits_above_the_three_channels_are_not_written() {
    let image = Image { rows: vec![vec![0xFF_00_00_00]] };
    let bytes = encode_tga(&image).unwrap();
    assert_eq!(bytes[18..], [0, 0, 0]);
}

#[test]
fn largest_sides_fit_the_header() {
    let wide = Image::new(0xFFFF, 1, 0).unwrap();
    let bytes = encode_tga(&wide).unwrap();
    assert_eq!(bytes[12..16], [0xFF, 0xFF, 1, 0]);
    let tall = Image::new(1, 0xFFFF, 0).unwrap();
    let bytes = encode_tga(&tall).unwrap();
    assert_eq!(bytes[12..16], [1, 0, 0xFF, 0xFF]);
}

#[test]
fn side_beyond_two_bytes_is_refused() {
    let wide = Image::new(0x1_0000, 1, 0).unwrap();
    assert_eq!(encode_tga(&wide), Err(RenderError::InvalidDimensions));
    let tall = Image::new(1, 0x1_0000, 0).unwrap();
    assert_eq!(encode_tga(&tall), Err(RenderError::InvalidDimensions));
}

#[test]
fn raster_that_is_no_rectangle_is_not_encoded() {
    assert_eq!(encode_tga(&Image { rows: vec![] }), Err(RenderError::InvalidDimensions));
    assert_eq!(encode_tga(&Image { rows: vec![vec![]] }), Err(RenderError::InvalidDimensions));
    assert_eq!(
        encode_tga(&Image { rows: vec![vec![1, 2], vec![3]] }),
        Err(RenderError::InvalidDimensions)
    );
}

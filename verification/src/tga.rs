use crate::colour::{high_byte, low_byte, middle_byte};
use crate::colour::{spec_high_byte, spec_low_byte, spec_middle_byte};
use crate::error::RenderError;
use crate::image::Image;
use vstd::prelude::*;

verus! {

/// The largest width or height that the header's two-byte fields can hold.
pub const MAX_SIDE: usize = 0xFFFF;

/// The eighteen bytes that open an uncompressed true-colour Targa file of
/// `width` by `height` pixels: no image id, no colour map, image type 2, an
/// empty colour map specification, origin (0, 0), the two sides low byte
/// first, 24 bits per pixel, an empty descriptor.
pub open spec fn tga_header(width: nat, height: nat) -> Seq<u8> {
    seq![
        0u8, 0u8, 2u8,
        0u8, 0u8, 0u8, 0u8, 0u8,
        0u8, 0u8,
        0u8, 0u8,
        (width % 0x1_00) as u8, (width / 0x1_00) as u8,
        (height % 0x1_00) as u8, (height / 0x1_00) as u8,
        24u8,
        0u8,
    ]
}

/// The three bytes of one pixel as the raster stores them: the colour's low
/// byte first, its high byte last.
pub open spec fn pixel_bytes(colour: u32) -> Seq<u8> {
    seq![spec_low_byte(colour), spec_middle_byte(colour), spec_high_byte(colour)]
}

/// The bytes of one row: those of its pixels, from the left.
pub open spec fn row_bytes(row: Seq<u32>) -> Seq<u8>
    decreases row.len(),
{
    if row.len() == 0 {
        Seq::empty()
    } else {
        row_bytes(row.drop_last()) + pixel_bytes(row.last())
    }
}

/// The bytes of a raster: those of its rows, from the top.
pub open spec fn raster_bytes(rows: Seq<Seq<u32>>) -> Seq<u8>
    decreases rows.len(),
{
    if rows.len() == 0 {
        Seq::empty()
    } else {
        raster_bytes(rows.drop_last()) + row_bytes(rows.last())
    }
}

/// A whole Targa file: the header for the raster's sides, then its pixels.
pub open spec fn tga_file(rows: Seq<Seq<u32>>, width: nat, height: nat) -> Seq<u8> {
    tga_header(width, height) + raster_bytes(rows)
}

fn header_bytes(width: usize, height: usize) -> (bytes: Vec<u8>)
    requires
        width <= MAX_SIDE,
        height <= MAX_SIDE,
    ensures
        bytes@ == tga_header(width as nat, height as nat),
{
    let bytes: Vec<u8> = vec![
        0, 0, 2,
        0, 0, 0, 0, 0,
        0, 0,
        0, 0,
        (width % 0x1_00) as u8, (width / 0x1_00) as u8,
        (height % 0x1_00) as u8, (height / 0x1_00) as u8,
        24,
        0,
    ];
    bytes
}

/// The raster can be laid out as a Targa file: it is well formed and each
/// side fits in the header's two bytes.
pub open spec fn encodable(image: Image) -> bool {
    &&& image.wf()
    &&& image.spec_width() <= MAX_SIDE
    &&& image.spec_height() <= MAX_SIDE
}

/// Lays a raster out as an uncompressed 24-bit Targa file. Refused when the
/// raster is not `encodable`.
pub fn encode_tga(image: &Image) -> (r: Result<Vec<u8>, RenderError>)
    ensures
        match r {
            Ok(bytes) => {
                &&& encodable(*image)
                &&& bytes@ == tga_file(image@, image.spec_width(), image.spec_height())
            },
            Err(e) => {
                &&& e == RenderError::InvalidDimensions
                &&& !encodable(*image)
            },
        },
{
    if !image.is_well_formed() {
        return Err(RenderError::InvalidDimensions);
    }
    let width = image.width();
    let height = image.height();
    if width > MAX_SIDE || height > MAX_SIDE {
        return Err(RenderError::InvalidDimensions);
    }
    let mut bytes = header_bytes(width, height);
    let ghost header = bytes@;
    let mut y: usize = 0;
    while y < height
        invariant
            image.wf(),
            width == image.spec_width(),
            height == image.spec_height(),
            y <= height,
            bytes@ == header + raster_bytes(image@.take(y as int)),
        decreases height - y,
    {
        let row = &image.rows[y];
        let ghost done = bytes@;
        let mut x: usize = 0;
        while x < width
            invariant
                row.len() == width,
                x <= width,
                bytes@ == done + row_bytes(row@.take(x as int)),
            decreases width - x,
        {
            let colour = row[x];
            bytes.push(low_byte(colour));
            bytes.push(middle_byte(colour));
            bytes.push(high_byte(colour));
            assert(row@.take(x + 1).drop_last() =~= row@.take(x as int));
            x += 1;
        }
        assert(row@.take(width as int) =~= row@);
        assert(image@.take(y + 1).drop_last() =~= image@.take(y as int));
        y += 1;
    }
    assert(image@.take(height as int) =~= image@);
    Ok(bytes)
}

/// A row takes three bytes for each of its pixels.
pub proof fn row_bytes_len(row: Seq<u32>)
    ensures
        row_bytes(row).len() == 3 * row.len(),
    decreases row.len(),
{
    if row.len() > 0 {
        row_bytes_len(row.drop_last());
    }
}

/// Within a row the pixels follow each other from the left, each as its low,
/// middle and high byte.
pub proof fn row_bytes_layout(row: Seq<u32>, x: int)
    requires
        0 <= x < row.len(),
    ensures
        row_bytes(row).len() == 3 * row.len(),
        row_bytes(row)[3 * x] == spec_low_byte(row[x]),
        row_bytes(row)[3 * x + 1] == spec_middle_byte(row[x]),
        row_bytes(row)[3 * x + 2] == spec_high_byte(row[x]),
    decreases row.len(),
{
    row_bytes_len(row);
    row_bytes_len(row.drop_last());
    if x < row.len() - 1 {
        row_bytes_layout(row.drop_last(), x);
    }
}

/// A raster of rows of `width` pixels takes three bytes for each pixel.
pub proof fn raster_bytes_len(rows: Seq<Seq<u32>>, width: nat)
    requires
        forall|y: int| 0 <= y < rows.len() ==> (#[trigger] rows[y]).len() == width,
    ensures
        raster_bytes(rows).len() == 3 * (width * rows.len()),
    decreases rows.len(),
{
    if rows.len() > 0 {
        raster_bytes_len(rows.drop_last(), width);
        row_bytes_len(rows.last());
        assert(width * (rows.len() - 1) + width == width * rows.len()) by (nonlinear_arith);
    } else {
    }
}

/// In a file the pixels stand in row order behind the header: the three
/// bytes of the pixel in column `x` of row `y` start `3 * (y * width + x)`
/// bytes into the raster.
pub proof fn raster_bytes_layout(rows: Seq<Seq<u32>>, width: nat, x: int, y: int)
    requires
        forall|i: int| 0 <= i < rows.len() ==> (#[trigger] rows[i]).len() == width,
        0 <= y < rows.len(),
        0 <= x < width,
    ensures
        raster_bytes(rows).len() == 3 * (width * rows.len()),
        3 * (y * width + x) + 2 < raster_bytes(rows).len(),
        raster_bytes(rows)[3 * (y * width + x)] == spec_low_byte(rows[y][x]),
        raster_bytes(rows)[3 * (y * width + x) + 1] == spec_middle_byte(rows[y][x]),
        raster_bytes(rows)[3 * (y * width + x) + 2] == spec_high_byte(rows[y][x]),
    decreases rows.len(),
{
    let above = rows.drop_last();
    raster_bytes_len(rows, width);
    raster_bytes_len(above, width);
    assert(y * width + x < width * rows.len()) by (nonlinear_arith)
        requires
            0 <= y < rows.len(),
            0 <= x < width,
    ;
    if y < rows.len() - 1 {
        raster_bytes_layout(above, width, x, y);
    } else {
        row_bytes_layout(rows.last(), x);
        assert(y * width == width * (rows.len() - 1)) by (nonlinear_arith)
            requires
                y == rows.len() - 1,
        ;
    }
}

} // verus!

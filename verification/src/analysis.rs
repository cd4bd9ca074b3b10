use crate::colour::BLACK;
use crate::image::Image;
use vstd::prelude::*;

verus! {

/// A share of a whole, as two counts.
#[derive(Clone, Copy, Debug, PartialEq, Eq, Structural)]
pub struct Fraction {
    pub numerator: usize,
    pub denominator: usize,
}

/// Number of black pixels in a row.
pub open spec fn black_in_row(row: Seq<u32>) -> nat
    decreases row.len(),
{
    if row.len() == 0 {
        0
    } else {
        black_in_row(row.drop_last()) + if row.last() == BLACK {
            1nat
        } else {
            0nat
        }
    }
}

/// Number of black pixels in a raster.
pub open spec fn black_pixels(rows: Seq<Seq<u32>>) -> nat
    decreases rows.len(),
{
    if rows.len() == 0 {
        0
    } else {
        black_pixels(rows.drop_last()) + black_in_row(rows.last())
    }
}

/// The share of the raster that is black: the number of pixels equal to
/// `BLACK` over the number of pixels.
pub fn fraction_black(image: &Image) -> (f: Fraction)
    requires
        image.wf(),
    ensures
        f.numerator == black_pixels(image@),
        f.denominator == image.spec_width() * image.spec_height(),
        f.numerator <= f.denominator,
        f.denominator > 0,
{
    let width = image.width();
    let height = image.height();
    let mut count: usize = 0;
    let mut y: usize = 0;
    assert(width * height >= width) by (nonlinear_arith)
        requires
            height >= 1,
            width >= 1,
    ;
    while y < height
        invariant
            image.wf(),
            width == image.spec_width(),
            height == image.spec_height(),
            y <= height,
            count == black_pixels(image@.take(y as int)),
            count <= width * y,
        decreases height - y,
    {
        let row = &image.rows[y];
        let ghost above = count;
        let mut x: usize = 0;
        assert(width * y + width == width * (y + 1) && width * (y + 1) <= width * height)
            by (nonlinear_arith)
            requires
                y < height,
        ;
        while x < width
            invariant
                row.len() == width,
                x <= width,
                count == above + black_in_row(row@.take(x as int)),
                count <= above + x,
                above + width <= usize::MAX,
            decreases width - x,
        {
            assert(row@.take(x + 1).drop_last() =~= row@.take(x as int));
            if row[x] == BLACK {
                count += 1;
            }
            x += 1;
        }
        assert(row@.take(width as int) =~= row@);
        assert(image@.take(y + 1).drop_last() =~= image@.take(y as int));
        y += 1;
    }
    assert(image@.take(height as int) =~= image@);
    Fraction { numerator: count, denominator: width * height }
}

} // verus!

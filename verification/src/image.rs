use crate::error::RenderError;
use vstd::prelude::*;

verus! {

/// A dense raster of packed colours, stored row by row from the top.
pub struct Image {
    pub rows: Vec<Vec<u32>>,
}

impl View for Image {
    type V = Seq<Seq<u32>>;

    /// The raster as a sequence of rows; `self@[y][x]` is the pixel in column
    /// `x` of row `y`.
    open spec fn view(&self) -> Seq<Seq<u32>> {
        Seq::new(self.rows.len() as nat, |y: int| self.rows[y]@)
    }
}

/// A row of `width` pixels, all of one colour.
pub open spec fn uniform_row(width: nat, colour: u32) -> Seq<u32> {
    Seq::new(width, |x: int| colour)
}

/// A raster of `height` rows of `width` pixels, all of one colour.
pub open spec fn uniform_grid(width: nat, height: nat, colour: u32) -> Seq<Seq<u32>> {
    Seq::new(height, |y: int| uniform_row(width, colour))
}

fn filled_row(width: usize, colour: u32) -> (row: Vec<u32>)
    ensures
        row@ == uniform_row(width as nat, colour),
{
    let mut row: Vec<u32> = Vec::new();
    let mut x: usize = 0;
    while x < width
        invariant
            x <= width,
            row@ == uniform_row(x as nat, colour),
        decreases width - x,
    {
        row.push(colour);
        x += 1;
    }
    row
}

impl Image {
    /// Number of rows.
    pub open spec fn spec_height(&self) -> nat {
        self.rows.len() as nat
    }

    /// Number of pixels in each row (that of the first row; `wf` makes all
    /// rows agree).
    pub open spec fn spec_width(&self) -> nat {
        if self.rows.len() > 0 {
            self.rows[0].len() as nat
        } else {
            0
        }
    }

    /// The raster is a non-empty rectangle whose pixel count fits in `usize`.
    pub open spec fn wf(&self) -> bool {
        &&& self.spec_height() > 0
        &&& self.spec_width() > 0
        &&& forall|y: int|
            0 <= y < self.rows.len() ==> (#[trigger] self.rows[y]).len() == self.spec_width()
        &&& self.spec_width() * self.spec_height() <= usize::MAX
    }

    /// Allocates a raster of `width` by `height` pixels, every one of them
    /// `fill`. Refused, before anything is allocated, when a dimension is zero
    /// or the pixel count does not fit in `usize`.
    pub fn new(width: usize, height: usize, fill: u32) -> (r: Result<Image, RenderError>)
        ensures
            match r {
                Ok(image) => {
                    &&& width > 0
                    &&& height > 0
                    &&& width * height <= usize::MAX
                    &&& image.wf()
                    &&& image.spec_width() == width
                    &&& image.spec_height() == height
                    &&& image@ == uniform_grid(width as nat, height as nat, fill)
                },
                Err(e) => {
                    &&& e == RenderError::InvalidDimensions
                    &&& (width == 0 || height == 0 || width * height > usize::MAX)
                },
            },
    {
        if width == 0 || height == 0 {
            return Err(RenderError::InvalidDimensions);
        }
        if width.checked_mul(height).is_none() {
            return Err(RenderError::InvalidDimensions);
        }
        let mut rows: Vec<Vec<u32>> = Vec::new();
        let mut y: usize = 0;
        while y < height
            invariant
                y <= height,
                rows.len() == y,
                forall|i: int| 0 <= i < y ==> (#[trigger] rows[i])@ == uniform_row(width as nat, fill),
            decreases height - y,
        {
            let row = filled_row(width, fill);
            rows.push(row);
            y += 1;
        }
        Ok(Image { rows })
    }

    /// Tells whether the raster is well formed. A raster from `new` always
    /// is; one put together by hand is checked with this.
    pub fn is_well_formed(&self) -> (ok: bool)
        ensures
            ok == self.wf(),
    {
        let height = self.rows.len();
        if height == 0 {
            return false;
        }
        let width = self.rows[0].len();
        if width == 0 || width.checked_mul(height).is_none() {
            return false;
        }
        let mut y: usize = 0;
        while y < height
            invariant
                y <= height,
                height == self.rows.len(),
                width == self.spec_width(),
                forall|i: int| 0 <= i < y ==> (#[trigger] self.rows[i]).len() == width,
            decreases height - y,
        {
            if self.rows[y].len() != width {
                return false;
            }
            y += 1;
        }
        true
    }

    /// Number of pixels in each row.
    pub fn width(&self) -> (w: usize)
        requires
            self.wf(),
        ensures
            w == self.spec_width(),
            w > 0,
    {
        self.rows[0].len()
    }

    /// Number of rows.
    pub fn height(&self) -> (h: usize)
        ensures
            h == self.spec_height(),
    {
        self.rows.len()
    }

    /// The pixel in column `x` of row `y`, if the raster has one there.
    pub fn pixel(&self, x: usize, y: usize) -> (p: Option<u32>)
        ensures
            p == if y < self.rows.len() && x < self.rows[y as int].len() {
                Some(self@[y as int][x as int])
            } else {
                None
            },
    {
        if y < self.rows.len() {
            let row = &self.rows[y];
            if x < row.len() {
                return Some(row[x]);
            }
        }
        None
    }
}

} // verus!

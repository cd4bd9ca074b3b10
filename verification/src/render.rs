use crate::colour::BLACK;
use crate::error::RenderError;
use crate::escape::EscapeResult;
use crate::image::{uniform_grid, Image};
use crate::palette::{shade, shaded};
use crate::window::Window;
use rayon::iter::IndexedParallelIterator;
use rayon::iter::IntoParallelRefMutIterator;
use rayon::iter::ParallelIterator;
use vstd::prelude::*;

verus! {

/// What the evaluator is told about one pixel: the viewport, the sides of the
/// raster, the pixel's column and row, and the iteration cap.
#[derive(Clone, Copy, Debug, PartialEq, Eq, Structural)]
pub struct Sample {
    pub window: Window,
    pub width: usize,
    pub height: usize,
    pub x: usize,
    pub y: usize,
    pub cap: usize,
}

/// The sample for the pixel in column `x` of row `y`.
pub open spec fn sample_at(
    window: Window,
    width: usize,
    height: usize,
    x: usize,
    y: usize,
    cap: usize,
) -> Sample {
    Sample { window, width, height, x, y, cap }
}

/// `colour` is a colour that pixel `sample` may get. Under a cap of zero that
/// is black, and the evaluator is not asked. Otherwise it is the shade of a
/// result that the evaluator may return for the sample.
pub open spec fn pixel_rendered<E: Fn(Sample) -> EscapeResult, P: Fn(usize, usize) -> u32>(
    colour: u32,
    sample: Sample,
    evaluate: E,
    palette: P,
) -> bool {
    if sample.cap == 0 {
        colour == BLACK
    } else {
        exists|result: EscapeResult| #[trigger]
            call_ensures(evaluate, (sample,), result) && shaded(
                colour,
                result,
                sample.cap,
                palette,
            )
    }
}

/// The evaluator and the palette can be called for every pixel of row `y`.
pub open spec fn row_ready<E: Fn(Sample) -> EscapeResult, P: Fn(usize, usize) -> u32>(
    width: usize,
    window: Window,
    height: usize,
    y: usize,
    cap: usize,
    evaluate: E,
    palette: P,
) -> bool {
    &&& forall|x: usize|
        cap > 0 && x < width ==> call_requires(
            evaluate,
            (#[trigger] sample_at(window, width, height, x, y, cap),),
        )
    &&& forall|k: usize| k < cap ==> call_requires(palette, (k, cap))
}

/// Every pixel of `row`, taken as row `y` of the raster, holds a colour that
/// it may get.
pub open spec fn row_rendered<E: Fn(Sample) -> EscapeResult, P: Fn(usize, usize) -> u32>(
    row: Seq<u32>,
    window: Window,
    height: usize,
    y: usize,
    cap: usize,
    evaluate: E,
    palette: P,
) -> bool {
    forall|x: usize|
        x < row.len() ==> pixel_rendered(
            #[trigger] row[x as int],
            sample_at(window, row.len() as usize, height, x, y, cap),
            evaluate,
            palette,
        )
}

/// Fills one row from the left: asks the evaluator about each pixel and
/// stores the shade of what it answers.
pub fn render_row<E: Fn(Sample) -> EscapeResult, P: Fn(usize, usize) -> u32>(
    row: &mut Vec<u32>,
    window: Window,
    height: usize,
    y: usize,
    cap: usize,
    evaluate: &E,
    palette: &P,
)
    requires
        row_ready(old(row).len(), window, height, y, cap, *evaluate, *palette),
    ensures
        final(row).len() == old(row).len(),
        row_rendered(final(row)@, window, height, y, cap, *evaluate, *palette),
{
    let width = row.len();
    let mut x: usize = 0;
    while x < width
        invariant
            x <= width,
            row.len() == width,
            row_ready(width, window, height, y, cap, *evaluate, *palette),
            forall|i: usize|
                i < x ==> pixel_rendered(
                    #[trigger] row[i as int],
                    sample_at(window, width, height, i, y, cap),
                    *evaluate,
                    *palette,
                ),
        decreases width - x,
    {
        let colour = if cap == 0 {
            BLACK
        } else {
            let sample = Sample { window, width, height, x, y, cap };
            assert(sample == sample_at(window, width, height, x, y, cap));
            let result = evaluate(sample);
            shade(result, cap, palette)
        };
        row[x] = colour;
        x += 1;
    }
}

/// Runs `render_row` on every row of the raster, each with its own index, on
/// rayon's thread pool: `par_iter_mut` hands out the rows, `enumerate` pairs
/// each with its index, and `for_each` runs the closure once on every pair
/// and returns when all are done. What is taken on trust is that much: after
/// the call each row is in a state that `render_row` leaves it in.
#[verifier::external_body]
fn render_rows_in_parallel<E, P>(
    rows: &mut Vec<Vec<u32>>,
    window: Window,
    height: usize,
    cap: usize,
    evaluate: &E,
    palette: &P,
) where E: Fn(Sample) -> EscapeResult + Sync, P: Fn(usize, usize) -> u32 + Sync
    requires
        forall|y: usize|
            y < old(rows).len() ==> row_ready(
                (#[trigger] old(rows)[y as int]).len(),
                window,
                height,
                y,
                cap,
                *evaluate,
                *palette,
            ),
    ensures
        final(rows).len() == old(rows).len(),
        forall|y: usize|
            y < old(rows).len() ==> (#[trigger] final(rows)[y as int]).len() == old(rows)[y as int].len()
                && row_rendered(final(rows)[y as int]@, window, height, y, cap, *evaluate, *palette),
{
    rows.par_iter_mut().enumerate().for_each(
        |(y, row)| render_row(row, window, height, y, cap, evaluate, palette),
    );
}

/// `image` is a finished render of `width` by `height` pixels: every pixel
/// holds a colour that it may get from the evaluator and the palette.
pub open spec fn rendered<E: Fn(Sample) -> EscapeResult, P: Fn(usize, usize) -> u32>(
    image: Image,
    width: usize,
    height: usize,
    window: Window,
    cap: usize,
    evaluate: E,
    palette: P,
) -> bool {
    &&& image.wf()
    &&& image.spec_width() == width
    &&& image.spec_height() == height
    &&& forall|x: usize, y: usize|
        x < width && y < height ==> pixel_rendered(
            #[trigger] image@[y as int][x as int],
            sample_at(window, width, height, x, y, cap),
            evaluate,
            palette,
        )
}

/// Whether a render of `window` into `image` is accepted: a viewport that
/// is not `valid` is refused first, then a raster that is not well formed.
pub open spec fn render_outcome(window: Window, image: Image) -> Result<(), RenderError> {
    if !window.valid() {
        Err(RenderError::InvalidViewport)
    } else if !image.wf() {
        Err(RenderError::InvalidDimensions)
    } else {
        Ok(())
    }
}

/// Renders the viewport into every pixel of `output`, row by row in parallel.
///
/// A refused render leaves the raster as it was. An accepted one overwrites
/// every pixel: the evaluator is asked about its sample, and the palette
/// about the escape index, if there is one. Under a cap of zero the raster
/// comes out black and neither is asked.
pub fn render_mandelbrot<E, P>(
    window: Window,
    output: &mut Image,
    cap: usize,
    evaluate: E,
    palette: P,
) -> (r: Result<(), RenderError>) where
    E: Fn(Sample) -> EscapeResult + Sync,
    P: Fn(usize, usize) -> u32 + Sync,

    requires
        forall|x: usize, y: usize|
            render_outcome(window, *old(output)) is Ok && cap > 0 && x < old(output).spec_width()
                && y < old(output).spec_height() ==> call_requires(
                evaluate,
                (
                    #[trigger] sample_at(
                        window,
                        old(output).spec_width() as usize,
                        old(output).spec_height() as usize,
                        x,
                        y,
                        cap,
                    ),
                ),
            ),
        forall|k: usize|
            render_outcome(window, *old(output)) is Ok && k < cap ==> call_requires(
                palette,
                (k, cap),
            ),
    ensures
        r == render_outcome(window, *old(output)),
        r is Err ==> *final(output) == *old(output),
        r is Ok ==> rendered(
            *final(output),
            old(output).spec_width() as usize,
            old(output).spec_height() as usize,
            window,
            cap,
            evaluate,
            palette,
        ),
        r is Ok && cap == 0 ==> final(output)@ == uniform_grid(
            old(output).spec_width(),
            old(output).spec_height(),
            BLACK,
        ),
{
    match window.validate() {
        Err(e) => {
            return Err(e);
        },
        Ok(()) => {},
    }
    if !output.is_well_formed() {
        return Err(RenderError::InvalidDimensions);
    }
    let height = output.height();
    proof {
        let width = output.spec_width() as usize;
        assert forall|y: usize| y < output.rows.len() implies row_ready(
            (#[trigger] output.rows[y as int]).len(),
            window,
            height,
            y,
            cap,
            evaluate,
            palette,
        ) by {
            assert forall|x: usize| cap > 0 && x < width implies call_requires(
                evaluate,
                (#[trigger] sample_at(window, width, height, x, y, cap),),
            ) by {
                assert(height == old(output).spec_height() as usize);
            }
        }
    }
    render_rows_in_parallel(&mut output.rows, window, height, cap, &evaluate, &palette);
    proof {
        if cap == 0 {
            render_under_cap_zero_is_black(
                *output,
                old(output).spec_width() as usize,
                height,
                window,
                evaluate,
                palette,
            );
        }
    }
    Ok(())
}

/// The evaluator gives one result for each sample.
pub open spec fn evaluator_is_a_function<E: Fn(Sample) -> EscapeResult>(evaluate: E) -> bool {
    forall|sample: Sample, a: EscapeResult, b: EscapeResult|
        #[trigger] call_ensures(evaluate, (sample,), a) && #[trigger] call_ensures(
            evaluate,
            (sample,),
            b,
        ) ==> a == b
}

/// The palette gives one colour for each escape index and cap.
pub open spec fn palette_is_a_function<P: Fn(usize, usize) -> u32>(palette: P) -> bool {
    forall|k: usize, cap: usize, a: u32, b: u32|
        #[trigger] call_ensures(palette, (k, cap), a) && #[trigger] call_ensures(
            palette,
            (k, cap),
            b,
        ) ==> a == b
}

/// Rendering is repeatable: with an evaluator and a palette that each give
/// one answer per question, two finished renders of the same viewport, sides
/// and cap are equal pixel for pixel, whatever the rasters held before.
pub proof fn render_is_deterministic<E: Fn(Sample) -> EscapeResult, P: Fn(usize, usize) -> u32>(
    first: Image,
    second: Image,
    width: usize,
    height: usize,
    window: Window,
    cap: usize,
    evaluate: E,
    palette: P,
)
    requires
        rendered(first, width, height, window, cap, evaluate, palette),
        rendered(second, width, height, window, cap, evaluate, palette),
        evaluator_is_a_function(evaluate),
        palette_is_a_function(palette),
    ensures
        first@ == second@,
{
    assert forall|y: int| 0 <= y < height implies first@[y] =~= second@[y] by {
        assert forall|x: int| 0 <= x < width implies first@[y][x] == second@[y][x] by {
            let sample = sample_at(window, width, height, x as usize, y as usize, cap);
            assert(pixel_rendered(
                first@[y as usize as int][x as usize as int],
                sample,
                evaluate,
                palette,
            ));
            assert(pixel_rendered(
                second@[y as usize as int][x as usize as int],
                sample,
                evaluate,
                palette,
            ));
        }
    }
}

/// Under a cap of zero a finished render is black all over, whatever the
/// viewport, the evaluator and the palette.
pub proof fn render_under_cap_zero_is_black<
    E: Fn(Sample) -> EscapeResult,
    P: Fn(usize, usize) -> u32,
>(image: Image, width: usize, height: usize, window: Window, evaluate: E, palette: P)
    requires
        rendered(image, width, height, window, 0, evaluate, palette),
    ensures
        image@ == uniform_grid(width as nat, height as nat, BLACK),
{
    assert(image@ =~~= uniform_grid(width as nat, height as nat, BLACK));
}

/// A pixel for which the evaluator can only answer `Bounded` is black in a
/// finished render, under every palette.
pub proof fn bounded_pixel_is_black<E: Fn(Sample) -> EscapeResult, P: Fn(usize, usize) -> u32>(
    colour: u32,
    sample: Sample,
    evaluate: E,
    palette: P,
)
    requires
        pixel_rendered(colour, sample, evaluate, palette),
        forall|result: EscapeResult| #[trigger]
            call_ensures(evaluate, (sample,), result) ==> result is Bounded,
    ensures
        colour == BLACK,
{
}

} // verus!

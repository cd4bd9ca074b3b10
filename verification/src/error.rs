use vstd::prelude::*;

verus! {

/// Why a request was refused before any pixel was touched.
#[derive(Clone, Copy, Debug, PartialEq, Eq, Structural)]
pub enum RenderError {
    /// The viewport has a bound that is not finite, its left bound is not
    /// below its right bound, or its two vertical bounds coincide.
    InvalidViewport,
    /// A dimension is zero, the rows of the raster differ in length, or the
    /// dimensions are beyond what the operation can address.
    InvalidDimensions,
}

} // verus!

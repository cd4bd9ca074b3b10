//! Escape-time rendering of the Mandelbrot set, with every rule that does not
//! need floating point stated and proved.
//!
//! The arithmetic on complex numbers is the caller's: one step of the
//! recurrence, the test against the disc, and the point that a pixel stands
//! for reach the library as closures. What happens around them is decided
//! here: how long an orbit is followed and what its escape time is
//! (`escape`), which viewports and rasters are accepted (`window`, `image`),
//! how an escape time becomes a colour (`palette`, `colour`), which sample
//! every pixel is asked about and how the rows are filled (`render`), how
//! the finished raster is counted (`analysis`) and laid out as Targa bytes
//! (`tga`).

pub mod analysis;
pub mod colour;
pub mod error;
pub mod escape;
pub mod image;
pub mod palette;
pub mod render;
pub mod tga;
pub mod window;

//! Pixel crop rectangles. The point-space crop and scale arithmetic is
//! floating point and lives with the capture shell; what the verified
//! pipeline consumes is the integer pixel crop it produces.

use vstd::prelude::*;

verus! {

/// A pixel crop rectangle local to one display's captured frame.
#[derive(Debug, Clone, Copy, PartialEq, Eq, Structural)]
pub struct CropPx {
    pub x: u32,
    pub y: u32,
    pub w: u32,
    pub h: u32,
}

} // verus!

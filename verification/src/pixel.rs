//! Pixel geometry: the sizes a plane's pixel backing reports.

use vstd::prelude::*;

use crate::types::NcDim;

verus! {

/// The pixel geometry of a plane: display, cell and maximum-bitmap sizes in
/// pixels. When bitmaps are unsupported, the bitmap fields are 0.
#[derive(Clone, Copy, Debug, PartialEq, Eq, Structural)]
pub struct NcPixelGeometry {
    /// The height in pixels of the display region.
    pub term_y: NcDim,
    /// The width in pixels of the display region.
    pub term_x: NcDim,
    /// The height in pixels of a single cell.
    pub cell_y: NcDim,
    /// The width in pixels of a single cell.
    pub cell_x: NcDim,
    /// The height in pixels of the largest displayable bitmap.
    pub max_bitmap_y: NcDim,
    /// The width in pixels of the largest displayable bitmap.
    pub max_bitmap_x: NcDim,
}

} // verus!

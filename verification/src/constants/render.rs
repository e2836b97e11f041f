use vstd::prelude::*;

verus! {

/// Side of a grid cell and of the tile that fills it, in pixels.
pub const CELL_SIZE: u32 = 16;

/// Gap between two grid cells, in pixels.
pub const CELL_SPACING: u32 = 1;

/// Space left and right of the grid, in pixels.
pub const GRID_LEFT_PADDING: u32 = 6;

/// Space above the grid, in pixels: the grid lies below the field.
pub const GRID_TOP_PADDING: u32 = 340;

/// Height of the image, in pixels.
pub const FARM_HEIGHT: u32 = 465;

/// Class of the rectangles that tint a flower.
pub const MASK_CLASS: &'static str = "mask";

} // verus!

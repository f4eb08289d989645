//! The size of a terminal's display area.
use vstd::prelude::*;

verus! {

/// Rows of every pseudo-terminal when it is opened.
pub const INITIAL_ROWS: u16 = 24;

/// Columns of every pseudo-terminal when it is opened.
pub const INITIAL_COLS: u16 = 80;

/// Size of a terminal: text cells, and the size of one cell in pixels.
#[derive(Clone, Copy, Debug, PartialEq, Eq, Structural)]
pub struct Geometry {
    /// Number of lines of text.
    pub rows: u16,
    /// Number of columns of text.
    pub cols: u16,
    /// Width of a cell in pixels; 0 where unused.
    pub pixel_width: u16,
    /// Height of a cell in pixels; 0 where unused.
    pub pixel_height: u16,
}

impl Geometry {
    /// The geometry of `rows` by `cols` cells, with both pixel sizes at 0.
    pub open spec fn cells(rows: u16, cols: u16) -> Geometry {
        Geometry { rows, cols, pixel_width: 0, pixel_height: 0 }
    }

    /// A geometry given in cells alone. Sessions never use the pixel sizes.
    pub fn of_cells(rows: u16, cols: u16) -> (geometry: Geometry)
        ensures
            geometry == Geometry::cells(rows, cols),
    {
        Geometry { rows, cols, pixel_width: 0, pixel_height: 0 }
    }

    /// The geometry that a pseudo-terminal is opened with.
    pub fn initial() -> (geometry: Geometry)
        ensures
            geometry == Geometry::cells(INITIAL_ROWS, INITIAL_COLS),
            geometry.rows == 24,
            geometry.cols == 80,
    {
        Geometry::of_cells(INITIAL_ROWS, INITIAL_COLS)
    }
}

} // verus!

//! The screen plane. Pixel (`row`, `col`) of a `rows` by `cols` image lies
//! at x = (2·col − cols) / cols and y = (2·row − rows) / rows, each in
//! [-1, 1), kept as exact fractions.

use vstd::prelude::*;

verus! {

/// Largest image side that maps to the screen plane: coordinates up to
/// here are exact in an `f32`.
pub const MAX_SIDE: usize = 0x100_0000;

/// Bound on the numerators and denominators of a `DevicePoint`.
pub const NUM_LIMIT: i64 = 0x200_0000;

/// A point of the screen plane with rational coordinates
/// x = `x_num` / `x_den` and y = `y_num` / `y_den`.
#[derive(Debug, Clone, Copy, PartialEq, Eq, Structural)]
pub struct DevicePoint {
    pub x_num: i64,
    pub x_den: i64,
    pub y_num: i64,
    pub y_den: i64,
}

impl DevicePoint {
    /// Positive denominators, and every part within `NUM_LIMIT`.
    pub open spec fn wf(&self) -> bool {
        &&& 0 < self.x_den <= NUM_LIMIT
        &&& 0 < self.y_den <= NUM_LIMIT
        &&& -NUM_LIMIT <= self.x_num <= NUM_LIMIT
        &&& -NUM_LIMIT <= self.y_num <= NUM_LIMIT
    }
}

/// The screen point of pixel (`row`, `col`) of a `rows` by `cols` image.
pub open spec fn pixel_point(row: nat, col: nat, rows: nat, cols: nat) -> DevicePoint {
    DevicePoint {
        x_num: (2 * col - cols) as i64,
        x_den: cols as i64,
        y_num: (2 * row - rows) as i64,
        y_den: rows as i64,
    }
}

/// The screen point of pixel (`row`, `col`) of a `rows` by `cols` image.
pub fn pixel_to_device(row: usize, col: usize, rows: usize, cols: usize) -> (r: DevicePoint)
    requires
        row < rows <= MAX_SIDE,
        col < cols <= MAX_SIDE,
    ensures
        r == pixel_point(row as nat, col as nat, rows as nat, cols as nat),
        r.wf(),
{
    DevicePoint {
        x_num: 2 * (col as i64) - (cols as i64),
        x_den: cols as i64,
        y_num: 2 * (row as i64) - (rows as i64),
        y_den: rows as i64,
    }
}

} // verus!

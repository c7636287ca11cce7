//! Fixed-point lengths, points and boxes.

use vstd::prelude::*;

verus! {

/// Number of counts in one drawing unit.
pub const ONE: i64 = 10_000;

/// Largest magnitude of a coordinate or length of a drawable primitive.
pub const ITEM_LIMIT: i64 = 0x100_0000_0000;

/// Whether `v` is a length or coordinate a drawable primitive may carry.
pub open spec fn item_range(v: int) -> bool {
    -ITEM_LIMIT <= v <= ITEM_LIMIT
}

/// A position, or a displacement, in counts.
#[derive(Clone, Copy, Debug, PartialEq, Eq, Structural)]
pub struct Point {
    pub x: i64,
    pub y: i64,
}

impl Point {
    /// Both coordinates are such as a drawable primitive may carry.
    pub open spec fn in_item_range(self) -> bool {
        item_range(self.x as int) && item_range(self.y as int)
    }

    /// The point with the given coordinates.
    pub fn new(x: i64, y: i64) -> (p: Point)
        ensures
            p == (Point { x, y }),
    {
        Point { x, y }
    }
}

} // verus!

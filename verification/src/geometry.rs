//! Positions in the plane of the layout, in millionths of a layout unit.

use vstd::prelude::*;

verus! {

/// The largest magnitude of a coordinate of a reference point: one thousand
/// layout units.
pub const FIELD: i32 = 1_000_000_000;

/// A position, each coordinate in millionths of a layout unit.
#[derive(Clone, Copy, Debug, PartialEq, Eq, Structural)]
pub struct Point {
    pub x: i32,
    pub y: i32,
}

impl Point {
    pub fn new(x: i32, y: i32) -> (p: Point)
        ensures
            p == (Point { x, y }),
    {
        Point { x, y }
    }

    /// Whether both coordinates lie within [`FIELD`] of the origin.
    pub open spec fn in_field(self) -> bool {
        -FIELD <= self.x <= FIELD && -FIELD <= self.y <= FIELD
    }

    /// Executable form of [`Point::in_field`].
    pub fn is_in_field(&self) -> (b: bool)
        ensures
            b == self.in_field(),
    {
        -FIELD <= self.x && self.x <= FIELD && -FIELD <= self.y && self.y <= FIELD
    }

    /// The squared length of `(dx, dy)`, in squared millionths.
    pub open spec fn squared_length(dx: int, dy: int) -> int {
        dx * dx + dy * dy
    }

    /// The offset from `origin` to this point.
    pub fn offset_from(&self, origin: &Point) -> (d: (i64, i64))
        ensures
            d.0 == self.x - origin.x,
            d.1 == self.y - origin.y,
    {
        (self.x as i64 - origin.x as i64, self.y as i64 - origin.y as i64)
    }
}

} // verus!

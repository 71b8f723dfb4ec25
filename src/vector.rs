use vstd::prelude::*;

verus! {

/// A point or a velocity on the playfield.
///
/// Positions are kept in thousandths of a pixel and velocities in whole
/// pixels per second, so that the motion over a whole number of milliseconds
/// is an exact integer.
#[derive(Clone, Copy, PartialEq, Eq, Structural, Debug)]
pub struct Vector2 {
    pub x: i64,
    pub y: i64,
}

impl Vector2 {
    pub fn new(x: i64, y: i64) -> (r: Vector2)
        ensures
            r.x == x,
            r.y == y,
    {
        Vector2 { x, y }
    }
}

} // verus!

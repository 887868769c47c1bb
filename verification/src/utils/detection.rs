use vstd::prelude::*;

use crate::utils::fraction::Fraction;

verus! {

/// Represents a single point, in pixel coordinates.
#[derive(Debug, Clone, Copy, PartialEq, Eq, Structural)]
pub struct Point {
    pub x: u32,
    pub y: u32,
}

/// Represents a rectangular area, by its top-left and bottom-right corners.
///
/// No ordering between the two corners is enforced: the corners are stored
/// exactly as computed from the detector's output.
#[derive(Debug, Clone, Copy, PartialEq, Eq, Structural)]
pub struct Rectangle {
    /// Top left point.
    pub lt: Point,
    /// Bottom right point.
    pub rb: Point,
}

/// Represents a detected object: its location and its confidence score.
#[derive(Debug, Clone, Copy, PartialEq, Eq, Structural)]
pub struct DetectionBox {
    /// The location of the box.
    pub rect: Rectangle,
    /// The score for this box, exactly as the detector reported it.
    pub score: Fraction,
}

impl Point {
    /// Creates a new `Point`.
    pub fn new(x: u32, y: u32) -> (p: Point)
        ensures
            p.x == x,
            p.y == y,
    {
        Point { x, y }
    }
}

impl Rectangle {
    /// Creates a new `Rectangle`.
    pub fn new(lt: Point, rb: Point) -> (r: Rectangle)
        ensures
            r.lt == lt,
            r.rb == rb,
    {
        Rectangle { lt, rb }
    }
}

impl DetectionBox {
    /// Creates a new `DetectionBox`.
    pub fn new(rect: Rectangle, score: Fraction) -> (b: DetectionBox)
        ensures
            b.rect == rect,
            b.score == score,
    {
        DetectionBox { rect, score }
    }
}

} // verus!

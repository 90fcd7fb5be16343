//! Axis-aligned rectangles in device pixels, and point membership tests.

use vstd::prelude::*;

verus! {

/// A rectangle given by its origin and size, in device pixels.
///
/// Coordinates are whole device pixels; a point on the right or bottom edge
/// lies outside (half-open on both axes).
#[derive(Clone, Copy, PartialEq, Eq, Structural, Debug)]
pub struct Rect {
    pub x: i32,
    pub y: i32,
    pub width: i32,
    pub height: i32,
}

impl Rect {
    pub open spec fn spec_contains(self, px: int, py: int) -> bool {
        &&& self.x <= px < self.x + self.width
        &&& self.y <= py < self.y + self.height
    }

    pub fn contains(&self, px: i32, py: i32) -> (r: bool)
        ensures
            r == self.spec_contains(px as int, py as int),
    {
        px as i64 >= self.x as i64 && (px as i64) - (self.x as i64) < self.width as i64
            && py as i64 >= self.y as i64 && (py as i64) - (self.y as i64) < self.height as i64
    }
}

/// Whether the point lies in at least one of the rectangles.
pub open spec fn in_any(regions: Seq<Rect>, px: int, py: int) -> bool {
    exists|i: int| 0 <= i < regions.len() && regions[i].spec_contains(px, py)
}

pub fn hit_any(regions: &Vec<Rect>, px: i32, py: i32) -> (r: bool)
    ensures
        r == in_any(regions@, px as int, py as int),
{
    let n = regions.len();
    let mut i: usize = 0;
    while i < n
        invariant
            n == regions@.len(),
            i <= n,
            forall|j: int| 0 <= j < i ==> !regions@[j].spec_contains(px as int, py as int),
        decreases n - i,
    {
        if regions[i].contains(px, py) {
            return true;
        }
        i = i + 1;
    }
    false
}

} // verus!

use vstd::prelude::*;

verus! {

/// An axis-aligned rectangle given by its top-left corner and its size.
#[derive(Clone, Copy, Debug, PartialEq, Eq, Structural)]
pub struct Rect {
    pub x: i64,
    pub y: i64,
    pub width: i64,
    pub height: i64,
}

impl Rect {
    /// The point lies in the rectangle; the left and top edges belong to it,
    /// the right and bottom edges do not.
    pub open spec fn contains_spec(self, px: int, py: int) -> bool {
        &&& self.x <= px
        &&& px < self.x + self.width
        &&& self.y <= py
        &&& py < self.y + self.height
    }

    /// The two rectangles share a region of positive area.
    pub open spec fn intersects_spec(self, o: Rect) -> bool {
        &&& self.x < o.x + o.width
        &&& self.x + self.width > o.x
        &&& self.y < o.y + o.height
        &&& self.y + self.height > o.y
    }

    pub fn new(x: i64, y: i64, width: i64, height: i64) -> (r: Rect)
        ensures
            r == (Rect { x, y, width, height }),
    {
        Rect { x, y, width, height }
    }

    pub fn contains_point(&self, px: i64, py: i64) -> (r: bool)
        ensures
            r == self.contains_spec(px as int, py as int),
    {
        let right = self.x as i128 + self.width as i128;
        let bottom = self.y as i128 + self.height as i128;
        self.x <= px && (px as i128) < right && self.y <= py && (py as i128) < bottom
    }

    pub fn intersects(&self, other: &Rect) -> (r: bool)
        ensures
            r == self.intersects_spec(*other),
    {
        let right = self.x as i128 + self.width as i128;
        let bottom = self.y as i128 + self.height as i128;
        let o_right = other.x as i128 + other.width as i128;
        let o_bottom = other.y as i128 + other.height as i128;
        (self.x as i128) < o_right && right > other.x as i128 && (self.y as i128) < o_bottom
            && bottom > other.y as i128
    }
}

} // verus!

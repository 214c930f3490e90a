use vstd::prelude::*;

verus! {

/// An integer point (or offset) on the character grid.
#[derive(Clone, Copy, Debug, PartialEq, Eq, Structural)]
pub struct Vec2 {
    pub x: i32,
    pub y: i32,
}

impl Vec2 {
    /// The point with the given coordinates.
    pub fn xy(x: i32, y: i32) -> (r: Vec2)
        ensures
            r.x == x,
            r.y == y,
    {
        Vec2 { x, y }
    }

    /// Whether `self + d` is representable, coordinate by coordinate.
    pub open spec fn can_add(self, d: Vec2) -> bool {
        i32::MIN <= self.x + d.x <= i32::MAX && i32::MIN <= self.y + d.y <= i32::MAX
    }

    /// The component-wise sum `self + d`.
    pub open spec fn plus(self, d: Vec2) -> Vec2 {
        Vec2 { x: (self.x + d.x) as i32, y: (self.y + d.y) as i32 }
    }

    /// Whether the point lies in `[0, size.x) x [0, size.y)`.
    pub open spec fn within(self, size: Vec2) -> bool {
        0 <= self.x < size.x && 0 <= self.y < size.y
    }
}

} // verus!

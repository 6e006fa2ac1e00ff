//! A plain integer 2D vector, used for velocities, contact forces and
//! knockback impulses.

use vstd::prelude::*;

verus! {

/// An integer 2D vector.
#[derive(Clone, Copy, Debug, PartialEq, Eq, Structural)]
pub struct Vec2 {
    pub x: i64,
    pub y: i64,
}

/// The mathematical value of a [`Vec2`].
pub struct Vec2View {
    pub x: int,
    pub y: int,
}

impl View for Vec2 {
    type V = Vec2View;

    open spec fn view(&self) -> Vec2View {
        Vec2View { x: self.x as int, y: self.y as int }
    }
}

impl Vec2 {
    /// The zero vector.
    pub fn zero() -> (r: Vec2)
        ensures
            r@.x == 0,
            r@.y == 0,
    {
        Vec2 { x: 0, y: 0 }
    }
}

impl Vec2View {
    /// Both components lie within `limit`.
    pub open spec fn bounded(self, limit: int) -> bool {
        &&& -limit <= self.x <= limit
        &&& -limit <= self.y <= limit
    }
}

} // verus!

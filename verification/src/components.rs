use vstd::prelude::*;

verus! {

/// The way an entity faces.
#[derive(Clone, Copy, Debug, PartialEq, Eq, Structural)]
pub enum Direction {
    Up,
    Down,
    Left,
    Right,
}

/// A velocity in whole steps per tick on each axis.
///
/// Every velocity the game assigns is a whole number of steps: the hero
/// moves by -1, 0 or 1 on each axis and a laser by -2, 0 or 2.
#[derive(Clone, Copy, Debug, PartialEq, Eq, Structural)]
pub struct Velocity {
    pub x: i32,
    pub y: i32,
}

/// Whether an entity is removed when it leaves the window.
#[derive(Clone, Copy, Debug, PartialEq, Eq, Structural)]
pub struct Movable {
    pub auto_despawn: bool,
}

/// The first and last frame of an animation in a texture atlas.
#[derive(Clone, Copy, Debug, PartialEq, Eq, Structural)]
pub struct AnimationIndices {
    pub first: usize,
    pub last: usize,
}

impl Velocity {
    /// A velocity of zero on both axes.
    pub fn still() -> (v: Velocity)
        ensures
            v.x == 0,
            v.y == 0,
    {
        Velocity { x: 0, y: 0 }
    }
}

} // verus!

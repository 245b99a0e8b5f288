use vstd::prelude::*;

verus! {

/// The direction the snake will travel on the next simulation tick.
#[derive(Clone, Copy, Debug, PartialEq, Eq, Structural)]
pub enum Direction {
    Left,
    Down,
    Right,
    Up,
}

/// Display color of a square. Cosmetic only: the simulation never branches
/// on it, it is merely carried along for the renderer.
#[derive(Clone, Copy, Debug, PartialEq, Eq, Structural)]
pub enum SquareColor {
    White,
    Red,
}

/// One occupied grid cell together with its display color.
#[derive(Clone, Copy, Debug, PartialEq, Eq, Structural)]
pub struct Square {
    pub x: i32,
    pub y: i32,
    pub color: SquareColor,
}

/// Two squares occupy the same cell; color is ignored.
pub open spec fn same_cell(a: Square, b: Square) -> bool {
    a.x == b.x && a.y == b.y
}

} // verus!

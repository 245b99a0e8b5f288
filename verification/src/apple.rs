use crate::grid::Grid;
use crate::square::{Square, SquareColor};
use vstd::prelude::*;

verus! {

/// The food: one red square the snake grows by eating. It is replaced, never
/// mutated in place, each time it is consumed.
#[derive(Clone, Copy, Debug, PartialEq, Eq, Structural)]
pub struct Apple {
    pub location: Square,
}

/// Relies on rand::random (the thread-local generator): an arbitrary `i32`;
/// nothing is promised of the value drawn.
#[verifier::external_body]
fn random_i32() -> i32 {
    rand::random::<i32>()
}

/// Fold an arbitrary integer into `0 .. dimension`: the absolute value of
/// the draw, reduced modulo the dimension.
fn spawn_coord(raw: i32, dimension: i32) -> (r: i32)
    requires
        0 < dimension,
    ensures
        0 <= r < dimension,
        r == (if (raw as int) < 0 {
            -(raw as int)
        } else {
            raw as int
        }) % (dimension as int),
{
    let wide: i64 = raw as i64;
    let magnitude: i64 = if wide < 0 {
        -wide
    } else {
        wide
    };
    (magnitude % (dimension as i64)) as i32
}

impl Apple {
    /// A fresh apple on a randomly chosen cell inside the nominal grid range.
    /// The cell is not checked against the snake's body: an apple may land on
    /// an occupied cell.
    pub fn new(grid: &Grid) -> (a: Apple)
        requires
            grid.wf(),
        ensures
            0 <= a.location.x < grid.width,
            0 <= a.location.y < grid.height,
            a.location.color == SquareColor::Red,
    {
        Apple {
            location: Square {
                x: spawn_coord(random_i32(), grid.width),
                y: spawn_coord(random_i32(), grid.height),
                color: SquareColor::Red,
            },
        }
    }
}

} // verus!

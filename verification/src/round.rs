use crate::apple::Apple;
use crate::grid::Grid;
use crate::snake::{spec_collides, spec_next_x, spec_next_y, spec_overlaps, Snake};
use crate::square::Direction;
use vstd::prelude::*;

verus! {

/// Whether the simulation is still running or has reached its terminal state
/// (the snake ran into itself).
#[derive(Clone, Copy, Debug, PartialEq, Eq, Structural)]
pub enum Status {
    Running,
    Dead,
}

/// One game round: the snake, the apple, the pending heading and the
/// run/dead status, over a fixed grid.
#[derive(Debug)]
pub struct Round {
    pub grid: Grid,
    pub snake: Snake,
    pub apple: Apple,
    pub direction: Direction,
    pub status: Status,
}

impl Round {
    /// Everything a tick relies on: a valid grid, a well-formed snake, and an
    /// apple inside the nominal grid range.
    pub open spec fn wf(self) -> bool {
        &&& self.grid.wf()
        &&& self.snake.wf(self.grid)
        &&& 0 <= self.apple.location.x < self.grid.width
        &&& 0 <= self.apple.location.y < self.grid.height
    }

    /// The snake currently stands on the apple's cell, so this tick's move
    /// will consume the apple.
    pub open spec fn spec_eats(self) -> bool {
        spec_collides(self.snake@, self.apple.location)
    }

    /// A fresh round: the deterministic two-segment snake at the grid's
    /// center, a freshly spawned apple, heading left, running. Restart is the
    /// same operation.
    pub fn new(grid: Grid) -> (r: Round)
        requires
            grid.wf(),
        ensures
            r.wf(),
            r.grid == grid,
            r.status == Status::Running,
            r.direction == Direction::Left,
            r.snake@.len() == 2,
            r.snake@[0].x == grid.width / 2,
            r.snake@[0].y == grid.height / 2,
            r.snake@[1].x == grid.width / 2 + 1,
            r.snake@[1].y == grid.height / 2,
            0 <= r.apple.location.x < grid.width,
            0 <= r.apple.location.y < grid.height,
    {
        Round {
            grid,
            snake: Snake::new(&grid),
            apple: Apple::new(&grid),
            direction: Direction::Left,
            status: Status::Running,
        }
    }

    /// Whether the round is still running.
    pub fn alive(&self) -> (b: bool)
        ensures
            b == (self.status == Status::Running),
    {
        self.status == Status::Running
    }

    /// Overwrite the pending heading unconditionally; reversing into one's
    /// own neck is not rejected here, the overlap check of a later tick
    /// catches it.
    pub fn set_heading(&mut self, direction: Direction)
        ensures
            final(self).direction == direction,
            final(self).grid == old(self).grid,
            final(self).snake == old(self).snake,
            final(self).apple == old(self).apple,
            final(self).status == old(self).status,
    {
        self.direction = direction;
    }

    /// One simulation step: a dead round is left untouched; a running round
    /// first checks self-overlap and dies on the spot, without moving;
    /// otherwise the snake advances one cell in the pending heading, growing
    /// by one segment (and relocating the apple) exactly when it stood on the
    /// apple's cell.
    pub fn tick(&mut self)
        requires
            old(self).wf(),
        ensures
            final(self).wf(),
            final(self).grid == old(self).grid,
            final(self).direction == old(self).direction,
            old(self).status == Status::Dead ==> {
                &&& final(self).status == Status::Dead
                &&& final(self).snake == old(self).snake
                &&& final(self).apple == old(self).apple
            },
            old(self).status == Status::Running && spec_overlaps(old(self).snake@) ==> {
                &&& final(self).status == Status::Dead
                &&& final(self).snake == old(self).snake
                &&& final(self).apple == old(self).apple
            },
            old(self).status == Status::Running && !spec_overlaps(old(self).snake@) ==> {
                &&& final(self).status == Status::Running
                &&& final(self).snake@.len() == old(self).snake@.len() + (if old(self).spec_eats() {
                    1int
                } else {
                    0int
                })
                &&& final(self).snake@[0].x == spec_next_x(old(self).snake@[0], old(self).direction, old(self).grid)
                &&& final(self).snake@[0].y == spec_next_y(old(self).snake@[0], old(self).direction, old(self).grid)
                &&& final(self).snake@[0].color == old(self).snake@[0].color
                &&& forall|i: int|
                    1 <= i < final(self).snake@.len() ==> final(self).snake@[i] == old(self).snake@[i - 1]
                &&& old(self).spec_eats() ==> {
                    &&& 0 <= final(self).apple.location.x < old(self).grid.width
                    &&& 0 <= final(self).apple.location.y < old(self).grid.height
                }
                &&& !old(self).spec_eats() ==> final(self).apple == old(self).apple
            },
    {
        match self.status {
            Status::Dead => {},
            Status::Running => {
                if self.snake.overlaps() {
                    self.status = Status::Dead;
                } else {
                    let grow: bool = self.snake.collides(&self.apple.location);
                    if grow {
                        self.apple = Apple::new(&self.grid);
                    }
                    let grid: Grid = self.grid;
                    let direction: Direction = self.direction;
                    self.snake.move_snake(&direction, grow, &grid);
                }
            },
        }
    }
}

} // verus!

//! A snake simulation on a bounded integer grid: movement with a wrapping
//! boundary rule, growth on eating, self-collision as the sole death
//! condition, and the run/dead state machine that drives one round, with
//! contracts on every operation. Rendering, timing and input belong to the
//! driver around the library; it only reads the snapshot the round exposes.

pub mod apple;
pub mod grid;
pub mod round;
pub mod snake;
pub mod square;

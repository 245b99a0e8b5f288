use vstd::arithmetic::div_mod::{lemma_mod_bound, lemma_small_mod};
use vstd::prelude::*;

verus! {

/// The grid bounds, fixed for the lifetime of a round.
#[derive(Clone, Copy, Debug, PartialEq, Eq, Structural)]
pub struct Grid {
    pub width: i32,
    pub height: i32,
}

impl Grid {
    /// Both dimensions are positive, and small enough that stepping one cell
    /// past a wrapped coordinate cannot overflow an `i32`.
    pub open spec fn wf(self) -> bool {
        0 < self.width < i32::MAX && 0 < self.height < i32::MAX
    }
}

/// The boundary rule: a negative coordinate lands on the far edge, exactly at
/// `dimension` — one past the conventional range, deliberately not the
/// idealized toroidal wrap, which would land on `dimension - 1`; a
/// non-negative coordinate is reduced modulo `dimension`.
pub open spec fn spec_wrap(coord: int, dimension: int) -> int
    recommends
        dimension > 0,
{
    if coord < 0 {
        dimension
    } else {
        coord % dimension
    }
}

/// A coordinate pair that the wrap rule can produce: inside the nominal range
/// or on the far edge itself.
pub open spec fn in_wrapped_range(x: int, y: int, g: Grid) -> bool {
    0 <= x <= g.width && 0 <= y <= g.height
}

/// Normalize a coordinate into the playable dimension.
pub fn wrap(coord: i32, dimension: i32) -> (r: i32)
    requires
        dimension > 0,
    ensures
        r == spec_wrap(coord as int, dimension as int),
        0 <= r <= dimension,
{
    if coord < 0 {
        dimension
    } else {
        coord % dimension
    }
}

/// Wrap law: for every coordinate and positive dimension the wrapped value
/// lies in `0 ..= dimension` (the far edge included), and wrapping a wrapped
/// value again changes nothing, except at the single far-edge boundary value
/// `dimension` itself (which wraps on to zero).
pub proof fn lemma_wrap_law(coord: int, dimension: int)
    requires
        dimension > 0,
    ensures
        0 <= spec_wrap(coord, dimension) <= dimension,
        spec_wrap(coord, dimension) < dimension ==> spec_wrap(
            spec_wrap(coord, dimension),
            dimension,
        ) == spec_wrap(coord, dimension),
{
    if coord >= 0 {
        lemma_mod_bound(coord, dimension);
    }
    let w = spec_wrap(coord, dimension);
    if w < dimension {
        lemma_small_mod(w as nat, dimension as nat);
    }
}


} // verus!

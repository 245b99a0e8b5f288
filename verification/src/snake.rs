use crate::grid::{in_wrapped_range, spec_wrap, wrap, Grid};
use crate::square::{same_cell, Direction, Square, SquareColor};
use std::collections::VecDeque;
use vstd::prelude::*;

verus! {

/// The snake's body: an ordered sequence of segments, front = head,
/// back = tail.
#[derive(Debug)]
pub struct Snake {
    pub segments: VecDeque<Square>,
}

impl View for Snake {
    type V = Seq<Square>;

    open spec fn view(&self) -> Seq<Square> {
        self.segments@
    }
}

/// How many segments of `s` occupy the same cell as `c`.
pub open spec fn count_matching(s: Seq<Square>, c: Square) -> nat
    decreases s.len(),
{
    if s.len() == 0 {
        0
    } else {
        count_matching(s.drop_last(), c) + (if same_cell(s.last(), c) {
            1nat
        } else {
            0nat
        })
    }
}

/// More than one segment (the head among them) occupies the head's cell:
/// the sole death condition.
pub open spec fn spec_overlaps(s: Seq<Square>) -> bool
    recommends
        s.len() > 0,
{
    count_matching(s, s[0]) > 1
}

/// Some segment of `s` occupies the cell of `c`.
pub open spec fn spec_collides(s: Seq<Square>, c: Square) -> bool {
    exists|i: int| 0 <= i < s.len() && same_cell(s[i], c)
}

/// The stepped-then-wrapped x coordinate one move ahead of `head`.
pub open spec fn spec_next_x(head: Square, d: Direction, g: Grid) -> int {
    spec_wrap(
        match d {
            Direction::Left => head.x - 1,
            Direction::Right => head.x + 1,
            _ => head.x as int,
        },
        g.width as int,
    )
}

/// The stepped-then-wrapped y coordinate one move ahead of `head`.
pub open spec fn spec_next_y(head: Square, d: Direction, g: Grid) -> int {
    spec_wrap(
        match d {
            Direction::Up => head.y - 1,
            Direction::Down => head.y + 1,
            _ => head.y as int,
        },
        g.height as int,
    )
}

/// Counting the segments on a cell distributes over concatenation.
proof fn lemma_count_matching_add(a: Seq<Square>, b: Seq<Square>, c: Square)
    ensures
        count_matching(a + b, c) == count_matching(a, c) + count_matching(b, c),
    decreases b.len(),
{
    if b.len() == 0 {
        assert(a + b =~= a);
    } else {
        lemma_count_matching_add(a, b.drop_last(), c);
        assert((a + b).drop_last() =~= a + b.drop_last());
        assert((a + b).last() == b.last());
    }
}

/// The count on a cell is positive exactly when some segment matches it.
proof fn lemma_count_matching_positive(s: Seq<Square>, c: Square)
    ensures
        count_matching(s, c) > 0 <==> exists|i: int| 0 <= i < s.len() && same_cell(s[i], c),
    decreases s.len(),
{
    if s.len() > 0 {
        lemma_count_matching_positive(s.drop_last(), c);
        if same_cell(s.last(), c) {
            assert(same_cell(s[s.len() - 1], c));
        } else {
            if count_matching(s, c) > 0 {
                let i = choose|i: int| 0 <= i < s.len() - 1 && same_cell(s.drop_last()[i], c);
                assert(s.drop_last()[i] == s[i]);
            }
            if exists|i: int| 0 <= i < s.len() && same_cell(s[i], c) {
                let i = choose|i: int| 0 <= i < s.len() && same_cell(s[i], c);
                assert(i < s.len() - 1);
                assert(s.drop_last()[i] == s[i]);
            }
        }
    }
}

/// Overlap law: a body overlaps exactly when the head's cell appears again at
/// some position behind the head; a body whose head cell appears nowhere
/// behind the head does not overlap.
pub proof fn lemma_overlap_detection(s: Seq<Square>)
    requires
        s.len() > 0,
    ensures
        spec_overlaps(s) <==> exists|i: int| 1 <= i < s.len() && same_cell(s[i], s[0]),
{
    let head = s[0];
    let front = s.subrange(0, 1);
    let rest = s.subrange(1, s.len() as int);
    assert(s =~= front + rest);
    lemma_count_matching_add(front, rest, head);
    assert(count_matching(front, head) == 1) by {
        assert(front.last() == s[0]);
        assert(front.drop_last() =~= Seq::<Square>::empty());
        assert(count_matching(front.drop_last(), head) == 0);
    }
    lemma_count_matching_positive(rest, head);
    if exists|j: int| 0 <= j < rest.len() && same_cell(rest[j], head) {
        let j = choose|j: int| 0 <= j < rest.len() && same_cell(rest[j], head);
        assert(rest[j] == s[j + 1]);
        assert(1 <= j + 1 < s.len() && same_cell(s[j + 1], s[0]));
    }
    if exists|i: int| 1 <= i < s.len() && same_cell(s[i], s[0]) {
        let i = choose|i: int| 1 <= i < s.len() && same_cell(s[i], s[0]);
        assert(rest[i - 1] == s[i]);
        assert(0 <= i - 1 < rest.len() && same_cell(rest[i - 1], head));
    }
}

impl Snake {
    /// At least the two initial segments, every one inside the wrapped range
    /// of the grid.
    pub open spec fn wf(self, g: Grid) -> bool {
        &&& self@.len() >= 2
        &&& forall|i: int|
            0 <= i < self@.len() ==> in_wrapped_range(self@[i].x as int, self@[i].y as int, g)
    }

    /// The deterministic starting body: two white segments at the grid's
    /// center, the head one cell left of the tail.
    pub fn new(grid: &Grid) -> (s: Snake)
        requires
            grid.wf(),
        ensures
            s@.len() == 2,
            s@[0].x == grid.width / 2,
            s@[0].y == grid.height / 2,
            s@[0].color == SquareColor::White,
            s@[1].x == grid.width / 2 + 1,
            s@[1].y == grid.height / 2,
            s@[1].color == SquareColor::White,
            s.wf(*grid),
    {
        let mid_x: i32 = grid.width / 2;
        let mid_y: i32 = grid.height / 2;
        let mut segments: VecDeque<Square> = VecDeque::new();
        segments.push_back(Square { x: mid_x, y: mid_y, color: SquareColor::White });
        segments.push_back(Square { x: mid_x + 1, y: mid_y, color: SquareColor::White });
        Snake { segments }
    }

    /// The front segment.
    pub fn head(&self) -> (h: &Square)
        requires
            self@.len() > 0,
        ensures
            *h == self@[0],
    {
        &self.segments[0]
    }

    /// The segment one step ahead of the head in the given direction, both
    /// coordinates wrapped; its color is carried over from the current head.
    pub fn get_next_head(&self, direction: &Direction, grid: &Grid) -> (sq: Square)
        requires
            grid.wf(),
            self@.len() > 0,
            in_wrapped_range(self@[0].x as int, self@[0].y as int, *grid),
        ensures
            sq.x == spec_next_x(self@[0], *direction, *grid),
            sq.y == spec_next_y(self@[0], *direction, *grid),
            sq.color == self@[0].color,
            in_wrapped_range(sq.x as int, sq.y as int, *grid),
    {
        let head: &Square = &self.segments[0];
        let (nx, ny): (i32, i32) = match direction {
            Direction::Left => (head.x - 1, head.y),
            Direction::Down => (head.x, head.y + 1),
            Direction::Right => (head.x + 1, head.y),
            Direction::Up => (head.x, head.y - 1),
        };
        Square { x: wrap(nx, grid.width), y: wrap(ny, grid.height), color: head.color }
    }

    /// Whether the head's cell is occupied by more than one segment.
    pub fn overlaps(&self) -> (r: bool)
        requires
            self@.len() > 0,
        ensures
            r == spec_overlaps(self@),
    {
        let head_x: i32 = self.segments[0].x;
        let head_y: i32 = self.segments[0].y;
        let mut hits: usize = 0;
        let mut i: usize = 0;
        while i < self.segments.len()
            invariant
                0 < self@.len(),
                i <= self@.len(),
                head_x == self@[0].x,
                head_y == self@[0].y,
                hits == count_matching(self@.take(i as int), self@[0]),
                hits <= i,
            decreases self@.len() - i,
        {
            let s: &Square = &self.segments[i];
            if head_x == s.x && head_y == s.y {
                hits = hits + 1;
            }
            i = i + 1;
            proof {
                let taken = self@.take(i as int);
                assert(taken.drop_last() =~= self@.take(i as int - 1));
                assert(taken.last() == self@[i as int - 1]);
            }
        }
        proof {
            assert(self@.take(self@.len() as int) =~= self@);
        }
        hits > 1
    }

    /// Whether any segment occupies the cell of the given square.
    pub fn collides(&self, square: &Square) -> (r: bool)
        ensures
            r == spec_collides(self@, *square),
    {
        let mut i: usize = 0;
        while i < self.segments.len()
            invariant
                i <= self@.len(),
                forall|j: int| 0 <= j < i ==> !same_cell(self@[j], *square),
            decreases self@.len() - i,
        {
            let s: &Square = &self.segments[i];
            if s.x == square.x && s.y == square.y {
                return true;
            }
            i = i + 1;
        }
        false
    }

    /// Push the next head to the front and pop the tail; when growing, the
    /// popped tail is put back, so the body gains exactly one segment.
    pub fn move_snake(&mut self, direction: &Direction, grow: bool, grid: &Grid)
        requires
            grid.wf(),
            old(self).wf(*grid),
        ensures
            final(self).wf(*grid),
            final(self)@.len() == old(self)@.len() + (if grow {
                1int
            } else {
                0int
            }),
            final(self)@[0].x == spec_next_x(old(self)@[0], *direction, *grid),
            final(self)@[0].y == spec_next_y(old(self)@[0], *direction, *grid),
            final(self)@[0].color == old(self)@[0].color,
            forall|i: int| 1 <= i < final(self)@.len() ==> final(self)@[i] == old(self)@[i - 1],
    {
        let new_head: Square = self.get_next_head(direction, grid);
        self.segments.push_front(new_head);
        let tail_end: Option<Square> = self.segments.pop_back();
        if grow {
            match tail_end {
                Some(t) => self.segments.push_back(t),
                None => {},
            }
        }
    }
}

} // verus!

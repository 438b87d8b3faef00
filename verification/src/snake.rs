//! The snake entity: an ordered body of cells, head first, together with
//! its current movement direction and the per-tick update operation.

use vstd::prelude::*;

use crate::board::Direction;
use crate::board::Point;

verus! {

/// What a single step of the snake did.
#[derive(Clone, Copy, PartialEq, Eq, Structural, Debug)]
pub enum StepOutcome {
    /// The new head landed on the body: the game is over.
    Collision,
    /// The snake moved one cell; its length is unchanged.
    Moved,
    /// The new head landed on the food: the snake grew by one cell.
    Ate,
}

/// No two elements of the sequence are the same cell.
pub open spec fn pairwise_distinct(s: Seq<Point>) -> bool {
    forall|i: int, j: int| 0 <= i < j < s.len() ==> s[i] != s[j]
}

/// The snake: its movement direction and its body, head at index 0 and
/// tail at the end.
pub struct Snake {
    pub direction: Direction,
    pub body: Vec<Point>,
}

impl Snake {
    /// Well-formed on a `cols` by `rows` board: at least one cell, every
    /// cell on the board, and no cell occupied twice.
    pub open spec fn wf(self, cols: u16, rows: u16) -> bool {
        &&& self.body@.len() >= 1
        &&& forall|i: int| 0 <= i < self.body@.len() ==> self.body@[i].in_bounds(cols, rows)
        &&& pairwise_distinct(self.body@)
    }

    /// The cell the head moves to on the next step.
    pub open spec fn next_head(self, cols: u16, rows: u16) -> Point {
        self.body@[0].wrap_step_spec(self.direction, cols, rows)
    }

    /// A one-cell snake at the centre of the board, headed in
    /// `initial_direction`.
    pub fn new(cols: &u16, rows: &u16, initial_direction: Direction) -> (s: Snake)
        requires
            *cols >= 1,
            *rows >= 1,
        ensures
            s.direction == initial_direction,
            s.body@ =~= seq![Point { x: (*cols / 2) as u16, y: (*rows / 2) as u16 }],
            s.wf(*cols, *rows),
    {
        let x = cols / 2;
        let y = rows / 2;
        let snake_body_point = Point { x, y };
        Snake { direction: initial_direction, body: vec![snake_body_point] }
    }

    /// Turns the snake, except that a request for the exact reverse of the
    /// current direction is ignored.
    pub fn change_direction(&mut self, requested: Direction)
        ensures
            final(self).body == old(self).body,
            final(self).direction == (if requested == old(self).direction.opposite_spec() {
                old(self).direction
            } else {
                requested
            }),
    {
        let blocked = self.direction.opposite();
        if !(requested == blocked) {
            self.direction = requested;
        }
    }

    /// Whether the body occupies the cell `p`.
    pub fn occupies(&self, p: Point) -> (r: bool)
        ensures
            r == self.body@.contains(p),
    {
        crate::board::vec_contains(&self.body, p)
    }

    /// One tick of movement. The head advances one cell with wrapping.
    /// If it lands on the body the snake is unchanged and the step reports
    /// a collision. If it lands on the food the body grows by exactly one
    /// cell; otherwise the tail is dropped and the length is unchanged.
    pub fn advance(&mut self, cols: u16, rows: u16, food: Option<Point>) -> (r: StepOutcome)
        requires
            cols >= 1,
            rows >= 1,
            old(self).wf(cols, rows),
        ensures
            final(self).direction == old(self).direction,
            final(self).wf(cols, rows),
            r == StepOutcome::Collision <==> old(self).body@.contains(
                old(self).next_head(cols, rows),
            ),
            r == StepOutcome::Collision ==> final(self).body == old(self).body,
            r == StepOutcome::Ate <==> !old(self).body@.contains(old(self).next_head(cols, rows))
                && food == Some(old(self).next_head(cols, rows)),
            r == StepOutcome::Ate ==> final(self).body@ =~= seq![
                old(self).next_head(cols, rows),
            ] + old(self).body@,
            r == StepOutcome::Ate ==> final(self).body@.len() == old(self).body@.len() + 1,
            r == StepOutcome::Moved ==> final(self).body@.len() == old(self).body@.len(),
            r == StepOutcome::Moved ==> final(self).body@ =~= seq![
                old(self).next_head(cols, rows),
            ] + old(self).body@.drop_last(),
            r != StepOutcome::Collision ==> final(self).body@[0] == old(self).next_head(
                cols,
                rows,
            ),
    {
        let head = self.body[0];
        let new_head = head.wrap_step(self.direction, cols, rows);

        if self.occupies(new_head) {
            return StepOutcome::Collision;
        }

        self.body.insert(0, new_head);

        let grew = match food {
            Some(fp) => fp == new_head,
            None => false,
        };

        if !grew {
            self.body.pop();
            proof {
                assert(self.body@ =~= seq![new_head] + old(self).body@.drop_last());
            }
            StepOutcome::Moved
        } else {
            proof {
                assert(self.body@ =~= seq![new_head] + old(self).body@);
            }
            StepOutcome::Ate
        }
    }
    /// The cells to draw and the glyph for each: the head glyph points in
    /// the movement direction; a later segment is a vertical bar when it
    /// shares its column with its predecessor, a horizontal dash when it
    /// shares its row, and a generic body glyph otherwise.
    pub fn render_cells(&self) -> (r: Vec<(Point, char)>)
        requires
            self.body@.len() >= 1,
        ensures
            r@.len() == self.body@.len(),
            forall|i: int| 0 <= i < r@.len() ==> r@[i].0 == self.body@[i],
            r@[0].1 == head_glyph_spec(self.direction),
            forall|i: int|
                1 <= i < r@.len() ==> r@[i].1 == segment_glyph_spec(
                    self.body@[i],
                    self.body@[i - 1],
                ),
    {
        let mut r: Vec<(Point, char)> = Vec::new();
        let mut i: usize = 0;
        while i < self.body.len()
            invariant
                self.body@.len() >= 1,
                i <= self.body@.len(),
                r@.len() == i,
                forall|k: int| 0 <= k < i ==> r@[k].0 == self.body@[k],
                i >= 1 ==> r@[0].1 == head_glyph_spec(self.direction),
                forall|k: int|
                    1 <= k < i ==> r@[k].1 == segment_glyph_spec(
                        self.body@[k],
                        self.body@[k - 1],
                    ),
            decreases self.body@.len() - i,
        {
            let current = self.body[i];
            let ch = if i == 0 {
                head_glyph(self.direction)
            } else {
                segment_glyph(current, self.body[i - 1])
            };
            r.push((current, ch));
            i += 1;
        }
        r
    }
}

/// The glyph of the head for each movement direction.
pub open spec fn head_glyph_spec(d: Direction) -> char {
    match d {
        Direction::Up => '^',
        Direction::Down => 'v',
        Direction::Left => '<',
        Direction::Right => '>',
    }
}

/// Returns the glyph drawn for the head.
pub fn head_glyph(d: Direction) -> (c: char)
    ensures
        c == head_glyph_spec(d),
{
    match d {
        Direction::Up => '^',
        Direction::Down => 'v',
        Direction::Left => '<',
        Direction::Right => '>',
    }
}

/// The glyph of a body segment, given the segment before it.
pub open spec fn segment_glyph_spec(current: Point, prev: Point) -> char {
    if current.x == prev.x {
        '|'
    } else if current.y == prev.y {
        '-'
    } else {
        's'
    }
}

/// Returns the glyph drawn for a body segment that follows `prev`.
pub fn segment_glyph(current: Point, prev: Point) -> (c: char)
    ensures
        c == segment_glyph_spec(current, prev),
{
    if current.x == prev.x {
        '|'
    } else if current.y == prev.y {
        '-'
    } else {
        's'
    }
}

} // verus!

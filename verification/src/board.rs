//! The toroidal board: coordinates, directions, and wrapping movement.

use vstd::prelude::*;

verus! {

/// One of the four movement directions of the snake.
#[derive(Clone, Copy, PartialEq, Eq, Structural, Debug)]
pub enum Direction {
    Up,
    Down,
    Left,
    Right,
}

/// A cell of the board: a pair of coordinates, `x` running along the
/// columns and `y` along the rows.
#[derive(Clone, Copy, PartialEq, Eq, Structural, Debug)]
pub struct Point {
    pub x: u16,
    pub y: u16,
}

impl Direction {
    /// The exact reverse of a direction.
    pub open spec fn opposite_spec(self) -> Direction {
        match self {
            Direction::Up => Direction::Down,
            Direction::Down => Direction::Up,
            Direction::Left => Direction::Right,
            Direction::Right => Direction::Left,
        }
    }

    /// Returns the exact reverse of `self`.
    pub fn opposite(self) -> (r: Direction)
        ensures
            r == self.opposite_spec(),
    {
        match self {
            Direction::Up => Direction::Down,
            Direction::Down => Direction::Up,
            Direction::Left => Direction::Right,
            Direction::Right => Direction::Left,
        }
    }
}

impl Point {
    /// Whether the point lies on a `cols` by `rows` board.
    pub open spec fn in_bounds(self, cols: u16, rows: u16) -> bool {
        self.x < cols && self.y < rows
    }

    /// The cell one step away from `self` in direction `dir`, wrapping
    /// around the edges of a `cols` by `rows` board.
    pub open spec fn wrap_step_spec(self, dir: Direction, cols: u16, rows: u16) -> Point {
        match dir {
            Direction::Up => Point {
                x: self.x,
                y: if self.y == 0 { (rows - 1) as u16 } else { (self.y - 1) as u16 },
            },
            Direction::Down => Point { x: self.x, y: ((self.y + 1) % (rows as int)) as u16 },
            Direction::Left => Point {
                x: if self.x == 0 { (cols - 1) as u16 } else { (self.x - 1) as u16 },
                y: self.y,
            },
            Direction::Right => Point { x: ((self.x + 1) % (cols as int)) as u16, y: self.y },
        }
    }

    /// Moves one step in `dir` on the toroidal board: crossing an edge
    /// reappears on the opposite edge.
    pub fn wrap_step(self, dir: Direction, cols: u16, rows: u16) -> (r: Point)
        requires
            cols >= 1,
            rows >= 1,
            self.in_bounds(cols, rows),
        ensures
            r == self.wrap_step_spec(dir, cols, rows),
            r.in_bounds(cols, rows),
    {
        match dir {
            Direction::Up => {
                let y: u16 = if self.y == 0 { rows - 1 } else { self.y - 1 };
                Point { x: self.x, y }
            },
            Direction::Down => Point { x: self.x, y: (self.y + 1) % rows },
            Direction::Left => {
                let x: u16 = if self.x == 0 { cols - 1 } else { self.x - 1 };
                Point { x, y: self.y }
            },
            Direction::Right => Point { x: (self.x + 1) % cols, y: self.y },
        }
    }
}

/// Whether the vector holds the cell `p`.
pub fn vec_contains(v: &Vec<Point>, p: Point) -> (r: bool)
    ensures
        r == v@.contains(p),
{
    let mut i: usize = 0;
    while i < v.len()
        invariant
            i <= v@.len(),
            forall|k: int| 0 <= k < i ==> v@[k] != p,
        decreases v@.len() - i,
    {
        if v[i] == p {
            assert(v@.contains(p));
            return true;
        }
        i += 1;
    }
    false
}

/// Movement wraps at every edge: stepping off an edge of a board of at
/// least two cells per axis lands on the opposite edge, and the other
/// coordinate is unchanged.
pub proof fn lemma_wrap_at_edges(p: Point, cols: u16, rows: u16)
    requires
        cols >= 2,
        rows >= 2,
        p.in_bounds(cols, rows),
    ensures
        p.y == 0 ==> p.wrap_step_spec(Direction::Up, cols, rows) == (Point { x: p.x, y: (rows - 1) as u16 }),
        p.y == rows - 1 ==> p.wrap_step_spec(Direction::Down, cols, rows) == (Point { x: p.x, y: 0u16 }),
        p.x == 0 ==> p.wrap_step_spec(Direction::Left, cols, rows) == (Point { x: (cols - 1) as u16, y: p.y }),
        p.x == cols - 1 ==> p.wrap_step_spec(Direction::Right, cols, rows) == (Point { x: 0u16, y: p.y }),
{
    assert((rows as int) % (rows as int) == 0) by (nonlinear_arith)
        requires rows >= 1;
    assert((cols as int) % (cols as int) == 0) by (nonlinear_arith)
        requires cols >= 1;
}

} // verus!

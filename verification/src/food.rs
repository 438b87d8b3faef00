//! Food placement: enumerate the free cells of the board and pick one of
//! them at random.

use vstd::prelude::*;

use crate::board::Point;
use crate::board::vec_contains;
use crate::snake::pairwise_distinct;

verus! {

/// `a` comes strictly before `b` in column-major order.
pub open spec fn col_major_lt(a: Point, b: Point) -> bool {
    a.x < b.x || (a.x == b.x && a.y < b.y)
}

/// Relies on rand::random_range over `0..n`: the result is drawn from the
/// range, which must not be empty.
#[verifier::external_body]
fn random_index(n: usize) -> (r: usize)
    requires
        n >= 1,
    ensures
        r < n,
{
    rand::random_range(0..n)
}

/// Every cell of the `cols` by `rows` board that the body does not occupy,
/// each exactly once, in column-major order.
pub fn free_cells(cols: u16, rows: u16, body: &Vec<Point>) -> (r: Vec<Point>)
    ensures
        forall|i: int|
            0 <= i < r@.len() ==> r@[i].in_bounds(cols, rows) && !body@.contains(r@[i]),
        forall|p: Point| p.in_bounds(cols, rows) && !body@.contains(p) ==> r@.contains(p),
        pairwise_distinct(r@),
{
    let mut r: Vec<Point> = Vec::new();
    let mut x: u16 = 0;
    while x < cols
        invariant
            x <= cols,
            forall|i: int|
                0 <= i < r@.len() ==> r@[i].in_bounds(cols, rows) && !body@.contains(r@[i]),
            forall|i: int| 0 <= i < r@.len() ==> r@[i].x < x,
            forall|p: Point|
                p.in_bounds(cols, rows) && !body@.contains(p) && p.x < x ==> r@.contains(p),
            pairwise_distinct(r@),
        decreases cols - x,
    {
        let mut y: u16 = 0;
        while y < rows
            invariant
                x < cols,
                y <= rows,
                forall|i: int|
                    0 <= i < r@.len() ==> r@[i].in_bounds(cols, rows) && !body@.contains(r@[i]),
                forall|i: int| 0 <= i < r@.len() ==> col_major_lt(r@[i], Point { x, y }),
                forall|p: Point|
                    p.in_bounds(cols, rows) && !body@.contains(p) && col_major_lt(
                        p,
                        Point { x, y },
                    ) ==> r@.contains(p),
                pairwise_distinct(r@),
            decreases rows - y,
        {
            let candidate = Point { x, y };
            let ghost r0 = r@;
            if !vec_contains(body, candidate) {
                r.push(candidate);
            }
            proof {
                assert forall|p: Point|
                    p.in_bounds(cols, rows) && !body@.contains(p) && col_major_lt(
                        p,
                        Point { x, y: (y + 1) as u16 },
                    ) implies r@.contains(p) by {
                    if col_major_lt(p, Point { x, y }) {
                        let i = choose|i: int| 0 <= i < r0.len() && r0[i] == p;
                        assert(r@[i] == p);
                    } else {
                        assert(p == candidate);
                        assert(r@[r0.len() as int] == p);
                    }
                }
            }
            y += 1;
        }
        x += 1;
    }
    r
}

/// Picks a food cell uniformly at random among the cells the snake does
/// not occupy. Returns `None` exactly when the snake covers the whole
/// board.
pub fn generate_food(cols: &u16, rows: &u16, snake_body: &Vec<Point>) -> (r: Option<Point>)
    requires
        *cols >= 1,
        *rows >= 1,
        snake_body@.len() >= 1,
    ensures
        (r is Some) <==> exists|p: Point|
            p.in_bounds(*cols, *rows) && !snake_body@.contains(p),
        r matches Some(f) ==> f.in_bounds(*cols, *rows) && !snake_body@.contains(f),
{
    let available_positions = free_cells(*cols, *rows, snake_body);
    if available_positions.len() == 0 {
        proof {
            assert forall|p: Point| !(p.in_bounds(*cols, *rows) && !snake_body@.contains(p)) by {
                if p.in_bounds(*cols, *rows) && !snake_body@.contains(p) {
                    assert(available_positions@.contains(p));
                }
            }
        }
        None
    } else {
        let i = random_index(available_positions.len());
        Some(available_positions[i])
    }
}

} // verus!

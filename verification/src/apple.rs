//! Apple placement: which cells an apple may appear on, and the choice of
//! the first such cell among a run of draws.

use vstd::prelude::*;
use crate::point::{Point, GRID_SIZE};
use crate::snake::Snake;

verus! {

/// The cell the apple lies on.
pub type Apple = Point;

/// Whether an apple may appear on `p`: a cell of the board that the snake
/// does not cover.
pub open spec fn free(snake: &Snake, p: Point) -> bool {
    p.on_grid() && !snake.covers(p)
}

/// Tests whether an apple may appear on `candidate`.
pub fn accepts(snake: &Snake, candidate: Point) -> (ok: bool)
    ensures
        ok == free(snake, candidate),
{
    candidate.in_bounds() && !snake.occupies(candidate)
}

/// Whether the draw at position `i` is the first that an apple may
/// appear on.
pub open spec fn first_free_at(snake: &Snake, draws: Seq<Point>, i: int) -> bool {
    &&& 0 <= i < draws.len()
    &&& free(snake, draws[i])
    &&& forall|j: int| 0 <= j < i ==> !free(snake, #[trigger] draws[j])
}

/// Whether an apple may appear on none of the draws.
pub open spec fn none_free(snake: &Snake, draws: Seq<Point>) -> bool {
    forall|j: int| 0 <= j < draws.len() ==> !free(snake, #[trigger] draws[j])
}

/// The cell with number `k` when the board is counted row by row.
pub open spec fn cell(k: int) -> Point {
    Point { x: (k % (GRID_SIZE as int)) as i32, y: (k / (GRID_SIZE as int)) as i32 }
}

/// While the snake has fewer cells than the board, an apple may appear
/// somewhere: drawing again and again can end.
pub proof fn lemma_free_cell_exists(snake: &Snake)
    requires
        snake.body@.len() + 1 < GRID_SIZE * GRID_SIZE,
    ensures
        exists|p: Point| free(snake, p),
{
    let board = Seq::new((GRID_SIZE * GRID_SIZE) as nat, |k: int| cell(k));
    let covered = snake.pushed();
    assert forall|i: int, j: int|
        0 <= i < board.len() && 0 <= j < board.len() && i != j implies board[i] != board[j] by {
        assert(i == GRID_SIZE * (i / (GRID_SIZE as int)) + i % (GRID_SIZE as int));
        assert(j == GRID_SIZE * (j / (GRID_SIZE as int)) + j % (GRID_SIZE as int));
    }
    board.unique_seq_to_set();
    covered.lemma_cardinality_of_set();
    vstd::seq_lib::seq_to_set_is_finite(covered);
    if board.to_set().subset_of(covered.to_set()) {
        vstd::set_lib::lemma_len_subset(board.to_set(), covered.to_set());
        assert(false);
    }
    let p = choose|p: Point| board.to_set().contains(p) && !covered.to_set().contains(p);
    let k = choose|k: int| 0 <= k < board.len() && board[k] == p;
    assert(p == cell(k));
    assert(p.on_grid());
    assert(covered[0] == snake.head);
    if snake.body@.contains(p) {
        let i = choose|i: int| 0 <= i < snake.body@.len() && snake.body@[i] == p;
        assert(covered[i + 1] == p);
    }
    assert(free(snake, p));
}

/// Rejection over a run of draws: the first draw that lies on the board
/// and off the snake becomes the apple. `None` when every draw is
/// rejected; the caller then draws again.
pub fn place(snake: &Snake, draws: &Vec<Point>) -> (apple: Option<Apple>)
    ensures
        match apple {
            Some(a) => exists|i: int| first_free_at(snake, draws@, i) && draws@[i] == a,
            None => none_free(snake, draws@),
        },
        apple matches Some(a) ==> a.on_grid() && a != snake.head && !snake.body@.contains(a),
{
    let mut i: usize = 0;
    while i < draws.len()
        invariant
            i <= draws@.len(),
            forall|j: int| 0 <= j < i ==> !free(snake, #[trigger] draws@[j]),
        decreases draws@.len() - i,
    {
        let candidate = draws[i];
        if accepts(snake, candidate) {
            assert(first_free_at(snake, draws@, i as int));
            return Some(candidate);
        }
        i += 1;
    }
    None
}

} // verus!

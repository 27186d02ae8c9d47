//! The snake: a head, the cells behind it, and the rule for one step.

use std::collections::VecDeque;
use vstd::prelude::*;
use crate::point::{Point, GRID_SIZE};

verus! {

/// Number of cells, head included, that a snake starts a game with.
pub const INITIAL_LENGTH: usize = 3;

/// Coordinate, on both axes, of the cell a fresh snake's head starts on:
/// half of `GRID_SIZE`.
pub const CENTER: i32 = 10;

/// One of the four ways a snake can step.
#[derive(Clone, Copy, Debug, PartialEq, Eq, Structural)]
pub enum Direction {
    Up,
    Down,
    Left,
    Right,
}

/// What a step ended in.
#[derive(Clone, Copy, Debug, PartialEq, Eq, Structural)]
pub enum MoveOutcome {
    /// The head moved onto a free cell of the board.
    Alive,
    /// The head would have left the board or run into the body.
    Collided,
}

impl Direction {
    /// Change of `x` for one step.
    pub open spec fn dx(self) -> int {
        match self {
            Direction::Left => -1,
            Direction::Right => 1,
            _ => 0,
        }
    }

    /// Change of `y` for one step.
    pub open spec fn dy(self) -> int {
        match self {
            Direction::Up => -1,
            Direction::Down => 1,
            _ => 0,
        }
    }
}

/// Head and body. The front of `body` is the cell the head left last; the
/// back is the tip of the tail. The head is not part of `body`.
pub struct Snake {
    pub body: VecDeque<Point>,
    pub head: Point,
}

impl Snake {
    /// Every cell of the snake lies on the board.
    pub open spec fn wf(&self) -> bool {
        &&& self.head.on_grid()
        &&& forall|i: int| 0 <= i < self.body@.len() ==> (#[trigger] self.body@[i]).on_grid()
    }

    /// Whether `p` is the head or a cell of the body.
    pub open spec fn covers(&self, p: Point) -> bool {
        p == self.head || self.body@.contains(p)
    }

    /// The body once the head has been put in front of it.
    pub open spec fn pushed(&self) -> Seq<Point> {
        seq![self.head] + self.body@
    }

    /// The cell one step from the head in direction `dir`. It may lie just
    /// off the board.
    pub open spec fn target(&self, dir: Direction) -> Point {
        Point { x: (self.head.x + dir.dx()) as i32, y: (self.head.y + dir.dy()) as i32 }
    }

    /// How a step in direction `dir` ends: in a collision when the target
    /// is off the board or is a cell of the body with the old head in front.
    pub open spec fn outcome(&self, dir: Direction) -> MoveOutcome {
        if !self.target(dir).on_grid() || self.pushed().contains(self.target(dir)) {
            MoveOutcome::Collided
        } else {
            MoveOutcome::Alive
        }
    }

    /// The cells of a fresh snake of `len` cells: the head at the middle of
    /// the board, the body straight below it.
    pub open spec fn initial_body(len: nat) -> Seq<Point> {
        Seq::new(
            if len == 0 { 0nat } else { (len - 1) as nat },
            |i: int| Point { x: CENTER, y: (CENTER + 1 + i) as i32 },
        )
    }

    /// A snake of `len` cells in all, head at the middle of the board and
    /// the body in a column below it. A length of 0 gives the head alone.
    pub fn new(len: usize) -> (snake: Snake)
        requires
            len <= CENTER,
        ensures
            snake.wf(),
            snake.head == (Point { x: CENTER, y: CENTER }),
            snake.body@ == Snake::initial_body(len as nat),
            !snake.body@.contains(snake.head),
    {
        let head = Point { x: CENTER, y: CENTER };
        let mut body: VecDeque<Point> = VecDeque::new();
        let mut i: usize = 1;
        while i < len
            invariant
                1 <= i,
                i <= len || (len == 0 && i == 1),
                len <= CENTER,
                head == (Point { x: CENTER, y: CENTER }),
                body@.len() == i - 1,
                forall|k: int|
                    0 <= k < body@.len() ==> #[trigger] body@[k] == (Point {
                        x: CENTER,
                        y: (CENTER + 1 + k) as i32,
                    }),
            decreases len - i,
        {
            body.push_back(Point { x: head.x, y: head.y + i as i32 });
            i += 1;
        }
        assert(body@ =~= Snake::initial_body(len as nat));
        assert(!body@.contains(head)) by {
            if body@.contains(head) {
                let k = choose|k: int| 0 <= k < body@.len() && body@[k] == head;
                assert(body@[k].y == CENTER + 1 + k);
            }
        }
        Snake { body, head }
    }

    /// Tests whether every cell of the snake lies on the board.
    pub fn is_valid(&self) -> (valid: bool)
        ensures
            valid == self.wf(),
    {
        if !self.head.in_bounds() {
            return false;
        }
        let mut i: usize = 0;
        while i < self.body.len()
            invariant
                i <= self.body@.len(),
                forall|k: int| 0 <= k < i ==> (#[trigger] self.body@[k]).on_grid(),
            decreases self.body@.len() - i,
        {
            if !self.body[i].in_bounds() {
                return false;
            }
            i += 1;
        }
        true
    }

    /// Tests whether `p` is a cell of the body.
    pub fn body_contains(&self, p: Point) -> (found: bool)
        ensures
            found == self.body@.contains(p),
    {
        let mut i: usize = 0;
        while i < self.body.len()
            invariant
                i <= self.body@.len(),
                forall|k: int| 0 <= k < i ==> self.body@[k] != p,
            decreases self.body@.len() - i,
        {
            if self.body[i] == p {
                return true;
            }
            i += 1;
        }
        false
    }

    /// Tests whether `p` is the head or a cell of the body.
    pub fn occupies(&self, p: Point) -> (found: bool)
        ensures
            found == self.covers(p),
    {
        p == self.head || self.body_contains(p)
    }

    /// One step in direction `dir`. The old head always becomes the front
    /// of the body. The head moves to the target cell when the step ends
    /// `Alive` and stays where it was when it ends `Collided`. The tail is
    /// never shortened here: see `shrink`.
    pub fn mov(&mut self, dir: Direction) -> (outcome: MoveOutcome)
        requires
            old(self).wf(),
        ensures
            final(self).wf(),
            outcome == old(self).outcome(dir),
            final(self).body@ == old(self).pushed(),
            final(self).head == match outcome {
                MoveOutcome::Alive => old(self).target(dir),
                MoveOutcome::Collided => old(self).head,
            },
            outcome == MoveOutcome::Alive ==> !final(self).body@.contains(final(self).head),
            final(self).body@.len() == old(self).body@.len() + 1,
            final(self).body@[0] == old(self).head,
    {
        self.body.push_front(self.head);
        assert(self.body@[0] == self.head);
        assert(forall|i: int| 0 < i < self.body@.len() ==> self.body@[i] == old(self).body@[i - 1]);
        let target = match dir {
            Direction::Up => Point { x: self.head.x, y: self.head.y - 1 },
            Direction::Down => Point { x: self.head.x, y: self.head.y + 1 },
            Direction::Left => Point { x: self.head.x - 1, y: self.head.y },
            Direction::Right => Point { x: self.head.x + 1, y: self.head.y },
        };
        if !target.in_bounds() {
            return MoveOutcome::Collided;
        }
        if self.body_contains(target) {
            return MoveOutcome::Collided;
        }
        self.head = target;
        MoveOutcome::Alive
    }

    /// Drops the tip of the tail, if the body has a cell.
    pub fn shrink(&mut self)
        ensures
            final(self).head == old(self).head,
            final(self).body@ == old(self).body@.take(
                if old(self).body@.len() == 0 { 0int } else { old(self).body@.len() - 1 },
            ),
            old(self).wf() ==> final(self).wf(),
            !old(self).body@.contains(old(self).head) ==> !final(self).body@.contains(
                old(self).head,
            ),
    {
        let _ = self.body.pop_back();
        assert(self.body@ =~= old(self).body@.take(
            if old(self).body@.len() == 0 { 0int } else { old(self).body@.len() - 1 },
        ));
    }
}

/// A step whose target lies off the board ends in a collision, and the
/// body it leaves has the head from before the step as its front.
pub proof fn lemma_wall_collision(snake: Snake, dir: Direction)
    requires
        snake.wf(),
        !snake.target(dir).on_grid(),
    ensures
        snake.outcome(dir) == MoveOutcome::Collided,
        snake.pushed().len() == snake.body@.len() + 1,
        snake.pushed()[0] == snake.head,
{
}

/// A step straight back onto the cell the head came from ends in a
/// collision.
pub proof fn lemma_reversal_collides(snake: Snake, dir: Direction)
    requires
        snake.wf(),
        snake.body@.len() > 0,
        snake.target(dir) == snake.body@[0],
    ensures
        snake.outcome(dir) == MoveOutcome::Collided,
{
    assert(snake.pushed()[1] == snake.body@[0]);
}

impl Clone for Snake {
    /// A second snake on the same cells.
    fn clone(&self) -> (copy: Self)
        ensures
            copy.head == self.head,
            copy.body@ == self.body@,
            self.wf() ==> copy.wf(),
    {
        let mut body: VecDeque<Point> = VecDeque::new();
        let mut i: usize = 0;
        while i < self.body.len()
            invariant
                i <= self.body@.len(),
                body@ == self.body@.take(i as int),
            decreases self.body@.len() - i,
        {
            body.push_back(self.body[i]);
            assert(self.body@.take(i + 1) =~= self.body@.take(i as int).push(self.body@[i as int]));
            i += 1;
        }
        assert(self.body@.take(i as int) =~= self.body@);
        Snake { body, head: self.head }
    }
}

} // verus!

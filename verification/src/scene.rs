//! What a frame shows of the board, as requests to fill cells.

use vstd::prelude::*;
use crate::game::Game;
use crate::point::Point;

verus! {

/// What a filled cell stands for; the host picks a colour for each.
#[derive(Clone, Copy, Debug, PartialEq, Eq, Structural)]
pub enum Paint {
    Head,
    Body,
    Apple,
}

/// A request to fill one cell of the board.
#[derive(Clone, Copy, Debug, PartialEq, Eq, Structural)]
pub struct Fill {
    pub cell: Point,
    pub paint: Paint,
}

/// The fills of a board in the order they are painted: the head, the body
/// from front to tail, then the apple if one lies on the board.
pub open spec fn fills_of(game: Game) -> Seq<Fill> {
    seq![Fill { cell: game.snake.head, paint: Paint::Head }] + Seq::new(
        game.snake.body@.len(),
        |i: int| Fill { cell: game.snake.body@[i], paint: Paint::Body },
    ) + match game.apple {
        Some(a) => seq![Fill { cell: a, paint: Paint::Apple }],
        None => Seq::<Fill>::empty(),
    }
}

/// Lists the fills that show the board.
pub fn board_fills(game: &Game) -> (fills: Vec<Fill>)
    ensures
        fills@ == fills_of(*game),
{
    let mut fills: Vec<Fill> = Vec::new();
    fills.push(Fill { cell: game.snake.head, paint: Paint::Head });
    let mut i: usize = 0;
    while i < game.snake.body.len()
        invariant
            i <= game.snake.body@.len(),
            fills@.len() == i + 1,
            fills@[0] == (Fill { cell: game.snake.head, paint: Paint::Head }),
            forall|j: int|
                1 <= j <= i ==> #[trigger] fills@[j] == (Fill {
                    cell: game.snake.body@[j - 1],
                    paint: Paint::Body,
                }),
        decreases game.snake.body@.len() - i,
    {
        fills.push(Fill { cell: game.snake.body[i], paint: Paint::Body });
        i += 1;
    }
    match game.apple {
        Some(a) => {
            fills.push(Fill { cell: a, paint: Paint::Apple });
        },
        None => {},
    }
    proof {
        let head = seq![Fill { cell: game.snake.head, paint: Paint::Head }];
        let body = Seq::new(
            game.snake.body@.len(),
            |i: int| Fill { cell: game.snake.body@[i], paint: Paint::Body },
        );
        assert(forall|j: int| 1 <= j <= body.len() ==> (head + body)[j] == body[j - 1]);
        assert(fills@.take(body.len() as int + 1) =~= head + body);
        assert(fills@ =~= fills_of(*game));
    }
    fills
}

} // verus!

//! The game's state machine: which screen is showing, and what one frame
//! does to snake, apple and score.

use vstd::prelude::*;
use crate::apple::{accepts, first_free_at, free, none_free, place, Apple};
use crate::menu::{stepped_index, Menu};
use crate::point::Point;
use crate::snake::{Direction, MoveOutcome, Snake, CENTER, INITIAL_LENGTH};
use crate::tick::{TickScheduler, TICK_DELAY};

verus! {

/// The screen the game is on.
#[derive(Clone, Copy, Debug, PartialEq, Eq, Structural)]
pub enum GameState {
    /// The title menu.
    Start,
    /// Active play.
    Run,
    /// The game-over banner.
    End,
    Help,
    Scores,
    /// The host stops its loop.
    Exit,
}

/// What the input source yields for one frame.
#[derive(Clone, Copy, Debug, PartialEq, Eq, Structural)]
pub enum Command {
    Up,
    Down,
    Left,
    Right,
    Confirm,
    Back,
    /// No input this frame.
    Nothing,
}

/// What the host has to do after a frame.
#[derive(Clone, Copy, Debug, PartialEq, Eq, Structural)]
pub enum Action {
    /// Render and go on.
    Continue,
    /// Play is on and no apple lies on the board: draw cells and hand them
    /// to `place_apple` until one is taken.
    SpawnApple,
    /// The game is on `Exit`: stop.
    Quit,
}

/// The direction after a command: the command's own when it names one,
/// the previous direction for any other command.
pub open spec fn steered(previous: Direction, command: Command) -> Direction {
    match command {
        Command::Up => Direction::Up,
        Command::Down => Direction::Down,
        Command::Left => Direction::Left,
        Command::Right => Direction::Right,
        _ => previous,
    }
}

/// Computes the direction after a command.
pub fn steer(previous: Direction, command: Command) -> (dir: Direction)
    ensures
        dir == steered(previous, command),
{
    match command {
        Command::Up => Direction::Up,
        Command::Down => Direction::Down,
        Command::Left => Direction::Left,
        Command::Right => Direction::Right,
        _ => previous,
    }
}

/// The screen that confirming a title-menu entry leads to. Entries may
/// lead to play, help, scores or the exit; any other value stays on the
/// title menu.
pub open spec fn confirmed(selected: GameState) -> GameState {
    match selected {
        GameState::Run => GameState::Run,
        GameState::Help => GameState::Help,
        GameState::Scores => GameState::Scores,
        GameState::Exit => GameState::Exit,
        _ => GameState::Start,
    }
}

/// What the host has to do when a frame leaves the game on `state`, with
/// or without an apple on the board.
pub open spec fn action_for(state: GameState, has_apple: bool) -> Action {
    if state == GameState::Exit {
        Action::Quit
    } else if state == GameState::Run && !has_apple {
        Action::SpawnApple
    } else {
        Action::Continue
    }
}

/// Snake, apple, tick gate, screen, direction of travel and score.
pub struct Game {
    pub snake: Snake,
    /// `None` from the moment an apple is eaten, or a game set up, until
    /// `place_apple` takes a cell.
    pub apple: Option<Apple>,
    pub tick: TickScheduler,
    pub game_state: GameState,
    pub current_dir: Direction,
    pub score: u64,
}

impl Game {
    /// The snake is on the board, the apple lies on a free cell of it, and
    /// the score has not outrun the body.
    pub open spec fn wf(self) -> bool {
        &&& self.snake.wf()
        &&& self.score <= self.snake.body@.len()
        &&& self.apple matches Some(a) ==> free(&self.snake, a)
    }

    /// Everything but the screen is as a new game has it.
    pub open spec fn fresh(self) -> bool {
        &&& self.snake.head == (Point { x: CENTER, y: CENTER })
        &&& self.snake.body@ == Snake::initial_body(INITIAL_LENGTH as nat)
        &&& self.apple is None
        &&& self.tick == (TickScheduler { count: 0, delay: TICK_DELAY })
        &&& self.current_dir == Direction::Up
        &&& self.score == 0
    }

    /// Snake, apple and score agree with those of `pre`.
    pub open spec fn same_board(self, pre: Game) -> bool {
        &&& self.snake.head == pre.snake.head
        &&& self.snake.body@ == pre.snake.body@
        &&& self.apple == pre.apple
        &&& self.score == pre.score
    }

    /// Everything but the screen agrees with `pre`.
    pub open spec fn same_play(self, pre: Game) -> bool {
        &&& self.same_board(pre)
        &&& self.tick == pre.tick
        &&& self.current_dir == pre.current_dir
    }

    /// Board and screen after a simulation step from `pre` in direction
    /// `dir`. A collision ends play and keeps the head. A step onto the
    /// apple scores, leaves the tail alone and takes the apple off the
    /// board. Any other step drops the tip of the tail.
    pub open spec fn stepped_from(self, pre: Game, dir: Direction) -> bool {
        let target = pre.snake.target(dir);
        match pre.snake.outcome(dir) {
            MoveOutcome::Collided => {
                &&& self.game_state == GameState::End
                &&& self.snake.head == pre.snake.head
                &&& self.snake.body@ == pre.snake.pushed()
                &&& self.apple == pre.apple
                &&& self.score == pre.score
            },
            MoveOutcome::Alive => {
                &&& self.game_state == pre.game_state
                &&& self.snake.head == target
                &&& if pre.apple == Some(target) {
                    &&& self.snake.body@ == pre.snake.pushed()
                    &&& self.apple is None
                    &&& self.score == pre.score + 1
                } else {
                    &&& self.snake.body@ == pre.snake.pushed().drop_last()
                    &&& self.apple == pre.apple
                    &&& self.score == pre.score
                }
            },
        }
    }

    /// The game after one frame from `pre` with `command`, where
    /// `selected` is the value of the title menu's current entry.
    pub open spec fn framed_from(self, pre: Game, command: Command, selected: GameState) -> bool {
        if pre.game_state == GameState::Exit {
            self.game_state == pre.game_state && self.same_play(pre)
        } else if command == Command::Back {
            self.game_state == GameState::Start && self.same_play(pre)
        } else {
            match pre.game_state {
                GameState::Start => {
                    &&& self.same_play(pre)
                    &&& self.game_state == if command == Command::Confirm {
                        confirmed(selected)
                    } else {
                        GameState::Start
                    }
                },
                GameState::End => if command == Command::Nothing {
                    self.game_state == pre.game_state && self.same_play(pre)
                } else {
                    self.game_state == GameState::Run && self.fresh()
                },
                GameState::Run => {
                    let dir = steered(pre.current_dir, command);
                    &&& self.current_dir == dir
                    &&& self.tick.delay == pre.tick.delay
                    &&& if pre.tick.fires() {
                        self.tick.count == 0 && self.stepped_from(pre, dir)
                    } else {
                        &&& self.tick.count == pre.tick.count + 1
                        &&& self.game_state == GameState::Run
                        &&& self.same_board(pre)
                    }
                },
                _ => self.game_state == pre.game_state && self.same_play(pre),
            }
        }
    }

    /// A step that eats the apple lengthens the body by one cell and
    /// raises the score by one; a step that stays alive without eating
    /// leaves the length of the body and the score as they were.
    pub proof fn lemma_step_growth(self, pre: Game, dir: Direction)
        requires
            pre.wf(),
            self.stepped_from(pre, dir),
            pre.snake.outcome(dir) == MoveOutcome::Alive,
        ensures
            pre.apple == Some(self.snake.head) ==> {
                &&& self.snake.body@.len() == pre.snake.body@.len() + 1
                &&& self.score == pre.score + 1
            },
            pre.apple != Some(self.snake.head) ==> {
                &&& self.snake.body@.len() == pre.snake.body@.len()
                &&& self.score == pre.score
            },
    {
    }

    /// A simulation step towards a cell off the board ends play, whatever
    /// the direction.
    pub proof fn lemma_wall_ends_play(self, pre: Game, dir: Direction)
        requires
            pre.wf(),
            self.stepped_from(pre, dir),
            !pre.snake.target(dir).on_grid(),
        ensures
            self.game_state == GameState::End,
            self.snake.body@ == pre.snake.pushed(),
            self.score == pre.score,
    {
    }

    /// Tests whether the snake is on the board, the apple on a free cell
    /// of it, and the score within the length of the body.
    pub fn is_valid(&self) -> (valid: bool)
        ensures
            valid == self.wf(),
    {
        let apple_free = match self.apple {
            Some(a) => accepts(&self.snake, a),
            None => true,
        };
        let length: usize = self.snake.body.len();
        self.snake.is_valid() && apple_free && self.score <= length as u64
    }

    /// A game on the title menu: a snake of `INITIAL_LENGTH` cells heading
    /// up from the middle of the board, no apple yet, score 0.
    pub fn new() -> (game: Game)
        ensures
            game.wf(),
            game.fresh(),
            game.game_state == GameState::Start,
    {
        Game {
            snake: Snake::new(INITIAL_LENGTH),
            apple: None,
            tick: TickScheduler::new(TICK_DELAY),
            game_state: GameState::Start,
            current_dir: Direction::Up,
            score: 0,
        }
    }

    /// Counts one frame on the tick gate and tells whether it is a
    /// simulation step.
    pub fn tick(&mut self) -> (fire: bool)
        ensures
            fire == old(self).tick.fires(),
            final(self).tick.delay == old(self).tick.delay,
            final(self).tick.count == if fire { 0int } else { old(self).tick.count + 1 },
            final(self).game_state == old(self).game_state,
            final(self).current_dir == old(self).current_dir,
            final(self).same_board(*old(self)),
    {
        self.tick.tick()
    }

    /// One simulation step in the current direction.
    pub fn advance(&mut self) -> (outcome: MoveOutcome)
        requires
            old(self).wf(),
        ensures
            final(self).wf(),
            outcome == old(self).snake.outcome(old(self).current_dir),
            final(self).stepped_from(*old(self), old(self).current_dir),
            final(self).tick == old(self).tick,
            final(self).current_dir == old(self).current_dir,
            outcome == MoveOutcome::Collided ==> final(self).game_state == GameState::End,
            outcome == MoveOutcome::Alive && old(self).apple == Some(final(self).snake.head) ==> {
                &&& final(self).snake.body@.len() == old(self).snake.body@.len() + 1
                &&& final(self).score == old(self).score + 1
            },
            outcome == MoveOutcome::Alive && old(self).apple != Some(final(self).snake.head) ==> {
                &&& final(self).snake.body@.len() == old(self).snake.body@.len()
                &&& final(self).score == old(self).score
            },
    {
        let ghost pre = *old(self);
        let ghost pushed = pre.snake.pushed();
        proof {
            assert forall|p: Point| pushed.contains(p) implies pre.snake.covers(p) by {
                let i = choose|i: int| 0 <= i < pushed.len() && pushed[i] == p;
                if i > 0 {
                    assert(pre.snake.body@[i - 1] == p);
                }
            }
        }
        let before: usize = self.snake.body.len();
        match self.snake.mov(self.current_dir) {
            MoveOutcome::Collided => {
                self.game_state = GameState::End;
                MoveOutcome::Collided
            },
            MoveOutcome::Alive => {
                let eaten = match self.apple {
                    Some(a) => a == self.snake.head,
                    None => false,
                };
                if eaten {
                    assert(self.snake.body.len() == before + 1);
                    self.score += 1;
                    self.apple = None;
                } else {
                    self.snake.shrink();
                    proof {
                        assert(self.snake.body@ =~= pushed.drop_last());
                        assert forall|p: Point| self.snake.body@.contains(p) implies pushed.contains(
                            p,
                        ) by {
                            let i = choose|i: int|
                                0 <= i < self.snake.body@.len() && self.snake.body@[i] == p;
                            assert(pushed[i] == p);
                        }
                    }
                }
                MoveOutcome::Alive
            },
        }
    }

    /// One frame. `Back` leads to the title menu from every screen but
    /// `Exit`, which nothing leaves. On the title menu `Confirm` follows
    /// the selected entry. On the game-over banner any input starts a new
    /// game. During play the command steers, and on a firing tick the
    /// snake steps.
    pub fn frame(&mut self, command: Command, selected: GameState) -> (action: Action)
        requires
            old(self).wf(),
        ensures
            final(self).wf(),
            final(self).framed_from(*old(self), command, selected),
            action == action_for(final(self).game_state, final(self).apple is Some),
    {
        match self.game_state {
            GameState::Exit => {},
            _ => {
                match command {
                    Command::Back => {
                        self.game_state = GameState::Start;
                    },
                    _ => {
                        match self.game_state {
                            GameState::Start => {
                                match command {
                                    Command::Confirm => {
                                        self.game_state = match selected {
                                            GameState::Run => GameState::Run,
                                            GameState::Help => GameState::Help,
                                            GameState::Scores => GameState::Scores,
                                            GameState::Exit => GameState::Exit,
                                            _ => GameState::Start,
                                        };
                                    },
                                    _ => {},
                                }
                            },
                            GameState::End => {
                                match command {
                                    Command::Nothing => {},
                                    _ => {
                                        *self = Game::new();
                                        self.game_state = GameState::Run;
                                    },
                                }
                            },
                            GameState::Run => {
                                self.current_dir = steer(self.current_dir, command);
                                if self.tick() {
                                    let _ = self.advance();
                                }
                            },
                            _ => {},
                        }
                    },
                }
            },
        }
        match self.game_state {
            GameState::Exit => Action::Quit,
            GameState::Run => if self.apple.is_none() {
                Action::SpawnApple
            } else {
                Action::Continue
            },
            _ => Action::Continue,
        }
    }

    /// Puts an apple on the board when there is none: on the first of
    /// `draws` that lies on the board and off the snake. Tells whether an
    /// apple lies on the board afterwards.
    pub fn place_apple(&mut self, draws: &Vec<Point>) -> (settled: bool)
        requires
            old(self).wf(),
        ensures
            final(self).wf(),
            settled == (final(self).apple is Some),
            final(self).game_state == old(self).game_state,
            final(self).tick == old(self).tick,
            final(self).current_dir == old(self).current_dir,
            final(self).score == old(self).score,
            final(self).snake.head == old(self).snake.head,
            final(self).snake.body@ == old(self).snake.body@,
            old(self).apple is Some ==> final(self).apple == old(self).apple,
            old(self).apple is None ==> match final(self).apple {
                Some(a) => exists|i: int|
                    first_free_at(&old(self).snake, draws@, i) && draws@[i] == a,
                None => none_free(&old(self).snake, draws@),
            },
    {
        if self.apple.is_none() {
            self.apple = place(&self.snake, draws);
        }
        self.apple.is_some()
    }
}

/// The index of the title menu's selected entry after a frame with
/// `command` that began on screen `state`: `Up` and `Down` move the
/// selection while the title menu is showing, and nothing else does.
pub open spec fn menu_index_after<'a>(
    menu: Menu<'a, GameState>,
    state: GameState,
    command: Command,
) -> int {
    if state == GameState::Start && (command == Command::Up || command == Command::Down) {
        stepped_index(
            menu.end_behavior,
            menu.items@.len() as int,
            menu.index as int,
            command == Command::Down,
        )
    } else {
        menu.index as int
    }
}

/// Feeds one frame's command to the title menu and the game: the menu
/// takes `Up` and `Down` while it is showing, and the game takes the
/// command together with the value of the entry that was selected as the
/// frame began.
pub fn dispatch<'a>(
    game: &mut Game,
    menu: &mut Menu<'a, GameState>,
    command: Command,
) -> (action: Action)
    requires
        old(game).wf(),
        old(menu).wf(),
    ensures
        final(game).wf(),
        final(menu).wf(),
        final(game).framed_from(
            *old(game),
            command,
            old(menu).items@[old(menu).index as int].out_val,
        ),
        action == action_for(final(game).game_state, final(game).apple is Some),
        final(menu).index == menu_index_after(*old(menu), old(game).game_state, command),
        final(menu).end_behavior == old(menu).end_behavior,
        final(menu).items == old(menu).items,
        final(menu).same_look(*old(menu)),
{
    let selected: GameState = *menu.select();
    match game.game_state {
        GameState::Start => {
            match command {
                Command::Up => menu.prev(),
                Command::Down => menu.next(),
                _ => {},
            }
        },
        _ => {},
    }
    game.frame(command, selected)
}

} // verus!

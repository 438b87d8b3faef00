//! The game state machine: awaiting the first key, playing, terminated.
//! Each tick advances the snake, handles food consumption and the
//! speed-up, and detects game over; key events steer or quit.

use vstd::prelude::*;

use crate::board::Direction;
use crate::board::Point;
use crate::food::generate_food;
use crate::snake::Snake;
use crate::snake::StepOutcome;

verus! {

/// The tick duration at the start of a game, in milliseconds.
pub const TICK_START_MS: u64 = 500;

/// How much each food item shortens the tick, in milliseconds.
pub const TICK_STEP_MS: u64 = 20;

/// The tick duration never drops below this, in milliseconds.
pub const TICK_FLOOR_MS: u64 = 50;

/// Why a game ended.
#[derive(Clone, Copy, PartialEq, Eq, Structural, Debug)]
pub enum EndReason {
    /// The player quit.
    Quit,
    /// The snake ran into its own body.
    HitSelf,
}

/// Where in its life the game is.
#[derive(Clone, Copy, PartialEq, Eq, Structural, Debug)]
pub enum Phase {
    /// No arrow key was pressed yet; the instruction message is shown.
    AwaitingFirstInput,
    /// The snake is moving.
    Playing,
    /// The game is over, for the reason given.
    Terminated(EndReason),
}

/// A key event, as far as the game cares: quit, or an arrow key.
#[derive(Clone, Copy, PartialEq, Eq, Structural, Debug)]
pub enum InputEvent {
    /// The quit key or the interrupt combination.
    Quit,
    /// An arrow key for the given direction.
    Arrow(Direction),
}

/// The whole state of one game.
pub struct GameState {
    /// Number of columns of the board.
    pub cols: u16,
    /// Number of rows of the board.
    pub rows: u16,
    /// Where in its life the game is.
    pub phase: Phase,
    /// The snake, once the first arrow key created it.
    pub snake: Option<Snake>,
    /// The food cell, if one is currently placed.
    pub food: Option<Point>,
    /// The current tick duration in milliseconds.
    pub tick_ms: u64,
}

/// The tick duration after one food item: shortened by `TICK_STEP_MS`,
/// but never below `TICK_FLOOR_MS`.
pub open spec fn speed_up_spec(t: u64) -> u64 {
    if t - TICK_STEP_MS >= TICK_FLOOR_MS {
        (t - TICK_STEP_MS) as u64
    } else {
        TICK_FLOOR_MS
    }
}

/// Speeding up never takes the tick duration below the floor.
pub proof fn lemma_tick_floor(t: u64)
    ensures
        speed_up_spec(t) >= TICK_FLOOR_MS,
{
}

/// Returns the tick duration after one food item.
pub fn speed_up(t: u64) -> (r: u64)
    ensures
        r == speed_up_spec(t),
{
    if t >= TICK_STEP_MS + TICK_FLOOR_MS {
        t - TICK_STEP_MS
    } else {
        TICK_FLOOR_MS
    }
}

impl GameState {
    /// The invariant every reachable game state satisfies: the board has
    /// at least one cell per axis, the tick duration respects the floor,
    /// a playing game has a snake, the snake is well formed, and food
    /// lies on the board and never on the snake.
    pub open spec fn wf(self) -> bool {
        &&& self.cols >= 1
        &&& self.rows >= 1
        &&& self.tick_ms >= TICK_FLOOR_MS
        &&& (self.phase is Playing ==> self.snake is Some)
        &&& (self.phase is AwaitingFirstInput ==> self.snake is None && self.food is None)
        &&& (self.snake matches Some(s) ==> s.wf(self.cols, self.rows))
        &&& (self.food matches Some(f) ==> f.in_bounds(self.cols, self.rows) && (
        self.snake matches Some(s) ==> !s.body@.contains(f)))
    }

    /// A fresh game: no snake, no food, the starting tick duration, and
    /// the instruction screen.
    pub fn new(cols: u16, rows: u16) -> (st: GameState)
        requires
            cols >= 1,
            rows >= 1,
        ensures
            st.wf(),
            st.cols == cols,
            st.rows == rows,
            st.phase == Phase::AwaitingFirstInput,
            st.snake is None,
            st.food is None,
            st.tick_ms == TICK_START_MS,
    {
        GameState {
            cols,
            rows,
            phase: Phase::AwaitingFirstInput,
            snake: None,
            food: None,
            tick_ms: TICK_START_MS,
        }
    }

    /// Applies one key event. Quit terminates the game. The first arrow
    /// key starts play with a one-cell snake at the board centre headed
    /// the pressed way; later arrow keys turn the snake, except that the
    /// exact reverse of the current direction is ignored. Events after
    /// termination change nothing.
    pub fn on_input(&mut self, ev: InputEvent)
        requires
            old(self).wf(),
        ensures
            final(self).wf(),
            final(self).cols == old(self).cols,
            final(self).rows == old(self).rows,
            final(self).food == old(self).food,
            final(self).tick_ms == old(self).tick_ms,
            old(self).phase is Terminated ==> *final(self) == *old(self),
            !(old(self).phase is Terminated) && ev == InputEvent::Quit ==> final(self).phase
                == Phase::Terminated(EndReason::Quit) && final(self).snake == old(self).snake,
            old(self).phase is AwaitingFirstInput ==> (ev matches InputEvent::Arrow(d) ==> {
                &&& final(self).phase == Phase::Playing
                &&& final(self).snake matches Some(s)
                &&& s.direction == d
                &&& s.body@ =~= seq![
                    Point { x: (old(self).cols / 2) as u16, y: (old(self).rows / 2) as u16 },
                ]
            }),
            old(self).phase is Playing ==> (ev matches InputEvent::Arrow(d) ==> {
                &&& final(self).phase == Phase::Playing
                &&& final(self).snake matches Some(s)
                &&& old(self).snake matches Some(s0)
                &&& s.body == s0.body
                &&& s.direction == (if d == s0.direction.opposite_spec() {
                    s0.direction
                } else {
                    d
                })
            }),
    {
        match self.phase {
            Phase::Terminated(_) => {},
            Phase::AwaitingFirstInput => {
                match ev {
                    InputEvent::Quit => {
                        self.phase = Phase::Terminated(EndReason::Quit);
                    },
                    InputEvent::Arrow(d) => {
                        self.snake = Some(Snake::new(&self.cols, &self.rows, d));
                        self.phase = Phase::Playing;
                    },
                }
            },
            Phase::Playing => {
                match ev {
                    InputEvent::Quit => {
                        self.phase = Phase::Terminated(EndReason::Quit);
                    },
                    InputEvent::Arrow(d) => {
                        let mut s = self.snake.take().unwrap();
                        s.change_direction(d);
                        self.snake = Some(s);
                    },
                }
            },
        }
    }

    /// One tick of play. Outside the playing phase nothing changes.
    /// Otherwise the snake advances one cell: a collision with its own
    /// body terminates the game and leaves everything else as it was;
    /// eating the food grows the snake by one cell, places new food on a
    /// free cell, and shortens the tick down to the floor; a plain move
    /// keeps length, food and tick, except that missing food is placed.
    pub fn on_tick(&mut self)
        requires
            old(self).wf(),
        ensures
            final(self).wf(),
            final(self).cols == old(self).cols,
            final(self).rows == old(self).rows,
            !(old(self).phase is Playing) ==> *final(self) == *old(self),
            old(self).phase is Playing ==> {
                let s = old(self).snake->0;
                let nh = s.next_head(old(self).cols, old(self).rows);
                &&& (s.body@.contains(nh) ==> final(self).phase == Phase::Terminated(
                    EndReason::HitSelf,
                ) && final(self).snake == old(self).snake && final(self).food == old(self).food
                    && final(self).tick_ms == old(self).tick_ms)
                &&& (!s.body@.contains(nh) ==> {
                    &&& final(self).phase == Phase::Playing
                    &&& final(self).snake matches Some(s2)
                    &&& s2.direction == s.direction
                    &&& (old(self).food == Some(nh) ==> {
                        &&& s2.body@ =~= seq![nh] + s.body@
                        &&& s2.body@.len() == s.body@.len() + 1
                        &&& ((final(self).food is Some) <==> exists|p: Point|
                            p.in_bounds(old(self).cols, old(self).rows) && !s2.body@.contains(p))
                        &&& (final(self).food matches Some(f) ==> !s2.body@.contains(f))
                        &&& final(self).tick_ms == (if final(self).food is Some {
                            speed_up_spec(old(self).tick_ms)
                        } else {
                            old(self).tick_ms
                        })
                    })
                    &&& (old(self).food != Some(nh) ==> {
                        &&& s2.body@ =~= seq![nh] + s.body@.drop_last()
                        &&& s2.body@.len() == s.body@.len()
                        &&& final(self).tick_ms == old(self).tick_ms
                        &&& (old(self).food is Some ==> final(self).food == old(self).food)
                        &&& (old(self).food is None ==> ((final(self).food is Some) <==> exists|
                        p: Point|
                            p.in_bounds(old(self).cols, old(self).rows) && !s2.body@.contains(p)))
                    })
                })
            },
    {
        match self.phase {
            Phase::Playing => {},
            _ => {
                return ;
            },
        }
        let cols = self.cols;
        let rows = self.rows;
        let mut s = self.snake.take().unwrap();
        let outcome = s.advance(cols, rows, self.food);
        match outcome {
            StepOutcome::Collision => {
                self.snake = Some(s);
                self.phase = Phase::Terminated(EndReason::HitSelf);
            },
            StepOutcome::Ate => {
                let new_food = generate_food(&cols, &rows, &s.body);
                match new_food {
                    Some(f) => {
                        proof {
                            assert(s.body@[0] == old(self).snake->0.next_head(cols, rows));
                        }
                        let differs = match self.food {
                            Some(g) => !(g == f),
                            None => true,
                        };
                        if differs {
                            self.tick_ms = speed_up(self.tick_ms);
                        }
                        self.food = Some(f);
                    },
                    None => {
                        self.food = None;
                    },
                }
                self.snake = Some(s);
            },
            StepOutcome::Moved => {
                proof {
                    let s0 = old(self).snake->0;
                    assert forall|f: Point| s.body@.contains(f) implies f == s0.next_head(
                        cols,
                        rows,
                    ) || s0.body@.contains(f) by {
                        let i = choose|i: int| 0 <= i < s.body@.len() && s.body@[i] == f;
                        if i > 0 {
                            assert(s0.body@.drop_last()[i - 1] == f);
                            assert(s0.body@[i - 1] == f);
                        }
                    }
                }
                if self.food.is_none() {
                    self.food = generate_food(&cols, &rows, &s.body);
                }
                self.snake = Some(s);
            },
        }
    }
}

} // verus!

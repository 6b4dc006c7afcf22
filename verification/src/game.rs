//! The game as a state machine. A front end polls the keyboard once per
//! frame, hands every newly pressed key to `handle_key`, then calls `tick`,
//! draws what it is told to draw, and sleeps until the next frame.

use vstd::prelude::*;
use crate::arena::{
    arena_is_full, empty_arena, is_full, is_repaint, painted, update_arena, with_food, Arena, Cell,
};
use crate::direction::Direction;
use crate::food::spawn_food;
use crate::geometry::{Position, ARENA_X, ARENA_Y};
use crate::snake::{bites_itself, grown_body, moved_body, next_pos_spec, valid_body, Snake};

verus! {

/// Frames shown per second.
pub const FRAMES_PER_SECOND: u32 = 20;

/// Steps per second that the snake is meant to take. It takes one step per
/// whole number of frames that fit into that time.
pub const MOVE_SPEED: u32 = 8;

/// The snake takes a step on the last of this many frames.
pub const FRAMES_PER_MOVE: u32 = FRAMES_PER_SECOND / MOVE_SPEED;

/// Key code that pauses the game and takes it up again (the space bar).
pub const KEY_PAUSE: u8 = 32;

/// Key code that ends the game (escape).
pub const KEY_QUIT: u8 = 27;

/// Why a game is over.
#[derive(Clone, Copy, Debug, PartialEq, Eq, Structural)]
pub enum Ending {
    /// The player pressed the quit key.
    Quit,
    /// The snake ran into itself.
    Died,
    /// The snake ate while nothing on the board was empty.
    Won,
}

/// Where a game stands. A game that has ended stays as it is.
#[derive(Clone, Copy, Debug, PartialEq, Eq, Structural)]
pub enum Phase {
    Running,
    Paused,
    Ended(Ending),
}

/// What the front end does once a key has been handled.
#[derive(Clone, Copy, Debug, PartialEq, Eq, Structural)]
pub enum KeyAction {
    /// Go on with the next key.
    Nothing,
    /// The game has just been paused: put the caption on the screen.
    ShowPaused,
    /// The game is over: leave the loop at once.
    Stop,
}

/// What the front end does once a frame has been counted.
#[derive(Clone, Copy, Debug, PartialEq, Eq, Structural)]
pub enum FrameAction {
    /// Nothing to draw.
    Idle,
    /// The snake took a step: draw the arena and the score, also when that
    /// step ended the game.
    Render,
}

/// A game of Snake between two frames.
pub struct Game {
    snake: Snake,
    arena: Arena,
    phase: Phase,
    got_direction: bool,
    frame: u32,
}

/// The phase that a key leaves behind: the pause key switches between
/// running and paused, the quit key ends the game, no other key matters.
pub open spec fn phase_after_key(phase: Phase, key: u8) -> Phase {
    if phase is Ended {
        phase
    } else if key == KEY_PAUSE {
        if phase == Phase::Running {
            Phase::Paused
        } else {
            Phase::Running
        }
    } else if key == KEY_QUIT {
        Phase::Ended(Ending::Quit)
    } else {
        phase
    }
}

/// What the front end is told after a key: to show the caption when the key
/// paused the game, to stop when it ended the game.
pub open spec fn action_for_key(phase: Phase, key: u8) -> KeyAction {
    if phase is Ended {
        KeyAction::Nothing
    } else if key == KEY_PAUSE {
        if phase == Phase::Running {
            KeyAction::ShowPaused
        } else {
            KeyAction::Nothing
        }
    } else if key == KEY_QUIT {
        KeyAction::Stop
    } else {
        KeyAction::Nothing
    }
}

/// `after` is `before` with food put on the cell at `food` and then repainted
/// with a snake of the given segments.
pub open spec fn is_repaint_with_food(
    before: Arena,
    food: Position,
    body: Seq<Position>,
    after: Arena,
) -> bool {
    forall|x: int, y: int|
        0 <= x < ARENA_X && 0 <= y < ARENA_Y ==> #[trigger] after[y][x] == painted(
            if x == food.x && y == food.y {
                Cell::Food
            } else {
                before[y][x]
            },
            body,
            Position { x: x as i32, y: y as i32 },
        )
}

/// The phase after a step that left the snake with the given segments.
pub open spec fn phase_after_step(body: Seq<Position>) -> Phase {
    if bites_itself(body) {
        Phase::Ended(Ending::Died)
    } else {
        Phase::Running
    }
}

impl Game {
    /// The segments of the snake, head first.
    pub closed spec fn segments(&self) -> Seq<Position> {
        self.snake@
    }

    /// The way the snake is heading.
    pub closed spec fn heading(&self) -> Direction {
        self.snake.heading()
    }

    /// The arena as it was last painted, with the food on it.
    pub closed spec fn board(&self) -> Arena {
        self.arena
    }

    /// Where the game stands.
    pub closed spec fn state(&self) -> Phase {
        self.phase
    }

    /// A key has been taken for steering since the snake last stepped.
    pub closed spec fn latched(&self) -> bool {
        self.got_direction
    }

    /// The number of the coming frame within its cycle, from 1.
    pub closed spec fn frame_no(&self) -> int {
        self.frame as int
    }

    /// The snake is a snake and the frame number lies within the cycle.
    pub open spec fn wf(&self) -> bool {
        &&& valid_body(self.segments())
        &&& 1 <= self.frame_no() <= FRAMES_PER_MOVE
    }

    /// The cell in front of the head.
    pub open spec fn ahead(&self) -> Position {
        next_pos_spec(self.segments()[0], self.heading())
    }

    /// The cell in front of the head holds food.
    pub open spec fn eats(&self) -> bool {
        self.board()[self.ahead().y as int][self.ahead().x as int] == Cell::Food
    }

    /// The coming frame is one on which the snake steps.
    pub open spec fn steps_now(&self) -> bool {
        self.state() == Phase::Running && self.frame_no() == FRAMES_PER_MOVE
    }

    /// A game at its start: a snake of three segments heading left, two
    /// pieces of food, running.
    pub fn new() -> (game: Game)
        ensures
            game.wf(),
            game.segments() == seq![
                Position { x: 4, y: 4 },
                Position { x: 4, y: 5 },
                Position { x: 5, y: 5 },
            ],
            game.heading() == Direction::Left,
            forall|x: int, y: int|
                0 <= x < ARENA_X && 0 <= y < ARENA_Y ==> #[trigger] game.board()[y][x] == if y == 12
                    && (x == 10 || x == 5) {
                    Cell::Food
                } else {
                    Cell::Empty
                },
            game.state() == Phase::Running,
            !game.latched(),
            game.frame_no() == 1,
    {
        let mut body: Vec<Position> = Vec::new();
        body.push(Position { x: 4, y: 4 });
        body.push(Position { x: 4, y: 5 });
        body.push(Position { x: 5, y: 5 });
        assert(body@ =~= seq![
            Position { x: 4, y: 4 },
            Position { x: 4, y: 5 },
            Position { x: 5, y: 5 },
        ]);
        let mut arena = empty_arena();
        arena[12][10] = Cell::Food;
        arena[12][5] = Cell::Food;
        match Snake::new(Direction::Left, body) {
            Some(snake) => Game {
                snake,
                arena,
                phase: Phase::Running,
                got_direction: false,
                frame: 1,
            },
            None => {
                proof {
                    assert(false);
                }
                unreached()
            },
        }
    }

    /// A running game with the given snake on the given arena, at the first
    /// frame of its cycle. The arena is taken as it is.
    pub fn with(snake: Snake, arena: Arena) -> (game: Game)
        requires
            snake.wf(),
        ensures
            game.wf(),
            game.segments() == snake@,
            game.heading() == snake.heading(),
            game.board() == arena,
            game.state() == Phase::Running,
            !game.latched(),
            game.frame_no() == 1,
    {
        Game { snake, arena, phase: Phase::Running, got_direction: false, frame: 1 }
    }

    /// Takes in one newly pressed key. Until the snake's next step only the
    /// first key steers, whichever key it is; the pause key pauses a running
    /// game and takes up a paused one; the quit key ends the game. A game that
    /// has ended takes no keys.
    pub fn handle_key(&mut self, key: u8) -> (action: KeyAction)
        requires
            old(self).wf(),
        ensures
            final(self).wf(),
            action == action_for_key(old(self).state(), key),
            final(self).state() == phase_after_key(old(self).state(), key),
            final(self).segments() == old(self).segments(),
            final(self).board() == old(self).board(),
            final(self).frame_no() == old(self).frame_no(),
            final(self).heading() == if old(self).state() is Ended || old(self).latched() {
                old(self).heading()
            } else {
                old(self).heading().turned(key)
            },
            final(self).latched() == (old(self).latched() || !(old(self).state() is Ended)),
    {
        if let Phase::Ended(_) = self.phase {
            return KeyAction::Nothing;
        }
        if !self.got_direction {
            self.got_direction = true;
            self.snake.update_direction(key);
        }
        if key == KEY_PAUSE {
            if self.phase == Phase::Running {
                self.phase = Phase::Paused;
                KeyAction::ShowPaused
            } else {
                self.phase = Phase::Running;
                KeyAction::Nothing
            }
        } else if key == KEY_QUIT {
            self.phase = Phase::Ended(Ending::Quit);
            KeyAction::Stop
        } else {
            KeyAction::Nothing
        }
    }

    /// Counts one frame. On the last frame of a cycle a running game lets the
    /// snake step: onto food it grows, and then either the board is full and
    /// the game is won, or new food is put on an empty cell; onto anything
    /// else it moves. After a step the arena is repainted and the front end is
    /// told to draw; the game ends if the snake has run into itself, and the
    /// next key may steer again.
    pub fn tick(&mut self) -> (action: FrameAction)
        requires
            old(self).wf(),
        ensures
            final(self).wf(),
            final(self).heading() == old(self).heading(),
            final(self).frame_no() == if old(self).state() is Ended {
                old(self).frame_no()
            } else if old(self).frame_no() == FRAMES_PER_MOVE {
                1
            } else {
                old(self).frame_no() + 1
            },
            !old(self).steps_now() ==> {
                &&& action == FrameAction::Idle
                &&& final(self).segments() == old(self).segments()
                &&& final(self).board() == old(self).board()
                &&& final(self).state() == old(self).state()
                &&& final(self).latched() == old(self).latched()
            },
            old(self).steps_now() ==> {
                &&& action == FrameAction::Render
                &&& !final(self).latched()
                &&& final(self).segments() == if old(self).eats() {
                    grown_body(old(self).segments(), old(self).heading())
                } else {
                    moved_body(old(self).segments(), old(self).heading())
                }
                &&& final(self).state() == if old(self).eats() && is_full(old(self).board()) {
                    Phase::Ended(Ending::Won)
                } else {
                    phase_after_step(final(self).segments())
                }
            },
            old(self).steps_now() && !(old(self).eats() && !is_full(old(self).board()))
                ==> is_repaint(old(self).board(), final(self).segments(), final(self).board()),
            old(self).steps_now() && old(self).eats() && !is_full(old(self).board())
                ==> exists|food: Position|
                food.in_arena() && old(self).board()[food.y as int][food.x as int] == Cell::Empty
                    && #[trigger] is_repaint_with_food(
                    old(self).board(),
                    food,
                    final(self).segments(),
                    final(self).board(),
                ),
    {
        if let Phase::Ended(_) = self.phase {
            return FrameAction::Idle;
        }
        if self.frame < FRAMES_PER_MOVE {
            self.frame = self.frame + 1;
            return FrameAction::Idle;
        }
        self.frame = 1;
        if self.phase == Phase::Paused {
            return FrameAction::Idle;
        }
        let ghost mut spawned: Option<Position> = None;
        let next_pos = Snake::next_pos(*self.snake.head_pos(), self.snake.direction());
        // whether the cell ahead holds food decides between growing and
        // just moving forward
        if self.arena[next_pos.y as usize][next_pos.x as usize] == Cell::Food {
            self.snake.add_new_head();
            if arena_is_full(&self.arena) {
                self.phase = Phase::Ended(Ending::Won);
            } else {
                let ghost before = self.arena;
                spawn_food(&mut self.arena);
                proof {
                    let food = choose|food: Position|
                        food.in_arena() && #[trigger] with_food(before, food, self.arena)
                            && before[food.y as int][food.x as int] == Cell::Empty;
                    spawned = Some(food);
                }
            }
        } else {
            self.snake.move_once();
        }
        let ghost fed = self.arena;
        update_arena(&mut self.arena, &self.snake);
        // a lost game ends only after this last frame has been drawn
        if self.phase == Phase::Running && self.snake.should_be_dead() {
            self.phase = Phase::Ended(Ending::Died);
        }
        self.got_direction = false;
        proof {
            if let Some(food) = spawned {
                assert(with_food(old(self).board(), food, fed));
                assert(is_repaint_with_food(
                    old(self).board(),
                    food,
                    self.segments(),
                    self.board(),
                ));
            }
        }
        FrameAction::Render
    }

    /// The snake.
    pub fn snake(&self) -> (snake: &Snake)
        ensures
            snake@ == self.segments(),
            snake.heading() == self.heading(),
    {
        &self.snake
    }

    /// The arena as it was last painted.
    pub fn arena(&self) -> (arena: &Arena)
        ensures
            *arena == self.board(),
    {
        &self.arena
    }

    /// Where the game stands.
    pub fn phase(&self) -> (phase: Phase)
        ensures
            phase == self.state(),
    {
        self.phase
    }

    /// The game has ended.
    pub fn is_over(&self) -> (over: bool)
        ensures
            over == (self.state() is Ended),
    {
        match self.phase {
            Phase::Ended(_) => true,
            _ => false,
        }
    }
}

} // verus!

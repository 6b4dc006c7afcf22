//! The four headings, the keys that select them, and the rule against
//! turning straight back.

use vstd::prelude::*;

verus! {

/// Key code that steers up (the letter W).
pub const KEY_UP: u8 = 87;

/// Key code that steers down (the letter S).
pub const KEY_DOWN: u8 = 83;

/// Key code that steers left (the letter A).
pub const KEY_LEFT: u8 = 65;

/// Key code that steers right (the letter D).
pub const KEY_RIGHT: u8 = 68;

/// A heading on the arena. Rows grow downwards, so `Up` lowers `y`.
#[derive(Clone, Copy, Debug, PartialEq, Eq, Structural)]
pub enum Direction {
    Up,
    Down,
    Left,
    Right,
}

/// The key is none of the four steering keys.
#[derive(Clone, Copy, Debug, PartialEq, Eq, Structural)]
pub struct InvalidKey;

impl Direction {
    /// The heading a key stands for, if it is a steering key.
    pub open spec fn of_key(key: u8) -> Option<Direction> {
        if key == KEY_UP {
            Some(Direction::Up)
        } else if key == KEY_DOWN {
            Some(Direction::Down)
        } else if key == KEY_LEFT {
            Some(Direction::Left)
        } else if key == KEY_RIGHT {
            Some(Direction::Right)
        } else {
            None
        }
    }

    /// The heading that points the other way.
    pub open spec fn opposite(self) -> Direction {
        match self {
            Direction::Up => Direction::Down,
            Direction::Down => Direction::Up,
            Direction::Left => Direction::Right,
            Direction::Right => Direction::Left,
        }
    }

    /// Change of the column in one step.
    pub open spec fn dx(self) -> int {
        match self {
            Direction::Left => -1,
            Direction::Right => 1,
            _ => 0,
        }
    }

    /// Change of the row in one step.
    pub open spec fn dy(self) -> int {
        match self {
            Direction::Up => -1,
            Direction::Down => 1,
            _ => 0,
        }
    }

    /// The heading after `key` was pressed while heading `self`: the key's
    /// heading, unless the key steers nowhere or straight back.
    pub open spec fn turned(self, key: u8) -> Direction {
        match Direction::of_key(key) {
            Some(wanted) => if wanted == self.opposite() {
                self
            } else {
                wanted
            },
            None => self,
        }
    }

    /// Maps a steering key to its heading and rejects every other key.
    pub fn from_key(key: u8) -> (res: Result<Direction, InvalidKey>)
        ensures
            match Direction::of_key(key) {
                Some(d) => res == Ok::<Direction, InvalidKey>(d),
                None => res == Err::<Direction, InvalidKey>(InvalidKey),
            },
    {
        match key {
            87 => Ok(Direction::Up),
            83 => Ok(Direction::Down),
            65 => Ok(Direction::Left),
            68 => Ok(Direction::Right),
            _ => Err(InvalidKey),
        }
    }
}

/// A key that asks for the exact opposite of the current heading changes
/// nothing.
pub proof fn lemma_reversal_is_refused(current: Direction, key: u8)
    requires
        Direction::of_key(key) == Some(current.opposite()),
    ensures
        current.turned(key) == current,
{
}

/// Pressing a key never leaves the snake heading straight back.
pub proof fn lemma_never_turns_back(current: Direction, key: u8)
    ensures
        current.turned(key) != current.opposite(),
{
}

} // verus!

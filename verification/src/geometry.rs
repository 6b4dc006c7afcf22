//! Positions on the arena and the single-step wrap that makes it a torus.

use vstd::prelude::*;

verus! {

/// Number of columns of the arena.
pub const ARENA_X: usize = 17;

/// Number of rows of the arena.
pub const ARENA_Y: usize = 15;

/// A cell coordinate: `x` is the column, `y` the row, both counted from 0.
#[derive(Clone, Copy, Debug, PartialEq, Eq, Structural)]
pub struct Position {
    pub x: i32,
    pub y: i32,
}

impl Position {
    /// The position names a cell of the arena.
    pub open spec fn in_arena(self) -> bool {
        0 <= self.x < ARENA_X && 0 <= self.y < ARENA_Y
    }
}

/// A value one step below `min` re-enters at `max`, one step above `max`
/// re-enters at `min`. Values further out land on the same edges: this is not
/// a modulus.
pub open spec fn wrap_spec(val: int, min: int, max: int) -> int {
    if val < min {
        max
    } else if val > max {
        min
    } else {
        val
    }
}

/// Brings a coordinate that left `[min, max]` by one step back in on the
/// opposite side.
pub fn wrap(val: i32, min: i32, max: i32) -> (res: i32)
    ensures
        res == wrap_spec(val as int, min as int, max as int),
{
    if val < min {
        max
    } else if val > max {
        min
    } else {
        val
    }
}

/// With `min <= max` the wrapped value always lies in `[min, max]`.
pub proof fn lemma_wrap_in_range(val: int, min: int, max: int)
    requires
        min <= max,
    ensures
        min <= wrap_spec(val, min, max) <= max,
{
}

} // verus!

//! Putting new food on a free cell of the arena, picked at random.

use vstd::prelude::*;
use rand::rngs::ThreadRng;
use rand::Rng;
use crate::arena::{with_food, is_full, Arena, Cell};
use crate::geometry::{Position, ARENA_X, ARENA_Y};

verus! {

/// How many random cells `spawn_food` tries before it stops drawing and takes
/// the first free cell. On a board with a single free cell the chance that so
/// many draws all miss it is below one in 10^1000.
pub const SPAWN_DRAWS: u32 = 1_000_000;

/// `rand::rngs::ThreadRng`, the handle to the calling thread's generator.
/// It is carried from the call that makes it to the calls that draw from it;
/// nothing is known of its state.
#[verifier::external_type_specification]
#[verifier::external_body]
pub struct ExThreadRng(ThreadRng);

/// `rand::thread_rng` hands out the calling thread's generator, which the
/// operating system seeds on first use. Nothing is claimed of what it
/// returns. Not proved: that it returns at all, for it panics where the
/// system can give no seed.
pub assume_specification[ rand::thread_rng ]() -> (rng: ThreadRng)
;

/// Draws a number with `rand::Rng::gen_range` on the range `0..bound`. The
/// range must not be empty, or the call panics. Not proved, but taken from
/// the crate: the number drawn lies in the range. Nothing else is claimed of
/// it, so two draws with the same bound may differ.
#[verifier::external_body]
fn draw_below(rng: &mut ThreadRng, bound: usize) -> (drawn: usize)
    requires
        bound > 0,
    ensures
        drawn < bound,
{
    rng.gen_range(0..bound)
}

/// Row-major order of the cells: `(ax, ay)` comes before `(bx, by)`.
pub open spec fn comes_before(ax: int, ay: int, bx: int, by: int) -> bool {
    ay < by || (ay == by && ax < bx)
}

/// Puts food on the cell in column `x` of row `y` if that cell is on the
/// arena and empty, and tells whether it did.
pub fn try_place_food(arena: &mut Arena, x: usize, y: usize) -> (placed: bool)
    ensures
        placed == (x < ARENA_X && y < ARENA_Y && old(arena)[y as int][x as int] == Cell::Empty),
        placed ==> with_food(*old(arena), Position { x: x as i32, y: y as i32 }, *final(arena)),
        !placed ==> *final(arena) == *old(arena),
{
    if x < ARENA_X && y < ARENA_Y && arena[y][x] == Cell::Empty {
        arena[y][x] = Cell::Food;
        true
    } else {
        false
    }
}

/// The first empty cell in row-major order, if the arena has one.
pub fn first_empty(arena: &Arena) -> (found: Option<(usize, usize)>)
    ensures
        found is None <==> is_full(*arena),
        found matches Some((x, y)) ==> {
            &&& x < ARENA_X
            &&& y < ARENA_Y
            &&& arena[y as int][x as int] == Cell::Empty
            &&& forall|cx: int, cy: int|
                0 <= cx < ARENA_X && 0 <= cy < ARENA_Y && comes_before(cx, cy, x as int, y as int)
                    ==> #[trigger] arena[cy][cx] != Cell::Empty
        },
{
    let mut y: usize = 0;
    while y < ARENA_Y
        invariant
            y <= ARENA_Y,
            forall|cx: int, cy: int|
                0 <= cx < ARENA_X && 0 <= cy < y ==> #[trigger] arena[cy][cx] != Cell::Empty,
        decreases ARENA_Y - y,
    {
        let mut x: usize = 0;
        while x < ARENA_X
            invariant
                y < ARENA_Y,
                x <= ARENA_X,
                forall|cx: int, cy: int|
                    0 <= cx < ARENA_X && 0 <= cy < y ==> #[trigger] arena[cy][cx] != Cell::Empty,
                forall|cx: int| 0 <= cx < x ==> #[trigger] arena[y as int][cx] != Cell::Empty,
            decreases ARENA_X - x,
        {
            if arena[y][x] == Cell::Empty {
                return Some((x, y));
            }
            x = x + 1;
        }
        y = y + 1;
    }
    None
}

/// Puts one new piece of food on a cell that was empty and leaves every other
/// cell as it was. Cells are drawn at random, each cell of the arena equally
/// likely, until an empty one comes up; should `SPAWN_DRAWS` draws in a row
/// hit taken cells, the first empty cell in row-major order gets the food.
/// The arena must have an empty cell.
pub fn spawn_food(arena: &mut Arena)
    requires
        !is_full(*old(arena)),
    ensures
        exists|pos: Position|
            pos.in_arena() && #[trigger] with_food(*old(arena), pos, *final(arena)) && old(arena)[pos.y as int][pos.x as int] == Cell::Empty,
{
    let mut rng = rand::thread_rng();
    let mut draws: u32 = SPAWN_DRAWS;
    while draws > 0
        invariant
            *arena == *old(arena),
        decreases draws,
    {
        let x = draw_below(&mut rng, ARENA_X);
        let y = draw_below(&mut rng, ARENA_Y);
        if try_place_food(arena, x, y) {
            assert(Position { x: x as i32, y: y as i32 }.in_arena());
            return ;
        }
        draws = draws - 1;
    }
    match first_empty(arena) {
        Some((x, y)) => {
            let placed = try_place_food(arena, x, y);
            assert(placed && Position { x: x as i32, y: y as i32 }.in_arena());
        },
        None => {},
    }
}

} // verus!

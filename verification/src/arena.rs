//! The arena: what stands on each cell, and how it is repainted from the
//! snake while the food stays where it was put.

use vstd::prelude::*;
use crate::geometry::{Position, ARENA_X, ARENA_Y};
use crate::snake::Snake;

verus! {

/// What stands on a cell of the arena.
#[derive(Clone, Copy, Debug, PartialEq, Eq, Structural)]
pub enum Cell {
    Empty,
    Head,
    Body,
    Food,
}

/// The arena, row by row: the cell in column `x` of row `y` is `arena[y][x]`.
pub type Arena = [[Cell; ARENA_X]; ARENA_Y];

/// The cell of the arena at a position on it.
pub open spec fn cell_at(arena: Arena, pos: Position) -> Cell {
    arena[pos.y as int][pos.x as int]
}

/// What a repaint leaves on the cell at `pos`, once the segments from index
/// `from` to the tail are drawn: the head where the head is, body where a
/// later segment is, and elsewhere the food that lay there or nothing.
pub open spec fn painted_from(before: Cell, body: Seq<Position>, from: int, pos: Position) -> Cell {
    if from <= 0 && body.len() > 0 && body[0] == pos {
        Cell::Head
    } else if exists|i: int| 1 <= i < body.len() && from <= i && #[trigger] body[i] == pos {
        Cell::Body
    } else if before == Cell::Food {
        Cell::Food
    } else {
        Cell::Empty
    }
}

/// What a repaint leaves on the cell at `pos`. The head wins over the body,
/// and the snake over food.
pub open spec fn painted(before: Cell, body: Seq<Position>, pos: Position) -> Cell {
    painted_from(before, body, 0, pos)
}

/// `after` is `before` repainted with a snake of the given segments.
pub open spec fn is_repaint(before: Arena, body: Seq<Position>, after: Arena) -> bool {
    forall|x: int, y: int|
        0 <= x < ARENA_X && 0 <= y < ARENA_Y ==> #[trigger] after[y][x] == painted(
            before[y][x],
            body,
            Position { x: x as i32, y: y as i32 },
        )
}

/// No cell of the arena is empty.
pub open spec fn is_full(arena: Arena) -> bool {
    forall|x: int, y: int|
        0 <= x < ARENA_X && 0 <= y < ARENA_Y ==> #[trigger] arena[y][x] != Cell::Empty
}

/// The arena `before` with food put on the cell at `pos`.
pub open spec fn with_food(before: Arena, pos: Position, after: Arena) -> bool {
    forall|x: int, y: int|
        0 <= x < ARENA_X && 0 <= y < ARENA_Y ==> #[trigger] after[y][x] == if x == pos.x && y
            == pos.y {
            Cell::Food
        } else {
            before[y][x]
        }
}

/// An arena with nothing on it.
pub fn empty_arena() -> (arena: Arena)
    ensures
        forall|x: int, y: int|
            0 <= x < ARENA_X && 0 <= y < ARENA_Y ==> #[trigger] arena[y][x] == Cell::Empty,
{
    [[Cell::Empty; ARENA_X]; ARENA_Y]
}

/// Repaints the arena from the snake: every cell but the food is cleared,
/// then the snake is drawn from the tail to the head, so that the head is
/// drawn last and wins where segments overlap.
pub fn update_arena(arena: &mut Arena, snake: &Snake)
    requires
        snake.wf(),
    ensures
        is_repaint(*old(arena), snake@, *final(arena)),
{
    let mut y: usize = 0;
    while y < ARENA_Y
        invariant
            y <= ARENA_Y,
            forall|cx: int, cy: int|
                0 <= cx < ARENA_X && 0 <= cy < y ==> #[trigger] arena[cy][cx] == if old(arena)[cy][cx] == Cell::Food {
                    Cell::Food
                } else {
                    Cell::Empty
                },
            forall|cx: int, cy: int|
                0 <= cx < ARENA_X && y <= cy < ARENA_Y ==> #[trigger] arena[cy][cx] == old(arena)[cy][cx],
        decreases ARENA_Y - y,
    {
        let mut x: usize = 0;
        while x < ARENA_X
            invariant
                y < ARENA_Y,
                x <= ARENA_X,
                forall|cx: int, cy: int|
                    0 <= cx < ARENA_X && 0 <= cy < y ==> #[trigger] arena[cy][cx] == if old(arena)[cy][cx] == Cell::Food {
                        Cell::Food
                    } else {
                        Cell::Empty
                    },
                forall|cx: int|
                    0 <= cx < x ==> #[trigger] arena[y as int][cx] == if old(arena)[y as int][cx]
                        == Cell::Food {
                        Cell::Food
                    } else {
                        Cell::Empty
                    },
                forall|cx: int|
                    x <= cx < ARENA_X ==> #[trigger] arena[y as int][cx] == old(arena)[y as int][cx],
                forall|cx: int, cy: int|
                    0 <= cx < ARENA_X && y < cy < ARENA_Y ==> #[trigger] arena[cy][cx] == old(arena)[cy][cx],
            decreases ARENA_X - x,
        {
            if arena[y][x] != Cell::Food {
                arena[y][x] = Cell::Empty;
            }
            x = x + 1;
        }
        y = y + 1;
    }
    let body = snake.body();
    let mut i: usize = body.len();
    while i > 0
        invariant
            i <= body.len(),
            body@ == snake@,
            snake.wf(),
            forall|cx: int, cy: int|
                0 <= cx < ARENA_X && 0 <= cy < ARENA_Y ==> #[trigger] arena[cy][cx]
                    == painted_from(
                    old(arena)[cy][cx],
                    body@,
                    i as int,
                    Position { x: cx as i32, y: cy as i32 },
                ),
        decreases i,
    {
        i = i - 1;
        let pos = body[i];
        let ghost prev = *arena;
        if i == 0 {
            arena[pos.y as usize][pos.x as usize] = Cell::Head;
        } else {
            arena[pos.y as usize][pos.x as usize] = Cell::Body;
        }
        assert forall|cx: int, cy: int| 0 <= cx < ARENA_X && 0 <= cy < ARENA_Y implies #[trigger] arena[cy][cx]
            == painted_from(
            old(arena)[cy][cx],
            body@,
            i as int,
            Position { x: cx as i32, y: cy as i32 },
        ) by {
            let p = Position { x: cx as i32, y: cy as i32 };
            assert(body@[i as int].in_arena());
            if p == pos {
                if i > 0 {
                    assert(body@[i as int] == p);
                }
            } else {
                assert(arena[cy][cx] == prev[cy][cx]);
            }
        }
    }
}

/// Tells whether the board is full: no cell is empty.
pub fn arena_is_full(arena: &Arena) -> (full: bool)
    ensures
        full == is_full(*arena),
{
    let mut y: usize = 0;
    while y < ARENA_Y
        invariant
            y <= ARENA_Y,
            forall|cx: int, cy: int|
                0 <= cx < ARENA_X && 0 <= cy < y ==> #[trigger] arena[cy][cx] != Cell::Empty,
        decreases ARENA_Y - y,
    {
        let mut x: usize = 0;
        while x < ARENA_X
            invariant
                y < ARENA_Y,
                x <= ARENA_X,
                forall|cx: int, cy: int|
                    0 <= cx < ARENA_X && 0 <= cy < y ==> #[trigger] arena[cy][cx] != Cell::Empty,
                forall|cx: int| 0 <= cx < x ==> #[trigger] arena[y as int][cx] != Cell::Empty,
            decreases ARENA_X - x,
        {
            if arena[y][x] == Cell::Empty {
                return false;
            }
            x = x + 1;
        }
        y = y + 1;
    }
    true
}

/// Repainting twice with the same snake gives what repainting once gave.
pub proof fn lemma_repaint_is_idempotent(
    before: Arena,
    body: Seq<Position>,
    once: Arena,
    twice: Arena,
)
    requires
        is_repaint(before, body, once),
        is_repaint(once, body, twice),
    ensures
        twice == once,
{
    assert forall|y: int| 0 <= y < ARENA_Y implies twice[y] == once[y] by {
        assert forall|x: int| 0 <= x < ARENA_X implies twice[y][x] == once[y][x] by {
            assert(once[y][x] == painted(before[y][x], body, Position { x: x as i32, y: y as i32 }));
            assert(twice[y][x] == painted(once[y][x], body, Position { x: x as i32, y: y as i32 }));
        }
        assert(twice[y] =~= once[y]);
    }
    assert(twice =~= once);
}

} // verus!

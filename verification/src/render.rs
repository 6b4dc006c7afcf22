//! What a frame puts on the screen, as plain text and screen positions. The
//! front end only has to move the cursor and write the bytes.

use vstd::prelude::*;
use crate::arena::{Arena, Cell};
use crate::geometry::{ARENA_X, ARENA_Y};
use crate::snake::Snake;

verus! {

/// The byte written after every cell, so that columns stand apart: a space.
pub const SPACER: u8 = 32;

/// The character `1`, which shows the head.
pub const GLYPH_HEAD: u8 = 49;

/// The character `2`, which shows a segment of the body.
pub const GLYPH_BODY: u8 = 50;

/// The character `3`, which shows food.
pub const GLYPH_FOOD: u8 = 51;

/// The character `.`, which shows an empty cell.
pub const GLYPH_EMPTY: u8 = 46;

/// The character `0`, from which the digits count up.
pub const DIGIT_ZERO: u8 = 48;

/// A piece of text and the screen cell where it starts.
#[derive(Debug)]
pub struct Draw {
    pub col: i16,
    pub row: i16,
    pub text: Vec<u8>,
}

/// The character that shows a cell: `1` for the head, `2` for the body, `3`
/// for food and `.` for an empty cell.
pub open spec fn glyph(cell: Cell) -> u8 {
    match cell {
        Cell::Head => GLYPH_HEAD,
        Cell::Body => GLYPH_BODY,
        Cell::Food => GLYPH_FOOD,
        Cell::Empty => GLYPH_EMPTY,
    }
}

/// Place of the cell in column `x` of row `y` among the draws of a frame.
pub open spec fn draw_index(x: int, y: int) -> int {
    y * ARENA_X + x
}

/// The canonical decimal numeral of `n`, as ASCII digits.
pub open spec fn decimal(n: nat) -> Seq<u8>
    decreases n,
{
    if n < 10 {
        seq![(DIGIT_ZERO + n) as u8]
    } else {
        decimal(n / 10).push((DIGIT_ZERO + n % 10) as u8)
    }
}

/// The number that a string of ASCII digits stands for.
pub open spec fn decimal_value(digits: Seq<u8>) -> nat
    decreases digits.len(),
{
    if digits.len() == 0 {
        0
    } else {
        10 * decimal_value(digits.drop_last()) + (digits.last() - DIGIT_ZERO) as nat
    }
}

/// The caption shown while the game is paused: `P A U S E D `.
pub open spec fn paused_caption() -> Seq<u8> {
    seq![80u8, 32u8, 65u8, 32u8, 85u8, 32u8, 83u8, 32u8, 69u8, 32u8, 68u8, 32u8]
}

/// The character that shows a cell.
pub fn cell_glyph(cell: Cell) -> (byte: u8)
    ensures
        byte == glyph(cell),
{
    match cell {
        Cell::Head => GLYPH_HEAD,
        Cell::Body => GLYPH_BODY,
        Cell::Food => GLYPH_FOOD,
        Cell::Empty => GLYPH_EMPTY,
    }
}

/// The draws that show the arena, row by row: each cell is its character and
/// a spacer, two screen columns wide, in the screen row of its arena row.
pub fn arena_draws(arena: &Arena) -> (draws: Vec<Draw>)
    ensures
        draws@.len() == ARENA_X * ARENA_Y,
        forall|x: int, y: int|
            0 <= x < ARENA_X && 0 <= y < ARENA_Y ==> {
                let draw = #[trigger] draws@[draw_index(x, y)];
                &&& draw.col == 2 * x
                &&& draw.row == y
                &&& draw.text@ == seq![glyph(arena[y][x]), SPACER]
            },
{
    let mut draws: Vec<Draw> = Vec::new();
    let mut y: usize = 0;
    while y < ARENA_Y
        invariant
            y <= ARENA_Y,
            draws@.len() == y * ARENA_X,
            forall|cx: int, cy: int|
                0 <= cx < ARENA_X && 0 <= cy < y ==> {
                    let draw = #[trigger] draws@[draw_index(cx, cy)];
                    &&& draw.col == 2 * cx
                    &&& draw.row == cy
                    &&& draw.text@ == seq![glyph(arena[cy][cx]), SPACER]
                },
        decreases ARENA_Y - y,
    {
        let mut x: usize = 0;
        while x < ARENA_X
            invariant
                y < ARENA_Y,
                x <= ARENA_X,
                draws@.len() == y * ARENA_X + x,
                forall|cx: int, cy: int|
                    0 <= cx < ARENA_X && 0 <= cy < y ==> {
                        let draw = #[trigger] draws@[draw_index(cx, cy)];
                        &&& draw.col == 2 * cx
                        &&& draw.row == cy
                        &&& draw.text@ == seq![glyph(arena[cy][cx]), SPACER]
                    },
                forall|cx: int|
                    0 <= cx < x ==> {
                        let draw = #[trigger] draws@[draw_index(cx, y as int)];
                        &&& draw.col == 2 * cx
                        &&& draw.row == y
                        &&& draw.text@ == seq![glyph(arena[y as int][cx]), SPACER]
                    },
            decreases ARENA_X - x,
        {
            let mut text: Vec<u8> = Vec::new();
            text.push(cell_glyph(arena[y][x]));
            text.push(SPACER);
            assert(text@ =~= seq![glyph(arena[y as int][x as int]), SPACER]);
            draws.push(Draw { col: x as i16 * 2, row: y as i16, text });
            x = x + 1;
        }
        y = y + 1;
    }
    draws
}

/// The canonical decimal numeral of `n`, as ASCII digits.
pub fn decimal_text(n: usize) -> (text: Vec<u8>)
    ensures
        text@ == decimal(n as nat),
    decreases n,
{
    if n < 10 {
        let mut text: Vec<u8> = Vec::new();
        text.push(DIGIT_ZERO + n as u8);
        assert(text@ =~= decimal(n as nat));
        text
    } else {
        let mut text = decimal_text(n / 10);
        text.push(DIGIT_ZERO + (n % 10) as u8);
        text
    }
}

/// The score line: the number of segments of the snake in decimal, at the
/// start of the screen row just below the arena.
pub fn score_draw(snake: &Snake) -> (draw: Draw)
    ensures
        draw.col == 0,
        draw.row == ARENA_Y,
        draw.text@ == decimal(snake@.len()),
{
    Draw { col: 0, row: ARENA_Y as i16, text: decimal_text(snake.len()) }
}

/// The caption that is put over the arena when the game is paused.
pub fn paused_draw() -> (draw: Draw)
    ensures
        draw.col == ARENA_X - 6,
        draw.row == ARENA_Y / 3,
        draw.text@ == paused_caption(),
{
    let mut text: Vec<u8> = Vec::new();
    let letters: [u8; 6] = [80, 65, 85, 83, 69, 68];
    let mut i: usize = 0;
    while i < 6
        invariant
            i <= 6,
            letters@ == seq![80u8, 65u8, 85u8, 83u8, 69u8, 68u8],
            text@ == paused_caption().take(2 * i),
        decreases 6 - i,
    {
        text.push(letters[i]);
        text.push(SPACER);
        assert(text@ =~= paused_caption().take(2 * (i + 1)));
        i = i + 1;
    }
    assert(text@ =~= paused_caption());
    Draw { col: ARENA_X as i16 - 6, row: ARENA_Y as i16 / 3, text }
}

/// A decimal numeral is made of digits, starts with `0` only when it is `0`
/// itself, and stands for the number it was made from.
pub proof fn lemma_decimal_reads_back(n: nat)
    ensures
        decimal(n).len() >= 1,
        forall|i: int| 0 <= i < decimal(n).len() ==> DIGIT_ZERO <= #[trigger] decimal(n)[i] <= DIGIT_ZERO + 9,
        decimal(n)[0] == DIGIT_ZERO <==> n == 0,
        decimal_value(decimal(n)) == n,
    decreases n,
{
    let digits = decimal(n);
    if n < 10 {
        assert(digits.drop_last() =~= Seq::<u8>::empty());
        assert(decimal_value(digits.drop_last()) == 0);
        assert(digits.last() == DIGIT_ZERO + n);
    } else {
        lemma_decimal_reads_back(n / 10);
        assert(digits.drop_last() =~= decimal(n / 10));
        assert(digits.last() == DIGIT_ZERO + n % 10);
    }
    assert(decimal_value(digits) == 10 * decimal_value(digits.drop_last()) + (digits.last()
        - DIGIT_ZERO) as nat);
}

} // verus!

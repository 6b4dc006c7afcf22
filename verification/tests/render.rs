use snake::arena::{empty_arena, update_arena, Cell};
use snake::direction::Direction;
use snake::geometry::Position;
use snake::render::{arena_draws, cell_glyph, decimal_text, paused_draw, score_draw, SPACER};
use snake::snake::Snake;

fn snake_with(cells: usize) -> Snake {
    let body: Vec<Position> =
        (0..cells).map(|i| Position { x: (i % 17) as i32, y: (i / 17) as i32 }).collect();
    match Snake::new(Direction::Right, body) {
        Some(snake) => snake,
        None => panic!("these cells make no snake"),
    }
}

#[test]
fn cell_glyph_maps_each_kind_of_cell() {
    assert_eq!(cell_glyph(Cell::Head), b'1');
    assert_eq!(cell_glyph(Cell::Body), b'2');
    assert_eq!(cell_glyph(Cell::Food), b'3');
    assert_eq!(cell_glyph(Cell::Empty), b'.');
    assert_eq!(SPACER, b' ');
}

#[test]
fn arena_draws_has_one_draw_per_cell_in_row_order() {
    let mut arena = empty_arena();
    arena[12][10] = Cell::Food;
    let snake = match Snake::new(
        Direction::Left,
        vec![Position { x: 4, y: 4 }, Position { x: 4, y: 5 }],
    ) {
        Some(snake) => snake,
        None => panic!("these cells make no snake"),
    };
    update_arena(&mut arena, &snake);
    let draws = arena_draws(&arena);
    assert_eq!(draws.len(), 255);
    for y in 0..15usize {
        for x in 0..17usize {
            let draw = &draws[y * 17 + x];
            assert_eq!(draw.col, (x * 2) as i16);
            assert_eq!(draw.row, y as i16);
            assert_eq!(draw.text, vec![cell_glyph(arena[y][x]), b' ']);
        }
    }
    assert_eq!(draws[4 * 17 + 4].text, b"1 ".to_vec());
    assert_eq!(draws[5 * 17 + 4].text, b"2 ".to_vec());
    assert_eq!(draws[12 * 17 + 10].text, b"3 ".to_vec());
    assert_eq!(draws[0].text, b". ".to_vec());
    assert_eq!(draws[254].col, 32);
    assert_eq!(draws[254].row, 14);
}

#[test]
fn decimal_text_writes_canonical_numerals() {
    assert_eq!(decimal_text(0), b"0".to_vec());
    assert_eq!(decimal_text(3), b"3".to_vec());
    assert_eq!(decimal_text(9), b"9".to_vec());
    assert_eq!(decimal_text(10), b"10".to_vec());
    assert_eq!(decimal_text(255), b"255".to_vec());
    assert_eq!(decimal_text(1002003), b"1002003".to_vec());
    assert_eq!(decimal_text(usize::MAX), usize::MAX.to_string().into_bytes());
}

#[test]
fn decimal_text_agrees_with_the_standard_library() {
    for n in 0..2000usize {
        assert_eq!(decimal_text(n), n.to_string().into_bytes());
    }
}

#[test]
fn score_draw_shows_the_length_below_the_arena() {
    let draw = score_draw(&snake_with(3));
    assert_eq!(draw.col, 0);
    assert_eq!(draw.row, 15);
    assert_eq!(draw.text, b"3".to_vec());
    assert_eq!(score_draw(&snake_with(12)).text, b"12".to_vec());
    assert_eq!(score_draw(&snake_with(255)).text, b"255".to_vec());
}

#[test]
fn paused_draw_is_the_fixed_caption() {
    let draw = paused_draw();
    assert_eq!(draw.col, 11);
    assert_eq!(draw.row, 5);
    assert_eq!(draw.text, b"P A U S E D ".to_vec());
}

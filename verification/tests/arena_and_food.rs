use snake::arena::{arena_is_full, empty_arena, update_arena, Arena, Cell};
use snake::direction::Direction;
use snake::food::{first_empty, spawn_food, try_place_food};
use snake::geometry::Position;
use snake::snake::Snake;

fn make_snake(direction: Direction, cells: &[(i32, i32)]) -> Snake {
    let body: Vec<Position> = cells.iter().map(|c| Position { x: c.0, y: c.1 }).collect();
    match Snake::new(direction, body) {
        Some(snake) => snake,
        None => panic!("these cells make no snake"),
    }
}

fn count(arena: &Arena, what: Cell) -> usize {
    arena.iter().flatten().filter(|cell| **cell == what).count()
}

fn full_of(what: Cell) -> Arena {
    [[what; 17]; 15]
}

#[test]
fn empty_arena_has_nothing_on_it() {
    let arena = empty_arena();
    assert_eq!(arena.len(), 15);
    assert_eq!(arena[0].len(), 17);
    assert_eq!(count(&arena, Cell::Empty), 255);
}

#[test]
fn update_arena_paints_head_and_body() {
    let mut arena = empty_arena();
    let snake = make_snake(Direction::Left, &[(4, 4), (4, 5), (5, 5)]);
    update_arena(&mut arena, &snake);
    assert_eq!(arena[4][4], Cell::Head);
    assert_eq!(arena[5][4], Cell::Body);
    assert_eq!(arena[5][5], Cell::Body);
    assert_eq!(count(&arena, Cell::Head), 1);
    assert_eq!(count(&arena, Cell::Body), 2);
    assert_eq!(count(&arena, Cell::Empty), 252);
}

#[test]
fn update_arena_keeps_food_and_clears_the_old_snake() {
    let mut arena = empty_arena();
    arena[12][10] = Cell::Food;
    arena[12][5] = Cell::Food;
    arena[0][0] = Cell::Head;
    arena[0][1] = Cell::Body;
    let snake = make_snake(Direction::Left, &[(4, 4), (4, 5)]);
    update_arena(&mut arena, &snake);
    assert_eq!(arena[12][10], Cell::Food);
    assert_eq!(arena[12][5], Cell::Food);
    assert_eq!(arena[0][0], Cell::Empty);
    assert_eq!(arena[0][1], Cell::Empty);
    assert_eq!(arena[4][4], Cell::Head);
    assert_eq!(arena[5][4], Cell::Body);
    assert_eq!(count(&arena, Cell::Food), 2);
    assert_eq!(count(&arena, Cell::Empty), 251);
}

#[test]
fn update_arena_lets_the_head_win_an_overlap() {
    let mut arena = empty_arena();
    let snake = make_snake(Direction::Up, &[(4, 5), (4, 4), (4, 5)]);
    update_arena(&mut arena, &snake);
    assert_eq!(arena[5][4], Cell::Head);
    assert_eq!(arena[4][4], Cell::Body);
    assert_eq!(count(&arena, Cell::Head), 1);
    assert_eq!(count(&arena, Cell::Body), 1);
}

#[test]
fn update_arena_paints_the_snake_over_food() {
    let mut arena = empty_arena();
    arena[4][4] = Cell::Food;
    arena[5][4] = Cell::Food;
    let snake = make_snake(Direction::Up, &[(4, 4), (4, 5)]);
    update_arena(&mut arena, &snake);
    assert_eq!(arena[4][4], Cell::Head);
    assert_eq!(arena[5][4], Cell::Body);
    assert_eq!(count(&arena, Cell::Food), 0);
}

#[test]
fn update_arena_twice_gives_the_same_arena() {
    let mut arena = empty_arena();
    arena[12][10] = Cell::Food;
    arena[4][3] = Cell::Food;
    arena[9][9] = Cell::Body;
    let snake = make_snake(Direction::Left, &[(3, 4), (4, 4), (4, 5), (5, 5)]);
    update_arena(&mut arena, &snake);
    let once = arena;
    update_arena(&mut arena, &snake);
    assert_eq!(arena, once);
}

#[test]
fn arena_is_full_only_without_an_empty_cell() {
    assert!(!arena_is_full(&empty_arena()));
    assert!(arena_is_full(&full_of(Cell::Body)));
    assert!(arena_is_full(&full_of(Cell::Food)));
    let mut arena = full_of(Cell::Body);
    arena[14][16] = Cell::Empty;
    assert!(!arena_is_full(&arena));
    arena[14][16] = Cell::Head;
    assert!(arena_is_full(&arena));
    arena[0][0] = Cell::Empty;
    assert!(!arena_is_full(&arena));
}

#[test]
fn try_place_food_fills_an_empty_cell() {
    let mut arena = empty_arena();
    assert!(try_place_food(&mut arena, 3, 4));
    assert_eq!(arena[4][3], Cell::Food);
    assert_eq!(count(&arena, Cell::Food), 1);
    assert_eq!(count(&arena, Cell::Empty), 254);
}

#[test]
fn try_place_food_leaves_a_taken_cell() {
    let mut arena = empty_arena();
    arena[4][3] = Cell::Body;
    arena[4][4] = Cell::Head;
    arena[4][5] = Cell::Food;
    let before = arena;
    assert!(!try_place_food(&mut arena, 3, 4));
    assert!(!try_place_food(&mut arena, 4, 4));
    assert!(!try_place_food(&mut arena, 5, 4));
    assert_eq!(arena, before);
}

#[test]
fn try_place_food_refuses_cells_off_the_arena() {
    let mut arena = empty_arena();
    assert!(!try_place_food(&mut arena, 17, 0));
    assert!(!try_place_food(&mut arena, 0, 15));
    assert!(!try_place_food(&mut arena, usize::MAX, usize::MAX));
    assert_eq!(arena, empty_arena());
}

#[test]
fn first_empty_goes_row_by_row() {
    assert_eq!(first_empty(&empty_arena()), Some((0, 0)));
    assert_eq!(first_empty(&full_of(Cell::Food)), None);
    let mut arena = full_of(Cell::Body);
    arena[7][3] = Cell::Empty;
    arena[6][9] = Cell::Empty;
    arena[6][11] = Cell::Empty;
    assert_eq!(first_empty(&arena), Some((9, 6)));
}

#[test]
fn spawn_food_puts_one_food_on_an_empty_cell() {
    for _ in 0..50 {
        let mut arena = empty_arena();
        arena[12][10] = Cell::Food;
        let snake = make_snake(Direction::Left, &[(4, 4), (4, 5), (5, 5)]);
        update_arena(&mut arena, &snake);
        let before = arena;
        spawn_food(&mut arena);
        assert_eq!(count(&arena, Cell::Food), 2);
        assert_eq!(count(&arena, Cell::Empty), 250);
        let mut changed = 0;
        for y in 0..15 {
            for x in 0..17 {
                if arena[y][x] != before[y][x] {
                    changed += 1;
                    assert_eq!(before[y][x], Cell::Empty);
                    assert_eq!(arena[y][x], Cell::Food);
                }
            }
        }
        assert_eq!(changed, 1);
    }
}

#[test]
fn spawn_food_finds_the_last_empty_cell() {
    let mut arena = full_of(Cell::Body);
    arena[13][2] = Cell::Empty;
    spawn_food(&mut arena);
    assert_eq!(arena[13][2], Cell::Food);
    assert!(arena_is_full(&arena));
    assert_eq!(count(&arena, Cell::Food), 1);
}

#[test]
fn spawn_food_draws_its_cells_at_random() {
    let mut seen: Vec<(usize, usize)> = Vec::new();
    for _ in 0..60 {
        let mut arena = empty_arena();
        spawn_food(&mut arena);
        for y in 0..15 {
            for x in 0..17 {
                if arena[y][x] == Cell::Food && !seen.contains(&(x, y)) {
                    seen.push((x, y));
                }
            }
        }
    }
    assert!(seen.len() > 1);
    assert!(seen.iter().any(|cell| cell.0 != 0));
    assert!(seen.iter().any(|cell| cell.1 != 0));
}

//! The snake: its segments from head to tail and its heading.

use vstd::prelude::*;
use crate::direction::Direction;
use crate::geometry::{wrap, wrap_spec, Position, ARENA_X, ARENA_Y};

verus! {

/// The cell one step from `pos` towards `dir`, re-entering on the opposite
/// side where the step leaves the arena.
pub open spec fn next_pos_spec(pos: Position, dir: Direction) -> Position {
    Position {
        x: wrap_spec(pos.x + dir.dx(), 0, ARENA_X - 1) as i32,
        y: wrap_spec(pos.y + dir.dy(), 0, ARENA_Y - 1) as i32,
    }
}

/// `v - 1`, except at the smallest value, which stays: far off the arena
/// either of the two wraps to the same edge.
fn one_less(v: i32) -> (r: i32)
    ensures
        r == if v > i32::MIN { v - 1 } else { v as int },
{
    if v > i32::MIN {
        v - 1
    } else {
        v
    }
}

/// `v + 1`, except at the largest value, which stays.
fn one_more(v: i32) -> (r: i32)
    ensures
        r == if v < i32::MAX { v + 1 } else { v as int },
{
    if v < i32::MAX {
        v + 1
    } else {
        v
    }
}

/// A snake: its segments from the head (index 0) to the tail, and the way it
/// is heading. A snake always has a head, and every segment lies on the arena.
pub struct Snake {
    direction: Direction,
    body: Vec<Position>,
}

impl View for Snake {
    type V = Seq<Position>;

    /// The segments, head first.
    closed spec fn view(&self) -> Seq<Position> {
        self.body@
    }
}

/// The segments after one plain step: a new head in front, every other
/// segment on the cell of the one that was ahead of it, the tail cell given up.
pub open spec fn moved_body(body: Seq<Position>, dir: Direction) -> Seq<Position> {
    Seq::new(
        body.len(),
        |i: int|
            if i == 0 {
                next_pos_spec(body[0], dir)
            } else {
                body[i - 1]
            },
    )
}

/// The segments after a growing step: a new head in front of all the old ones.
pub open spec fn grown_body(body: Seq<Position>, dir: Direction) -> Seq<Position> {
    seq![next_pos_spec(body[0], dir)] + body
}

/// The head shares its cell with a later segment.
pub open spec fn bites_itself(body: Seq<Position>) -> bool {
    exists|i: int| 1 <= i < body.len() && #[trigger] body[i] == body[0]
}

/// Segments that a snake can be made of: at least a head, all on the arena.
pub open spec fn valid_body(body: Seq<Position>) -> bool {
    &&& body.len() >= 1
    &&& forall|i: int| 0 <= i < body.len() ==> (#[trigger] body[i]).in_arena()
}

impl Snake {
    /// The way the snake is heading.
    pub closed spec fn heading(&self) -> Direction {
        self.direction
    }

    /// The snake has a head and lies on the arena.
    pub open spec fn wf(&self) -> bool {
        valid_body(self@)
    }

    /// Makes a snake of the given segments, head first. There is no snake
    /// without a head or with a segment off the arena.
    pub fn new(direction: Direction, body: Vec<Position>) -> (res: Option<Snake>)
        ensures
            res is Some <==> valid_body(body@),
            res matches Some(snake) ==> snake.wf() && snake@ == body@ && snake.heading()
                == direction,
    {
        if body.len() == 0 {
            return None;
        }
        let mut i: usize = 0;
        while i < body.len()
            invariant
                i <= body.len(),
                forall|j: int| 0 <= j < i ==> (#[trigger] body@[j]).in_arena(),
            decreases body.len() - i,
        {
            let p = body[i];
            if p.x < 0 || p.x >= ARENA_X as i32 || p.y < 0 || p.y >= ARENA_Y as i32 {
                assert(!body@[i as int].in_arena());
                return None;
            }
            i = i + 1;
        }
        Some(Snake { direction, body })
    }

    /// Will move the snake body one space.
    pub fn move_once(&mut self)
        requires
            old(self).wf(),
        ensures
            final(self).wf(),
            final(self)@ == moved_body(old(self)@, old(self).heading()),
            final(self)@.len() == old(self)@.len(),
            final(self).heading() == old(self).heading(),
    {
        let mut i: usize = self.body.len() - 1;
        while i > 0
            invariant
                i < self.body.len(),
                self.body.len() == old(self).body.len(),
                self.direction == old(self).direction,
                forall|j: int| 0 <= j <= i ==> self.body@[j] == old(self).body@[j],
                forall|j: int| i < j < self.body.len() ==> self.body@[j] == old(self).body@[j - 1],
            decreases i,
        {
            let ahead = self.body[i - 1];
            self.body[i] = ahead;
            i = i - 1;
        }
        let head = Snake::next_pos(self.body[0], self.direction);
        self.body[0] = head;
        assert(self.body@ =~= moved_body(old(self)@, old(self).heading()));
    }

    /// Will insert a new head to the snake.
    pub fn add_new_head(&mut self)
        requires
            old(self).wf(),
        ensures
            final(self).wf(),
            final(self)@ == grown_body(old(self)@, old(self).heading()),
            final(self)@.len() == old(self)@.len() + 1,
            final(self)@[0] == next_pos_spec(old(self)@[0], old(self).heading()),
            final(self).heading() == old(self).heading(),
    {
        let head = Snake::next_pos(*self.head_pos(), self.direction);
        self.body.insert(0, head);
        assert(self.body@ =~= grown_body(old(self)@, old(self).heading()));
    }

    /// Returns the next position of a position based on the given direction.
    pub fn next_pos(pos: Position, dir: Direction) -> (next: Position)
        ensures
            next == next_pos_spec(pos, dir),
            next.in_arena(),
    {
        let moved = match dir {
            Direction::Up => Position { x: pos.x, y: one_less(pos.y) },
            Direction::Down => Position { x: pos.x, y: one_more(pos.y) },
            Direction::Left => Position { x: one_less(pos.x), y: pos.y },
            Direction::Right => Position { x: one_more(pos.x), y: pos.y },
        };
        Position {
            x: wrap(moved.x, 0, ARENA_X as i32 - 1),
            y: wrap(moved.y, 0, ARENA_Y as i32 - 1),
        }
    }

    /// Update direction based on which key is being pressed and current
    /// direction.
    pub fn update_direction(&mut self, key: u8)
        ensures
            final(self).heading() == old(self).heading().turned(key),
            final(self)@ == old(self)@,
    {
        let new_direction = match Direction::from_key(key) {
            Ok(direction) => direction,
            Err(_) => self.direction,
        };
        // if new direction is opposite of current direction,
        // don't change current direction
        self.direction = match (self.direction, new_direction) {
            (Direction::Up, Direction::Down) => self.direction,
            (Direction::Down, Direction::Up) => self.direction,
            (Direction::Left, Direction::Right) => self.direction,
            (Direction::Right, Direction::Left) => self.direction,
            _ => new_direction,
        }
    }

    /// Get the position of the current head.
    pub fn head_pos(&self) -> (head: &Position)
        requires
            self.wf(),
        ensures
            *head == self@[0],
    {
        &self.body[0]
    }

    /// Check if the snakes head is overlapping with any of the body segments.
    pub fn should_be_dead(&self) -> (dead: bool)
        requires
            self.wf(),
        ensures
            dead == bites_itself(self@),
    {
        let head = self.body[0];
        let mut i: usize = 1;
        while i < self.body.len()
            invariant
                1 <= i <= self.body.len(),
                head == self.body@[0],
                forall|j: int| 1 <= j < i ==> self.body@[j] != head,
            decreases self.body.len() - i,
        {
            if self.body[i] == head {
                return true;
            }
            i = i + 1;
        }
        false
    }

    /// Number of segments, the head included.
    pub fn len(&self) -> (n: usize)
        ensures
            n == self@.len(),
    {
        self.body.len()
    }

    /// The way the snake is heading.
    pub fn direction(&self) -> (dir: Direction)
        ensures
            dir == self.heading(),
    {
        self.direction
    }

    /// The segments, head first.
    pub fn body(&self) -> (body: &Vec<Position>)
        ensures
            body@ == self@,
    {
        &self.body
    }
}

/// A snake whose segments all lie on different cells does not bite itself.
pub proof fn lemma_distinct_segments_are_safe(body: Seq<Position>)
    requires
        forall|i: int, j: int| 0 <= i < j < body.len() ==> body[i] != body[j],
    ensures
        !bites_itself(body),
{
}

/// A plain step keeps the number of segments, whatever the snake.
pub proof fn lemma_move_keeps_length(body: Seq<Position>, dir: Direction)
    ensures
        moved_body(body, dir).len() == body.len(),
{
}

/// A growing step adds exactly one segment, and the new head is the cell in
/// front of the old head.
pub proof fn lemma_grow_adds_head(body: Seq<Position>, dir: Direction)
    requires
        body.len() >= 1,
    ensures
        grown_body(body, dir).len() == body.len() + 1,
        grown_body(body, dir)[0] == next_pos_spec(body[0], dir),
        forall|i: int| 0 <= i < body.len() ==> grown_body(body, dir)[i + 1] == body[i],
{
}

/// The cell reached from `pos` after `steps` steps towards `dir`.
pub open spec fn walk(pos: Position, dir: Direction, steps: nat) -> Position
    decreases steps,
{
    if steps == 0 {
        pos
    } else {
        next_pos_spec(walk(pos, dir, (steps - 1) as nat), dir)
    }
}

/// Number of steps after which a walk towards `dir` is back where it began:
/// the length of the ring it walks on.
pub open spec fn ring_len(dir: Direction) -> nat {
    match dir {
        Direction::Up | Direction::Down => ARENA_Y as nat,
        Direction::Left | Direction::Right => ARENA_X as nat,
    }
}

/// One step from any position whatsoever ends on the arena.
pub proof fn lemma_step_stays_on_arena(pos: Position, dir: Direction)
    ensures
        next_pos_spec(pos, dir).in_arena(),
{
}

/// Where a walk of at most one ring length from a cell of the arena ends: it
/// moves along one axis only, and past the edge it goes on from the other side.
pub open spec fn walk_end(pos: Position, dir: Direction, steps: nat) -> Position {
    match dir {
        Direction::Up => Position { x: pos.x, y: around(pos.y - steps, ARENA_Y as int) as i32 },
        Direction::Down => Position { x: pos.x, y: around(pos.y + steps, ARENA_Y as int) as i32 },
        Direction::Left => Position { x: around(pos.x - steps, ARENA_X as int) as i32, y: pos.y },
        Direction::Right => Position { x: around(pos.x + steps, ARENA_X as int) as i32, y: pos.y },
    }
}

/// Brings a coordinate that is less than one ring length off the ring back
/// onto it.
pub open spec fn around(v: int, len: int) -> int {
    if v < 0 {
        v + len
    } else if v >= len {
        v - len
    } else {
        v
    }
}

/// Step by step, a walk of at most one ring length from a cell of the arena
/// follows `walk_end` and never leaves the arena.
pub proof fn lemma_walk_position(pos: Position, dir: Direction, steps: nat)
    requires
        pos.in_arena(),
        steps <= ring_len(dir),
    ensures
        walk(pos, dir, steps).in_arena(),
        walk(pos, dir, steps) == walk_end(pos, dir, steps),
    decreases steps,
{
    if steps > 0 {
        lemma_walk_position(pos, dir, (steps - 1) as nat);
    }
}

/// Two walks from one cell towards `dir` that differ by less than a ring
/// length end on different cells.
pub proof fn lemma_walk_is_injective(pos: Position, dir: Direction, i: nat, j: nat)
    requires
        pos.in_arena(),
        i < j < ring_len(dir),
    ensures
        walk(pos, dir, i) != walk(pos, dir, j),
{
    lemma_walk_position(pos, dir, i);
    lemma_walk_position(pos, dir, j);
}

/// Every cell of the ring through `pos` along `dir` is reached within one
/// ring length; the result is the number of steps it takes.
pub proof fn lemma_walk_reaches(pos: Position, dir: Direction, cell: Position) -> (steps: nat)
    requires
        pos.in_arena(),
        cell.in_arena(),
        dir.dx() == 0 ==> cell.x == pos.x,
        dir.dy() == 0 ==> cell.y == pos.y,
    ensures
        steps < ring_len(dir),
        walk(pos, dir, steps) == cell,
{
    let gap: int = match dir {
        Direction::Up => pos.y - cell.y,
        Direction::Down => cell.y - pos.y,
        Direction::Left => pos.x - cell.x,
        Direction::Right => cell.x - pos.x,
    };
    let steps: nat = if gap >= 0 {
        gap as nat
    } else {
        (gap + ring_len(dir)) as nat
    };
    lemma_walk_position(pos, dir, steps);
    steps
}

/// Walking on after a walk is one longer walk.
pub proof fn lemma_walk_adds(pos: Position, dir: Direction, first: nat, then: nat)
    ensures
        walk(walk(pos, dir, first), dir, then) == walk(pos, dir, first + then),
    decreases then,
{
    if then > 0 {
        lemma_walk_adds(pos, dir, first, (then - 1) as nat);
    }
}

/// The arena is a torus: a walk in one direction comes back to its start
/// after one ring length, and on the way stands on every cell of the ring
/// exactly once.
pub proof fn lemma_walk_cycles_through_ring(pos: Position, dir: Direction)
    requires
        pos.in_arena(),
    ensures
        walk(pos, dir, ring_len(dir)) == pos,
        forall|i: nat, j: nat|
            i < j < ring_len(dir) ==> #[trigger] walk(pos, dir, i) != #[trigger] walk(pos, dir, j),
        forall|cell: Position|
            #![trigger cell.in_arena()]
            cell.in_arena() && (dir.dx() == 0 ==> cell.x == pos.x) && (dir.dy() == 0 ==> cell.y
                == pos.y) ==> exists|i: nat| i < ring_len(dir) && #[trigger] walk(pos, dir, i)
                == cell,
{
    lemma_walk_position(pos, dir, ring_len(dir));
    assert forall|i: nat, j: nat| i < j < ring_len(dir) implies #[trigger] walk(pos, dir, i)
        != #[trigger] walk(pos, dir, j) by {
        lemma_walk_is_injective(pos, dir, i, j);
    }
    assert forall|cell: Position|
        #![trigger cell.in_arena()]
        cell.in_arena() && (dir.dx() == 0 ==> cell.x == pos.x) && (dir.dy() == 0 ==> cell.y
            == pos.y) implies exists|i: nat| i < ring_len(dir) && #[trigger] walk(pos, dir, i)
        == cell by {
        let n = lemma_walk_reaches(pos, dir, cell);
        assert(n < ring_len(dir) && walk(pos, dir, n) == cell);
    }
}

/// From any position whatsoever, a walk that has taken a step is on the arena
/// and from then on repeats itself every ring length.
pub proof fn lemma_walk_is_periodic(pos: Position, dir: Direction, steps: nat)
    requires
        steps >= 1 || pos.in_arena(),
    ensures
        walk(pos, dir, steps).in_arena(),
        walk(pos, dir, steps + ring_len(dir)) == walk(pos, dir, steps),
{
    let here = walk(pos, dir, steps);
    lemma_walk_position(here, dir, ring_len(dir));
    lemma_walk_adds(pos, dir, steps, ring_len(dir));
}

} // verus!

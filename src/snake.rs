use vstd::prelude::*;
use crate::grid::{Coord, GRID_SIDE, on_map};

verus! {

/// The direction in which the head moves on the next tick.
#[derive(Clone, Copy, Debug, PartialEq, Eq, Structural)]
pub enum Direction {
    Up,
    Right,
    Down,
    Left,
}

/// The ordered segments of a snake: the tail first, the head last.
pub struct Snake {
    pub segments: Vec<Coord>,
}

impl View for Snake {
    type V = Seq<Coord>;

    open spec fn view(&self) -> Seq<Coord> {
        self.segments@
    }
}

impl Snake {
    /// A snake has at least one segment, its head.
    pub open spec fn wf(&self) -> bool {
        self@.len() >= 1
    }
}

/// Change of `x` for one step in direction `d`.
pub open spec fn dx(d: Direction) -> int {
    match d {
        Direction::Right => 1,
        Direction::Left => -1,
        _ => 0,
    }
}

/// Change of `y` for one step in direction `d`.
pub open spec fn dy(d: Direction) -> int {
    match d {
        Direction::Up => 1,
        Direction::Down => -1,
        _ => 0,
    }
}

/// The step from `h` in direction `d` stays within the range of `i32`.
pub open spec fn can_step(h: Coord, d: Direction) -> bool {
    i32::MIN <= h.0 + dx(d) <= i32::MAX && i32::MIN <= h.1 + dy(d) <= i32::MAX
}

/// The tile one step from `h` in direction `d`.
pub open spec fn stepped(h: Coord, d: Direction) -> Coord {
    ((h.0 + dx(d)) as i32, (h.1 + dy(d)) as i32)
}

/// The segments after one tick: every segment takes the place that the one
/// ahead of it held, and the head steps in direction `d`.
pub open spec fn advanced(s: Seq<Coord>, d: Direction) -> Seq<Coord> {
    s.drop_first().push(stepped(s.last(), d))
}

/// The head has left the map.
pub open spec fn hits_wall(s: Seq<Coord>) -> bool {
    !on_map(s.last())
}

/// The head shares its tile with another segment.
pub open spec fn hits_body(s: Seq<Coord>) -> bool {
    exists|i: int| 0 <= i < s.len() - 1 && #[trigger] s[i] == s.last()
}

/// The head moves by one tile along exactly one axis: one of `dx`, `dy` is
/// zero and the other is 1 or -1.
pub proof fn lemma_head_moves_one_axis(s: Seq<Coord>, d: Direction)
    requires
        s.len() >= 1,
        can_step(s.last(), d),
    ensures
        advanced(s, d).last().0 == s.last().0 + dx(d),
        advanced(s, d).last().1 == s.last().1 + dy(d),
        (dx(d) == 0) != (dy(d) == 0),
        dx(d) == 0 ==> (dy(d) == 1 || dy(d) == -1),
        dy(d) == 0 ==> (dx(d) == 1 || dx(d) == -1),
{
}

/// A snake whose head steps onto the old place of a body segment ahead of
/// the tail collides with itself after the advance.
pub proof fn lemma_advance_onto_body(s: Seq<Coord>, d: Direction, j: int)
    requires
        s.len() >= 1,
        1 <= j < s.len(),
        stepped(s.last(), d) == s[j],
    ensures
        hits_body(advanced(s, d)),
{
    let r = advanced(s, d);
    assert(r[j - 1] == s[j]);
    assert(r[j - 1] == r.last());
}

/// A snake whose segments all stand on distinct tiles does not collide
/// with itself.
pub proof fn lemma_distinct_no_self_collision(s: Seq<Coord>)
    requires
        s.len() >= 1,
        forall|i: int, j: int| 0 <= i < j < s.len() ==> s[i] != s[j],
    ensures
        !hits_body(s),
{
}

/// The snake a game starts with: four segments in a row on line 9, heading
/// to the right from `(7, 9)` to the head at `(10, 9)`.
pub fn init_snake() -> (snake: Snake)
    ensures
        snake@ == seq![(7i32, 9i32), (8i32, 9i32), (9i32, 9i32), (10i32, 9i32)],
{
    let segments: Vec<Coord> = vec![(7, 9), (8, 9), (9, 9), (10, 9)];
    let snake = Snake { segments };
    assert(snake@ =~= seq![(7i32, 9i32), (8i32, 9i32), (9i32, 9i32), (10i32, 9i32)]);
    snake
}

/// The tile one step from `head` in direction `d`.
pub fn step(head: Coord, d: Direction) -> (r: Coord)
    requires
        can_step(head, d),
    ensures
        r == stepped(head, d),
        r.0 == head.0 + dx(d),
        r.1 == head.1 + dy(d),
{
    match d {
        Direction::Up => (head.0, head.1 + 1),
        Direction::Right => (head.0 + 1, head.1),
        Direction::Down => (head.0, head.1 - 1),
        Direction::Left => (head.0 - 1, head.1),
    }
}

/// Moves the snake one tile in direction `d`. Every new position is taken
/// from the segments as they were before the call: segment `i - 1` takes
/// the old place of segment `i`, and the head steps in direction `d`. No
/// bound is applied here; leaving the map is the wall check's concern.
pub fn advance(segments: &Vec<Coord>, d: Direction) -> (r: Vec<Coord>)
    requires
        segments@.len() >= 1,
        can_step(segments@.last(), d),
    ensures
        r@ == advanced(segments@, d),
        r@.len() == segments@.len(),
        r@.last().0 == segments@.last().0 + dx(d),
        r@.last().1 == segments@.last().1 + dy(d),
        forall|i: int| 1 <= i < segments@.len() ==> #[trigger] r@[i - 1] == segments@[i],
{
    let n = segments.len();
    let mut r: Vec<Coord> = Vec::new();
    let mut i: usize = 1;
    while i < n
        invariant
            n == segments@.len(),
            1 <= i <= n,
            r@ == segments@.subrange(1, i as int),
        decreases n - i,
    {
        r.push(segments[i]);
        assert(r@ =~= segments@.subrange(1, i + 1));
        i = i + 1;
    }
    let head = step(segments[n - 1], d);
    r.push(head);
    assert(r@ =~= advanced(segments@, d));
    r
}

/// Whether the head (the last segment) lies off the map, that is a
/// coordinate above `GRID_SIDE` or below 1.
pub fn check_wall_collision(segments: &Vec<Coord>) -> (r: bool)
    requires
        segments@.len() >= 1,
    ensures
        r == hits_wall(segments@),
{
    let head = segments[segments.len() - 1];
    head.0 > GRID_SIDE || head.1 > GRID_SIDE || head.0 < 1 || head.1 < 1
}

/// Whether the head (the last segment) lies on the same tile as any other
/// segment.
pub fn check_self_collision(segments: &Vec<Coord>) -> (r: bool)
    requires
        segments@.len() >= 1,
    ensures
        r == hits_body(segments@),
{
    let n = segments.len();
    let head = segments[n - 1];
    let mut i: usize = 0;
    while i < n - 1
        invariant
            n == segments@.len(),
            n >= 1,
            head == segments@.last(),
            0 <= i <= n - 1,
            forall|j: int| 0 <= j < i ==> #[trigger] segments@[j] != head,
        decreases n - 1 - i,
    {
        let seg = segments[i];
        if seg.0 == head.0 && seg.1 == head.1 {
            assert(segments@[i as int] == segments@.last());
            return true;
        }
        i = i + 1;
    }
    false
}

} // verus!

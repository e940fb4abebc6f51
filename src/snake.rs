use vstd::prelude::*;
use crate::board::{Board, Cell, manhattan, adjacent_chain};
use crate::events::{CollisionEvent, GameOverEvent};

verus! {

/// Direction of motion of the head, or none.
#[derive(Clone, Copy, PartialEq, Eq, Structural, Debug, Hash)]
pub enum Heading {
    Up,
    Down,
    Left,
    Right,
    Stopped,
}

impl Heading {
    /// Column step of one move.
    pub open spec fn dx(self) -> int {
        match self {
            Heading::Left => -1,
            Heading::Right => 1,
            _ => 0,
        }
    }

    /// Row step of one move (rows grow upwards).
    pub open spec fn dy(self) -> int {
        match self {
            Heading::Up => 1,
            Heading::Down => -1,
            _ => 0,
        }
    }

    pub fn delta_x(&self) -> (r: i32)
        ensures
            r == self.dx(),
    {
        match self {
            Heading::Left => -1,
            Heading::Right => 1,
            _ => 0,
        }
    }

    pub fn delta_y(&self) -> (r: i32)
        ensures
            r == self.dy(),
    {
        match self {
            Heading::Up => 1,
            Heading::Down => -1,
            _ => 0,
        }
    }
}

/// The head's intent: where it moves on the next tick.
#[derive(Clone, Copy, PartialEq, Eq, Structural, Debug)]
pub struct SnakeHead {
    pub direction: Heading,
}

/// The chain of segment cells, head first.
#[derive(Clone, Debug, PartialEq, Eq)]
pub struct SnakeSegments(pub Vec<Cell>);

impl View for SnakeSegments {
    type V = Seq<Cell>;

    open spec fn view(&self) -> Seq<Cell> {
        self.0@
    }
}

/// The chain that a new game starts with, facing right.
pub open spec fn initial_chain() -> Seq<Cell> {
    seq![Cell { x: 1, y: 0 }, Cell { x: 0, y: 0 }, Cell { x: -1i32, y: 0 }]
}

/// The point that a head at `c` moving along `h` would reach.
pub open spec fn target(c: Cell, h: Heading) -> (int, int) {
    (c.x + h.dx(), c.y + h.dy())
}

/// Some segment other than the head lies at `(x, y)`.
pub open spec fn hits_body(s: Seq<Cell>, x: int, y: int) -> bool {
    exists|i: int| 1 <= i < s.len() && (#[trigger] s[i]).x == x && s[i].y == y
}

/// The next move of the head of `s` along `h` runs into the body or off the board.
pub open spec fn collides(s: Seq<Cell>, h: Heading, board: Board) -> bool {
    let (x, y) = target(s[0], h);
    hits_body(s, x, y) || !board.holds(x, y)
}

/// The cell that the head reaches; meaningful where the move stays on the board.
pub open spec fn advanced(c: Cell, h: Heading) -> Cell {
    Cell { x: (c.x + h.dx()) as i32, y: (c.y + h.dy()) as i32 }
}

/// The chain after its head moved to `c`: each other segment takes the place
/// of the one before it.
pub open spec fn shifted(s: Seq<Cell>, c: Cell) -> Seq<Cell> {
    seq![c] + s.take(s.len() - 1)
}

/// The point one step beyond the tail, on the line from the segment before it.
pub open spec fn extension(s: Seq<Cell>) -> (int, int) {
    let t = s[s.len() - 1];
    let p = s[s.len() - 2];
    (2 * t.x - p.x, 2 * t.y - p.y)
}

/// `v` is a valid coordinate.
pub open spec fn fits_i32(v: int) -> bool {
    i32::MIN <= v <= i32::MAX
}

/// Why a chain cannot grow.
#[derive(Clone, Copy, PartialEq, Eq, Structural, Debug)]
pub enum GrowthError {
    /// The chain has fewer than two segments.
    TooShort,
    /// The tail and the segment before it are not one step apart.
    NotUnitStep,
    /// The new tail would lie outside the range of coordinates.
    OffGrid,
}

/// Whether a new tail can be added to `s`.
pub open spec fn can_grow(s: Seq<Cell>) -> bool {
    let (x, y) = extension(s);
    manhattan(s[s.len() - 2], s[s.len() - 1]) == 1 && fits_i32(x) && fits_i32(y)
}

/// `s` has a tail that growth can extend.
pub open spec fn growable(s: Seq<Cell>) -> bool {
    s.len() >= 2 && can_grow(s)
}

/// The new tail cell of `s`.
pub open spec fn new_tail(s: Seq<Cell>) -> Cell {
    let (x, y) = extension(s);
    Cell { x: x as i32, y: y as i32 }
}

/// The chain for a new game: head at (1, 0), tail at (-1, 0).
pub fn init_snake() -> (r: SnakeSegments)
    ensures
        r@ == initial_chain(),
{
    let v = vec![Cell::new(1, 0), Cell::new(0, 0), Cell::new(-1, 0)];
    let r = SnakeSegments(v);
    assert(r@ =~= initial_chain());
    r
}

/// Checks the head's next move against the body and the board's walls.
pub fn detect_collision(head: &SnakeHead, segments: &SnakeSegments, board: &Board) -> (r: Option<
    CollisionEvent,
>)
    requires
        segments@.len() >= 1,
    ensures
        r.is_some() == collides(segments@, head.direction, *board),
{
    let s = &segments.0;
    let h = s[0];
    let nx: i64 = h.x as i64 + head.direction.delta_x() as i64;
    let ny: i64 = h.y as i64 + head.direction.delta_y() as i64;
    let mut i: usize = 1;
    while i < s.len()
        invariant
            1 <= i <= s@.len(),
            s@ == segments@,
            nx == h.x + head.direction.dx(),
            ny == h.y + head.direction.dy(),
            h == segments@[0],
            forall|j: int| 1 <= j < i ==> !(s@[j].x == nx && s@[j].y == ny),
        decreases s@.len() - i,
    {
        let c = s[i];
        if c.x as i64 == nx && c.y as i64 == ny {
            assert(hits_body(segments@, nx as int, ny as int)) by {
                assert(segments@[i as int] == c);
            }
            return Some(CollisionEvent);
        }
        i = i + 1;
    }
    if !board.contains_point(nx, ny) {
        return Some(CollisionEvent);
    }
    None
}

/// Advances the chain by one cell along the head's direction.
///
/// A move into the body or off the board ends the game and leaves the chain
/// unchanged; this is checked whatever the heading, a stopped head included.
/// Otherwise a stopped head leaves the chain alone, and a moving head takes
/// the new cell while every other segment takes the old cell of the one
/// before it.
pub fn move_snake(head: &SnakeHead, segments: &mut SnakeSegments, board: &Board) -> (r: Option<
    GameOverEvent,
>)
    requires
        old(segments)@.len() >= 1,
    ensures
        collides(old(segments)@, head.direction, *board) ==> r.is_some() && final(segments)@ == old(
            segments,
        )@,
        head.direction == Heading::Stopped && !collides(old(segments)@, head.direction, *board)
            ==> r.is_none() && final(segments)@ == old(segments)@,
        head.direction != Heading::Stopped && !collides(old(segments)@, head.direction, *board)
            ==> r.is_none() && final(segments)@ == shifted(
            old(segments)@,
            advanced(old(segments)@[0], head.direction),
        ),
{
    if detect_collision(head, segments, board).is_some() {
        return Some(GameOverEvent);
    }
    if head.direction == Heading::Stopped {
        return None;
    }
    let snapshot = segments.0.clone();
    let h = snapshot[0];
    let c = Cell::new(h.x + head.direction.delta_x(), h.y + head.direction.delta_y());
    let n: usize = snapshot.len();
    segments.0.set(0, c);
    let mut i: usize = 1;
    while i < n
        invariant
            1 <= i <= n,
            n == snapshot@.len(),
            snapshot@ == old(segments)@,
            c == advanced(old(segments)@[0], head.direction),
            segments@.len() == n,
            segments@[0] == c,
            forall|j: int| 1 <= j < i ==> segments@[j] == snapshot@[j - 1],
            forall|j: int| i <= j < n ==> segments@[j] == snapshot@[j],
        decreases n - i,
    {
        segments.0.set(i, snapshot[i - 1]);
        i = i + 1;
    }
    assert(segments@ =~= shifted(old(segments)@, c));
    None
}

/// Whether the chain can grow, and if not, why.
pub fn check_growth(segments: &SnakeSegments) -> (r: Result<(), GrowthError>)
    ensures
        r.is_ok() == growable(segments@),
        r == Err::<(), GrowthError>(GrowthError::TooShort) <==> segments@.len() < 2,
        r == Err::<(), GrowthError>(GrowthError::NotUnitStep) <==> segments@.len() >= 2
            && manhattan(segments@[segments@.len() - 2], segments@[segments@.len() - 1]) != 1,
{
    let n: usize = segments.0.len();
    if n < 2 {
        return Err(GrowthError::TooShort);
    }
    let t = segments.0[n - 1];
    let p = segments.0[n - 2];
    let dx: i64 = p.x as i64 - t.x as i64;
    let dy: i64 = p.y as i64 - t.y as i64;
    let adx: i64 = if dx < 0 {
        -dx
    } else {
        dx
    };
    let ady: i64 = if dy < 0 {
        -dy
    } else {
        dy
    };
    if adx + ady != 1 {
        return Err(GrowthError::NotUnitStep);
    }
    let nx: i64 = t.x as i64 - dx;
    let ny: i64 = t.y as i64 - dy;
    if nx < i32::MIN as i64 || nx > i32::MAX as i64 || ny < i32::MIN as i64 || ny
        > i32::MAX as i64 {
        return Err(GrowthError::OffGrid);
    }
    Ok(())
}

/// Adds one segment beyond the tail, on the line from the segment before it,
/// and returns its cell. The tail must be one step from the segment before
/// it, and the new cell a valid coordinate.
pub fn growth(segments: &mut SnakeSegments) -> (r: Cell)
    requires
        growable(old(segments)@),
    ensures
        r == new_tail(old(segments)@),
        final(segments)@ == old(segments)@.push(r),
{
    let n: usize = segments.0.len();
    let t = segments.0[n - 1];
    let p = segments.0[n - 2];
    let nx: i64 = 2 * (t.x as i64) - p.x as i64;
    let ny: i64 = 2 * (t.y as i64) - p.y as i64;
    let c = Cell::new(nx as i32, ny as i32);
    segments.0.push(c);
    c
}

/// The direction from the second segment to the head.
pub open spec fn body_direction(s: Seq<Cell>) -> (int, int) {
    (s[0].x - s[1].x, s[0].y - s[1].y)
}

/// A request that would turn the head straight back into the second segment.
pub open spec fn is_reversal(s: Seq<Cell>, request: Heading) -> bool {
    let (dx, dy) = body_direction(s);
    request.dx() == -dx && request.dy() == -dy
}

/// Takes a directional request (never `Stopped`) as the new heading, unless it would turn the
/// head straight back into the body, in which case it is dropped.
pub fn handle_swipe(swipe_to: Heading, head: &mut SnakeHead, segments: &SnakeSegments)
    requires
        segments@.len() >= 2,
        swipe_to != Heading::Stopped,
    ensures
        is_reversal(segments@, swipe_to) ==> *final(head) == *old(head),
        !is_reversal(segments@, swipe_to) ==> final(head).direction == swipe_to,
{
    let a = segments.0[0];
    let b = segments.0[1];
    let dx: i64 = a.x as i64 - b.x as i64;
    let dy: i64 = a.y as i64 - b.y as i64;
    if swipe_to.delta_x() as i64 == -dx && swipe_to.delta_y() as i64 == -dy {
        return;
    }
    head.direction = swipe_to;
}

/// What one move of a chain does to its shape: the length stays, and a chain
/// whose neighbouring segments were one step apart stays so.
pub proof fn lemma_move_keeps_shape(s: Seq<Cell>, h: Heading, board: Board)
    requires
        s.len() >= 1,
        adjacent_chain(s),
        h != Heading::Stopped,
        !collides(s, h, board),
    ensures
        shifted(s, advanced(s[0], h)).len() == s.len(),
        adjacent_chain(shifted(s, advanced(s[0], h))),
{
    let c = advanced(s[0], h);
    let t = shifted(s, c);
    assert(t.len() == s.len());
    assert forall|i: int| 0 <= i < t.len() - 1 implies #[trigger] manhattan(t[i], t[i + 1]) == 1 by {
        if i == 0 {
            assert(t[0] == c);
            assert(t[1] == s[0]);
        } else {
            assert(t[i] == s[i - 1]);
            assert(t[i + 1] == s[i]);
            assert(manhattan(s[i - 1], s[(i - 1) + 1]) == 1);
        }
    }
}

/// What growth does to a chain: one segment more, the new tail one step from
/// the old one, every other segment where it was.
pub proof fn lemma_growth_shape(s: Seq<Cell>)
    requires
        growable(s),
    ensures
        s.push(new_tail(s)).len() == s.len() + 1,
        manhattan(s.push(new_tail(s))[s.len() - 1], s.push(new_tail(s))[s.len() as int]) == 1,
        forall|i: int| 0 <= i < s.len() ==> s.push(new_tail(s))[i] == s[i],
        adjacent_chain(s) ==> adjacent_chain(s.push(new_tail(s))),
{
    let g = s.push(new_tail(s));
    let n: int = s.len() as int;
    assert(g[n] == new_tail(s));
    assert(g[n - 1] == s[n - 1]);
    if adjacent_chain(s) {
        assert forall|i: int| 0 <= i < g.len() - 1 implies #[trigger] manhattan(g[i], g[i + 1])
            == 1 by {
            if i < n - 1 {
                assert(g[i] == s[i]);
                assert(g[i + 1] == s[i + 1]);
            }
        }
    }
}

} // verus!

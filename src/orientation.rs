use vstd::prelude::*;
use crate::board::Cell;
use crate::snake::Heading;

verus! {

/// The picture shown for one segment.
#[derive(Clone, Copy, PartialEq, Eq, Structural, Debug, Hash)]
pub enum Sprite {
    HeadUp,
    HeadDown,
    HeadLeft,
    HeadRight,
    BodyBottomLeft,
    BodyBottomRight,
    BodyHorizontal,
    BodyTopLeft,
    BodyTopRight,
    BodyVertical,
    TailDown,
    TailLeft,
    TailRight,
    TailUp,
}

/// The head's picture for a direction; `None` keeps the current one.
pub open spec fn head_sprite_of(h: Heading) -> Option<Sprite> {
    match h {
        Heading::Right => Some(Sprite::HeadRight),
        Heading::Up => Some(Sprite::HeadUp),
        Heading::Left => Some(Sprite::HeadLeft),
        Heading::Down => Some(Sprite::HeadDown),
        Heading::Stopped => None,
    }
}

/// The tail's picture, from the step `(dx, dy)` that leads from the tail to
/// the segment before it; `None` keeps the current one.
pub open spec fn tail_sprite_of(dx: int, dy: int) -> Option<Sprite> {
    if dx == -1 && dy == 0 {
        Some(Sprite::TailRight)
    } else if dx == 0 && dy == -1 {
        Some(Sprite::TailUp)
    } else if dx == 1 && dy == 0 {
        Some(Sprite::TailLeft)
    } else if dx == 0 && dy == 1 {
        Some(Sprite::TailDown)
    } else {
        None
    }
}

/// A body segment's picture, from the step `p` from it to the segment before
/// it and the step `n` from the segment after it to it; `None` keeps the
/// current one.
pub open spec fn body_sprite_of(p: (int, int), n: (int, int)) -> Option<Sprite> {
    if p == (-1int, 0int) && n == (0int, 1int) || p == (0int, -1int) && n == (1int, 0int) {
        Some(Sprite::BodyBottomLeft)
    } else if p == (1int, 0int) && n == (0int, 1int) || p == (0int, -1int) && n == (-1int, 0int) {
        Some(Sprite::BodyBottomRight)
    } else if p == (-1int, 0int) && n == (-1int, 0int) || p == (1int, 0int) && n == (1int, 0int) {
        Some(Sprite::BodyHorizontal)
    } else if p == (0int, 1int) && n == (1int, 0int) || p == (-1int, 0int) && n == (0int, -1int) {
        Some(Sprite::BodyTopLeft)
    } else if p == (0int, 1int) && n == (-1int, 0int) || p == (1int, 0int) && n == (0int, -1int) {
        Some(Sprite::BodyTopRight)
    } else if p == (0int, 1int) && n == (0int, 1int) || p == (0int, -1int) && n == (0int, -1int) {
        Some(Sprite::BodyVertical)
    } else {
        None
    }
}

/// The step that leads from `b` to `a`.
pub open spec fn step(a: Cell, b: Cell) -> (int, int) {
    (a.x - b.x, a.y - b.y)
}

/// The picture that segment `i` of `s` shows, given the head's direction and
/// the picture it shows now.
pub open spec fn sprite_at(s: Seq<Cell>, h: Heading, current: Sprite, i: int) -> Sprite {
    let found = if i == 0 {
        head_sprite_of(h)
    } else if i == s.len() - 1 {
        tail_sprite_of(step(s[i - 1], s[i]).0, step(s[i - 1], s[i]).1)
    } else {
        body_sprite_of(step(s[i - 1], s[i]), step(s[i], s[i + 1]))
    };
    match found {
        Some(sp) => sp,
        None => current,
    }
}

/// The head's picture for a direction.
pub fn head_sprite(h: Heading) -> (r: Option<Sprite>)
    ensures
        r == head_sprite_of(h),
{
    match h {
        Heading::Right => Some(Sprite::HeadRight),
        Heading::Up => Some(Sprite::HeadUp),
        Heading::Left => Some(Sprite::HeadLeft),
        Heading::Down => Some(Sprite::HeadDown),
        Heading::Stopped => None,
    }
}

/// The tail's picture, given the segment before the tail.
pub fn tail_sprite(prev: Cell, tail: Cell) -> (r: Option<Sprite>)
    ensures
        r == tail_sprite_of(step(prev, tail).0, step(prev, tail).1),
{
    let dx: i64 = prev.x as i64 - tail.x as i64;
    let dy: i64 = prev.y as i64 - tail.y as i64;
    if dx == -1 && dy == 0 {
        Some(Sprite::TailRight)
    } else if dx == 0 && dy == -1 {
        Some(Sprite::TailUp)
    } else if dx == 1 && dy == 0 {
        Some(Sprite::TailLeft)
    } else if dx == 0 && dy == 1 {
        Some(Sprite::TailDown)
    } else {
        None
    }
}

/// A body segment's picture, given its neighbours.
pub fn body_sprite(prev: Cell, curr: Cell, next: Cell) -> (r: Option<Sprite>)
    ensures
        r == body_sprite_of(step(prev, curr), step(curr, next)),
{
    let px: i64 = prev.x as i64 - curr.x as i64;
    let py: i64 = prev.y as i64 - curr.y as i64;
    let nx: i64 = curr.x as i64 - next.x as i64;
    let ny: i64 = curr.y as i64 - next.y as i64;
    if px == -1 && py == 0 && nx == 0 && ny == 1 || px == 0 && py == -1 && nx == 1 && ny == 0 {
        Some(Sprite::BodyBottomLeft)
    } else if px == 1 && py == 0 && nx == 0 && ny == 1 || px == 0 && py == -1 && nx == -1 && ny
        == 0 {
        Some(Sprite::BodyBottomRight)
    } else if px == -1 && py == 0 && nx == -1 && ny == 0 || px == 1 && py == 0 && nx == 1 && ny
        == 0 {
        Some(Sprite::BodyHorizontal)
    } else if px == 0 && py == 1 && nx == 1 && ny == 0 || px == -1 && py == 0 && nx == 0 && ny
        == -1 {
        Some(Sprite::BodyTopLeft)
    } else if px == 0 && py == 1 && nx == -1 && ny == 0 || px == 1 && py == 0 && nx == 0 && ny
        == -1 {
        Some(Sprite::BodyTopRight)
    } else if px == 0 && py == 1 && nx == 0 && ny == 1 || px == 0 && py == -1 && nx == 0 && ny
        == -1 {
        Some(Sprite::BodyVertical)
    } else {
        None
    }
}

/// The pictures of a whole chain, recomputed from its cells and the head's
/// direction; a segment whose neighbours match no known shape keeps the
/// picture it has in `current`.
pub fn snake_transform(segments: &Vec<Cell>, h: Heading, current: &Vec<Sprite>) -> (r: Vec<
    Sprite,
>)
    requires
        segments@.len() >= 2,
        current@.len() == segments@.len(),
    ensures
        r@.len() == segments@.len(),
        forall|i: int|
            0 <= i < r@.len() ==> r@[i] == sprite_at(segments@, h, current@[i], i),
{
    let n: usize = segments.len();
    let mut r: Vec<Sprite> = Vec::new();
    let mut i: usize = 0;
    while i < n
        invariant
            n == segments@.len(),
            n >= 2,
            current@.len() == n,
            0 <= i <= n,
            r@.len() == i,
            forall|j: int| 0 <= j < i ==> r@[j] == sprite_at(segments@, h, current@[j], j),
        decreases n - i,
    {
        let found = if i == 0 {
            head_sprite(h)
        } else if i == n - 1 {
            tail_sprite(segments[i - 1], segments[i])
        } else {
            body_sprite(segments[i - 1], segments[i], segments[i + 1])
        };
        let sp = match found {
            Some(sp) => sp,
            None => current[i],
        };
        r.push(sp);
        i = i + 1;
    }
    r
}

} // verus!

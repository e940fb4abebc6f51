use vstd::prelude::*;
use crate::snake::Heading;

verus! {

/// The keys that the game reacts to; any other key is `Other`.
#[derive(Clone, Copy, PartialEq, Eq, Structural, Debug, Hash)]
pub enum Key {
    Left,
    Right,
    Up,
    Down,
    A,
    D,
    W,
    S,
    H,
    J,
    K,
    L,
    Space,
    Escape,
    Return,
    Other,
}

/// The direction that a key asks for: arrows, WASD and HJKL.
pub open spec fn key_heading(k: Key) -> Heading {
    match k {
        Key::Left | Key::A | Key::H => Heading::Left,
        Key::Right | Key::D | Key::L => Heading::Right,
        Key::Up | Key::W | Key::K => Heading::Up,
        Key::Down | Key::S | Key::J => Heading::Down,
        _ => Heading::Stopped,
    }
}

/// Some key of `pressed` asks for `h`.
pub open spec fn asks_for(pressed: Seq<Key>, h: Heading) -> bool {
    exists|i: int| 0 <= i < pressed.len() && key_heading(#[trigger] pressed[i]) == h
}

/// The direction that a set of keys pressed in one frame asks for: left
/// before right before up before down; `Stopped` where none asks.
pub open spec fn requested_heading(pressed: Seq<Key>) -> Heading {
    if asks_for(pressed, Heading::Left) {
        Heading::Left
    } else if asks_for(pressed, Heading::Right) {
        Heading::Right
    } else if asks_for(pressed, Heading::Up) {
        Heading::Up
    } else if asks_for(pressed, Heading::Down) {
        Heading::Down
    } else {
        Heading::Stopped
    }
}

pub open spec fn is_pause_key(k: Key) -> bool {
    k == Key::Space || k == Key::Escape
}

pub open spec fn is_confirm_key(k: Key) -> bool {
    k == Key::Return || k == Key::Space
}

pub open spec fn any_key(pressed: Seq<Key>, p: spec_fn(Key) -> bool) -> bool {
    exists|i: int| 0 <= i < pressed.len() && p(#[trigger] pressed[i])
}

pub fn key_direction(k: Key) -> (r: Heading)
    ensures
        r == key_heading(k),
{
    match k {
        Key::Left | Key::A | Key::H => Heading::Left,
        Key::Right | Key::D | Key::L => Heading::Right,
        Key::Up | Key::W | Key::K => Heading::Up,
        Key::Down | Key::S | Key::J => Heading::Down,
        _ => Heading::Stopped,
    }
}

/// Whether some key of `pressed` asks for `h`.
pub fn any_just_pressed(pressed: &Vec<Key>, h: Heading) -> (r: bool)
    ensures
        r == asks_for(pressed@, h),
{
    let mut i: usize = 0;
    while i < pressed.len()
        invariant
            0 <= i <= pressed@.len(),
            forall|j: int| 0 <= j < i ==> key_heading(pressed@[j]) != h,
        decreases pressed@.len() - i,
    {
        if key_direction(pressed[i]) == h {
            return true;
        }
        i = i + 1;
    }
    false
}

/// The direction that the keys pressed in one frame ask for.
pub fn requested(pressed: &Vec<Key>) -> (r: Heading)
    ensures
        r == requested_heading(pressed@),
{
    if any_just_pressed(pressed, Heading::Left) {
        Heading::Left
    } else if any_just_pressed(pressed, Heading::Right) {
        Heading::Right
    } else if any_just_pressed(pressed, Heading::Up) {
        Heading::Up
    } else if any_just_pressed(pressed, Heading::Down) {
        Heading::Down
    } else {
        Heading::Stopped
    }
}

/// Whether Space or Escape was pressed.
pub fn pause(pressed: &Vec<Key>) -> (r: bool)
    ensures
        r == any_key(pressed@, |k: Key| is_pause_key(k)),
{
    let mut i: usize = 0;
    while i < pressed.len()
        invariant
            0 <= i <= pressed@.len(),
            forall|j: int| 0 <= j < i ==> !is_pause_key(pressed@[j]),
        decreases pressed@.len() - i,
    {
        if pressed[i] == Key::Space || pressed[i] == Key::Escape {
            return true;
        }
        i = i + 1;
    }
    false
}

/// Whether Return or Space was pressed.
pub fn confirm(pressed: &Vec<Key>) -> (r: bool)
    ensures
        r == any_key(pressed@, |k: Key| is_confirm_key(k)),
{
    let mut i: usize = 0;
    while i < pressed.len()
        invariant
            0 <= i <= pressed@.len(),
            forall|j: int| 0 <= j < i ==> !is_confirm_key(pressed@[j]),
        decreases pressed@.len() - i,
    {
        if pressed[i] == Key::Return || pressed[i] == Key::Space {
            return true;
        }
        i = i + 1;
    }
    false
}

/// Whether `k` was pressed.
pub fn just_pressed(pressed: &Vec<Key>, k: Key) -> (r: bool)
    ensures
        r == pressed@.contains(k),
{
    let mut i: usize = 0;
    while i < pressed.len()
        invariant
            0 <= i <= pressed@.len(),
            forall|j: int| 0 <= j < i ==> pressed@[j] != k,
        decreases pressed@.len() - i,
    {
        if pressed[i] == k {
            assert(pressed@[i as int] == k);
            return true;
        }
        i = i + 1;
    }
    false
}

} // verus!

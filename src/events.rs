use vstd::prelude::*;

verus! {

/// The game has ended: the head ran into the body or a wall.
#[derive(Clone, Copy, PartialEq, Eq, Structural, Debug)]
pub struct GameOverEvent;

/// The chain is to grow by one tail segment.
#[derive(Clone, Copy, PartialEq, Eq, Structural, Debug)]
pub struct GrowthEvent;

/// A new piece of food is to be placed.
#[derive(Clone, Copy, PartialEq, Eq, Structural, Debug)]
pub struct SpawnFruitEvent;

/// The candidate head cell is taken by the body or lies off the board.
#[derive(Clone, Copy, PartialEq, Eq, Structural, Debug)]
pub struct CollisionEvent;

/// The score went up by one.
#[derive(Clone, Copy, PartialEq, Eq, Structural, Debug)]
pub struct ScoreChangedEvent;

/// One signal raised by a tick, in the order in which a tick raises them.
#[derive(Clone, Copy, PartialEq, Eq, Structural, Debug)]
pub enum Effect {
    GameOver(GameOverEvent),
    ScoreChanged(ScoreChangedEvent),
    DespawnFruit,
    SpawnFruit(SpawnFruitEvent),
    Growth(GrowthEvent),
}

} // verus!

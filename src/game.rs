use vstd::prelude::*;
use crate::board::{Board, Cell, BOARD_COLS, BOARD_ROWS, adjacent_chain};
use crate::events::{Effect, GameOverEvent, GrowthEvent, ScoreChangedEvent, SpawnFruitEvent};
use crate::food::{generate_position, has_free_cell, is_free_cell, blocked};
use crate::input::{Key, requested, requested_heading, pause, any_key, is_pause_key};
use crate::snake::{
    Heading,
    SnakeHead,
    SnakeSegments,
    GrowthError,
    init_snake,
    initial_chain,
    move_snake,
    growth,
    check_growth,
    handle_swipe,
    collides,
    shifted,
    advanced,
    growable,
    new_tail,
    is_reversal,
    lemma_move_keeps_shape,
};
use crate::states::{GameState, MenuState};

verus! {

/// Points collected in the current game.
#[derive(Clone, Copy, PartialEq, Eq, Structural, Debug)]
pub struct Score(pub u16);

/// The score after one more piece of food; it stops at the largest value.
pub open spec fn bumped(v: u16) -> u16 {
    if v < u16::MAX {
        (v + 1) as u16
    } else {
        v
    }
}

/// The chain after one move along `h`, where the move hits nothing.
pub open spec fn moved(s: Seq<Cell>, h: Heading) -> Seq<Cell> {
    if h == Heading::Stopped {
        s
    } else {
        shifted(s, advanced(s[0], h))
    }
}

/// The chain after growth, where it can grow.
pub open spec fn grown(s: Seq<Cell>) -> Seq<Cell> {
    if growable(s) {
        s.push(new_tail(s))
    } else {
        s
    }
}

/// The signals of a tick in which the head reaches the food, in order.
pub open spec fn consumption_effects() -> Seq<Effect> {
    seq![
        Effect::ScoreChanged(ScoreChangedEvent),
        Effect::DespawnFruit,
        Effect::SpawnFruit(SpawnFruitEvent),
        Effect::Growth(GrowthEvent),
    ]
}

/// The whole state of one running game.
#[derive(Clone, Debug, PartialEq, Eq)]
pub struct Game {
    pub board: Board,
    pub segments: SnakeSegments,
    pub head: SnakeHead,
    pub fruit: Option<Cell>,
    pub score: Score,
    pub game_state: GameState,
    pub menu_state: MenuState,
    /// Whether the in-game menu bar is shown.
    pub play_menu_visible: bool,
}

/// The state after a pause: the head stops and the pause menu shows.
pub open spec fn paused(g: Game) -> Game {
    Game {
        head: SnakeHead { direction: Heading::Stopped },
        game_state: GameState::Menu,
        menu_state: MenuState::Pause,
        play_menu_visible: false,
        ..g
    }
}

/// The state after the game is lost: the head stops and the main menu shows.
pub open spec fn ended(g: Game) -> Game {
    Game {
        head: SnakeHead { direction: Heading::Stopped },
        game_state: GameState::Over,
        menu_state: MenuState::Main,
        ..g
    }
}

/// The state after a resume; the heading stays stopped until a new request.
pub open spec fn resumed(g: Game) -> Game {
    Game { game_state: GameState::Play, menu_state: MenuState::Play, play_menu_visible: true, ..g }
}

/// The heading after the keys of one frame: only while playing, only with a
/// body to steer, and never straight back into the body.
pub open spec fn steered(g: Game, pressed: Seq<Key>) -> Heading {
    let req = requested_heading(pressed);
    if g.game_state == GameState::Play && req != Heading::Stopped && g.segments@.len() >= 2
        && !is_reversal(g.segments@, req) {
        req
    } else {
        g.head.direction
    }
}

impl Game {
    /// Same state, with chains compared by their cells.
    pub open spec fn agrees(self, o: Game) -> bool {
        self.segments@ == o.segments@ && (Game { segments: o.segments, ..self }) == o
    }

    /// Whether a tick does anything: the game is on and there is a chain.
    pub open spec fn live(self) -> bool {
        self.game_state == GameState::Play && self.segments@.len() >= 1
    }

    /// Whether the head's cell for the next tick is taken by the body or off
    /// the board; a stopped head is checked where it stands.
    pub open spec fn crashes(self) -> bool {
        collides(self.segments@, self.head.direction, self.board)
    }

    /// The chain after the next move, where it hits nothing.
    pub open spec fn after_move(self) -> Seq<Cell> {
        moved(self.segments@, self.head.direction)
    }

    /// Whether the head reaches the food with the next move.
    pub open spec fn eats(self) -> bool {
        self.fruit == Some(self.after_move()[0])
    }

    /// A game before the first start: main menu, no chain, no food.
    pub fn new() -> (r: Game)
        ensures
            r.board.cols == BOARD_COLS && r.board.rows == BOARD_ROWS,
            r.segments@.len() == 0,
            r.head.direction == Heading::Stopped,
            r.fruit.is_none(),
            r.score.0 == 0,
            r.game_state == GameState::Menu,
            r.menu_state == MenuState::Main,
            !r.play_menu_visible,
    {
        Game {
            board: Board::standard(),
            segments: SnakeSegments(Vec::new()),
            head: SnakeHead { direction: Heading::Stopped },
            fruit: None,
            score: Score(0),
            game_state: GameState::Menu,
            menu_state: MenuState::Main,
            play_menu_visible: false,
        }
    }

    /// Starts a game: the starting chain, standing still, score zero, food
    /// on a free cell, and play under way.
    pub fn new_game(&mut self)
        ensures
            final(self).board == old(self).board,
            final(self).segments@ == initial_chain(),
            final(self).head.direction == Heading::Stopped,
            final(self).score.0 == 0,
            final(self).game_state == GameState::Play,
            final(self).menu_state == MenuState::Play,
            final(self).play_menu_visible,
            final(self).fruit.is_some() ==> is_free_cell(
                final(self).fruit.unwrap(),
                initial_chain(),
                old(self).board,
            ),
            final(self).fruit.is_none() <==> !has_free_cell(initial_chain(), old(self).board),
    {
        self.game_state = GameState::New;
        self.segments = init_snake();
        self.head = SnakeHead { direction: Heading::Stopped };
        self.score = Score(0);
        self.fruit = None;
        self.random_fruit();
        self.menu_state = MenuState::Play;
        self.play_menu_visible = true;
        self.game_state = GameState::Play;
    }

    /// Puts food on a free cell, away from the chain.
    pub fn random_fruit(&mut self)
        ensures
            final(self).fruit.is_some() ==> is_free_cell(
                final(self).fruit.unwrap(),
                blocked(old(self).segments@),
                old(self).board,
            ),
            final(self).fruit.is_none() <==> !has_free_cell(
                blocked(old(self).segments@),
                old(self).board,
            ),
            final(self).board == old(self).board,
            final(self).segments == old(self).segments,
            final(self).head == old(self).head,
            final(self).score == old(self).score,
            final(self).game_state == old(self).game_state,
            final(self).menu_state == old(self).menu_state,
            final(self).play_menu_visible == old(self).play_menu_visible,
    {
        self.fruit = generate_position(&self.segments.0, &self.board);
    }

    /// Adds one point.
    pub fn score_change(&mut self)
        ensures
            *final(self) == (Game { score: Score(bumped(old(self).score.0)), ..*old(self) }),
    {
        if self.score.0 < u16::MAX {
            self.score = Score(self.score.0 + 1);
        }
    }

    /// Ends the game after a collision.
    pub fn game_over(&mut self)
        ensures
            *final(self) == ended(*old(self)),
    {
        self.head = SnakeHead { direction: Heading::Stopped };
        self.game_state = GameState::Over;
        self.menu_state = MenuState::Main;
    }

    /// Pauses: the head stops, the game goes to the menu, and the pause
    /// menu shows in place of the in-game bar.
    pub fn pause_game(&mut self)
        ensures
            *final(self) == paused(*old(self)),
    {
        self.game_state = GameState::Menu;
        self.menu_state = MenuState::Pause;
        self.head = SnakeHead { direction: Heading::Stopped };
        self.play_menu_visible = false;
    }

    /// Goes back to play after a pause; the heading is not restored.
    pub fn unpause_game(&mut self)
        ensures
            *final(self) == resumed(*old(self)),
    {
        self.game_state = GameState::Resume;
        self.menu_state = MenuState::Play;
        self.game_state = GameState::Play;
        self.play_menu_visible = true;
    }

    /// Pauses on Space or Escape, unless the menu is already up.
    pub fn pause_keys(&mut self, pressed: &Vec<Key>)
        ensures
            old(self).game_state != GameState::Menu && any_key(pressed@, |k: Key| is_pause_key(k))
                ==> *final(self) == paused(*old(self)),
            !(old(self).game_state != GameState::Menu && any_key(
                pressed@,
                |k: Key| is_pause_key(k),
            )) ==> *final(self) == *old(self),
    {
        if self.game_state != GameState::Menu && pause(pressed) {
            self.pause_game();
        }
    }

    /// Steers the head by the keys pressed in one frame.
    pub fn keyboard(&mut self, pressed: &Vec<Key>)
        ensures
            *final(self) == (Game {
                head: SnakeHead { direction: steered(*old(self), pressed@) },
                ..*old(self)
            }),
    {
        if self.game_state != GameState::Play || self.segments.0.len() < 2 {
            return;
        }
        let req = requested(pressed);
        if req == Heading::Stopped {
            return;
        }
        handle_swipe(req, &mut self.head, &self.segments);
    }

    /// The signals raised when the head stands on the food.
    pub fn eat(&self) -> (r: Vec<Effect>)
        requires
            self.segments@.len() >= 1,
        ensures
            self.fruit == Some(self.segments@[0]) ==> r@ == consumption_effects(),
            self.fruit != Some(self.segments@[0]) ==> r@.len() == 0,
    {
        let h = self.segments.0[0];
        match self.fruit {
            Some(f) => {
                if f == h {
                    let r = vec![
                        Effect::ScoreChanged(ScoreChangedEvent),
                        Effect::DespawnFruit,
                        Effect::SpawnFruit(SpawnFruitEvent),
                        Effect::Growth(GrowthEvent),
                    ];
                    assert(r@ =~= consumption_effects());
                    r
                } else {
                    Vec::new()
                }
            },
            None => Vec::new(),
        }
    }

    /// One simulation step: move, then check for food.
    ///
    /// A collision ends the game and leaves the chain as it was. Reaching
    /// the food adds a point, removes the food, grows the chain and places
    /// new food; the chain grows before the new food is placed, so that the
    /// food stays off the new tail. A chain that cannot grow is reported as
    /// an error, with the food removed.
    pub fn tick(&mut self) -> (r: Result<Vec<Effect>, GrowthError>)
        ensures
            !old(self).live() ==> r.is_ok() && r.unwrap()@.len() == 0 && *final(self) == *old(
                self,
            ),
            old(self).live() && old(self).crashes() ==> r.is_ok() && r.unwrap()@ == seq![
                Effect::GameOver(GameOverEvent),
            ] && final(self).agrees(ended(*old(self))),
            old(self).live() && !old(self).crashes() && !old(self).eats() ==> r.is_ok()
                && r.unwrap()@.len() == 0 && final(self).segments@ == old(self).after_move() && (
            Game { segments: old(self).segments, ..*final(self) }) == *old(self),
            old(self).live() && !old(self).crashes() && old(self).eats() ==> {
                &&& final(self).score.0 == bumped(old(self).score.0)
                &&& final(self).segments@ == grown(old(self).after_move())
                &&& r.is_ok() == growable(old(self).after_move())
                &&& r.is_ok() ==> r.unwrap()@ == consumption_effects()
                &&& r.is_ok() && final(self).fruit.is_some() ==> is_free_cell(
                    final(self).fruit.unwrap(),
                    final(self).segments@,
                    old(self).board,
                )
                &&& r.is_ok() ==> (final(self).fruit.is_none() <==> !has_free_cell(
                    final(self).segments@,
                    old(self).board,
                ))
                &&& r.is_err() ==> final(self).fruit.is_none()
                &&& (Game {
                    segments: old(self).segments,
                    fruit: old(self).fruit,
                    score: old(self).score,
                    ..*final(self)
                }) == *old(self)
            },
    {
        if self.game_state != GameState::Play || self.segments.0.len() == 0 {
            return Ok(Vec::new());
        }
        if move_snake(&self.head, &mut self.segments, &self.board).is_some() {
            self.game_over();
            return Ok(vec![Effect::GameOver(GameOverEvent)]);
        }
        let effects = self.eat();
        if effects.len() == 0 {
            return Ok(effects);
        }
        self.score_change();
        self.fruit = None;
        match check_growth(&self.segments) {
            Ok(()) => {},
            Err(e) => {
                return Err(e);
            },
        }
        growth(&mut self.segments);
        self.random_fruit();
        Ok(effects)
    }
}

/// A tick that moves the head without a collision keeps the chain's length,
/// and keeps every two neighbouring segments one step apart.
pub proof fn lemma_tick_keeps_shape(g: Game)
    requires
        g.live(),
        g.head.direction != Heading::Stopped,
        !g.crashes(),
        adjacent_chain(g.segments@),
    ensures
        g.after_move().len() == g.segments@.len(),
        adjacent_chain(g.after_move()),
{
    lemma_move_keeps_shape(g.segments@, g.head.direction, g.board);
}

/// Pausing a second time changes nothing more.
pub proof fn lemma_pause_idempotent(g: Game)
    ensures
        paused(paused(g)) == paused(g),
{
}

} // verus!

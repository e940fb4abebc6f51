use vstd::prelude::*;
use crate::game::Game;
use crate::input::{Key, any_just_pressed, asks_for, confirm, any_key, is_confirm_key, just_pressed};
use crate::snake::{Heading, initial_chain};
use crate::states::{GameState, MenuState};

verus! {

/// What a menu button does.
#[derive(Clone, Copy, PartialEq, Eq, Structural, Debug, Hash)]
pub enum MenuButtonAction {
    New,
    Pause,
    Resume,
    Quit,
}

/// The buttons of the visible menu, in the order in which they stand on
/// screen, and the one that has the keyboard focus.
#[derive(Clone, Debug, PartialEq, Eq)]
pub struct MenuItems {
    pub actions: Vec<MenuButtonAction>,
    pub focused: Option<usize>,
}

/// Focus after moving down among `n` items; past the last, or with nothing
/// focused, it goes to the first.
pub open spec fn focus_down(f: Option<usize>, n: nat) -> Option<usize> {
    if n == 0 {
        None
    } else {
        match f {
            Some(i) if i + 1 < n => Some((i + 1) as usize),
            _ => Some(0usize),
        }
    }
}

/// Focus after moving up among `n` items; before the first, or with nothing
/// focused, it goes to the last.
pub open spec fn focus_up(f: Option<usize>, n: nat) -> Option<usize> {
    if n == 0 {
        None
    } else {
        match f {
            Some(i) if 1 <= i < n => Some((i - 1) as usize),
            _ => Some((n - 1) as usize),
        }
    }
}

/// The focus after the keys of one frame: down first, then up.
pub open spec fn focus_after(f: Option<usize>, n: nat, pressed: Seq<Key>) -> Option<usize> {
    let d = if asks_for(pressed, Heading::Down) {
        focus_down(f, n)
    } else {
        f
    };
    if asks_for(pressed, Heading::Up) {
        focus_up(d, n)
    } else {
        d
    }
}

/// The actions that the keys of one frame trigger, in order: the button that
/// had the focus when the frame began, on Return or Space; then a resume, on
/// Escape in the pause menu.
pub open spec fn triggered(
    actions: Seq<MenuButtonAction>,
    f: Option<usize>,
    pressed: Seq<Key>,
    menu: MenuState,
) -> Seq<MenuButtonAction> {
    let first = if any_key(pressed, |k: Key| is_confirm_key(k)) && f.is_some() && f.unwrap()
        < actions.len() {
        seq![actions[f.unwrap() as int]]
    } else {
        Seq::empty()
    };
    if menu == MenuState::Pause && pressed.contains(Key::Escape) {
        first.push(MenuButtonAction::Resume)
    } else {
        first
    }
}

pub fn focus_next(f: Option<usize>, n: usize) -> (r: Option<usize>)
    ensures
        r == focus_down(f, n as nat),
{
    if n == 0 {
        return None;
    }
    match f {
        Some(i) => {
            if i < n - 1 {
                Some(i + 1)
            } else {
                Some(0)
            }
        },
        None => Some(0),
    }
}

pub fn focus_prev(f: Option<usize>, n: usize) -> (r: Option<usize>)
    ensures
        r == focus_up(f, n as nat),
{
    if n == 0 {
        return None;
    }
    match f {
        Some(i) => {
            if 1 <= i && i < n {
                Some(i - 1)
            } else {
                Some(n - 1)
            }
        },
        None => Some(n - 1),
    }
}

/// Keyboard use of the menu: moves the focus and returns the actions to
/// carry out. Only while the game is in the menu; otherwise nothing happens.
pub fn menu_keys(items: &mut MenuItems, pressed: &Vec<Key>, game: GameState, menu: MenuState) -> (r:
    Vec<MenuButtonAction>)
    ensures
        final(items).actions@ == old(items).actions@,
        game != GameState::Menu ==> r@.len() == 0 && final(items).focused == old(
            items,
        ).focused,
        game == GameState::Menu ==> final(items).focused == focus_after(
            old(items).focused,
            old(items).actions@.len(),
            pressed@,
        ) && r@ == triggered(old(items).actions@, old(items).focused, pressed@, menu),
{
    let mut r: Vec<MenuButtonAction> = Vec::new();
    if game != GameState::Menu {
        return r;
    }
    let before = items.focused;
    let n: usize = items.actions.len();
    if any_just_pressed(pressed, Heading::Down) {
        items.focused = focus_next(items.focused, n);
    }
    if any_just_pressed(pressed, Heading::Up) {
        items.focused = focus_prev(items.focused, n);
    }
    if confirm(pressed) {
        match before {
            Some(i) => {
                if i < n {
                    r.push(items.actions[i]);
                }
            },
            None => {},
        }
    }
    if menu == MenuState::Pause && just_pressed(pressed, Key::Escape) {
        r.push(MenuButtonAction::Resume);
    }
    assert(r@ =~= triggered(old(items).actions@, old(items).focused, pressed@, menu));
    r
}

impl Game {
    /// Carries out a menu action; returns whether the program is to quit.
    pub fn menu_action(&mut self, action: MenuButtonAction) -> (quit: bool)
        ensures
            quit == (action == MenuButtonAction::Quit),
            action == MenuButtonAction::Quit ==> *final(self) == *old(self),
            action == MenuButtonAction::Pause ==> *final(self) == crate::game::paused(*old(self)),
            action == MenuButtonAction::Resume ==> *final(self) == crate::game::resumed(*old(self)),
            action == MenuButtonAction::New ==> {
                &&& final(self).segments@ == initial_chain()
                &&& final(self).head.direction == Heading::Stopped
                &&& final(self).score.0 == 0
                &&& final(self).game_state == GameState::Play
                &&& final(self).menu_state == MenuState::Play
                &&& final(self).play_menu_visible
                &&& final(self).board == old(self).board
                &&& final(self).fruit.is_some() ==> crate::food::is_free_cell(
                    final(self).fruit.unwrap(),
                    initial_chain(),
                    old(self).board,
                )
                &&& final(self).fruit.is_none() <==> !crate::food::has_free_cell(
                    initial_chain(),
                    old(self).board,
                )
            },
    {
        match action {
            MenuButtonAction::New => {
                self.new_game();
                false
            },
            MenuButtonAction::Pause => {
                self.pause_game();
                false
            },
            MenuButtonAction::Resume => {
                self.unpause_game();
                false
            },
            MenuButtonAction::Quit => true,
        }
    }
}

} // verus!

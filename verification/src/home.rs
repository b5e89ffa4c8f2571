//! The home screen: a menu that starts a session or opens the history.

use vstd::prelude::*;
use crate::key::Key;

verus! {

/// What the home menu asks of the application after a key.
#[derive(Clone, Copy, Debug, PartialEq, Eq, Structural)]
pub enum HomeAction {
    Nothing,
    StartSession,
    ViewHistory,
}

/// The home menu. Its entries, left to right: start a session (0), view the
/// history (1).
#[derive(Clone, Copy, Debug, PartialEq, Eq, Structural)]
pub struct Home {
    selected: u8,
}

impl View for Home {
    type V = u8;

    closed spec fn view(&self) -> u8 {
        self.selected
    }
}

/// The entry with the focus after a key, and what the key asks for: Left
/// and Right move along the menu, stopping at either end; Enter chooses.
pub open spec fn home_step(selected: u8, key: Key) -> (u8, HomeAction) {
    match key {
        Key::Left => (0, HomeAction::Nothing),
        Key::Right => (1, HomeAction::Nothing),
        Key::Enter => if selected == 0 {
            (selected, HomeAction::StartSession)
        } else {
            (selected, HomeAction::ViewHistory)
        },
        _ => (selected, HomeAction::Nothing),
    }
}

/// Left focuses the first entry and Right the second, from either entry,
/// and Enter then chooses that entry: Left then Enter starts a session,
/// Right then Enter opens the history. Moving asks for nothing.
pub proof fn law_menu_choice(selected: u8)
    ensures
        home_step(selected, Key::Left).0 == 0,
        home_step(selected, Key::Right).0 == 1,
        home_step(selected, Key::Left).1 == HomeAction::Nothing,
        home_step(selected, Key::Right).1 == HomeAction::Nothing,
        home_step(home_step(selected, Key::Left).0, Key::Enter).1 == HomeAction::StartSession,
        home_step(home_step(selected, Key::Right).0, Key::Enter).1 == HomeAction::ViewHistory,
{
}

/// Enter chooses without moving the focus; keys other than the arrows and
/// Enter change nothing and ask for nothing.
pub proof fn law_menu_other_keys(selected: u8, key: Key)
    ensures
        home_step(selected, Key::Enter).0 == selected,
        key != Key::Left && key != Key::Right && key != Key::Enter ==> home_step(selected, key) == (
        selected, HomeAction::Nothing),
{
}

impl Home {
    #[verifier::type_invariant]
    spec fn on_menu(self) -> bool {
        self.selected <= 1
    }

    /// The menu with the focus on its first entry.
    pub fn new() -> (r: Home)
        ensures
            r@ == 0,
    {
        Home { selected: 0 }
    }

    /// The entry with the focus: 0 start a session, 1 view the history.
    pub fn selected(&self) -> (r: u8)
        ensures
            r == self@,
            r <= 1,
    {
        proof { use_type_invariant(self); }
        self.selected
    }

    /// Moves the focus or chooses, as `home_step` says.
    pub fn handle_key(&mut self, key: Key) -> (a: HomeAction)
        ensures
            (final(self)@, a) == home_step(old(self)@, key),
            final(self)@ <= 1,
    {
        proof { use_type_invariant(&*self); }
        match key {
            Key::Left => {
                self.selected = 0;
                HomeAction::Nothing
            },
            Key::Right => {
                self.selected = 1;
                HomeAction::Nothing
            },
            Key::Enter => if self.selected == 0 {
                HomeAction::StartSession
            } else {
                HomeAction::ViewHistory
            },
            _ => HomeAction::Nothing,
        }
    }
}

impl Default for Home {
    fn default() -> (r: Home)
        ensures
            r@ == 0,
    {
        Home::new()
    }
}

} // verus!

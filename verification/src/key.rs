//! The keys that the screens react to.

use vstd::prelude::*;

verus! {

/// A key press as the screens see it. Keys that no screen tells apart from
/// one another arrive as `Other`.
#[derive(Clone, Copy, Debug, PartialEq, Eq, Structural)]
pub enum Key {
    Up,
    Down,
    Left,
    Right,
    Enter,
    Esc,
    Backspace,
    Char(char),
    Other,
}

} // verus!

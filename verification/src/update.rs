//! The discrete input alphabet the application consumes: key presses already
//! decoded from raw terminal events by the surrounding input layer.

use vstd::prelude::*;

verus! {

/// A decoded key press.
#[derive(Clone, Copy, Debug, PartialEq, Eq)]
pub enum Key {
    Char(char),
    Esc,
    Enter,
    Up,
    Down,
    Left,
    Right,
    Unknown,
}

} // verus!

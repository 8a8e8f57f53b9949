//! Input-event value types, independent of any terminal or windowing
//! backend; the backends translate their own key events into these.

use vstd::prelude::*;

verus! {

/// A key as seen by the development-hub control loop.
#[derive(Clone, Copy, Debug)]
pub enum KeyCode {
    Up,
    Down,
    Left,
    Right,
    Q,
    Plus,
    Minus,
}

/// A key as seen by application widgets.
#[derive(Clone, Copy, Debug)]
pub enum Key {
    Character(char),
    Return,
    Backspace,
    Tab,
    Escape,
}

} // verus!

//! The words in which the controls talk to the game, and the game to the display.

use vstd::prelude::*;

verus! {

/// A way in which the rotary encoder can be turned.
#[derive(Clone, Copy, Debug, PartialEq, Eq, Structural)]
pub enum Direction {
    Clockwise,
    CounterClock,
}

/// A button of the panel.
#[derive(Clone, Copy, Debug, PartialEq, Eq, Structural)]
pub enum Button {
    ReloadToggle,
    Shoot,
}

/// Something that the player did.
#[derive(Clone, Copy, Debug, PartialEq, Eq, Structural)]
pub enum Action {
    Rotate(Direction),
    Press(Button),
    Release(Button),
}

/// What the game wants to be shown.
#[derive(Clone, Copy, Debug, PartialEq, Eq, Structural)]
pub enum Screen {
    Start,
    Normal,
    Reload,
}

} // verus!

//! The closed set of input events fed into the element tree.

use vstd::prelude::*;

verus! {

/// A directional press from a pad or arrow keys.
#[derive(Clone, Copy, Debug, PartialEq, Eq, Structural)]
pub enum Direction {
    Up,
    Down,
    Left,
    Right,
}

/// A button press.
#[derive(Clone, Copy, Debug, PartialEq, Eq, Structural)]
pub enum Button {
    Principal,
    Secondary,
    Back,
}

/// One input event, produced by an external input-translation layer and
/// handed to the runner one at a time.
#[derive(Clone, Copy, Debug, PartialEq, Eq, Structural)]
pub enum Event {
    DirectionPressed(Direction),
    ButtonPressed(Button),
}

} // verus!

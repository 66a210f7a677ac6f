use crate::keyboard::KeyStates;
use crate::style::ViewportPosition;
use vstd::prelude::*;

verus! {

/// Where the pointer is.
#[derive(Clone, Copy, Debug, PartialEq, Eq, Structural)]
pub struct MouseState {
    pub position: ViewportPosition,
}

/// The state of the input devices as the last raw event left it: the keys
/// that are held and the place of the pointer.
#[derive(Clone, Copy, Debug, PartialEq, Eq)]
pub struct InputPreprocessor {
    pub keyboard: KeyStates,
    pub mouse: MouseState,
}

} // verus!

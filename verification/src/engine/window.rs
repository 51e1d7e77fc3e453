//! What the window reports, as far as the game looks at it.

use vstd::prelude::*;
use crate::engine::geometry::PhysicalSize;

verus! {

/// Whether a key went down or came up.
#[derive(Clone, Copy, Debug, PartialEq, Eq)]
pub enum ElementState {
    Pressed,
    Released,
}

/// The keys the game tells apart.
#[derive(Clone, Copy, Debug, PartialEq, Eq)]
pub enum VirtualKeyCode {
    Up,
    Down,
    Left,
    Right,
    Escape,
    /// Any other key.
    Other,
}

/// An event of the window.
#[derive(Clone, Copy, Debug, PartialEq, Eq)]
pub enum WindowEvent {
    /// The user asked to close the window.
    CloseRequested,
    /// A key changed state; the key is absent where the system did not name it.
    KeyboardInput { state: ElementState, virtual_keycode: Option<VirtualKeyCode> },
    /// The window has a new inner size.
    Resized(PhysicalSize),
    /// The display's scale factor changed, and with it the inner size.
    ScaleFactorChanged { new_inner_size: PhysicalSize },
    /// Anything else.
    Other,
}

/// What the event loop does once an event is dealt with.
#[derive(Clone, Copy, Debug, PartialEq, Eq)]
pub enum ControlFlow {
    /// Go on with the next event.
    Poll,
    /// Leave the loop.
    Exit,
}

} // verus!

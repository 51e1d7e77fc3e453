//! What the game does with an event of its window.

use vstd::prelude::*;
use crate::engine::state::State;
use crate::engine::window::ControlFlow;
use crate::engine::window::ElementState;
use crate::engine::window::VirtualKeyCode;
use crate::engine::window::WindowEvent;

verus! {

/// Whether `event` ends the game: the window is being closed, or Escape
/// went down.
pub open spec fn asks_to_leave(event: WindowEvent) -> bool {
    match event {
        WindowEvent::CloseRequested => true,
        WindowEvent::KeyboardInput { state, virtual_keycode } => state == ElementState::Pressed
            && virtual_keycode == Some(VirtualKeyCode::Escape),
        _ => false,
    }
}

/// Deals with one event of the window.
///
/// The simulation sees it first and takes the arrow keys. Of the others, a
/// request to close the window and Escape going down end the event loop, and
/// a new size is handed to the simulation. Anything else is let go.
pub fn window_event(event: &WindowEvent, control_flow: &mut ControlFlow, state: &mut State)
    ensures
        final(state)@ == State::after_event(old(state)@, *event),
        *final(control_flow) == if asks_to_leave(*event) {
            ControlFlow::Exit
        } else {
            *old(control_flow)
        },
{
    if !state.input(event) {
        match event {
            WindowEvent::CloseRequested
            | WindowEvent::KeyboardInput {
                state: ElementState::Pressed,
                virtual_keycode: Some(VirtualKeyCode::Escape),
            } => {
                *control_flow = ControlFlow::Exit;
            },
            WindowEvent::Resized(physical_size) => {
                state.resize(*physical_size);
            },
            WindowEvent::ScaleFactorChanged { new_inner_size } => {
                state.resize(*new_inner_size);
            },
            _ => {},
        }
    }
}

} // verus!

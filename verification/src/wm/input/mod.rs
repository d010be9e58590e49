//! Input handling for LoomWM.
//!
//! Compositor shortcuts are processed before a key is forwarded to clients:
//! - `Logo+Q` or `Ctrl+Alt+Backspace`: Quit compositor

use vstd::prelude::*;

pub mod keybindings;
pub mod keysyms;

pub use keybindings::{KeyAction, KeyPattern, Keybindings, ModifiersState};

verus! {

/// Handle on the input devices.
pub struct InputHandler {}

impl InputHandler {
    pub fn new() -> (handler: InputHandler) {
        InputHandler {  }
    }
}

/// Whether the compositor keeps running after `action`: every action but
/// [`KeyAction::Quit`] leaves that as it is.
pub open spec fn spec_execute_action(running: bool, action: KeyAction) -> bool {
    if action == KeyAction::Quit {
        false
    } else {
        running
    }
}

/// Execute a compositor action on the running flag of the compositor.
///
/// Quitting stops the compositor. The other actions are not carried out
/// yet and change nothing.
#[verifier::when_used_as_spec(spec_execute_action)]
pub fn execute_action(running: bool, action: KeyAction) -> (still_running: bool)
    ensures
        still_running == spec_execute_action(running, action),
{
    match action {
        KeyAction::Quit => false,
        KeyAction::CloseFocused => running,
        KeyAction::FocusNext => running,
        KeyAction::FocusPrev => running,
        KeyAction::ToggleFullscreen => running,
        KeyAction::NoAction => running,
    }
}

} // verus!

//! Input events and their meaning. The host program reads raw key events
//! from the terminal and translates each into a [`KeyInput`]; what an input
//! means for the editor is decided here, fully specified.

use vstd::prelude::*;

verus! {

/// The events the editor handles, one per loop turn.
#[derive(Debug, Clone, Copy, PartialEq, Eq, Structural)]
pub enum InputEvent {
    /// A regular character was typed.
    Char(char),
    /// Backspace was pressed.
    Backspace,
    /// Enter was pressed.
    NewLine,
    /// Right arrow was pressed.
    Right,
    /// Save command (Ctrl+S).
    Save,
    /// Close command (Ctrl+X).
    Close,
    /// No event occurred within the timeout.
    Timeout,
}

/// The key of a keyboard event, as the library models it.
#[derive(Debug, Clone, Copy, PartialEq, Eq, Structural)]
pub enum KeyCode {
    /// A character key.
    Char(char),
    /// The backspace key.
    Backspace,
    /// The enter key.
    Enter,
    /// The right-arrow key.
    Right,
    /// Any other key.
    Other,
}

/// A keyboard event: the key pressed and whether Control was held.
#[derive(Debug, Clone, Copy, PartialEq, Eq, Structural)]
pub struct KeyInput {
    /// The key pressed.
    pub code: KeyCode,
    /// Whether the Control modifier was held.
    pub ctrl: bool,
}

/// What a keyboard event means to the editor: Ctrl+S saves, Ctrl+X closes,
/// any other character key types that character, backspace retreats, enter
/// commits the line, the right arrow advances, and everything else counts
/// as no event.
pub open spec fn spec_handle_key(key: KeyInput) -> InputEvent {
    match key.code {
        KeyCode::Char(c) => if key.ctrl && c == 's' {
            InputEvent::Save
        } else if key.ctrl && c == 'x' {
            InputEvent::Close
        } else {
            InputEvent::Char(c)
        },
        KeyCode::Backspace => InputEvent::Backspace,
        KeyCode::Enter => InputEvent::NewLine,
        KeyCode::Right => InputEvent::Right,
        KeyCode::Other => InputEvent::Timeout,
    }
}

/// Handles keyboard input events: the host program polls the terminal with
/// the handler's timeout and passes each key event through
/// [`InputHandler::handle_key_event`].
pub struct InputHandler {
    /// How long to wait for input before timing out, in milliseconds.
    timeout_ms: u64,
}

impl InputHandler {
    /// The input-poll timeout, in milliseconds.
    pub closed spec fn spec_timeout_ms(&self) -> u64 {
        self.timeout_ms
    }

    /// Creates a new input handler with the given timeout in milliseconds.
    pub fn new(timeout_ms: u64) -> (r: InputHandler)
        ensures
            r.spec_timeout_ms() == timeout_ms,
    {
        InputHandler { timeout_ms }
    }

    /// Returns the input-poll timeout, in milliseconds.
    pub fn timeout_ms(&self) -> (r: u64)
        ensures
            r == self.spec_timeout_ms(),
    {
        self.timeout_ms
    }

    /// Converts a keyboard event into the editor's event.
    pub fn handle_key_event(&self, key: KeyInput) -> (r: InputEvent)
        ensures
            r == spec_handle_key(key),
    {
        match key.code {
            KeyCode::Char(c) => {
                if key.ctrl && c == 's' {
                    InputEvent::Save
                } else if key.ctrl && c == 'x' {
                    InputEvent::Close
                } else {
                    InputEvent::Char(c)
                }
            },
            KeyCode::Backspace => InputEvent::Backspace,
            KeyCode::Enter => InputEvent::NewLine,
            KeyCode::Right => InputEvent::Right,
            KeyCode::Other => InputEvent::Timeout,
        }
    }
}

} // verus!

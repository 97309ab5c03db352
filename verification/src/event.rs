//! The events that reach the consumer, and what a key asks for.

use vstd::prelude::*;
use crate::packet_data::CompletePacket;

verus! {

/// The key of a key event, as far as the application tells keys apart.
#[derive(Clone, Copy, Debug, PartialEq, Eq)]
pub enum KeyCode {
    Char(char),
    Down,
    Up,
    Enter,
    /// Any other key.
    Other,
}

/// One key event from the terminal.
#[derive(Clone, Copy, Debug, PartialEq, Eq)]
pub struct KeyEvent {
    pub code: KeyCode,
    /// The key went down; false for a release or a repeat.
    pub pressed: bool,
}

/// One event on the channel to the consumer. Three producers send them:
/// the input reader, the capture thread and the tick scheduler.
#[derive(Clone, Debug, PartialEq, Eq)]
pub enum Event {
    Input(KeyEvent),
    PacketCaptured(CompletePacket),
    Render,
}

/// What a key event asks the application to do.
#[derive(Clone, Copy, Debug, PartialEq, Eq)]
pub enum KeyAction {
    Quit,
    NextRow,
    PreviousRow,
    NextInterface,
    ToggleSniffer,
    TogglePopup,
    Ignore,
}

/// The action bound to a key event: `q` quits, `j` or Down and `k` or Up
/// move the selection, `i` switches the interface, `p` starts or stops the
/// capture, Enter opens or closes the details. Only a key press acts.
pub open spec fn action_of(key_event: KeyEvent) -> KeyAction {
    if !key_event.pressed {
        KeyAction::Ignore
    } else {
        match key_event.code {
            KeyCode::Char(c) => if c == 'q' {
                KeyAction::Quit
            } else if c == 'j' {
                KeyAction::NextRow
            } else if c == 'k' {
                KeyAction::PreviousRow
            } else if c == 'i' {
                KeyAction::NextInterface
            } else if c == 'p' {
                KeyAction::ToggleSniffer
            } else {
                KeyAction::Ignore
            },
            KeyCode::Down => KeyAction::NextRow,
            KeyCode::Up => KeyAction::PreviousRow,
            KeyCode::Enter => KeyAction::TogglePopup,
            KeyCode::Other => KeyAction::Ignore,
        }
    }
}

impl KeyEvent {
    /// The action bound to this key event.
    pub fn action(&self) -> (action: KeyAction)
        ensures
            action == action_of(*self),
    {
        if !self.pressed {
            return KeyAction::Ignore;
        }
        match self.code {
            KeyCode::Char('q') => KeyAction::Quit,
            KeyCode::Char('j') | KeyCode::Down => KeyAction::NextRow,
            KeyCode::Char('k') | KeyCode::Up => KeyAction::PreviousRow,
            KeyCode::Char('i') => KeyAction::NextInterface,
            KeyCode::Char('p') => KeyAction::ToggleSniffer,
            KeyCode::Enter => KeyAction::TogglePopup,
            _ => KeyAction::Ignore,
        }
    }
}

} // verus!

//! Events that the compositor understands, and the pane tree they act on.

use vstd::prelude::*;

pub mod container;
pub mod focus_laws;
pub mod framework;
pub mod framework_laws;
pub mod insert_laws;
pub mod layout_laws;
pub mod path;

verus! {

/// A directional request to move the focus to a neighbouring pane.
#[derive(Clone, Copy, Debug, PartialEq, Eq, Structural)]
pub enum ChangeFocusEvent {
    Up,
    Down,
    Left,
    Right,
}

/// The key of a key press, as far as any pane tells keys apart.
#[derive(Clone, Copy, Debug, PartialEq, Eq, Structural)]
pub enum KeyCode {
    Up,
    Down,
    Left,
    Right,
    Enter,
    Esc,
    Char(char),
    Other,
}

/// The modifier keys held while a key was pressed.
#[derive(Clone, Copy, Debug, PartialEq, Eq, Structural)]
pub struct KeyModifiers {
    pub shift: bool,
    pub control: bool,
    pub alt: bool,
    pub super_key: bool,
    pub hyper: bool,
    pub meta: bool,
}

/// Whether a key went down, is being held, or came up.
#[derive(Clone, Copy, Debug, PartialEq, Eq, Structural)]
pub enum KeyEventKind {
    Press,
    Repeat,
    Release,
}

/// Extra state that the terminal reports with a key.
#[derive(Clone, Copy, Debug, PartialEq, Eq, Structural)]
pub struct KeyEventState {
    pub keypad: bool,
    pub caps_lock: bool,
    pub num_lock: bool,
}

/// One key event.
#[derive(Clone, Copy, Debug, PartialEq, Eq, Structural)]
pub struct KeyEvent {
    pub code: KeyCode,
    pub modifiers: KeyModifiers,
    pub kind: KeyEventKind,
    pub state: KeyEventState,
}

/// What the terminal delivers: a key, a new window size, or something no pane reads.
#[derive(Clone, Copy, Debug, PartialEq, Eq, Structural)]
pub enum InputEvent {
    Key(KeyEvent),
    Resize(u16, u16),
    Other,
}

/// What the framework dispatches: a focus move, or terminal input for the focused pane.
#[derive(Clone, Copy, Debug, PartialEq, Eq, Structural)]
pub enum Event {
    ChangeFocus(ChangeFocusEvent),
    Input(InputEvent),
}

impl KeyModifiers {
    /// No modifier key is held.
    pub open spec fn is_none(self) -> bool {
        !self.shift && !self.control && !self.alt && !self.super_key && !self.hyper && !self.meta
    }

    /// The empty set of modifiers.
    pub fn none() -> (r: KeyModifiers)
        ensures
            r.is_none(),
    {
        KeyModifiers {
            shift: false,
            control: false,
            alt: false,
            super_key: false,
            hyper: false,
            meta: false,
        }
    }

    /// Tells whether no modifier key is held.
    pub fn is_empty(&self) -> (r: bool)
        ensures
            r == self.is_none(),
    {
        !self.shift && !self.control && !self.alt && !self.super_key && !self.hyper && !self.meta
    }
}

impl KeyEventState {
    /// No extra state is reported.
    pub open spec fn is_none(self) -> bool {
        !self.keypad && !self.caps_lock && !self.num_lock
    }

    /// The empty state.
    pub fn none() -> (r: KeyEventState)
        ensures
            r.is_none(),
    {
        KeyEventState { keypad: false, caps_lock: false, num_lock: false }
    }

    /// Tells whether no extra state is reported.
    pub fn is_empty(&self) -> (r: bool)
        ensures
            r == self.is_none(),
    {
        !self.keypad && !self.caps_lock && !self.num_lock
    }
}

} // verus!

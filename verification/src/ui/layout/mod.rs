//! The pieces that screens are laid out from, and what passes between them
//! and the screens: keys going in, messages coming out.

use vstd::prelude::*;

pub mod components;
pub mod props;

verus! {

/// A key of the keyboard.
#[derive(Clone, Copy, Debug, PartialEq, Eq, Structural)]
pub enum KeyCode {
    Backspace,
    Enter,
    Left,
    Right,
    Up,
    Down,
    Home,
    End,
    PageUp,
    PageDown,
    Tab,
    BackTab,
    Delete,
    Insert,
    F(u8),
    Char(char),
    Null,
    Esc,
}

/// A key that was pressed, and the modifier keys that were held with it.
#[derive(Clone, Copy, Debug, PartialEq, Eq, Structural)]
pub struct KeyEvent {
    pub code: KeyCode,
    pub shift: bool,
    pub control: bool,
    pub alt: bool,
}

impl KeyEvent {
    /// The key `code` with no modifier key held.
    pub fn from(code: KeyCode) -> (r: KeyEvent)
        ensures
            r == (KeyEvent { code, shift: false, control: false, alt: false }),
    {
        KeyEvent { code, shift: false, control: false, alt: false }
    }

    /// The key `code` with the control key held.
    pub fn control(code: KeyCode) -> (r: KeyEvent)
        ensures
            r == (KeyEvent { code, shift: false, control: true, alt: false }),
    {
        KeyEvent { code, shift: false, control: true, alt: false }
    }
}

/// What happened at the terminal.
#[derive(Clone, Copy, Debug, PartialEq, Eq, Structural)]
pub enum InputEvent {
    Key(KeyEvent),
    Mouse,
    Resize(u16, u16),
}

/// A value that a component hands out.
#[derive(Debug, PartialEq, Eq)]
pub enum Payload {
    Text(String),
    Signed(isize),
    Unsigned(usize),
    /// No value.
    Nothing,
}

/// What a component tells the screen that holds it.
#[derive(Debug, PartialEq, Eq)]
pub enum Msg {
    OnSubmit(Payload),
    OnChange(Payload),
    /// A key that the component has no use for.
    OnKey(KeyEvent),
    /// Nothing to tell.
    Nothing,
}

} // verus!

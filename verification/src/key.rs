//! Keys of the terminal, as the components read them.

use vstd::prelude::*;

verus! {

/// A key press, as the components read it.
#[derive(Debug, Clone, Copy, PartialEq, Eq, Structural)]
pub enum Key {
    Enter,
    Esc,
    Char(char),
    Backspace,
    Delete,
    Up,
    Down,
    Left,
    Right,
    Tab,
    PageUp,
    PageDown,
    Ctrlc,
    Ctrlx,
    Ctrls,
    Ctrlh,
    Ctrlv,
    Ctrld,
    Ctrlp,
    Ctrln,
    Alts,
    Altd,
    Alth,
    Altv,
    AltLeft,
    AltRight,
    Unknown,
}

/// The code of a key event of the terminal.
#[derive(Debug, Clone, Copy, PartialEq, Eq, Structural)]
pub enum KeyCodeInput {
    Char(char),
    Enter,
    Esc,
    Backspace,
    Delete,
    Up,
    Down,
    Left,
    Right,
    Tab,
    PageUp,
    PageDown,
    /// Any other key code.
    Other,
}

/// A key event of the terminal: its code and the bits of its modifiers.
#[derive(Debug, Clone, Copy, PartialEq, Eq, Structural)]
pub struct KeyInput {
    pub code: KeyCodeInput,
    pub modifiers: u8,
}

/// The modifier bits of the control key alone.
pub const CONTROL_MODIFIER: u8 = 2;

/// The modifier bits of the alt key alone.
pub const ALT_MODIFIER: u8 = 4;

/// The key of an input: a control or alt chord where the modifiers are that
/// key alone and the chord is one of the known ones, else the plain key,
/// whatever the modifiers.
pub open spec fn key_of(input: KeyInput) -> Key {
    match (input.code, input.modifiers) {
        (KeyCodeInput::Char('c'), CONTROL_MODIFIER) => Key::Ctrlc,
        (KeyCodeInput::Char('x'), CONTROL_MODIFIER) => Key::Ctrlx,
        (KeyCodeInput::Char('s'), CONTROL_MODIFIER) => Key::Ctrls,
        (KeyCodeInput::Char('h'), CONTROL_MODIFIER) => Key::Ctrlh,
        (KeyCodeInput::Char('v'), CONTROL_MODIFIER) => Key::Ctrlv,
        (KeyCodeInput::Char('d'), CONTROL_MODIFIER) => Key::Ctrld,
        (KeyCodeInput::Char('p'), CONTROL_MODIFIER) => Key::Ctrlp,
        (KeyCodeInput::Char('n'), CONTROL_MODIFIER) => Key::Ctrln,
        (KeyCodeInput::Char('s'), ALT_MODIFIER) => Key::Alts,
        (KeyCodeInput::Char('d'), ALT_MODIFIER) => Key::Altd,
        (KeyCodeInput::Char('h'), ALT_MODIFIER) => Key::Alth,
        (KeyCodeInput::Char('v'), ALT_MODIFIER) => Key::Altv,
        (KeyCodeInput::Left, ALT_MODIFIER) => Key::AltLeft,
        (KeyCodeInput::Right, ALT_MODIFIER) => Key::AltRight,
        (KeyCodeInput::Enter, _) => Key::Enter,
        (KeyCodeInput::Esc, _) => Key::Esc,
        (KeyCodeInput::Char(c), _) => Key::Char(c),
        (KeyCodeInput::Backspace, _) => Key::Backspace,
        (KeyCodeInput::Delete, _) => Key::Delete,
        (KeyCodeInput::Up, _) => Key::Up,
        (KeyCodeInput::Down, _) => Key::Down,
        (KeyCodeInput::Left, _) => Key::Left,
        (KeyCodeInput::Right, _) => Key::Right,
        (KeyCodeInput::Tab, _) => Key::Tab,
        (KeyCodeInput::PageUp, _) => Key::PageUp,
        (KeyCodeInput::PageDown, _) => Key::PageDown,
        (KeyCodeInput::Other, _) => Key::Unknown,
    }
}

impl Key {
    /// The key that a terminal key event stands for.
    pub fn from_input(input: KeyInput) -> (r: Key)
        ensures
            r == key_of(input),
    {
        match (input.code, input.modifiers) {
            (KeyCodeInput::Char('c'), CONTROL_MODIFIER) => Key::Ctrlc,
            (KeyCodeInput::Char('x'), CONTROL_MODIFIER) => Key::Ctrlx,
            (KeyCodeInput::Char('s'), CONTROL_MODIFIER) => Key::Ctrls,
            (KeyCodeInput::Char('h'), CONTROL_MODIFIER) => Key::Ctrlh,
            (KeyCodeInput::Char('v'), CONTROL_MODIFIER) => Key::Ctrlv,
            (KeyCodeInput::Char('d'), CONTROL_MODIFIER) => Key::Ctrld,
            (KeyCodeInput::Char('p'), CONTROL_MODIFIER) => Key::Ctrlp,
            (KeyCodeInput::Char('n'), CONTROL_MODIFIER) => Key::Ctrln,
            (KeyCodeInput::Char('s'), ALT_MODIFIER) => Key::Alts,
            (KeyCodeInput::Char('d'), ALT_MODIFIER) => Key::Altd,
            (KeyCodeInput::Char('h'), ALT_MODIFIER) => Key::Alth,
            (KeyCodeInput::Char('v'), ALT_MODIFIER) => Key::Altv,
            (KeyCodeInput::Left, ALT_MODIFIER) => Key::AltLeft,
            (KeyCodeInput::Right, ALT_MODIFIER) => Key::AltRight,
            (KeyCodeInput::Enter, _) => Key::Enter,
            (KeyCodeInput::Esc, _) => Key::Esc,
            (KeyCodeInput::Char(c), _) => Key::Char(c),
            (KeyCodeInput::Backspace, _) => Key::Backspace,
            (KeyCodeInput::Delete, _) => Key::Delete,
            (KeyCodeInput::Up, _) => Key::Up,
            (KeyCodeInput::Down, _) => Key::Down,
            (KeyCodeInput::Left, _) => Key::Left,
            (KeyCodeInput::Right, _) => Key::Right,
            (KeyCodeInput::Tab, _) => Key::Tab,
            (KeyCodeInput::PageUp, _) => Key::PageUp,
            (KeyCodeInput::PageDown, _) => Key::PageDown,
            (KeyCodeInput::Other, _) => Key::Unknown,
        }
    }
}

/// Screen elements that a theme gives a style.
#[derive(Debug, Clone, Copy, PartialEq, Eq, Hash, Structural)]
pub enum StyleToken {
    // Table
    Header,
    Row,
    Cell,
    // State
    Select,
    Focus,
    NotFocus,
    // Status
    Info,
    Warning,
    Error,
    Success,
    // Text line
    Line,
}

/// Components that take key presses.
pub trait Event {
    type EventState;

    fn event(&mut self, key: Key) -> Self::EventState;
}

/// Whether a component used a key.
#[derive(Debug, Clone, Copy, PartialEq, Eq, Structural)]
pub enum EventState {
    Consumed,
    NotConsumed,
    /// The process id of the selected row, to act on.
    ReturnPID(u32),
}

} // verus!

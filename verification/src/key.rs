//! Key events as the input device reports them.

use vstd::prelude::*;

verus! {

/// The printable character that the Enter key produces.
pub const ENTER: char = '\r';

/// The printable character that the Tab key produces.
pub const TAB: char = '\t';

/// The printable character that the Backspace key produces.
pub const BACKSPACE: char = '\x08';

/// One poll of the input device.
#[derive(Clone, Copy, Debug, PartialEq, Eq)]
pub enum KeyEvent {
    /// A key that stands for a character.
    Printable(char),
    /// A key without a character (navigation, function keys), by its scan code.
    Special(u16),
    /// The device had no key pending.
    Nothing,
}

impl KeyEvent {
    /// Whether this event is the Enter key.
    pub open spec fn is_enter(self) -> bool {
        self == KeyEvent::Printable(ENTER)
    }

    /// Whether this event is the Enter key.
    pub fn pressed_enter(&self) -> (b: bool)
        ensures
            b == self.is_enter(),
    {
        match *self {
            KeyEvent::Printable(ch) => ch == ENTER,
            _ => false,
        }
    }
}

} // verus!

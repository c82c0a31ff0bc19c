//! What the keyboard can tell the application.

use vstd::prelude::*;

verus! {

/// A key, as far as the application tells keys apart.
#[derive(Clone, Copy, Debug, PartialEq, Eq)]
pub enum Key {
    Char(char),
    Esc,
    Up,
    Down,
    Left,
    Right,
    /// Any other key.
    Other,
}

/// What one wait for input brought.
#[derive(Clone, Copy, Debug, PartialEq, Eq)]
pub enum Input {
    /// The wait ran out with nothing to read.
    Idle,
    /// A key was pressed.
    Key(Key),
    /// Something that is not a key: the mouse, a resize.
    Other,
}

impl Key {
    /// Whether the key ends the application: `q` or escape.
    pub open spec fn spec_is_quit(self) -> bool {
        self == Key::Char('q') || self == Key::Esc
    }

    #[verifier::when_used_as_spec(spec_is_quit)]
    pub fn is_quit(self) -> (quit: bool)
        ensures
            quit == self.spec_is_quit(),
    {
        match self {
            Key::Char(c) => c == 'q',
            Key::Esc => true,
            _ => false,
        }
    }
}

impl Input {
    /// Whether the input is a key that ends the application.
    pub open spec fn spec_is_quit(self) -> bool {
        match self {
            Input::Key(key) => key.spec_is_quit(),
            _ => false,
        }
    }

    #[verifier::when_used_as_spec(spec_is_quit)]
    pub fn is_quit(self) -> (quit: bool)
        ensures
            quit == self.spec_is_quit(),
    {
        match self {
            Input::Key(key) => key.is_quit(),
            _ => false,
        }
    }
}

} // verus!

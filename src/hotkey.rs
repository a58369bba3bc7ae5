//! The global shortcut that counts a death by hand.
use vstd::prelude::*;

verus! {

#[derive(Clone, Copy, Debug, PartialEq, Eq, Structural)]
pub enum Modifier {
    Ctrl,
    Alt,
    Shift,
}

#[derive(Clone, Copy, Debug, PartialEq, Eq, Structural)]
pub enum Key {
    Plus,
    Char(char),
}

#[derive(Clone, Copy, Debug, PartialEq, Eq, Structural)]
pub enum HotkeyError {
    UnsupportedPlatform,
    RegistrationFailed,
}

/// A platform's way of registering the shortcut and waiting for it.
pub trait GlobalHotkey {
    /// Registers the shortcut made of the modifiers and the key.
    fn register(&self, mods: &[Modifier], key: Key) -> Result<(), HotkeyError>;

    /// Waits for presses and sends one message for each, until the platform
    /// stops.
    fn event_loop(&self);
}

/// What the shortcut sends.
#[derive(Clone, Copy, Debug, PartialEq, Eq, Structural)]
pub enum HotkeyMessage {
    Increment,
}

} // verus!

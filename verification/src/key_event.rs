//! Key transitions and the text messages that describe them.

use vstd::prelude::*;

verus! {

/// Which way a key moved.
#[derive(Clone, Copy, Debug, PartialEq, Eq, Structural)]
pub enum Direction {
    Pressed,
    Released,
}

/// One key transition: the direction and the platform's name for the key.
#[derive(Clone, Debug, PartialEq, Eq)]
pub struct KeyEvent {
    pub direction: Direction,
    pub key: String,
}

/// A key transition as a mathematical value.
pub struct KeyEventView {
    pub direction: Direction,
    pub key: Seq<char>,
}

impl View for KeyEvent {
    type V = KeyEventView;

    open spec fn view(&self) -> KeyEventView {
        KeyEventView { direction: self.direction, key: self.key@ }
    }
}

/// The words that open the message for a transition in `direction`.
pub open spec fn message_prefix(direction: Direction) -> Seq<char> {
    match direction {
        Direction::Pressed => "Key Pressed: "@,
        Direction::Released => "Key Released: "@,
    }
}

/// The message that reports a transition of `key` in `direction`:
/// `Key Pressed: <key>` or `Key Released: <key>`.
pub open spec fn message_text(direction: Direction, key: Seq<char>) -> Seq<char> {
    message_prefix(direction) + key
}

impl KeyEventView {
    /// The message that reports this transition.
    pub open spec fn message(self) -> Seq<char> {
        message_text(self.direction, self.key)
    }
}

impl KeyEvent {
    /// A transition of the key named `key` in `direction`.
    pub fn new(direction: Direction, key: &str) -> (event: KeyEvent)
        ensures
            event@ == (KeyEventView { direction, key: key@ }),
    {
        KeyEvent { direction, key: String::from_str(key) }
    }

    /// A press of the key named `key`.
    pub fn pressed(key: &str) -> (event: KeyEvent)
        ensures
            event@ == (KeyEventView { direction: Direction::Pressed, key: key@ }),
    {
        KeyEvent::new(Direction::Pressed, key)
    }

    /// A release of the key named `key`.
    pub fn released(key: &str) -> (event: KeyEvent)
        ensures
            event@ == (KeyEventView { direction: Direction::Released, key: key@ }),
    {
        KeyEvent::new(Direction::Released, key)
    }

    /// The message that reports this transition.
    pub fn message(&self) -> (text: String)
        ensures
            text@ == self@.message(),
    {
        let prefix: &str = match self.direction {
            Direction::Pressed => "Key Pressed: ",
            Direction::Released => "Key Released: ",
        };
        let mut text = String::from_str(prefix);
        text.append(self.key.as_str());
        text
    }
}

} // verus!

//! Logical user commands and their decoding from raw key events.

use vstd::prelude::*;

verus! {

/// A logical user intent, decoded from one raw input event.
///
/// The mapping from events is total: anything unrecognized becomes `Noop`,
/// which every mode ignores.
#[derive(Clone, Copy, Debug, PartialEq, Eq, Structural)]
pub enum Command {
    /// End the interactive session.
    Quit,
    /// Toggle the running flag of the active mode.
    PauseResume,
    /// Return the active mode to its initial state.
    Reset,
    /// Force the current phase or countdown to complete immediately.
    Skip,
    /// An input that no mode reacts to.
    Noop,
}

/// A raw key press, reduced to the plain values the core needs.
///
/// The terminal layer translates whatever event type it reads into this
/// before handing it over.
#[derive(Clone, Copy, Debug, PartialEq, Eq, Structural)]
pub enum Key {
    /// A printable character key.
    Char(char),
    /// The escape key.
    Esc,
    /// Any other key or terminal event.
    Other,
}

impl Command {
    /// The key bindings: `q` or escape quits, space or `p` pauses and
    /// resumes, `r` resets, `s` skips; everything else is a no-op.
    pub open spec fn decode_spec(key: Key) -> Command {
        match key {
            Key::Char(c) => {
                if c == 'q' {
                    Command::Quit
                } else if c == ' ' || c == 'p' {
                    Command::PauseResume
                } else if c == 'r' {
                    Command::Reset
                } else if c == 's' {
                    Command::Skip
                } else {
                    Command::Noop
                }
            },
            Key::Esc => Command::Quit,
            Key::Other => Command::Noop,
        }
    }

    /// Decode one raw key into exactly one command.
    pub fn decode(key: Key) -> (c: Command)
        ensures
            c == Command::decode_spec(key),
    {
        match key {
            Key::Char(c) => {
                if c == 'q' {
                    Command::Quit
                } else if c == ' ' || c == 'p' {
                    Command::PauseResume
                } else if c == 'r' {
                    Command::Reset
                } else if c == 's' {
                    Command::Skip
                } else {
                    Command::Noop
                }
            },
            Key::Esc => Command::Quit,
            Key::Other => Command::Noop,
        }
    }
}

} // verus!

//! Commands of the editor, and the keys that give them.

use vstd::prelude::*;

verus! {

/// What the editor can be told to do to the object in focus.
#[derive(Debug, Clone, Copy, PartialEq, Eq, Structural)]
pub enum Command {
    /// Take the object out of the scene.
    Delete,
}

/// A key of the keyboard, as far as commands go.
#[derive(Debug, Clone, Copy, PartialEq, Eq, Structural)]
pub enum Key {
    Delete,
    Other,
}

/// What reaches the commander.
#[derive(Debug, Clone, Copy, PartialEq, Eq, Structural)]
pub enum CommanderEvent {
    /// The window has come up.
    WindowConnected,
    /// A key went down; `repeat` says whether it is being held.
    KeyDown { key: Key, repeat: bool },
    /// Anything else.
    Other,
}

/// What the commander wants done about an event.
#[derive(Debug, Clone, Copy, PartialEq, Eq, Structural)]
pub struct CommanderReaction {
    /// The keyboard focus is to be asked for.
    pub request_focus: bool,
    /// The command to send out, if the event gives one.
    pub command: Option<Command>,
    /// Whether the event is dealt with; if not, it goes on to the child.
    pub handled: bool,
}

/// Turns keys into commands for the widgets below it.
#[derive(Debug, Clone, Copy, PartialEq, Eq, Structural)]
pub struct Commander;

impl Commander {
    /// The command that `key` gives, if it gives one.
    pub fn consume_key(key: Key) -> (command: Option<Command>)
        ensures
            command == match key {
                Key::Delete => Some(Command::Delete),
                Key::Other => None::<Command>,
            },
    {
        match key {
            Key::Delete => Some(Command::Delete),
            Key::Other => None,
        }
    }

    /// Decides on an event.
    ///
    /// When the window comes up the focus is asked for. A key that goes
    /// down, and is not being held, sends out its command, if it has one,
    /// and is then dealt with. Everything else goes on to the child.
    pub fn event(&mut self, event: CommanderEvent) -> (reaction: CommanderReaction)
        ensures
            reaction.request_focus <==> event == CommanderEvent::WindowConnected,
            reaction.command == match event {
                CommanderEvent::KeyDown { key: Key::Delete, repeat: false } => Some(
                    Command::Delete,
                ),
                _ => None::<Command>,
            },
            reaction.handled <==> reaction.command is Some,
    {
        match event {
            CommanderEvent::WindowConnected => CommanderReaction {
                request_focus: true,
                command: None,
                handled: false,
            },
            CommanderEvent::KeyDown { key, repeat } => {
                let command = if repeat {
                    None
                } else {
                    Self::consume_key(key)
                };
                CommanderReaction { request_focus: false, command, handled: command.is_some() }
            },
            CommanderEvent::Other => CommanderReaction {
                request_focus: false,
                command: None,
                handled: false,
            },
        }
    }
}

} // verus!

//! The mode state machine: what one input event means in each mode.

use vstd::prelude::*;

use crate::enums::{Action, Event, Key};
use crate::screen::Paint;

verus! {

/// The interpretation context of input events. A mode carries no data: the
/// text of a command in progress is kept by the editor.
#[derive(Clone, Copy, Debug, PartialEq, Eq, Structural)]
pub enum Mode {
    Normal,
    Insert,
    Command,
}

/// What a mode makes of one event: the action it asks for, if any, and the
/// character to show on the screen at once, if any.
#[derive(Clone, Copy, Debug, PartialEq, Eq, Structural)]
pub struct Response {
    pub action: Option<Action>,
    pub echo: Option<char>,
}

/// How the status line shows a mode: the text of its tag and the colour
/// behind it.
#[derive(Clone, Copy, Debug)]
pub struct StatusStyle {
    pub content: &'static str,
    pub background: Paint,
}

impl Mode {
    /// The text of the mode's tag on the status line.
    pub open spec fn label(self) -> Seq<char> {
        match self {
            Mode::Normal => " NORMAL "@,
            Mode::Insert => " INSERT "@,
            Mode::Command => " COMMAND "@,
        }
    }

    /// The colour behind the mode's tag.
    pub open spec fn paint(self) -> Paint {
        match self {
            Mode::Normal => Paint::Blue,
            Mode::Insert => Paint::DarkYellow,
            Mode::Command => Paint::Magenta,
        }
    }

    /// The tag and colour that stand for this mode on the status line.
    pub fn status_style(&self) -> (style: StatusStyle)
        ensures
            style.content@ == self.label(),
            style.background == self.paint(),
    {
        if *self == Mode::Normal {
            StatusStyle { content: " NORMAL ", background: Paint::Blue }
        } else if *self == Mode::Insert {
            StatusStyle { content: " INSERT ", background: Paint::DarkYellow }
        } else {
            StatusStyle { content: " COMMAND ", background: Paint::Magenta }
        }
    }

    /// The key bindings of Normal mode.
    pub open spec fn normal_binding(key: Key) -> Option<Action> {
        match key {
            Key::Char(c) => if c == 'q' {
                Some(Action::Quit)
            } else if c == 'i' {
                Some(Action::SwitchToInsert)
            } else if c == 'k' {
                Some(Action::MoveUp)
            } else if c == 'j' {
                Some(Action::MoveDown)
            } else if c == 'h' {
                Some(Action::MoveLeft)
            } else if c == 'l' {
                Some(Action::MoveRight)
            } else if c == ':' {
                Some(Action::Command)
            } else {
                None
            },
            Key::Up => Some(Action::MoveUp),
            Key::Down => Some(Action::MoveDown),
            Key::Left => Some(Action::MoveLeft),
            Key::Right => Some(Action::MoveRight),
            Key::Esc => Some(Action::SwitchToNormal),
            _ => None,
        }
    }

    /// The key bindings of Insert mode: every character advances the cursor
    /// past itself.
    pub open spec fn insert_binding(key: Key) -> Option<Action> {
        match key {
            Key::Esc => Some(Action::SwitchToNormal),
            Key::Char(_) => Some(Action::MoveRight),
            _ => None,
        }
    }

    /// The key bindings of Command mode. `Enter` is bound to nothing.
    pub open spec fn command_binding(key: Key) -> Option<Action> {
        match key {
            Key::Esc => Some(Action::SwitchToNormal),
            Key::Backspace | Key::Delete => Some(Action::MoveLeft),
            Key::Char(_) => Some(Action::MoveRight),
            _ => None,
        }
    }

    /// The action that the event yields in this mode. It depends on the mode
    /// and the event and on nothing else.
    pub open spec fn action_for(self, ev: Event) -> Option<Action> {
        match ev {
            Event::Key(key) => match self {
                Mode::Normal => Mode::normal_binding(key),
                Mode::Insert => Mode::insert_binding(key),
                Mode::Command => Mode::command_binding(key),
            },
            Event::Other => None,
        }
    }

    /// The character to show at once: the one typed, in Insert mode only.
    pub open spec fn echo_for(self, ev: Event) -> Option<char> {
        match (self, ev) {
            (Mode::Insert, Event::Key(Key::Char(c))) => Some(c),
            _ => None,
        }
    }

    /// The command buffer after the event. Only Command mode edits it: a
    /// character is put at its end, `Backspace` and `Delete` take the last
    /// one off, and on an empty buffer they take nothing.
    pub open spec fn buffer_after(self, ev: Event, buffer: Seq<char>) -> Seq<char> {
        match (self, ev) {
            (Mode::Command, Event::Key(Key::Char(c))) => buffer.push(c),
            (Mode::Command, Event::Key(Key::Backspace)) | (Mode::Command, Event::Key(Key::Delete)) =>
                if buffer.len() > 0 {
                    buffer.drop_last()
                } else {
                    buffer
                },
            _ => buffer,
        }
    }

    /// Interprets one event in this mode. Events that the mode does not bind
    /// are no errors: they yield no action and change nothing.
    pub fn handle_event(&self, ev: Event, command: &mut String) -> (response: Response)
        ensures
            response.action == self.action_for(ev),
            response.echo == self.echo_for(ev),
            final(command)@ == self.buffer_after(ev, old(command)@),
    {
        if matches!(self, Mode::Normal) {
            Response { action: Mode::handle_normal_event(ev), echo: None }
        } else if matches!(self, Mode::Insert) {
            Mode::handle_insert_event(ev)
        } else {
            Response { action: Mode::handle_command_mode(ev, command), echo: None }
        }
    }

    fn handle_normal_event(ev: Event) -> (action: Option<Action>)
        ensures
            action == Mode::Normal.action_for(ev),
    {
        match ev {
            Event::Key(key) => match key {
                Key::Char('q') => Some(Action::Quit),
                Key::Char('i') => Some(Action::SwitchToInsert),
                Key::Up | Key::Char('k') => Some(Action::MoveUp),
                Key::Down | Key::Char('j') => Some(Action::MoveDown),
                Key::Left | Key::Char('h') => Some(Action::MoveLeft),
                Key::Right | Key::Char('l') => Some(Action::MoveRight),
                Key::Char(':') => Some(Action::Command),
                Key::Esc => Some(Action::SwitchToNormal),
                _ => None,
            },
            _ => None,
        }
    }

    fn handle_insert_event(ev: Event) -> (response: Response)
        ensures
            response.action == Mode::Insert.action_for(ev),
            response.echo == Mode::Insert.echo_for(ev),
    {
        match ev {
            Event::Key(key) => match key {
                Key::Esc => Response { action: Some(Action::SwitchToNormal), echo: None },
                Key::Char(c) => Response { action: Some(Action::MoveRight), echo: Some(c) },
                _ => Response { action: None, echo: None },
            },
            _ => Response { action: None, echo: None },
        }
    }

    fn handle_command_mode(ev: Event, command: &mut String) -> (action: Option<Action>)
        ensures
            action == Mode::Command.action_for(ev),
            final(command)@ == Mode::Command.buffer_after(ev, old(command)@),
    {
        match ev {
            Event::Key(key) => match key {
                Key::Esc => Some(Action::SwitchToNormal),
                Key::Backspace => {
                    let _ = command.pop();
                    Some(Action::MoveLeft)
                },
                Key::Delete => {
                    let _ = command.pop();
                    Some(Action::MoveLeft)
                },
                Key::Char(c) => {
                    command.push(c);
                    Some(Action::MoveRight)
                },
                _ => None,
            },
            _ => None,
        }
    }
}

} // verus!

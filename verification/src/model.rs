//! The editor as a mathematical state machine: its state, the two transitions
//! of one turn of the main loop, and what each of them sends to the terminal.

use vstd::prelude::*;

use crate::editor::Cursor;
use crate::enums::{Action, Event};
use crate::mode::Mode;
use crate::screen::{OutputView, Paint};

verus! {

/// The column where the text of a command starts: the width of the widest
/// mode tag.
pub const INDICATOR_WIDTH: u16 = 9;

/// The state of an editor.
pub struct EditorState {
    pub mode: Mode,
    /// The terminal's size when it was last laid out: columns, then rows.
    pub size: (u16, u16),
    /// The text of the command in progress.
    pub command: Seq<char>,
    /// The position in the document.
    pub text_cursor: Cursor,
    /// The position on the status line.
    pub command_cursor: Cursor,
}

/// What the terminal hands to one turn of the main loop: its size, and then
/// the next input event.
pub struct Turn {
    pub columns: u16,
    pub rows: u16,
    pub event: Event,
}

/// The row of the status line in a terminal of `rows` rows: the second from
/// the bottom, and the top row where the terminal is too small for that.
pub open spec fn status_row(rows: u16) -> u16 {
    if rows >= 2 {
        (rows - 2) as u16
    } else {
        0
    }
}

/// The glyph that closes the mode tag.
pub open spec fn separator() -> Seq<char> {
    "\u{e0b0}"@
}

/// Erasing one row of the screen.
pub open spec fn clear_line_outputs(line: u16) -> Seq<OutputView> {
    seq![OutputView::MoveTo { column: 0, row: line }, OutputView::ClearLine]
}

/// Putting the terminal's cursor where `cursor` is, at once.
pub open spec fn place_outputs(cursor: Cursor) -> Seq<OutputView> {
    seq![OutputView::MoveTo { column: cursor.cx, row: cursor.cy }, OutputView::Flush]
}

impl EditorState {
    /// The state that every editor starts in. The size `(0, 0)` stands for
    /// "not laid out yet".
    pub open spec fn initial() -> EditorState {
        EditorState {
            mode: Mode::Normal,
            size: (0, 0),
            command: Seq::empty(),
            text_cursor: Cursor::origin(),
            command_cursor: Cursor::origin(),
        }
    }

    /// What holds of every state that the main loop reaches: a command is in
    /// progress in Command mode only, and the command-line cursor stays on
    /// the status row.
    pub open spec fn wf(self) -> bool {
        &&& !(self.mode is Command) ==> self.command.len() == 0
        &&& self.command_cursor.cy == status_row(self.size.1)
    }

    /// The cursor that moves act on: the command-line cursor in Command mode,
    /// the text cursor in the other modes.
    pub open spec fn active_cursor(self) -> Cursor {
        if self.mode is Command {
            self.command_cursor
        } else {
            self.text_cursor
        }
    }

    /// Whether the terminal has room for a status line.
    pub open spec fn has_status_line(self) -> bool {
        self.size.1 > 2
    }

    /// The state after the terminal reported `columns` and `rows`. A size
    /// that differs from the one laid out last puts the command-line cursor
    /// back behind the mode tag on the new status row.
    pub open spec fn resized(self, columns: u16, rows: u16) -> EditorState {
        if (columns, rows) != self.size {
            EditorState {
                size: (columns, rows),
                command_cursor: Cursor { cx: INDICATOR_WIDTH, cy: status_row(rows) },
                ..self
            }
        } else {
            self
        }
    }

    /// What a report of the terminal's size sends to the screen: on a change
    /// the status line of the old layout is erased, if there was one.
    pub open spec fn resize_outputs(self, columns: u16, rows: u16) -> Seq<OutputView> {
        if (columns, rows) != self.size && self.has_status_line() {
            clear_line_outputs(status_row(self.size.1))
        } else {
            Seq::empty()
        }
    }

    /// The status line: the mode's tag in black on the mode's colour, the
    /// closing glyph in that colour, and in Command mode a colon and the
    /// command typed so far. A terminal of fewer than three rows shows none.
    pub open spec fn status_line_outputs(self) -> Seq<OutputView> {
        if self.has_status_line() {
            let tag = seq![
                OutputView::MoveTo { column: 0, row: self.command_cursor.cy },
                OutputView::PrintStyled {
                    text: self.mode.label(),
                    foreground: Paint::Black,
                    background: Some(self.mode.paint()),
                    bold: true,
                },
                OutputView::PrintStyled {
                    text: separator(),
                    foreground: self.mode.paint(),
                    background: None,
                    bold: false,
                },
            ];
            if self.mode is Command {
                tag + seq![OutputView::Print(seq![':'] + self.command), OutputView::Flush]
            } else {
                tag
            }
        } else {
            Seq::empty()
        }
    }

    /// Everything that is drawn before the editor waits for input, given the
    /// terminal's size: the old status line is erased if the size changed,
    /// the status line is drawn, and outside Command mode the terminal's
    /// cursor goes to the text cursor.
    pub open spec fn frame_outputs(self, columns: u16, rows: u16) -> Seq<OutputView> {
        let next = self.resized(columns, rows);
        self.resize_outputs(columns, rows) + next.status_line_outputs() + if next.mode is Command {
            Seq::empty()
        } else {
            place_outputs(next.text_cursor)
        }
    }

    /// The state after an action is carried out.
    pub open spec fn applied(self, action: Action) -> EditorState {
        match action {
            Action::Quit => self,
            Action::MoveUp | Action::MoveDown | Action::MoveLeft | Action::MoveRight => if self.mode is Command {
                EditorState { command_cursor: self.command_cursor.stepped(action), ..self }
            } else {
                EditorState { text_cursor: self.text_cursor.stepped(action), ..self }
            },
            Action::SwitchToInsert => EditorState { mode: Mode::Insert, ..self },
            Action::SwitchToNormal => EditorState {
                mode: Mode::Normal,
                command: if self.mode is Command {
                    Seq::empty()
                } else {
                    self.command
                },
                ..self
            },
            Action::Command => EditorState { mode: Mode::Command, ..self },
        }
    }

    /// What carrying out an action sends to the screen. Leaving Command mode
    /// erases the status row; a return to Normal mode puts the terminal's
    /// cursor on the text cursor, and entering Command mode puts it on the
    /// command-line cursor.
    pub open spec fn apply_outputs(self, action: Action) -> Seq<OutputView> {
        match action {
            Action::SwitchToNormal => if self.mode is Command {
                clear_line_outputs(self.command_cursor.cy) + place_outputs(self.text_cursor)
            } else {
                place_outputs(self.text_cursor)
            },
            Action::Command => place_outputs(self.command_cursor),
            _ => Seq::empty(),
        }
    }

    /// The state after one input event: the mode interprets the event, which
    /// in Command mode edits the command, and the action that it yields, if
    /// any, is carried out.
    pub open spec fn stepped(self, ev: Event) -> EditorState {
        let heard = EditorState { command: self.mode.buffer_after(ev, self.command), ..self };
        match self.mode.action_for(ev) {
            Some(action) => heard.applied(action),
            None => heard,
        }
    }

    /// The state after one whole turn of the main loop: the terminal's size
    /// is taken note of, then one event is handled.
    pub open spec fn after_turn(self, turn: Turn) -> EditorState {
        self.resized(turn.columns, turn.rows).stepped(turn.event)
    }

    /// The state after a run of turns, from first to last.
    pub open spec fn after_turns(self, turns: Seq<Turn>) -> EditorState
        decreases turns.len(),
    {
        if turns.len() == 0 {
            self
        } else {
            self.after_turns(turns.drop_last()).after_turn(turns.last())
        }
    }

    /// What one input event sends to the screen: the character to echo, what
    /// the action asks for, and, unless the editor quits, one more erasure
    /// of the status row where the editor is in Command mode afterwards.
    pub open spec fn step_outputs(self, ev: Event) -> Seq<OutputView> {
        let next = self.stepped(ev);
        let echo = match self.mode.echo_for(ev) {
            Some(c) => seq![OutputView::Print(seq![c])],
            None => Seq::empty(),
        };
        let acted = match self.mode.action_for(ev) {
            Some(action) => self.apply_outputs(action),
            None => Seq::empty(),
        };
        let swept = if next.mode is Command && self.mode.action_for(ev) != Some(Action::Quit) {
            clear_line_outputs(next.command_cursor.cy)
        } else {
            Seq::empty()
        };
        echo + acted + swept
    }
}

} // verus!

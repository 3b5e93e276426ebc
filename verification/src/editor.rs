//! The two cursors of the editor and the editor itself.

use vstd::prelude::*;

use crate::enums::{Action, Event};
use crate::mode::Mode;
use crate::model::{clear_line_outputs, place_outputs, EditorState, INDICATOR_WIDTH};
use crate::screen::{Output, Paint};

verus! {

/// A position on the screen: `cx` is the column, `cy` the row, both counted
/// from zero at the top left.
#[derive(Clone, Copy, Debug, PartialEq, Eq, Structural)]
pub struct Cursor {
    pub cx: u16,
    pub cy: u16,
}

impl Cursor {
    /// The top left cell.
    pub open spec fn origin() -> Cursor {
        Cursor { cx: 0, cy: 0 }
    }

    /// One cell to the right; the last column holds the cursor back.
    pub open spec fn right(self) -> Cursor {
        Cursor { cx: if self.cx < u16::MAX { (self.cx + 1) as u16 } else { u16::MAX }, cy: self.cy }
    }

    /// One cell to the left; column zero holds the cursor back.
    pub open spec fn left(self) -> Cursor {
        Cursor { cx: if self.cx > 0 { (self.cx - 1) as u16 } else { 0 }, cy: self.cy }
    }

    /// One cell down; the last row holds the cursor back.
    pub open spec fn down(self) -> Cursor {
        Cursor { cx: self.cx, cy: if self.cy < u16::MAX { (self.cy + 1) as u16 } else { u16::MAX } }
    }

    /// One cell up; row zero holds the cursor back.
    pub open spec fn up(self) -> Cursor {
        Cursor { cx: self.cx, cy: if self.cy > 0 { (self.cy - 1) as u16 } else { 0 } }
    }

    /// The cursor after one action: the four moves step it, every other action
    /// leaves it where it is.
    pub open spec fn stepped(self, action: Action) -> Cursor {
        match action {
            Action::MoveUp => self.up(),
            Action::MoveDown => self.down(),
            Action::MoveLeft => self.left(),
            Action::MoveRight => self.right(),
            _ => self,
        }
    }

    /// The cursor after a run of actions, carried out from first to last.
    pub open spec fn after(self, actions: Seq<Action>) -> Cursor
        decreases actions.len(),
    {
        if actions.len() == 0 {
            self
        } else {
            self.after(actions.drop_last()).stepped(actions.last())
        }
    }

    pub fn new() -> (cursor: Self)
        ensures
            cursor == Cursor::origin(),
    {
        Cursor { cx: 0, cy: 0 }
    }

    pub fn mode_right(&mut self)
        ensures
            *final(self) == old(self).right(),
    {
        self.cx = self.cx.saturating_add(1);
    }

    pub fn mode_left(&mut self)
        ensures
            *final(self) == old(self).left(),
    {
        self.cx = self.cx.saturating_sub(1);
    }

    pub fn mode_down(&mut self)
        ensures
            *final(self) == old(self).down(),
    {
        self.cy = self.cy.saturating_add(1);
    }

    pub fn mode_up(&mut self)
        ensures
            *final(self) == old(self).up(),
    {
        self.cy = self.cy.saturating_sub(1);
    }
}

/// The orchestrator: it owns the mode, the two cursors, the command in
/// progress and the terminal's size as last laid out, and turns sizes and
/// input events into state changes and operations on the screen.
pub struct Editor {
    mode: Mode,
    size: (u16, u16),
    command: String,
    text_cursor: Cursor,
    command_cursor: Cursor,
}

/// What one input event came to.
pub struct Step {
    /// The action that the event yielded in the mode it met.
    pub action: Option<Action>,
    /// What to do on the screen, in this order.
    pub outputs: Vec<Output>,
    /// Whether the main loop ends here.
    pub quit: bool,
}

impl View for Editor {
    type V = EditorState;

    closed spec fn view(&self) -> EditorState {
        EditorState {
            mode: self.mode,
            size: self.size,
            command: self.command@,
            text_cursor: self.text_cursor,
            command_cursor: self.command_cursor,
        }
    }
}

/// Puts `output` at the end of `outputs`.
fn emit(outputs: &mut Vec<Output>, output: Output)
    ensures
        final(outputs).deep_view() == old(outputs).deep_view().push(output.deep_view()),
{
    outputs.push(output);
    assert(outputs.deep_view() =~= old(outputs).deep_view().push(output.deep_view()));
}

/// Puts all of `more` at the end of `outputs`, in order.
fn emit_all(outputs: &mut Vec<Output>, more: Vec<Output>)
    ensures
        final(outputs).deep_view() == old(outputs).deep_view() + more.deep_view(),
{
    let mut more = more;
    let ghost added = more.deep_view();
    outputs.append(&mut more);
    assert(outputs.deep_view() =~= old(outputs).deep_view() + added);
}

impl Editor {
    pub fn new() -> (editor: Self)
        ensures
            editor@ == EditorState::initial(),
            editor@.wf(),
    {
        Editor {
            mode: Mode::Normal,
            size: (0, 0),
            command: String::new(),
            text_cursor: Cursor::new(),
            command_cursor: Cursor::new(),
        }
    }

    /// The mode that the next event meets.
    pub fn mode(&self) -> (mode: Mode)
        ensures
            mode == self@.mode,
    {
        self.mode
    }

    /// The terminal's size as last laid out: columns, then rows.
    pub fn size(&self) -> (size: (u16, u16))
        ensures
            size == self@.size,
    {
        self.size
    }

    /// The text of the command in progress.
    pub fn command(&self) -> (text: &str)
        ensures
            text@ == self@.command,
    {
        self.command.as_str()
    }

    /// The position in the document.
    pub fn text_cursor(&self) -> (cursor: Cursor)
        ensures
            cursor == self@.text_cursor,
    {
        self.text_cursor
    }

    /// The position on the status line.
    pub fn command_cursor(&self) -> (cursor: Cursor)
        ensures
            cursor == self@.command_cursor,
    {
        self.command_cursor
    }

    /// The operations that put the terminal's cursor on `cursor` at once.
    fn draw(&self, cursor: &Cursor) -> (outputs: Vec<Output>)
        ensures
            outputs.deep_view() == place_outputs(*cursor),
    {
        let mut outputs: Vec<Output> = Vec::new();
        emit(&mut outputs, Output::MoveTo { column: cursor.cx, row: cursor.cy });
        emit(&mut outputs, Output::Flush);
        assert(outputs.deep_view() =~= place_outputs(*cursor));
        outputs
    }

    /// The operations that draw the status line.
    fn draw_status_line(&self) -> (outputs: Vec<Output>)
        ensures
            outputs.deep_view() == self@.status_line_outputs(),
    {
        let mut outputs: Vec<Output> = Vec::new();
        if self.size.1 > 2 {
            let style = self.mode.status_style();
            emit(&mut outputs, Output::MoveTo { column: 0, row: self.command_cursor.cy });
            emit(
                &mut outputs,
                Output::PrintStyled {
                    text: style.content.to_owned(),
                    foreground: Paint::Black,
                    background: Some(style.background),
                    bold: true,
                },
            );
            emit(
                &mut outputs,
                Output::PrintStyled {
                    text: "\u{e0b0}".to_owned(),
                    foreground: style.background,
                    background: None,
                    bold: false,
                },
            );
            if self.mode == Mode::Command {
                let mut text = String::new();
                text.push(':');
                text.append(self.command.as_str());
                assert(text@ =~= seq![':'] + self.command@);
                emit(&mut outputs, Output::Print(text));
                emit(&mut outputs, Output::Flush);
            }
        }
        assert(outputs.deep_view() =~= self@.status_line_outputs());
        outputs
    }

    /// The operations that erase row `line_number` of the screen.
    pub fn clear_line(&self, line_number: u16) -> (outputs: Vec<Output>)
        ensures
            outputs.deep_view() == clear_line_outputs(line_number),
    {
        let mut outputs: Vec<Output> = Vec::new();
        emit(&mut outputs, Output::MoveTo { column: 0, row: line_number });
        emit(&mut outputs, Output::ClearLine);
        assert(outputs.deep_view() =~= clear_line_outputs(line_number));
        outputs
    }

    /// Takes note of the terminal's size. Where it differs from the size
    /// laid out last, the status line of the old layout is to be erased and
    /// the command-line cursor goes to its place in the new one.
    pub fn resize(&mut self, columns: u16, rows: u16) -> (outputs: Vec<Output>)
        ensures
            final(self)@ == old(self)@.resized(columns, rows),
            outputs.deep_view() == old(self)@.resize_outputs(columns, rows),
    {
        let mut outputs: Vec<Output> = Vec::new();
        if columns != self.size.0 || rows != self.size.1 {
            if self.size.1 > 2 {
                outputs = self.clear_line(self.size.1 - 2);
            }
            self.size = (columns, rows);
            self.command_cursor.cx = INDICATOR_WIDTH;
            self.command_cursor.cy = rows.saturating_sub(2);
        }
        assert(outputs.deep_view() =~= old(self)@.resize_outputs(columns, rows));
        outputs
    }

    /// The first half of a turn of the main loop: given the terminal's size
    /// as it is now, lays the status line out again if the size changed and
    /// says what to draw before waiting for input.
    pub fn frame(&mut self, columns: u16, rows: u16) -> (outputs: Vec<Output>)
        ensures
            final(self)@ == old(self)@.resized(columns, rows),
            outputs.deep_view() == old(self)@.frame_outputs(columns, rows),
            old(self)@.wf() ==> final(self)@.wf(),
    {
        let mut outputs = self.resize(columns, rows);
        let status = self.draw_status_line();
        emit_all(&mut outputs, status);
        if self.mode != Mode::Command {
            let placed = self.draw(&self.text_cursor);
            emit_all(&mut outputs, placed);
        }
        assert(outputs.deep_view() =~= old(self)@.frame_outputs(columns, rows));
        outputs
    }

    /// Carries out one action on the cursor that is active, on the mode and
    /// on the command buffer, and says what to do on the screen.
    pub fn apply(&mut self, action: Action) -> (outputs: Vec<Output>)
        ensures
            final(self)@ == old(self)@.applied(action),
            outputs.deep_view() == old(self)@.apply_outputs(action),
    {
        let mut outputs: Vec<Output> = Vec::new();
        match action {
            Action::Quit => {},
            Action::MoveUp => {
                if self.mode == Mode::Command {
                    self.command_cursor.mode_up();
                } else {
                    self.text_cursor.mode_up();
                }
            },
            Action::MoveDown => {
                if self.mode == Mode::Command {
                    self.command_cursor.mode_down();
                } else {
                    self.text_cursor.mode_down();
                }
            },
            Action::MoveRight => {
                if self.mode == Mode::Command {
                    self.command_cursor.mode_right();
                } else {
                    self.text_cursor.mode_right();
                }
            },
            Action::MoveLeft => {
                if self.mode == Mode::Command {
                    self.command_cursor.mode_left();
                } else {
                    self.text_cursor.mode_left();
                }
            },
            Action::SwitchToInsert => {
                self.mode = Mode::Insert;
            },
            Action::SwitchToNormal => {
                if self.mode == Mode::Command {
                    self.command.clear();
                    outputs = self.clear_line(self.command_cursor.cy);
                }
                let placed = self.draw(&self.text_cursor);
                emit_all(&mut outputs, placed);
                self.mode = Mode::Normal;
            },
            Action::Command => {
                self.mode = Mode::Command;
                outputs = self.draw(&self.command_cursor);
            },
        }
        assert(outputs.deep_view() =~= old(self)@.apply_outputs(action));
        assert(self@.command =~= old(self)@.applied(action).command);
        outputs
    }

    /// The second half of a turn of the main loop: interprets one input
    /// event in the current mode, carries out the action that it yields, and
    /// says what to do on the screen and whether the loop ends.
    pub fn step(&mut self, ev: Event) -> (step: Step)
        ensures
            final(self)@ == old(self)@.stepped(ev),
            step.action == old(self)@.mode.action_for(ev),
            step.outputs.deep_view() == old(self)@.step_outputs(ev),
            step.quit == (step.action == Some(Action::Quit)),
            old(self)@.wf() ==> final(self)@.wf(),
    {
        let mut outputs: Vec<Output> = Vec::new();
        let mut quit = false;
        let response = self.mode.handle_event(ev, &mut self.command);
        if let Some(c) = response.echo {
            let mut text = String::new();
            text.push(c);
            assert(text@ =~= seq![c]);
            emit(&mut outputs, Output::Print(text));
        }
        if let Some(action) = response.action {
            let acted = self.apply(action);
            emit_all(&mut outputs, acted);
            quit = action == Action::Quit;
        }
        if !quit && self.mode == Mode::Command {
            let swept = self.clear_line(self.command_cursor.cy);
            emit_all(&mut outputs, swept);
        }
        assert(outputs.deep_view() =~= old(self)@.step_outputs(ev));
        Step { action: response.action, outputs, quit }
    }
}

} // verus!

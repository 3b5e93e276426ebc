//! The operations that the editor asks of the terminal. The editor decides
//! them; whoever owns the terminal carries them out, in the order given.

use vstd::prelude::*;

verus! {

/// The colours of the status line.
#[derive(Clone, Copy, Debug, PartialEq, Eq, Structural)]
pub enum Paint {
    Black,
    Blue,
    DarkYellow,
    Magenta,
}

/// One operation on the terminal.
#[derive(Debug, PartialEq, Eq)]
pub enum Output {
    /// Put the terminal's cursor on a cell.
    MoveTo { column: u16, row: u16 },
    /// Erase the row that the terminal's cursor is on.
    ClearLine,
    /// Print text in the given colours at the terminal's cursor.
    PrintStyled { text: String, foreground: Paint, background: Option<Paint>, bold: bool },
    /// Print text as it is at the terminal's cursor.
    Print(String),
    /// Send out everything asked for so far.
    Flush,
}

/// An operation on the terminal, with its text as a sequence of characters.
pub enum OutputView {
    MoveTo { column: u16, row: u16 },
    ClearLine,
    PrintStyled { text: Seq<char>, foreground: Paint, background: Option<Paint>, bold: bool },
    Print(Seq<char>),
    Flush,
}

impl DeepView for Output {
    type V = OutputView;

    open spec fn deep_view(&self) -> OutputView {
        match *self {
            Output::MoveTo { column, row } => OutputView::MoveTo { column, row },
            Output::ClearLine => OutputView::ClearLine,
            Output::PrintStyled { text, foreground, background, bold } => OutputView::PrintStyled {
                text: text@,
                foreground,
                background,
                bold,
            },
            Output::Print(text) => OutputView::Print(text@),
            Output::Flush => OutputView::Flush,
        }
    }
}

} // verus!

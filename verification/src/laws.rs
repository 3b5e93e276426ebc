//! What holds of the cursors, of the modes and of the editor over every
//! input, stated over the functions that the contracts of the library use.

use vstd::prelude::*;

use crate::editor::Cursor;
use crate::enums::{Action, Event, Key};
use crate::mode::Mode;
use crate::model::{clear_line_outputs, place_outputs, EditorState, Turn, INDICATOR_WIDTH};
use crate::screen::OutputView;

verus! {

/// How often `action` occurs in `actions`.
pub open spec fn tally(actions: Seq<Action>, action: Action) -> nat
    decreases actions.len(),
{
    if actions.len() == 0 {
        0
    } else {
        tally(actions.drop_last(), action) + if actions.last() == action {
            1nat
        } else {
            0nat
        }
    }
}

/// Moves to the left and up never wrap around: whatever their number and
/// order, they bring the cursor no further than column zero and row zero, so
/// neither coordinate ever grows, and a cursor at the origin stays there.
pub proof fn lemma_left_up_saturate(start: Cursor, actions: Seq<Action>)
    requires
        forall|i: int| 0 <= i < actions.len() ==> actions[i] is MoveLeft || actions[i] is MoveUp,
    ensures
        start.after(actions).cx <= start.cx,
        start.after(actions).cy <= start.cy,
        start == Cursor::origin() ==> start.after(actions) == Cursor::origin(),
        start.after(actions).cx == if start.cx >= tally(actions, Action::MoveLeft) {
            start.cx - tally(actions, Action::MoveLeft)
        } else {
            0
        },
        start.after(actions).cy == if start.cy >= tally(actions, Action::MoveUp) {
            start.cy - tally(actions, Action::MoveUp)
        } else {
            0
        },
    decreases actions.len(),
{
    if actions.len() > 0 {
        lemma_left_up_saturate(start, actions.drop_last());
    }
}

/// Moves to the right and down advance the cursor by exactly one cell each,
/// as long as the coordinates fit the sixteen bits that hold them: after any
/// run of such moves the column has grown by the number of moves to the right
/// and the row by the number of moves down.
pub proof fn lemma_right_down_advance(start: Cursor, actions: Seq<Action>)
    requires
        forall|i: int| 0 <= i < actions.len() ==> actions[i] is MoveRight || actions[i] is MoveDown,
        start.cx + tally(actions, Action::MoveRight) <= u16::MAX,
        start.cy + tally(actions, Action::MoveDown) <= u16::MAX,
    ensures
        start.after(actions).cx == start.cx + tally(actions, Action::MoveRight),
        start.after(actions).cy == start.cy + tally(actions, Action::MoveDown),
    decreases actions.len(),
{
    if actions.len() > 0 {
        lemma_right_down_advance(start, actions.drop_last());
    }
}

/// One move to the right or down from a cell that is not in the last column
/// or row lands exactly one cell further, and moves nothing else.
pub proof fn lemma_single_advance(start: Cursor)
    ensures
        start.cx < u16::MAX ==> start.right().cx == start.cx + 1,
        start.cy < u16::MAX ==> start.down().cy == start.cy + 1,
        start.right().cy == start.cy,
        start.down().cx == start.cx,
{
}

/// A mode interprets an event the same way every time: two turns that meet
/// the same mode and the same event yield the same action and the same echo,
/// whatever the command buffers hold, and buffers that agree before agree
/// after. Outside Command mode the buffer is not touched.
pub proof fn lemma_handle_event_deterministic(
    mode_a: Mode,
    ev_a: Event,
    buffer_a: Seq<char>,
    mode_b: Mode,
    ev_b: Event,
    buffer_b: Seq<char>,
)
    requires
        mode_a == mode_b,
        ev_a == ev_b,
    ensures
        mode_a.action_for(ev_a) == mode_b.action_for(ev_b),
        mode_a.echo_for(ev_a) == mode_b.echo_for(ev_b),
        buffer_a == buffer_b ==> mode_a.buffer_after(ev_a, buffer_a) == mode_b.buffer_after(
            ev_b,
            buffer_b,
        ),
        !(mode_a is Command) ==> mode_a.buffer_after(ev_a, buffer_a) == buffer_a,
{
}

/// An event that a mode does not bind changes nothing in it: no action, no
/// echo, and the command buffer as it was.
pub proof fn lemma_unbound_event_is_ignored(mode: Mode, ev: Event, buffer: Seq<char>)
    requires
        mode.action_for(ev).is_none(),
    ensures
        mode.echo_for(ev).is_none(),
        mode.buffer_after(ev, buffer) == buffer,
{
}

/// In Command mode, erasing undoes typing: a character followed by
/// `Backspace` or `Delete` leaves the buffer as it was. On an empty buffer
/// both erase nothing and still ask for a move to the left.
pub proof fn lemma_erase_undoes_typing(buffer: Seq<char>, c: char)
    ensures
        Mode::Command.buffer_after(
            Event::Key(Key::Backspace),
            Mode::Command.buffer_after(Event::Key(Key::Char(c)), buffer),
        ) == buffer,
        Mode::Command.buffer_after(
            Event::Key(Key::Delete),
            Mode::Command.buffer_after(Event::Key(Key::Char(c)), buffer),
        ) == buffer,
        Mode::Command.buffer_after(Event::Key(Key::Backspace), Seq::empty()) == Seq::<char>::empty(),
        Mode::Command.buffer_after(Event::Key(Key::Delete), Seq::empty()) == Seq::<char>::empty(),
        Mode::Command.action_for(Event::Key(Key::Backspace)) == Some(Action::MoveLeft),
        Mode::Command.action_for(Event::Key(Key::Delete)) == Some(Action::MoveLeft),
{
    assert(buffer.push(c).drop_last() =~= buffer);
}

/// The column where a command starts is the width of the widest mode tag,
/// and no tag is wider.
pub proof fn lemma_indicator_width(mode: Mode)
    ensures
        Mode::Command.label().len() == INDICATOR_WIDTH,
        mode.label().len() <= INDICATOR_WIDTH,
{
    reveal_strlit(" NORMAL ");
    reveal_strlit(" INSERT ");
    reveal_strlit(" COMMAND ");
}

/// The editor starts well formed, and each half of a turn of the main loop
/// keeps it so.
pub proof fn lemma_turn_keeps_wf(state: EditorState, columns: u16, rows: u16, ev: Event)
    requires
        state.wf(),
    ensures
        EditorState::initial().wf(),
        state.resized(columns, rows).wf(),
        state.stepped(ev).wf(),
{
}

/// Every state that the main loop reaches from the start is well formed: no
/// command text outlives Command mode, and the command-line cursor never
/// leaves the status row.
pub proof fn lemma_reachable_states_wf(turns: Seq<Turn>)
    ensures
        EditorState::initial().after_turns(turns).wf(),
    decreases turns.len(),
{
    if turns.len() > 0 {
        lemma_reachable_states_wf(turns.drop_last());
        let before = EditorState::initial().after_turns(turns.drop_last());
        let turn = turns.last();
        lemma_turn_keeps_wf(before, turn.columns, turn.rows, turn.event);
    }
}

/// A move steps the active cursor and no other: the command-line cursor in
/// Command mode, the text cursor in the other modes. Neither the mode nor the
/// command changes, and nothing is drawn.
pub proof fn lemma_moves_step_active_cursor(state: EditorState, action: Action)
    requires
        action is MoveUp || action is MoveDown || action is MoveLeft || action is MoveRight,
    ensures
        state.applied(action).active_cursor() == state.active_cursor().stepped(action),
        state.mode is Command ==> state.applied(action).text_cursor == state.text_cursor,
        !(state.mode is Command) ==> state.applied(action).command_cursor == state.command_cursor,
        state.applied(action).mode == state.mode,
        state.applied(action).command == state.command,
        state.applied(action).size == state.size,
        state.apply_outputs(action) == Seq::<OutputView>::empty(),
{
}

/// A report of a size other than the one laid out last records the size and
/// puts the command-line cursor behind the mode tag, two rows above the
/// bottom; the status row of the old layout is erased exactly if the old
/// layout had three rows or more. A report of the same size does nothing.
pub proof fn lemma_resize_lays_out(state: EditorState, columns: u16, rows: u16)
    ensures
        (columns, rows) != state.size ==> {
            &&& state.resized(columns, rows).size == (columns, rows)
            &&& state.resized(columns, rows).command_cursor.cx == INDICATOR_WIDTH
            &&& rows >= 2 ==> state.resized(columns, rows).command_cursor.cy == rows - 2
            &&& rows < 2 ==> state.resized(columns, rows).command_cursor.cy == 0
            &&& state.size.1 > 2 ==> state.resize_outputs(columns, rows) == clear_line_outputs(
                (state.size.1 - 2) as u16,
            )
            &&& state.size.1 <= 2 ==> state.resize_outputs(columns, rows) == Seq::<OutputView>::empty()
        },
        (columns, rows) == state.size ==> {
            &&& state.resized(columns, rows) == state
            &&& state.resize_outputs(columns, rows) == Seq::<OutputView>::empty()
        },
        state.resized(columns, rows).mode == state.mode,
        state.resized(columns, rows).command == state.command,
        state.resized(columns, rows).text_cursor == state.text_cursor,
{
}

/// In Normal mode `q` ends the loop wherever the cursors are: the action is
/// `Quit`, the state stays as it is, and nothing more is drawn.
pub proof fn lemma_quit_draws_nothing(state: EditorState)
    requires
        state.mode is Normal,
    ensures
        state.mode.action_for(Event::Key(Key::Char('q'))) == Some(Action::Quit),
        state.stepped(Event::Key(Key::Char('q'))) == state,
        state.step_outputs(Event::Key(Key::Char('q'))) == Seq::<OutputView>::empty(),
{
    let ev = Event::Key(Key::Char('q'));
    assert(state.mode.buffer_after(ev, state.command) == state.command);
    assert(state.step_outputs(ev) =~= Seq::<OutputView>::empty());
}

/// Entering and leaving Insert mode: in Normal mode `i` asks for Insert mode
/// and gets it; there every character is echoed and takes the text cursor
/// one column to the right; `Esc` asks for Normal mode and gets it, with the
/// terminal's cursor put on the text cursor.
pub proof fn lemma_insert_mode(state: EditorState, c: char)
    ensures
        state.mode is Normal ==> {
            &&& state.mode.action_for(Event::Key(Key::Char('i'))) == Some(Action::SwitchToInsert)
            &&& state.stepped(Event::Key(Key::Char('i'))) == EditorState {
                mode: Mode::Insert,
                ..state
            }
        },
        state.mode is Insert ==> {
            &&& state.mode.action_for(Event::Key(Key::Char(c))) == Some(Action::MoveRight)
            &&& state.stepped(Event::Key(Key::Char(c))) == EditorState {
                text_cursor: state.text_cursor.right(),
                ..state
            }
            &&& state.step_outputs(Event::Key(Key::Char(c))) == seq![OutputView::Print(seq![c])]
            &&& state.mode.action_for(Event::Key(Key::Esc)) == Some(Action::SwitchToNormal)
            &&& state.stepped(Event::Key(Key::Esc)) == EditorState { mode: Mode::Normal, ..state }
            &&& state.step_outputs(Event::Key(Key::Esc)) == place_outputs(state.text_cursor)
        },
{
    if state.mode is Normal {
        let ev = Event::Key(Key::Char('i'));
        assert(state.mode.buffer_after(ev, state.command) == state.command);
    }
    if state.mode is Insert {
        let ev = Event::Key(Key::Char(c));
        assert(state.mode.buffer_after(ev, state.command) == state.command);
        assert(state.step_outputs(ev) =~= seq![OutputView::Print(seq![c])]);
        let esc = Event::Key(Key::Esc);
        assert(state.mode.buffer_after(esc, state.command) == state.command);
        assert(state.step_outputs(esc) =~= place_outputs(state.text_cursor));
    }
}

/// Entering and leaving Command mode: in Normal mode `:` asks for Command
/// mode and gets it, and the terminal's cursor goes to the command-line
/// cursor; there every character joins the command and takes the
/// command-line cursor one column to the right; `Esc` asks for Normal mode
/// and gets it, the command is thrown away, the status row is erased and
/// the terminal's cursor goes back to the text cursor.
pub proof fn lemma_command_mode(state: EditorState, c: char)
    ensures
        state.mode is Normal ==> {
            &&& state.mode.action_for(Event::Key(Key::Char(':'))) == Some(Action::Command)
            &&& state.stepped(Event::Key(Key::Char(':'))) == EditorState {
                mode: Mode::Command,
                ..state
            }
            &&& state.step_outputs(Event::Key(Key::Char(':'))) == place_outputs(state.command_cursor)
                + clear_line_outputs(state.command_cursor.cy)
        },
        state.mode is Command ==> {
            &&& state.mode.action_for(Event::Key(Key::Char(c))) == Some(Action::MoveRight)
            &&& state.stepped(Event::Key(Key::Char(c))) == EditorState {
                command: state.command.push(c),
                command_cursor: state.command_cursor.right(),
                ..state
            }
            &&& state.mode.action_for(Event::Key(Key::Esc)) == Some(Action::SwitchToNormal)
            &&& state.stepped(Event::Key(Key::Esc)) == EditorState {
                mode: Mode::Normal,
                command: Seq::empty(),
                ..state
            }
            &&& state.step_outputs(Event::Key(Key::Esc)) == clear_line_outputs(
                state.command_cursor.cy,
            ) + place_outputs(state.text_cursor)
        },
{
    if state.mode is Normal {
        let ev = Event::Key(Key::Char(':'));
        assert(state.mode.buffer_after(ev, state.command) == state.command);
        assert(state.step_outputs(ev) =~= place_outputs(state.command_cursor) + clear_line_outputs(
            state.command_cursor.cy,
        ));
    }
    if state.mode is Command {
        let esc = Event::Key(Key::Esc);
        assert(state.mode.buffer_after(esc, state.command) == state.command);
        assert(state.step_outputs(esc) =~= clear_line_outputs(state.command_cursor.cy)
            + place_outputs(state.text_cursor));
    }
}

} // verus!

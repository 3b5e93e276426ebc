use modal_editor::editor::{Cursor, Editor};
use modal_editor::enums::{Action, Event, Key};
use modal_editor::mode::Mode;
use modal_editor::model::INDICATOR_WIDTH;
use modal_editor::screen::{Output, Paint};

fn press(editor: &mut Editor, c: char) -> modal_editor::editor::Step {
    editor.step(Event::Key(Key::Char(c)))
}

fn tag(text: &str, background: Paint) -> Vec<Output> {
    vec![
        Output::PrintStyled {
            text: text.to_string(),
            foreground: Paint::Black,
            background: Some(background),
            bold: true,
        },
        Output::PrintStyled {
            text: "\u{e0b0}".to_string(),
            foreground: background,
            background: None,
            bold: false,
        },
    ]
}

#[test]
fn new_editor_starts_in_normal_mode() {
    let editor = Editor::new();
    assert_eq!(editor.mode(), Mode::Normal);
    assert_eq!(editor.size(), (0, 0));
    assert_eq!(editor.command(), "");
    assert_eq!(editor.text_cursor(), Cursor { cx: 0, cy: 0 });
    assert_eq!(editor.command_cursor(), Cursor { cx: 0, cy: 0 });
}

#[test]
fn indicator_width_is_that_of_the_widest_tag() {
    assert_eq!(INDICATOR_WIDTH, 9);
    assert_eq!(Mode::Command.status_style().content.chars().count(), 9);
    assert!(Mode::Normal.status_style().content.chars().count() <= 9);
    assert!(Mode::Insert.status_style().content.chars().count() <= 9);
}

#[test]
fn clear_line_moves_to_the_row_and_erases_it() {
    let editor = Editor::new();
    assert_eq!(
        editor.clear_line(22),
        vec![Output::MoveTo { column: 0, row: 22 }, Output::ClearLine]
    );
}

#[test]
fn first_frame_lays_out_and_draws_the_status_line() {
    let mut editor = Editor::new();
    let outputs = editor.frame(80, 24);
    assert_eq!(editor.size(), (80, 24));
    assert_eq!(editor.command_cursor(), Cursor { cx: 9, cy: 22 });
    let mut expected = vec![Output::MoveTo { column: 0, row: 22 }];
    expected.extend(tag(" NORMAL ", Paint::Blue));
    expected.push(Output::MoveTo { column: 0, row: 0 });
    expected.push(Output::Flush);
    assert_eq!(outputs, expected);
}

#[test]
fn frame_of_an_unchanged_size_only_redraws() {
    let mut editor = Editor::new();
    editor.frame(80, 24);
    press(&mut editor, 'l');
    press(&mut editor, 'j');
    let outputs = editor.frame(80, 24);
    let mut expected = vec![Output::MoveTo { column: 0, row: 22 }];
    expected.extend(tag(" NORMAL ", Paint::Blue));
    expected.push(Output::MoveTo { column: 1, row: 1 });
    expected.push(Output::Flush);
    assert_eq!(outputs, expected);
}

#[test]
fn resize_from_24_to_30_rows() {
    let mut editor = Editor::new();
    editor.resize(80, 24);
    assert_eq!(editor.command_cursor(), Cursor { cx: 9, cy: 22 });
    let outputs = editor.resize(80, 30);
    assert_eq!(editor.size(), (80, 30));
    assert_eq!(editor.command_cursor(), Cursor { cx: 9, cy: 28 });
    assert_eq!(outputs, vec![Output::MoveTo { column: 0, row: 22 }, Output::ClearLine]);
}

#[test]
fn resize_to_the_same_size_does_nothing() {
    let mut editor = Editor::new();
    editor.resize(80, 24);
    press(&mut editor, ':');
    press(&mut editor, 'w');
    assert_eq!(editor.command_cursor(), Cursor { cx: 10, cy: 22 });
    assert_eq!(editor.resize(80, 24), vec![]);
    assert_eq!(editor.command_cursor(), Cursor { cx: 10, cy: 22 });
}

#[test]
fn resize_of_the_width_alone_lays_out_again() {
    let mut editor = Editor::new();
    editor.resize(80, 24);
    press(&mut editor, ':');
    press(&mut editor, 'w');
    let outputs = editor.resize(100, 24);
    assert_eq!(outputs, vec![Output::MoveTo { column: 0, row: 22 }, Output::ClearLine]);
    assert_eq!(editor.command_cursor(), Cursor { cx: 9, cy: 22 });
    assert_eq!(editor.command(), "w");
}

#[test]
fn first_resize_erases_nothing() {
    let mut editor = Editor::new();
    assert_eq!(editor.resize(80, 24), vec![]);
}

#[test]
fn small_terminals_have_no_status_line() {
    for rows in [0u16, 1, 2] {
        let mut editor = Editor::new();
        let outputs = editor.frame(80, rows);
        assert_eq!(editor.command_cursor().cy, 0);
        assert_eq!(outputs, vec![Output::MoveTo { column: 0, row: 0 }, Output::Flush]);
        assert_eq!(editor.resize(80, 24), vec![]);
    }
    let mut editor = Editor::new();
    let outputs = editor.frame(80, 3);
    assert_eq!(editor.command_cursor(), Cursor { cx: 9, cy: 1 });
    assert_eq!(outputs[0], Output::MoveTo { column: 0, row: 1 });
    assert_eq!(outputs.len(), 5);
    assert_eq!(
        editor.resize(80, 2),
        vec![Output::MoveTo { column: 0, row: 1 }, Output::ClearLine]
    );
}

#[test]
fn insert_scenario() {
    let mut editor = Editor::new();
    editor.frame(80, 24);
    let step = press(&mut editor, 'i');
    assert_eq!(step.action, Some(Action::SwitchToInsert));
    assert!(!step.quit);
    assert_eq!(step.outputs, vec![]);
    assert_eq!(editor.mode(), Mode::Insert);

    let outputs = editor.frame(80, 24);
    let mut expected = vec![Output::MoveTo { column: 0, row: 22 }];
    expected.extend(tag(" INSERT ", Paint::DarkYellow));
    expected.push(Output::MoveTo { column: 0, row: 0 });
    expected.push(Output::Flush);
    assert_eq!(outputs, expected);

    let step = press(&mut editor, 'h');
    assert_eq!(step.action, Some(Action::MoveRight));
    assert_eq!(step.outputs, vec![Output::Print("h".to_string())]);
    assert_eq!(editor.text_cursor(), Cursor { cx: 1, cy: 0 });
    let step = press(&mut editor, 'i');
    assert_eq!(step.action, Some(Action::MoveRight));
    assert_eq!(step.outputs, vec![Output::Print("i".to_string())]);
    assert_eq!(editor.text_cursor(), Cursor { cx: 2, cy: 0 });
    assert_eq!(editor.mode(), Mode::Insert);
    assert_eq!(editor.command(), "");

    let step = editor.step(Event::Key(Key::Esc));
    assert_eq!(step.action, Some(Action::SwitchToNormal));
    assert_eq!(step.outputs, vec![Output::MoveTo { column: 2, row: 0 }, Output::Flush]);
    assert_eq!(editor.mode(), Mode::Normal);
    assert_eq!(editor.text_cursor(), Cursor { cx: 2, cy: 0 });
}

#[test]
fn command_scenario() {
    let mut editor = Editor::new();
    editor.frame(80, 24);
    let step = press(&mut editor, ':');
    assert_eq!(step.action, Some(Action::Command));
    assert_eq!(editor.mode(), Mode::Command);
    assert_eq!(
        step.outputs,
        vec![
            Output::MoveTo { column: 9, row: 22 },
            Output::Flush,
            Output::MoveTo { column: 0, row: 22 },
            Output::ClearLine,
        ]
    );

    let step = press(&mut editor, 'w');
    assert_eq!(step.action, Some(Action::MoveRight));
    assert_eq!(step.outputs, vec![Output::MoveTo { column: 0, row: 22 }, Output::ClearLine]);
    press(&mut editor, 'q');
    assert_eq!(editor.command(), "wq");
    assert_eq!(editor.command_cursor(), Cursor { cx: 11, cy: 22 });
    assert_eq!(editor.text_cursor(), Cursor { cx: 0, cy: 0 });

    let outputs = editor.frame(80, 24);
    let mut expected = vec![Output::MoveTo { column: 0, row: 22 }];
    expected.extend(tag(" COMMAND ", Paint::Magenta));
    expected.push(Output::Print(":wq".to_string()));
    expected.push(Output::Flush);
    assert_eq!(outputs, expected);

    let step = editor.step(Event::Key(Key::Esc));
    assert_eq!(step.action, Some(Action::SwitchToNormal));
    assert_eq!(editor.mode(), Mode::Normal);
    assert_eq!(editor.command(), "");
    assert_eq!(
        step.outputs,
        vec![
            Output::MoveTo { column: 0, row: 22 },
            Output::ClearLine,
            Output::MoveTo { column: 0, row: 0 },
            Output::Flush,
        ]
    );
}

#[test]
fn command_mode_erasing_moves_the_command_cursor_left() {
    let mut editor = Editor::new();
    editor.frame(80, 24);
    press(&mut editor, ':');
    for c in "abc".chars() {
        press(&mut editor, c);
    }
    assert_eq!(editor.command_cursor(), Cursor { cx: 12, cy: 22 });
    let step = editor.step(Event::Key(Key::Backspace));
    assert_eq!(step.action, Some(Action::MoveLeft));
    editor.step(Event::Key(Key::Delete));
    assert_eq!(editor.command(), "a");
    assert_eq!(editor.command_cursor(), Cursor { cx: 10, cy: 22 });
    editor.step(Event::Key(Key::Backspace));
    let step = editor.step(Event::Key(Key::Backspace));
    assert_eq!(step.action, Some(Action::MoveLeft));
    assert_eq!(editor.command(), "");
    assert_eq!(editor.command_cursor(), Cursor { cx: 8, cy: 22 });
}

#[test]
fn enter_in_command_mode_has_no_action() {
    let mut editor = Editor::new();
    editor.frame(80, 24);
    press(&mut editor, ':');
    press(&mut editor, 'w');
    let step = editor.step(Event::Key(Key::Enter));
    assert_eq!(step.action, None);
    assert!(!step.quit);
    assert_eq!(step.outputs, vec![Output::MoveTo { column: 0, row: 22 }, Output::ClearLine]);
    assert_eq!(editor.mode(), Mode::Command);
    assert_eq!(editor.command(), "w");
    assert_eq!(editor.command_cursor(), Cursor { cx: 10, cy: 22 });
}

#[test]
fn quit_in_normal_mode_at_any_cursor_position() {
    for (right, down) in [(0u16, 0u16), (3, 0), (0, 4), (17, 9)] {
        let mut editor = Editor::new();
        editor.frame(80, 24);
        for _ in 0..right {
            press(&mut editor, 'l');
        }
        for _ in 0..down {
            editor.step(Event::Key(Key::Down));
        }
        assert_eq!(editor.text_cursor(), Cursor { cx: right, cy: down });
        let step = press(&mut editor, 'q');
        assert_eq!(step.action, Some(Action::Quit));
        assert!(step.quit);
        assert_eq!(step.outputs, vec![]);
        assert_eq!(editor.mode(), Mode::Normal);
        assert_eq!(editor.text_cursor(), Cursor { cx: right, cy: down });
    }
}

#[test]
fn q_quits_in_normal_mode_only() {
    let mut editor = Editor::new();
    editor.frame(80, 24);
    press(&mut editor, 'i');
    let step = press(&mut editor, 'q');
    assert!(!step.quit);
    assert_eq!(step.action, Some(Action::MoveRight));
    editor.step(Event::Key(Key::Esc));
    press(&mut editor, ':');
    let step = press(&mut editor, 'q');
    assert!(!step.quit);
    assert_eq!(editor.command(), "q");
}

#[test]
fn normal_mode_moves_the_text_cursor() {
    let mut editor = Editor::new();
    editor.frame(80, 24);
    press(&mut editor, 'h');
    press(&mut editor, 'k');
    assert_eq!(editor.text_cursor(), Cursor { cx: 0, cy: 0 });
    press(&mut editor, 'l');
    press(&mut editor, 'l');
    press(&mut editor, 'j');
    assert_eq!(editor.text_cursor(), Cursor { cx: 2, cy: 1 });
    editor.step(Event::Key(Key::Left));
    editor.step(Event::Key(Key::Up));
    assert_eq!(editor.text_cursor(), Cursor { cx: 1, cy: 0 });
    editor.step(Event::Key(Key::Right));
    editor.step(Event::Key(Key::Down));
    assert_eq!(editor.text_cursor(), Cursor { cx: 2, cy: 1 });
    assert_eq!(editor.command_cursor(), Cursor { cx: 9, cy: 22 });
}

#[test]
fn esc_in_normal_mode_stays_in_normal_mode() {
    let mut editor = Editor::new();
    editor.frame(80, 24);
    press(&mut editor, 'l');
    let step = editor.step(Event::Key(Key::Esc));
    assert_eq!(step.action, Some(Action::SwitchToNormal));
    assert_eq!(step.outputs, vec![Output::MoveTo { column: 1, row: 0 }, Output::Flush]);
    assert_eq!(editor.mode(), Mode::Normal);
}

#[test]
fn unmapped_events_change_nothing() {
    let mut editor = Editor::new();
    editor.frame(80, 24);
    press(&mut editor, 'l');
    for ev in [Event::Other, Event::Key(Key::Other), Event::Key(Key::Enter), Event::Key(Key::Char('z'))] {
        let step = editor.step(ev);
        assert_eq!(step.action, None);
        assert!(!step.quit);
        assert_eq!(step.outputs, vec![]);
        assert_eq!(editor.mode(), Mode::Normal);
        assert_eq!(editor.text_cursor(), Cursor { cx: 1, cy: 0 });
        assert_eq!(editor.command(), "");
    }
}

#[test]
fn apply_carries_out_each_action() {
    let mut editor = Editor::new();
    editor.frame(80, 24);
    assert_eq!(editor.apply(Action::MoveRight), vec![]);
    assert_eq!(editor.apply(Action::MoveDown), vec![]);
    assert_eq!(editor.text_cursor(), Cursor { cx: 1, cy: 1 });
    assert_eq!(editor.apply(Action::MoveLeft), vec![]);
    assert_eq!(editor.apply(Action::MoveUp), vec![]);
    assert_eq!(editor.text_cursor(), Cursor { cx: 0, cy: 0 });
    assert_eq!(editor.apply(Action::SwitchToInsert), vec![]);
    assert_eq!(editor.mode(), Mode::Insert);
    assert_eq!(
        editor.apply(Action::Command),
        vec![Output::MoveTo { column: 9, row: 22 }, Output::Flush]
    );
    assert_eq!(editor.mode(), Mode::Command);
    assert_eq!(editor.apply(Action::MoveRight), vec![]);
    assert_eq!(editor.command_cursor(), Cursor { cx: 10, cy: 22 });
    assert_eq!(editor.text_cursor(), Cursor { cx: 0, cy: 0 });
    assert_eq!(editor.apply(Action::Quit), vec![]);
    assert_eq!(editor.mode(), Mode::Command);
    assert_eq!(
        editor.apply(Action::SwitchToNormal),
        vec![
            Output::MoveTo { column: 0, row: 22 },
            Output::ClearLine,
            Output::MoveTo { column: 0, row: 0 },
            Output::Flush,
        ]
    );
    assert_eq!(editor.mode(), Mode::Normal);
}

#[test]
fn the_command_is_empty_outside_command_mode() {
    let mut editor = Editor::new();
    let script = ":ab\u{1b}i:x\u{1b}:q\u{1b}hjkl";
    for (turn, c) in script.chars().enumerate() {
        editor.frame(80, 24 + (turn as u16 % 3));
        let ev = if c == '\u{1b}' { Event::Key(Key::Esc) } else { Event::Key(Key::Char(c)) };
        editor.step(ev);
        if editor.mode() != Mode::Command {
            assert_eq!(editor.command(), "");
        }
        assert_eq!(editor.command_cursor().cy, editor.size().1 - 2);
    }
    assert_eq!(editor.mode(), Mode::Normal);
}

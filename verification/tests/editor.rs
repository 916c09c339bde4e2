use hecto::command::{Event, KeyCode, KeyEvent, KeyEventKind, MODIFIERS_CONTROL, MODIFIERS_NONE};
use hecto::editor::Editor;
use hecto::position::Position;

fn press(code: KeyCode, modifiers: u8) -> Event {
    Event::Key(KeyEvent { code, modifiers, kind: KeyEventKind::Press })
}

fn typed(editor: &mut Editor, text: &str) {
    for character in text.chars() {
        let code = if character == '\n' {
            KeyCode::Enter
        } else {
            KeyCode::Char(character)
        };
        assert!(editor.evaluate_event(press(code, MODIFIERS_NONE)).is_none());
    }
}

fn shown(editor: &mut Editor) -> Vec<String> {
    let screen = editor.refresh_screen();
    screen.rows.unwrap().into_iter().map(|row| row.text).collect()
}

#[test]
fn new_editor_waits_with_an_empty_document() {
    let mut editor = Editor::new();
    assert!(!editor.should_quit());
    let screen = editor.refresh_screen();
    assert!(screen.rows.is_none());
    assert_eq!(screen.caret, Position { row: 0, col: 0 });
}

#[test]
fn typed_text_appears_on_the_screen() {
    let mut editor = Editor::new();
    editor.evaluate_event(Event::Resize(20, 3));
    typed(&mut editor, "hi\nlo");
    let screen = editor.refresh_screen();
    assert_eq!(screen.caret, Position { row: 1, col: 2 });
    let rows = screen.rows.unwrap();
    assert_eq!(rows.len(), 3);
    assert_eq!(rows[0].text, "hi");
    assert_eq!(rows[1].text, "lo");
    assert_eq!(rows[2].text, "~");
    assert_eq!((rows[0].row, rows[1].row, rows[2].row), (0, 1, 2));
}

#[test]
fn keys_move_the_caret() {
    let mut editor = Editor::new();
    editor.load("test.txt", Some("abc\nde\nfghi"));
    editor.evaluate_event(Event::Resize(20, 5));
    for code in [KeyCode::Down, KeyCode::Down, KeyCode::End] {
        editor.evaluate_event(press(code, MODIFIERS_NONE));
    }
    assert_eq!(editor.refresh_screen().caret, Position { row: 2, col: 4 });
    editor.evaluate_event(press(KeyCode::Backspace, MODIFIERS_NONE));
    assert_eq!(shown(&mut editor), vec!["abc", "de", "fgh", "~", "~"]);
}

#[test]
fn key_releases_are_dropped() {
    let mut editor = Editor::new();
    editor.evaluate_event(Event::Resize(20, 2));
    for kind in [KeyEventKind::Release, KeyEventKind::Repeat] {
        let key = KeyEvent { code: KeyCode::Char('x'), modifiers: MODIFIERS_NONE, kind };
        let event = Event::Key(key);
        assert!(editor.evaluate_event(event).is_none());
    }
    let ctrl_q = KeyEvent {
        code: KeyCode::Char('q'),
        modifiers: MODIFIERS_CONTROL,
        kind: KeyEventKind::Release,
    };
    editor.evaluate_event(Event::Key(ctrl_q));
    assert!(!editor.should_quit());
    assert_eq!(shown(&mut editor)[0], "~");
}

#[test]
fn events_that_are_no_commands_are_dropped() {
    let mut editor = Editor::new();
    editor.evaluate_event(Event::Resize(20, 2));
    editor.finish_refresh(true);
    assert!(editor.evaluate_event(Event::Other).is_none());
    assert!(editor.evaluate_event(press(KeyCode::Other, MODIFIERS_NONE)).is_none());
    assert!(editor.evaluate_event(press(KeyCode::Char('x'), MODIFIERS_CONTROL)).is_none());
    assert!(!editor.should_quit());
    assert!(editor.refresh_screen().rows.is_none());
}

#[test]
fn control_q_quits() {
    let mut editor = Editor::new();
    assert!(editor.evaluate_event(press(KeyCode::Char('q'), MODIFIERS_CONTROL)).is_none());
    assert!(editor.should_quit());
    editor.evaluate_event(press(KeyCode::Char('x'), MODIFIERS_NONE));
    assert!(editor.should_quit());
}

#[test]
fn control_s_asks_to_write_the_file() {
    let mut editor = Editor::new();
    editor.load("notes.txt", Some("abc"));
    editor.evaluate_event(press(KeyCode::Char('!'), MODIFIERS_NONE));
    let request = editor.evaluate_event(press(KeyCode::Char('s'), MODIFIERS_CONTROL)).unwrap();
    assert_eq!(request.file_name, "notes.txt");
    assert_eq!(request.contents, "!abc\n");
    editor.finish_save("notes.txt", true);
    assert!(!editor.should_quit());
}

#[test]
fn control_s_without_a_file_asks_for_nothing() {
    let mut editor = Editor::new();
    typed(&mut editor, "x");
    assert!(editor.evaluate_event(press(KeyCode::Char('s'), MODIFIERS_CONTROL)).is_none());
}

#[test]
fn resize_redraws_the_screen() {
    let mut editor = Editor::new();
    editor.load("test.txt", Some("abc\nde"));
    editor.evaluate_event(Event::Resize(2, 1));
    assert_eq!(shown(&mut editor), vec!["ab"]);
    editor.finish_refresh(true);
    assert!(editor.refresh_screen().rows.is_none());
    editor.evaluate_event(Event::Resize(10, 3));
    assert_eq!(shown(&mut editor), vec!["abc", "de", "~"]);
}

#[test]
fn screen_is_handed_out_until_it_was_printed() {
    let mut editor = Editor::new();
    editor.evaluate_event(Event::Resize(10, 1));
    assert!(editor.refresh_screen().rows.is_some());
    editor.finish_refresh(false);
    assert!(editor.refresh_screen().rows.is_some());
    editor.finish_refresh(true);
    assert!(editor.refresh_screen().rows.is_none());
}

#[test]
fn escape_without_a_search_changes_nothing() {
    let mut editor = Editor::new();
    editor.load("test.txt", Some("abc"));
    editor.evaluate_event(Event::Resize(10, 2));
    editor.evaluate_event(press(KeyCode::Right, MODIFIERS_NONE));
    editor.evaluate_event(press(KeyCode::Esc, MODIFIERS_NONE));
    assert_eq!(editor.refresh_screen().caret, Position { row: 0, col: 1 });
}

#[test]
fn file_that_cannot_be_read_leaves_the_editor_empty() {
    let mut editor = Editor::new();
    editor.load("missing.txt", None);
    editor.evaluate_event(Event::Resize(10, 2));
    assert_eq!(shown(&mut editor)[1], "~");
    assert!(editor.evaluate_event(press(KeyCode::Char('s'), MODIFIERS_CONTROL)).is_none());
}

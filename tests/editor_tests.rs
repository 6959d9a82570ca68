use notes_tui::buffer::Cursor;
use notes_tui::editor::{Action, App, KeyCode, KeyEvent, Mode};
use notes_tui::error::NoteError;

fn chars(s: &str) -> Vec<char> {
    s.chars().collect()
}

fn key(code: KeyCode) -> KeyEvent {
    KeyEvent { code, ctrl: false }
}

fn ctrl(c: char) -> KeyEvent {
    KeyEvent { code: KeyCode::Char(c), ctrl: true }
}

fn press(app: &mut App, k: KeyEvent) -> Action {
    assert!(app.has_room());
    app.handle_key_event(k)
}

fn type_text(app: &mut App, s: &str) {
    for c in s.chars() {
        let a = press(app, key(KeyCode::Char(c)));
        assert!(matches!(a, Action::Nothing));
    }
}

fn lines_of(app: &App) -> Vec<String> {
    app.lines().iter().map(|l| l.iter().collect()).collect()
}

fn names(v: &[&str]) -> Vec<Vec<char>> {
    v.iter().map(|s| chars(s)).collect()
}

#[test]
fn default_app_starts_empty_in_normal_mode() {
    let app = App::default();
    assert_eq!(lines_of(&app), vec![""]);
    assert_eq!(app.cursor(), Cursor { col: 0, row: 0 });
    assert!(matches!(app.mode(), Mode::Normal));
    assert_eq!(app.current_file(), &Some(chars("default.txt")));
    assert!(app.files().is_empty());
    assert!(app.explorer_open());
    assert!(!app.help_open());
    assert!(!app.should_exit());
}

#[test]
fn enter_at_end_of_line_adds_empty_line() {
    let mut app = App::default();
    type_text(&mut app, "hello");
    assert_eq!(app.cursor(), Cursor { col: 5, row: 0 });
    press(&mut app, key(KeyCode::Enter));
    assert_eq!(lines_of(&app), vec!["hello", ""]);
    assert_eq!(app.cursor(), Cursor { col: 0, row: 1 });
}

#[test]
fn backspace_at_line_start_joins_lines() {
    let mut app = App::default();
    type_text(&mut app, "ab");
    press(&mut app, key(KeyCode::Enter));
    type_text(&mut app, "cd");
    press(&mut app, key(KeyCode::Left));
    press(&mut app, key(KeyCode::Left));
    assert_eq!(lines_of(&app), vec!["ab", "cd"]);
    assert_eq!(app.cursor(), Cursor { col: 0, row: 1 });
    press(&mut app, key(KeyCode::Backspace));
    assert_eq!(lines_of(&app), vec!["abcd"]);
    assert_eq!(app.cursor(), Cursor { col: 2, row: 0 });
}

#[test]
fn backspace_at_buffer_start_is_noop() {
    let mut app = App::default();
    type_text(&mut app, "ab");
    press(&mut app, key(KeyCode::Left));
    press(&mut app, key(KeyCode::Left));
    press(&mut app, key(KeyCode::Backspace));
    assert_eq!(lines_of(&app), vec!["ab"]);
    assert_eq!(app.cursor(), Cursor { col: 0, row: 0 });
}

#[test]
fn backspace_after_typing_restores_line() {
    let mut app = App::default();
    type_text(&mut app, "ac");
    press(&mut app, key(KeyCode::Left));
    type_text(&mut app, "b");
    assert_eq!(lines_of(&app), vec!["abc"]);
    press(&mut app, key(KeyCode::Backspace));
    assert_eq!(lines_of(&app), vec!["ac"]);
    assert_eq!(app.cursor(), Cursor { col: 1, row: 0 });
}

#[test]
fn up_and_down_clamp_column_to_line_length() {
    let mut app = App::default();
    type_text(&mut app, "a long line");
    press(&mut app, key(KeyCode::Enter));
    type_text(&mut app, "ab");
    press(&mut app, key(KeyCode::Up));
    assert_eq!(app.cursor(), Cursor { col: 2, row: 0 });
    press(&mut app, key(KeyCode::Right));
    press(&mut app, key(KeyCode::Right));
    press(&mut app, key(KeyCode::Right));
    press(&mut app, key(KeyCode::Down));
    assert_eq!(app.cursor(), Cursor { col: 2, row: 1 });
    press(&mut app, key(KeyCode::Down));
    assert_eq!(app.cursor(), Cursor { col: 2, row: 1 });
}

#[test]
fn ctrl_shortcuts_toggle_flags_and_quit() {
    let mut app = App::default();
    press(&mut app, ctrl('e'));
    assert!(!app.explorer_open());
    press(&mut app, ctrl('h'));
    assert!(app.help_open());
    press(&mut app, ctrl('h'));
    assert!(!app.help_open());
    assert!(!app.should_exit());
    press(&mut app, ctrl('q'));
    assert!(app.should_exit());
    assert_eq!(lines_of(&app), vec![""]);
}

#[test]
fn help_overlay_does_not_take_keys() {
    let mut app = App::default();
    press(&mut app, ctrl('h'));
    type_text(&mut app, "hi");
    assert_eq!(lines_of(&app), vec!["hi"]);
    assert!(app.help_open());
}

#[test]
fn ctrl_s_asks_to_save_buffer_text() {
    let mut app = App::default();
    type_text(&mut app, "one");
    press(&mut app, key(KeyCode::Enter));
    type_text(&mut app, "two");
    match press(&mut app, ctrl('s')) {
        Action::Save { name, content } => {
            assert_eq!(name, chars("default.txt"));
            assert_eq!(content, chars("one\ntwo\n"));
        }
        _ => panic!("expected a save"),
    }
    assert_eq!(lines_of(&app), vec!["one", "two"]);
}

#[test]
fn create_note_with_empty_name_does_nothing() {
    let mut app = App::default();
    press(&mut app, ctrl('n'));
    assert!(matches!(app.mode(), Mode::CreateNote { pending_name } if pending_name.is_empty()));
    let a = press(&mut app, key(KeyCode::Enter));
    assert!(matches!(a, Action::Nothing));
    assert!(matches!(app.mode(), Mode::CreateNote { pending_name } if pending_name.is_empty()));
}

#[test]
fn create_note_types_name_and_asks_store() {
    let mut app = App::default();
    type_text(&mut app, "old text");
    press(&mut app, ctrl('n'));
    type_text(&mut app, "todoo");
    press(&mut app, key(KeyCode::Backspace));
    type_text(&mut app, ".txt");
    assert_eq!(lines_of(&app), vec!["old text"]);
    match press(&mut app, key(KeyCode::Enter)) {
        Action::Create { name } => assert_eq!(name, chars("todo.txt")),
        _ => panic!("expected a create"),
    }
    app.finish_create(chars("todo.txt"), Ok(()));
    assert!(matches!(app.mode(), Mode::Normal));
    assert_eq!(app.current_file(), &Some(chars("todo.txt")));
    assert_eq!(lines_of(&app), vec![""]);
    assert_eq!(app.cursor(), Cursor { col: 0, row: 0 });
}

#[test]
fn failed_create_stays_in_create_note() {
    let mut app = App::default();
    press(&mut app, ctrl('n'));
    type_text(&mut app, "x");
    press(&mut app, key(KeyCode::Enter));
    app.finish_create(chars("x"), Err(NoteError::IoFailure));
    assert!(matches!(app.mode(), Mode::CreateNote { pending_name } if *pending_name == chars("x")));
    assert_eq!(app.current_file(), &Some(chars("default.txt")));
}

#[test]
fn esc_cancels_create_note() {
    let mut app = App::default();
    press(&mut app, ctrl('n'));
    type_text(&mut app, "abc");
    press(&mut app, key(KeyCode::Esc));
    assert!(matches!(app.mode(), Mode::Normal));
    press(&mut app, ctrl('n'));
    assert!(matches!(app.mode(), Mode::CreateNote { pending_name } if pending_name.is_empty()));
}

#[test]
fn open_with_empty_listing_then_enter_is_noop() {
    let mut app = App::default();
    let a = press(&mut app, ctrl('o'));
    assert!(matches!(a, Action::ListNotes));
    app.set_files(Vec::new());
    assert!(app.files().is_empty());
    assert!(matches!(app.mode(), Mode::SelectFile { highlighted: 0 }));
    let a = press(&mut app, key(KeyCode::Enter));
    assert!(matches!(a, Action::Nothing));
    assert!(matches!(app.mode(), Mode::SelectFile { highlighted: 0 }));
}

#[test]
fn highlight_stays_within_listing() {
    let mut app = App::default();
    press(&mut app, ctrl('o'));
    app.set_files(names(&["a.txt", "b.txt", "c.txt"]));
    press(&mut app, key(KeyCode::Up));
    assert!(matches!(app.mode(), Mode::SelectFile { highlighted: 0 }));
    for _ in 0..5 {
        press(&mut app, key(KeyCode::Down));
    }
    assert!(matches!(app.mode(), Mode::SelectFile { highlighted: 2 }));
    press(&mut app, key(KeyCode::Up));
    assert!(matches!(app.mode(), Mode::SelectFile { highlighted: 1 }));
    for _ in 0..5 {
        press(&mut app, key(KeyCode::Up));
    }
    assert!(matches!(app.mode(), Mode::SelectFile { highlighted: 0 }));
}

#[test]
fn up_down_with_empty_listing_stay_at_zero() {
    let mut app = App::default();
    press(&mut app, ctrl('o'));
    app.set_files(Vec::new());
    press(&mut app, key(KeyCode::Down));
    press(&mut app, key(KeyCode::Up));
    assert!(matches!(app.mode(), Mode::SelectFile { highlighted: 0 }));
}

#[test]
fn shorter_listing_keeps_highlight() {
    let mut app = App::default();
    press(&mut app, ctrl('o'));
    app.set_files(names(&["a", "b", "c"]));
    press(&mut app, key(KeyCode::Down));
    press(&mut app, key(KeyCode::Down));
    app.set_files(names(&["a"]));
    assert!(matches!(app.mode(), Mode::SelectFile { highlighted: 2 }));
    assert_eq!(app.files(), &names(&["a"]));
    let a = press(&mut app, key(KeyCode::Enter));
    assert!(matches!(a, Action::Nothing));
    assert!(matches!(app.mode(), Mode::SelectFile { highlighted: 2 }));
}

#[test]
fn w_and_s_move_highlight_like_up_and_down() {
    let mut app = App::default();
    press(&mut app, ctrl('o'));
    app.set_files(names(&["a.txt", "b.txt", "c.txt"]));
    press(&mut app, key(KeyCode::Char('s')));
    press(&mut app, key(KeyCode::Char('s')));
    assert!(matches!(app.mode(), Mode::SelectFile { highlighted: 2 }));
    press(&mut app, key(KeyCode::Char('s')));
    assert!(matches!(app.mode(), Mode::SelectFile { highlighted: 2 }));
    press(&mut app, key(KeyCode::Char('w')));
    assert!(matches!(app.mode(), Mode::SelectFile { highlighted: 1 }));
    press(&mut app, key(KeyCode::Char('w')));
    press(&mut app, key(KeyCode::Char('w')));
    assert!(matches!(app.mode(), Mode::SelectFile { highlighted: 0 }));
    assert_eq!(lines_of(&app), vec![""]);
}

#[test]
fn select_file_opens_highlighted_note() {
    let mut app = App::default();
    type_text(&mut app, "draft");
    press(&mut app, ctrl('o'));
    app.set_files(names(&["a.txt", "b.txt"]));
    press(&mut app, key(KeyCode::Down));
    match press(&mut app, key(KeyCode::Enter)) {
        Action::Open { name } => assert_eq!(name, chars("b.txt")),
        _ => panic!("expected an open"),
    }
    app.finish_open(chars("b.txt"), Ok(chars("line one\nline two\n")));
    assert!(matches!(app.mode(), Mode::Normal));
    assert_eq!(lines_of(&app), vec!["line one", "line two"]);
    assert_eq!(app.cursor(), Cursor { col: 0, row: 0 });
    assert_eq!(app.current_file(), &Some(chars("b.txt")));
}

#[test]
fn failed_open_keeps_buffer_and_mode() {
    let mut app = App::default();
    type_text(&mut app, "draft");
    press(&mut app, ctrl('o'));
    app.set_files(names(&["gone.txt"]));
    press(&mut app, key(KeyCode::Enter));
    app.finish_open(chars("gone.txt"), Err(NoteError::NotFound));
    assert!(matches!(app.mode(), Mode::SelectFile { highlighted: 0 }));
    assert_eq!(lines_of(&app), vec!["draft"]);
    assert_eq!(app.current_file(), &Some(chars("default.txt")));
}

#[test]
fn esc_leaves_select_file() {
    let mut app = App::default();
    press(&mut app, ctrl('o'));
    app.set_files(names(&["a.txt"]));
    press(&mut app, key(KeyCode::Esc));
    assert!(matches!(app.mode(), Mode::Normal));
    type_text(&mut app, "x");
    assert_eq!(lines_of(&app), vec!["x"]);
}

#[test]
fn cursor_cell_accounts_for_panels() {
    let mut app = App::default();
    type_text(&mut app, "abc");
    press(&mut app, key(KeyCode::Enter));
    type_text(&mut app, "d");
    assert_eq!(app.cursor_cell(), (36, 2));
    press(&mut app, ctrl('e'));
    assert_eq!(app.cursor_cell(), (2, 2));
}

use hecto::document::Document;
use hecto::editor::{command_of, Command, Editor, KeyCode, KeyPress, Position, Request};
use hecto::navigator::Motion;
use hecto::terminal::Size;

fn rows(editor: &Editor) -> Vec<String> {
    let doc = editor.document();
    let mut out = Vec::new();
    for index in 0..doc.get_row_num() {
        out.push(doc.get_row(index).unwrap().as_str().to_string());
    }
    out
}

fn at(x: usize, y: usize) -> Position {
    Position { x, y }
}

fn plain(code: KeyCode) -> KeyPress {
    KeyPress { code, control: false }
}

fn control(c: char) -> KeyPress {
    KeyPress { code: KeyCode::Char(c), control: true }
}

fn editor_on(text: &str, width: u16, height: u16) -> Editor {
    Editor::new(Document::open("t.txt", text), Size { width, height })
}

fn go(editor: &mut Editor, motions: &[Motion]) {
    for motion in motions {
        editor.move_cursor(*motion);
    }
}

#[test]
fn a_new_editor_starts_at_the_origin() {
    let editor = editor_on("ab\ncd\n", 80, 22);
    assert_eq!(editor.cursor_position(), at(0, 0));
    assert_eq!(editor.offset(), at(0, 0));
    assert_eq!(editor.size(), Size { width: 80, height: 22 });
    assert!(!editor.should_quit());
    assert_eq!(rows(&editor), vec!["ab", "cd"]);
}

#[test]
fn keys_stand_for_commands() {
    assert_eq!(command_of(control('q')), Command::Quit);
    assert_eq!(command_of(control('s')), Command::Save);
    assert_eq!(command_of(control('x')), Command::Type('x'));
    assert_eq!(command_of(plain(KeyCode::Char('q'))), Command::Type('q'));
    assert_eq!(command_of(plain(KeyCode::Char('s'))), Command::Type('s'));
    assert_eq!(command_of(plain(KeyCode::Enter)), Command::NewLine);
    assert_eq!(command_of(plain(KeyCode::Tab)), Command::Indent);
    assert_eq!(command_of(plain(KeyCode::Delete)), Command::DeleteForward);
    assert_eq!(command_of(plain(KeyCode::Backspace)), Command::DeleteBackward);
    assert_eq!(command_of(plain(KeyCode::Up)), Command::Move(Motion::Up));
    assert_eq!(command_of(plain(KeyCode::Down)), Command::Move(Motion::Down));
    assert_eq!(command_of(plain(KeyCode::Left)), Command::Move(Motion::Left));
    assert_eq!(command_of(plain(KeyCode::Right)), Command::Move(Motion::Right));
    assert_eq!(command_of(plain(KeyCode::Home)), Command::Move(Motion::Home));
    assert_eq!(command_of(plain(KeyCode::End)), Command::Move(Motion::End));
    assert_eq!(command_of(plain(KeyCode::PageUp)), Command::Move(Motion::PageUp));
    assert_eq!(command_of(plain(KeyCode::PageDown)), Command::Move(Motion::PageDown));
    assert_eq!(command_of(plain(KeyCode::Esc)), Command::Nothing);
    assert_eq!(command_of(plain(KeyCode::Other)), Command::Nothing);
    assert_eq!(command_of(KeyPress { code: KeyCode::Enter, control: true }), Command::NewLine);
}

#[test]
fn enter_then_backspace_at_the_end_of_a_row() {
    let mut editor = editor_on("ab\ncd\n", 80, 22);
    go(&mut editor, &[Motion::End]);
    assert_eq!(editor.cursor_position(), at(2, 0));

    assert_eq!(editor.process_keypress(plain(KeyCode::Enter)), Request::Nothing);
    assert_eq!(editor.document().get_row_num(), 3);
    assert_eq!(rows(&editor), vec!["ab", "", "cd"]);
    assert_eq!(editor.cursor_position(), at(0, 1));

    assert_eq!(editor.process_keypress(plain(KeyCode::Backspace)), Request::Nothing);
    assert_eq!(rows(&editor), vec!["ab", "cd"]);
    assert_eq!(editor.document().get_row_num(), 2);
    assert_eq!(editor.cursor_position(), at(2, 0));
}

#[test]
fn moving_down_scrolls_by_just_enough() {
    let mut editor = editor_on("0\n1\n2\n3\n4\n5\n6\n7\n8\n9\n", 80, 5);
    for _ in 0..7 {
        editor.process_keypress(plain(KeyCode::Down));
    }
    assert_eq!(editor.cursor_position(), at(0, 7));
    assert_eq!(editor.offset(), at(0, 3));
}

#[test]
fn scroll_brings_a_far_cursor_into_view() {
    let mut editor = editor_on("0\n1\n2\n3\n4\n5\n6\n7\n8\n9\n", 80, 5);
    go(&mut editor, &[Motion::Down; 7]);
    assert_eq!(editor.cursor_position(), at(0, 7));
    assert_eq!(editor.offset(), at(0, 0));
    editor.scroll();
    assert_eq!(editor.offset(), at(0, 3));
}

#[test]
fn page_down_in_a_short_document_stays_on_the_last_row_and_fits_the_column() {
    let mut editor = editor_on("long line\nmid\n\n", 80, 10);
    go(&mut editor, &[Motion::Down, Motion::Down]);
    assert_eq!(editor.cursor_position(), at(0, 2));
    editor.process_keypress(plain(KeyCode::PageDown));
    assert_eq!(editor.cursor_position(), at(0, 2));
    assert_eq!(editor.document().get_row(2).unwrap().len(), 0);
}

#[test]
fn page_down_fits_the_column_to_the_row_it_comes_to() {
    let mut editor = editor_on("long line\nmid\nxy\n", 80, 10);
    go(&mut editor, &[Motion::End]);
    assert_eq!(editor.cursor_position(), at(9, 0));
    editor.process_keypress(plain(KeyCode::PageDown));
    assert_eq!(editor.cursor_position(), at(2, 2));
}

#[test]
fn moving_down_fits_the_column() {
    let mut editor = editor_on("long line\nmid\n", 80, 10);
    go(&mut editor, &[Motion::End, Motion::Down]);
    assert_eq!(editor.cursor_position(), at(3, 1));
    go(&mut editor, &[Motion::Up]);
    assert_eq!(editor.cursor_position(), at(3, 0));
}

#[test]
fn left_and_right_wrap_between_rows() {
    let mut editor = editor_on("ab\ncd\n", 80, 10);
    go(&mut editor, &[Motion::Right, Motion::Right, Motion::Right]);
    assert_eq!(editor.cursor_position(), at(0, 1));
    go(&mut editor, &[Motion::Left]);
    assert_eq!(editor.cursor_position(), at(2, 0));
    go(&mut editor, &[Motion::Home, Motion::Left]);
    assert_eq!(editor.cursor_position(), at(0, 0));
    go(&mut editor, &[Motion::Down, Motion::End, Motion::Right]);
    assert_eq!(editor.cursor_position(), at(2, 1));
}

#[test]
fn motions_in_an_empty_document_stay_at_the_origin() {
    let mut editor = Editor::new(Document::default(), Size { width: 80, height: 22 });
    let all = [
        Motion::Up,
        Motion::Down,
        Motion::Left,
        Motion::Right,
        Motion::Home,
        Motion::End,
        Motion::PageUp,
        Motion::PageDown,
    ];
    for motion in all {
        editor.move_cursor(motion);
        assert_eq!(editor.cursor_position(), at(0, 0));
    }
}

#[test]
fn typing_inserts_and_moves_right() {
    let mut editor = Editor::new(Document::default(), Size { width: 80, height: 22 });
    for c in "hi!".chars() {
        assert_eq!(editor.process_keypress(plain(KeyCode::Char(c))), Request::Nothing);
    }
    assert_eq!(rows(&editor), vec!["hi!"]);
    assert_eq!(editor.cursor_position(), at(3, 0));
    assert!(editor.document().is_dirty());
}

#[test]
fn typing_with_control_held_inserts_too() {
    let mut editor = editor_on("ab\n", 80, 22);
    editor.process_keypress(control('x'));
    assert_eq!(rows(&editor), vec!["xab"]);
    assert_eq!(editor.cursor_position(), at(1, 0));
}

#[test]
fn tab_types_four_spaces() {
    let mut editor = editor_on("ab\n", 80, 22);
    go(&mut editor, &[Motion::Right]);
    assert_eq!(editor.process_keypress(plain(KeyCode::Tab)), Request::Nothing);
    assert_eq!(rows(&editor), vec!["a    b"]);
    assert_eq!(editor.cursor_position(), at(5, 0));
}

#[test]
fn enter_within_a_row_splits_it() {
    let mut editor = editor_on("hello\n", 80, 22);
    go(&mut editor, &[Motion::Right, Motion::Right]);
    editor.process_keypress(plain(KeyCode::Enter));
    assert_eq!(rows(&editor), vec!["he", "llo"]);
    assert_eq!(editor.cursor_position(), at(0, 1));
}

#[test]
fn enter_in_an_empty_document_adds_a_row() {
    let mut editor = Editor::new(Document::default(), Size { width: 80, height: 22 });
    editor.process_keypress(plain(KeyCode::Enter));
    assert_eq!(rows(&editor), vec![""]);
    assert_eq!(editor.cursor_position(), at(0, 0));
}

#[test]
fn delete_removes_the_cluster_at_the_cursor() {
    let mut editor = editor_on("abc\n", 80, 22);
    go(&mut editor, &[Motion::Right]);
    editor.process_keypress(plain(KeyCode::Delete));
    assert_eq!(rows(&editor), vec!["ac"]);
    assert_eq!(editor.cursor_position(), at(1, 0));
}

#[test]
fn delete_at_the_end_of_a_row_joins_the_next() {
    let mut editor = editor_on("ab\ncd\n", 80, 22);
    go(&mut editor, &[Motion::End]);
    editor.process_keypress(plain(KeyCode::Delete));
    assert_eq!(rows(&editor), vec!["abcd"]);
    assert_eq!(editor.cursor_position(), at(2, 0));
}

#[test]
fn backspace_removes_the_cluster_before_the_cursor() {
    let mut editor = editor_on("abc\n", 80, 22);
    go(&mut editor, &[Motion::Right, Motion::Right]);
    editor.process_keypress(plain(KeyCode::Backspace));
    assert_eq!(rows(&editor), vec!["ac"]);
    assert_eq!(editor.cursor_position(), at(1, 0));
}

#[test]
fn backspace_at_the_origin_does_nothing() {
    let mut editor = editor_on("abc\n", 80, 22);
    editor.process_keypress(plain(KeyCode::Backspace));
    assert_eq!(rows(&editor), vec!["abc"]);
    assert_eq!(editor.cursor_position(), at(0, 0));
    assert!(!editor.document().is_dirty());
}

#[test]
fn typing_past_the_right_edge_scrolls_sideways() {
    let mut editor = Editor::new(Document::default(), Size { width: 4, height: 3 });
    for c in "abcdef".chars() {
        editor.process_keypress(plain(KeyCode::Char(c)));
    }
    assert_eq!(editor.cursor_position(), at(6, 0));
    assert_eq!(editor.offset(), at(3, 0));
    editor.process_keypress(plain(KeyCode::Home));
    assert_eq!(editor.offset(), at(0, 0));
}

#[test]
fn quit_of_a_clean_document_stops_the_editor() {
    let mut editor = editor_on("ab\n", 80, 22);
    assert_eq!(editor.process_keypress(control('q')), Request::Nothing);
    assert!(editor.should_quit());
}

#[test]
fn quit_of_a_modified_document_asks_first() {
    let mut editor = editor_on("ab\n", 80, 22);
    editor.process_keypress(plain(KeyCode::Char('x')));
    assert_eq!(editor.process_keypress(control('q')), Request::ConfirmQuit);
    assert!(!editor.should_quit());
    editor.confirm_quit("no");
    assert!(!editor.should_quit());
    editor.confirm_quit("");
    assert!(!editor.should_quit());
    editor.confirm_quit("Yes");
    assert!(editor.should_quit());
}

#[test]
fn a_small_y_agrees_to_quit() {
    let mut editor = editor_on("ab\n", 80, 22);
    editor.confirm_quit("y");
    assert!(editor.should_quit());
}

#[test]
fn save_is_left_to_the_caller() {
    let mut editor = editor_on("ab\n", 80, 22);
    editor.process_keypress(plain(KeyCode::Char('x')));
    assert_eq!(editor.process_keypress(control('s')), Request::Save);
    assert_eq!(editor.document().save_text().unwrap(), "xab\n");
    editor.mark_saved();
    assert!(!editor.document().is_dirty());
    assert_eq!(editor.process_keypress(control('q')), Request::Nothing);
    assert!(editor.should_quit());
}

#[test]
fn an_untitled_document_gets_its_title_before_a_save() {
    let mut editor = Editor::new(Document::default(), Size { width: 80, height: 22 });
    editor.process_keypress(plain(KeyCode::Char('x')));
    assert!(editor.document().file_name().is_none());
    assert!(editor.document().save_text().is_none());
    editor.set_file_name("new.txt".to_string());
    assert_eq!(editor.document().file_name().unwrap(), "new.txt");
    assert_eq!(editor.document().save_text().unwrap(), "x\n");
}

#[test]
fn keys_without_use_change_nothing() {
    let mut editor = editor_on("ab\n", 80, 22);
    assert_eq!(editor.process_keypress(plain(KeyCode::Esc)), Request::Nothing);
    assert_eq!(editor.process_keypress(plain(KeyCode::Other)), Request::Nothing);
    assert_eq!(rows(&editor), vec!["ab"]);
    assert_eq!(editor.cursor_position(), at(0, 0));
    assert!(!editor.document().is_dirty());
    assert!(!editor.should_quit());
}

#[test]
fn the_cursor_stays_on_the_document_and_in_sight() {
    let keys = [
        KeyCode::Char('a'),
        KeyCode::Enter,
        KeyCode::Tab,
        KeyCode::Char('\u{e9}'),
        KeyCode::Up,
        KeyCode::End,
        KeyCode::Enter,
        KeyCode::PageDown,
        KeyCode::Delete,
        KeyCode::Left,
        KeyCode::Backspace,
        KeyCode::PageUp,
        KeyCode::Down,
        KeyCode::Right,
        KeyCode::Home,
        KeyCode::Backspace,
        KeyCode::Char('z'),
    ];
    let mut editor = editor_on("one\ntwo words\n\nfour\n", 5, 2);
    let mut pick = 7usize;
    for _ in 0..400 {
        pick = (pick * 31 + 11) % 1009;
        editor.process_keypress(plain(keys[pick % keys.len()]));
        let cursor = editor.cursor_position();
        let offset = editor.offset();
        let count = editor.document().get_row_num();
        assert!(cursor.y <= count.saturating_sub(1));
        assert!(offset.x <= cursor.x && cursor.x < offset.x + 5);
        assert!(offset.y <= cursor.y && cursor.y < offset.y + 2);
    }
}

#[test]
fn a_motion_leaves_the_cursor_within_a_line() {
    let motions = [
        Motion::Down,
        Motion::End,
        Motion::Down,
        Motion::Right,
        Motion::PageDown,
        Motion::Up,
        Motion::End,
        Motion::PageUp,
        Motion::Left,
        Motion::Home,
    ];
    let mut editor = editor_on("a long first line\nshort\n\nmiddling line\nx\n", 80, 3);
    for round in 0..50 {
        editor.move_cursor(motions[(round * 7 + 3) % motions.len()]);
        let cursor = editor.cursor_position();
        assert!(cursor.y < 5);
        assert!(cursor.x <= editor.document().get_row(cursor.y).unwrap().len());
    }
}

use hecto::document::Document;
use hecto::editor::{Editor, KeyCode, KeyPress, Position};
use hecto::navigator::Motion;
use hecto::screen::{
    count_digits, cursor_spot, gutter_width, label_padding, screen_row, text_columns, ScreenRow,
};
use hecto::terminal::Size;

fn at(x: usize, y: usize) -> Position {
    Position { x, y }
}

#[test]
fn digits_are_counted() {
    assert_eq!(count_digits(0), 1);
    assert_eq!(count_digits(9), 1);
    assert_eq!(count_digits(10), 2);
    assert_eq!(count_digits(99), 2);
    assert_eq!(count_digits(100), 3);
    assert_eq!(count_digits(123_456), 6);
    assert_eq!(count_digits(u32::MAX as usize), 10);
}

#[test]
fn the_gutter_holds_the_line_count_and_one_column() {
    assert_eq!(gutter_width(0), 2);
    assert_eq!(gutter_width(7), 2);
    assert_eq!(gutter_width(10), 3);
    assert_eq!(gutter_width(2_500), 5);
}

#[test]
fn a_label_is_padded_to_the_gutter() {
    assert_eq!(label_padding(5, 1), 3);
    assert_eq!(label_padding(5, 42), 2);
    assert_eq!(label_padding(5, 1234), 0);
    assert_eq!(label_padding(2, 1), 0);
}

#[test]
fn a_label_too_long_for_the_gutter_gets_no_padding() {
    assert_eq!(label_padding(2, 10), 0);
    assert_eq!(label_padding(0, 5), 0);
}

#[test]
fn the_text_columns_leave_out_the_gutter() {
    assert_eq!(text_columns(at(0, 0), 80, 3), (0, 77));
    assert_eq!(text_columns(at(12, 4), 80, 3), (12, 89));
}

#[test]
fn a_gutter_as_wide_as_the_screen_leaves_no_columns() {
    assert_eq!(text_columns(at(4, 0), 3, 3), (4, 4));
    assert_eq!(text_columns(at(4, 0), 2, 3), (4, 4));
}

#[test]
fn the_text_columns_stop_at_the_largest_index() {
    assert_eq!(text_columns(at(usize::MAX - 5, 0), 80, 3), (usize::MAX - 5, usize::MAX));
}

#[test]
fn the_cursor_is_shown_beside_the_gutter() {
    assert_eq!(cursor_spot(at(0, 0), at(0, 0), 3), at(3, 0));
    assert_eq!(cursor_spot(at(10, 7), at(4, 3), 3), at(9, 4));
}

#[test]
fn a_cursor_before_the_offset_is_shown_at_the_edge() {
    assert_eq!(cursor_spot(at(1, 1), at(4, 3), 3), at(3, 0));
}

#[test]
fn the_cursor_spot_stops_at_the_largest_coordinate() {
    assert_eq!(cursor_spot(at(usize::MAX, 0), at(0, 0), 3), at(usize::MAX, 0));
}

#[test]
fn a_screen_row_shows_the_line_it_falls_on() {
    assert_eq!(screen_row(0, 0, 10, 3, false), ScreenRow::Line(0));
    assert_eq!(screen_row(2, 0, 10, 3, false), ScreenRow::Line(2));
    assert_eq!(screen_row(4, 20, 10, 30, false), ScreenRow::Line(24));
}

#[test]
fn a_screen_row_past_the_document_is_blank() {
    assert_eq!(screen_row(3, 0, 10, 3, false), ScreenRow::Blank { numbered: false });
    assert_eq!(screen_row(9, 25, 10, 30, false), ScreenRow::Blank { numbered: false });
    assert_eq!(screen_row(1, usize::MAX, 10, 30, false), ScreenRow::Blank { numbered: false });
}

#[test]
fn the_first_screen_row_of_an_empty_document_is_numbered() {
    assert_eq!(screen_row(0, 0, 10, 0, true), ScreenRow::Blank { numbered: true });
    assert_eq!(screen_row(0, 0, 10, 0, false), ScreenRow::Blank { numbered: true });
}

#[test]
fn an_empty_document_shows_the_welcome_a_third_of_the_way_down() {
    assert_eq!(screen_row(3, 0, 10, 0, true), ScreenRow::Welcome);
    assert_eq!(screen_row(7, 0, 22, 0, true), ScreenRow::Welcome);
    assert_eq!(screen_row(2, 0, 10, 0, true), ScreenRow::Blank { numbered: false });
    assert_eq!(screen_row(0, 0, 2, 0, true), ScreenRow::Welcome);
}

#[test]
fn a_document_with_a_title_shows_no_welcome() {
    assert_eq!(screen_row(3, 0, 10, 0, false), ScreenRow::Blank { numbered: false });
}

#[test]
fn the_editor_lays_out_its_screen() {
    let text = "0\n1\n2\n3\n4\n5\n6\n7\n8\n9\n10\n11\n";
    let mut editor = Editor::new(Document::open("t", text), Size { width: 20, height: 4 });
    assert_eq!(editor.row_num_indent(), 3);
    assert_eq!(editor.text_columns(), (0, 17));
    assert_eq!(editor.screen_cursor(), at(3, 0));
    for _ in 0..6 {
        editor.process_keypress(KeyPress { code: KeyCode::Down, control: false });
    }
    assert_eq!(editor.offset(), at(0, 3));
    assert_eq!(editor.screen_cursor(), at(3, 3));
    assert_eq!(editor.screen_row(0), ScreenRow::Line(3));
    assert_eq!(editor.screen_row(3), ScreenRow::Line(6));
    editor.move_cursor(Motion::End);
    assert_eq!(editor.screen_cursor(), at(4, 3));
}

#[test]
fn the_editor_of_an_empty_document_shows_the_welcome() {
    let editor = Editor::new(Document::default(), Size { width: 20, height: 9 });
    assert_eq!(editor.row_num_indent(), 2);
    assert_eq!(editor.screen_row(0), ScreenRow::Blank { numbered: true });
    assert_eq!(editor.screen_row(3), ScreenRow::Welcome);
    assert_eq!(editor.screen_row(4), ScreenRow::Blank { numbered: false });
}

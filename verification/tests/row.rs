use hecto::row::Row;

fn text(row: &Row) -> String {
    row.as_str().to_string()
}

#[test]
fn from_keeps_the_text_and_counts_clusters() {
    let row = Row::from("hello");
    assert_eq!(text(&row), "hello");
    assert_eq!(row.len(), 5);
    assert!(!row.is_empty());
}

#[test]
fn from_counts_combining_sequences_as_one() {
    let row = Row::from("a\u{310}e\u{301}o\u{308}\u{332}");
    assert_eq!(row.len(), 3);
}

#[test]
fn from_counts_flags_and_line_ends_as_one() {
    let row = Row::from("a\r\nb\u{1F1F7}\u{1F1FA}\u{1F1F8}\u{1F1F9}");
    assert_eq!(row.len(), 5);
}

#[test]
fn default_row_is_empty() {
    let row = Row::default();
    assert_eq!(text(&row), "");
    assert_eq!(row.len(), 0);
    assert!(row.is_empty());
}

#[test]
fn row_of_empty_text_is_empty() {
    let row = Row::from("");
    assert!(row.is_empty());
    assert_eq!(row.len(), 0);
}

#[test]
fn as_bytes_is_the_utf8_of_the_text() {
    let row = Row::from("h\u{e9}");
    assert_eq!(row.as_bytes(), &[0x68, 0xc3, 0xa9]);
    assert_eq!(row.as_str(), "h\u{e9}");
}

#[test]
fn insert_in_the_middle() {
    let mut row = Row::from("abc");
    row.insert(1, 'x');
    assert_eq!(text(&row), "axbc");
    assert_eq!(row.len(), 4);
}

#[test]
fn insert_at_the_front() {
    let mut row = Row::from("abc");
    row.insert(0, 'x');
    assert_eq!(text(&row), "xabc");
    assert_eq!(row.len(), 4);
}

#[test]
fn insert_at_the_length_appends() {
    let mut row = Row::from("abc");
    row.insert(3, 'x');
    assert_eq!(text(&row), "abcx");
    assert_eq!(row.len(), 4);
}

#[test]
fn insert_beyond_the_length_appends() {
    let mut row = Row::from("abc");
    row.insert(100, 'x');
    assert_eq!(text(&row), "abcx");
    assert_eq!(row.len(), 4);
}

#[test]
fn insert_into_an_empty_row() {
    let mut row = Row::default();
    row.insert(0, 'q');
    assert_eq!(text(&row), "q");
    assert_eq!(row.len(), 1);
}

#[test]
fn insert_counts_clusters_not_characters() {
    let mut row = Row::from("e\u{301}x");
    row.insert(1, 'b');
    assert_eq!(text(&row), "e\u{301}bx");
    assert_eq!(row.len(), 3);
}

#[test]
fn length_follows_the_text_when_a_character_combines() {
    let mut row = Row::from("a");
    row.insert(1, '\u{301}');
    assert_eq!(text(&row), "a\u{301}");
    assert_eq!(row.len(), 1);
}

#[test]
fn delete_in_the_middle() {
    let mut row = Row::from("abc");
    row.delete(1);
    assert_eq!(text(&row), "ac");
    assert_eq!(row.len(), 2);
}

#[test]
fn delete_the_last_cluster() {
    let mut row = Row::from("abc");
    row.delete(2);
    assert_eq!(text(&row), "ab");
    assert_eq!(row.len(), 2);
}

#[test]
fn delete_at_the_length_does_nothing() {
    let mut row = Row::from("abc");
    row.delete(3);
    assert_eq!(text(&row), "abc");
    assert_eq!(row.len(), 3);
}

#[test]
fn delete_beyond_the_length_does_nothing() {
    let mut row = Row::from("abc");
    row.delete(usize::MAX);
    assert_eq!(text(&row), "abc");
    assert_eq!(row.len(), 3);
}

#[test]
fn delete_removes_a_whole_cluster() {
    let mut row = Row::from("xe\u{301}y");
    row.delete(1);
    assert_eq!(text(&row), "xy");
    assert_eq!(row.len(), 2);
}

#[test]
fn insert_then_delete_restores_the_row() {
    for at in 0..=4 {
        let mut row = Row::from("wxyz");
        row.insert(at, '!');
        assert_eq!(row.len(), 5);
        row.delete(at);
        assert_eq!(text(&row), "wxyz");
        assert_eq!(row.len(), 4);
    }
}

#[test]
fn append_joins_the_texts() {
    let mut row = Row::from("foo");
    row.append(&Row::from("bar!"));
    assert_eq!(text(&row), "foobar!");
    assert_eq!(row.len(), 7);
}

#[test]
fn append_of_an_empty_row_changes_nothing() {
    let mut row = Row::from("foo");
    row.append(&Row::default());
    assert_eq!(text(&row), "foo");
    assert_eq!(row.len(), 3);
}

#[test]
fn split_in_the_middle() {
    let mut row = Row::from("hello");
    let rest = row.split(2);
    assert_eq!(text(&row), "he");
    assert_eq!(row.len(), 2);
    assert_eq!(text(&rest), "llo");
    assert_eq!(rest.len(), 3);
}

#[test]
fn split_at_the_front_moves_everything() {
    let mut row = Row::from("hello");
    let rest = row.split(0);
    assert_eq!(text(&row), "");
    assert!(row.is_empty());
    assert_eq!(text(&rest), "hello");
    assert_eq!(rest.len(), 5);
}

#[test]
fn split_at_the_length_moves_nothing() {
    let mut row = Row::from("hello");
    let rest = row.split(5);
    assert_eq!(text(&row), "hello");
    assert_eq!(text(&rest), "");
    assert_eq!(rest.len(), 0);
}

#[test]
fn split_beyond_the_length_moves_nothing() {
    let mut row = Row::from("hello");
    let rest = row.split(9);
    assert_eq!(text(&row), "hello");
    assert_eq!(row.len(), 5);
    assert!(rest.is_empty());
}

#[test]
fn split_counts_clusters_not_characters() {
    let mut row = Row::from("e\u{301}o\u{308}z");
    let rest = row.split(1);
    assert_eq!(text(&row), "e\u{301}");
    assert_eq!(text(&rest), "o\u{308}z");
    assert_eq!(row.len(), 1);
    assert_eq!(rest.len(), 2);
}

#[test]
fn split_then_append_restores_the_row() {
    for at in 0..=7 {
        let mut row = Row::from("a\u{310}bcde");
        let rest = row.split(at);
        row.append(&rest);
        assert_eq!(text(&row), "a\u{310}bcde");
        assert_eq!(row.len(), 5);
    }
}

#[test]
fn render_a_range() {
    let row = Row::from("hello world");
    assert_eq!(row.render(0, 5), "hello");
    assert_eq!(row.render(6, 11), "world");
    assert_eq!(row.render(3, 8), "lo wo");
}

#[test]
fn render_brings_the_end_down_to_the_length() {
    let row = Row::from("hello");
    assert_eq!(row.render(0, 100), "hello");
    assert_eq!(row.render(3, usize::MAX), "lo");
}

#[test]
fn render_brings_the_start_down_to_the_end() {
    let row = Row::from("hello");
    assert_eq!(row.render(4, 2), "");
    assert_eq!(row.render(9, 20), "");
}

#[test]
fn render_of_an_empty_range_is_empty() {
    let row = Row::from("hello");
    assert_eq!(row.render(2, 2), "");
    assert_eq!(row.render(0, 0), "");
    assert_eq!(Row::default().render(0, 10), "");
}

#[test]
fn render_shows_a_tab_as_one_space() {
    let row = Row::from("a\tb\t\tc");
    assert_eq!(row.render(0, 6), "a b  c");
    assert_eq!(row.render(1, 2), " ");
}

#[test]
fn render_counts_clusters_not_bytes() {
    let row = Row::from("\u{e9}\u{e9}\u{e9}\u{e9}");
    assert_eq!(row.len(), 4);
    assert_eq!(row.render(0, 3), "\u{e9}\u{e9}\u{e9}");
    assert_eq!(row.render(3, 8), "\u{e9}");
    assert_eq!(row.render(2, 4), "\u{e9}\u{e9}");
}

#[test]
fn render_yields_one_unit_for_each_cluster_in_range() {
    let row = Row::from("a\u{310}\tbc");
    let length = row.len();
    assert_eq!(length, 4);
    for start in 0..7 {
        for end in 0..7 {
            let stop = end.min(length);
            let first = start.min(stop);
            let shown = Row::from(row.render(start, end).as_str());
            assert_eq!(shown.len(), stop - first);
        }
    }
}

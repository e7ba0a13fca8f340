use text_editor::editor::uicomponents::view::textlines::split_into_lines;
use text_editor::editor::uicomponents::view::{Buffer, FileInfo, SaveError};
use text_editor::prelude::Location;

fn at(line_idx: usize, grapheme_idx: usize) -> Location {
    Location { grapheme_idx, line_idx }
}

fn texts(buffer: &Buffer) -> Vec<String> {
    let mut lines = Vec::new();
    let mut idx = 0;
    while let Some(line) = buffer.get_line(idx) {
        lines.push(line.to_string());
        idx += 1;
    }
    assert_eq!(idx, buffer.height());
    lines
}

#[test]
fn delete_at_the_end_of_a_line_joins_it_with_the_next() {
    let mut buffer = Buffer::load("two.txt", "ab\ncd");
    assert_eq!(texts(&buffer), ["ab", "cd"]);
    assert!(!buffer.is_dirty());
    buffer.delete(at(0, 2));
    assert_eq!(buffer.height(), 1);
    assert_eq!(texts(&buffer), ["abcd"]);
    assert!(buffer.is_dirty());
}

#[test]
fn newline_in_an_empty_line_gives_two_empty_lines() {
    let mut buffer = Buffer::default();
    assert_eq!(buffer.height(), 0);
    assert!(buffer.is_empty());
    buffer.insert_newline(at(0, 0));
    assert_eq!(texts(&buffer), [""]);
    buffer.insert_newline(at(0, 0));
    assert_eq!(buffer.height(), 2);
    assert_eq!(texts(&buffer), ["", ""]);
    assert!(buffer.is_dirty());
    assert!(!buffer.is_empty());
}

#[test]
fn newline_cuts_the_line_before_the_cluster() {
    let mut buffer = Buffer::load("f", "a😀b\nxy");
    buffer.insert_newline(at(0, 1));
    assert_eq!(texts(&buffer), ["a", "😀b", "xy"]);
    buffer.insert_newline(at(2, 2));
    assert_eq!(texts(&buffer), ["a", "😀b", "xy", ""]);
    buffer.insert_newline(at(2, 7));
    assert_eq!(texts(&buffer), ["a", "😀b", "xy", "", ""]);
    buffer.insert_newline(at(5, 0));
    assert_eq!(texts(&buffer), ["a", "😀b", "xy", "", "", ""]);
    buffer.insert_newline(at(9, 0));
    assert_eq!(buffer.height(), 6);
}

#[test]
fn insert_char_changes_a_line_or_adds_one() {
    let mut buffer = Buffer::default();
    buffer.insert_char('a', at(0, 0));
    assert_eq!(texts(&buffer), ["a"]);
    assert!(buffer.is_dirty());
    buffer.insert_char('b', at(0, 1));
    buffer.insert_char('c', at(0, 0));
    assert_eq!(texts(&buffer), ["cab"]);
    buffer.insert_char('x', at(1, 0));
    assert_eq!(texts(&buffer), ["cab", "x"]);
    buffer.insert_char('y', at(1, 5));
    assert_eq!(texts(&buffer), ["cab", "xy"]);
}

#[test]
fn insert_char_far_below_the_last_line_does_nothing() {
    let mut buffer = Buffer::load("f", "ab");
    buffer.insert_char('x', at(2, 0));
    assert_eq!(texts(&buffer), ["ab"]);
    assert!(!buffer.is_dirty());
    buffer.insert_newline(at(2, 0));
    assert_eq!(texts(&buffer), ["ab"]);
    assert!(!buffer.is_dirty());
}

#[test]
fn delete_removes_a_cluster_or_does_nothing() {
    let mut buffer = Buffer::load("f", "a😀b\ncd");
    buffer.delete(at(1, 2));
    assert_eq!(texts(&buffer), ["a😀b", "cd"]);
    assert!(!buffer.is_dirty());
    buffer.delete(at(2, 0));
    buffer.delete(at(7, 0));
    assert_eq!(texts(&buffer), ["a😀b", "cd"]);
    assert!(!buffer.is_dirty());
    buffer.delete(at(0, 1));
    assert_eq!(texts(&buffer), ["ab", "cd"]);
    assert!(buffer.is_dirty());
    buffer.delete(at(0, 9));
    assert_eq!(texts(&buffer), ["abcd"]);
}

#[test]
fn queries_past_the_end_give_zero_or_nothing() {
    let buffer = Buffer::load("f", "a😀b\n好");
    assert_eq!(buffer.height(), 2);
    assert_eq!(buffer.grapheme_count(0), 3);
    assert_eq!(buffer.grapheme_count(1), 1);
    assert_eq!(buffer.grapheme_count(2), 0);
    assert_eq!(buffer.grapheme_count(usize::MAX), 0);
    assert_eq!(buffer.width_until(0, 2), 3);
    assert_eq!(buffer.width_until(0, 9), 4);
    assert_eq!(buffer.width_until(1, 1), 2);
    assert_eq!(buffer.width_until(2, 1), 0);
    assert!(buffer.get_line(1).is_some());
    assert!(buffer.get_line(2).is_none());
}

#[test]
fn load_cuts_the_text_into_lines() {
    let buffer = Buffer::load("dir/file.txt", "one\r\ntwo\n\nfour\n");
    assert_eq!(texts(&buffer), ["one", "two", "", "four"]);
    assert!(!buffer.is_dirty());
    assert!(buffer.is_file_loaded());
    assert_eq!(buffer.get_file_info().get_path(), Some("dir/file.txt"));
    assert_eq!(Buffer::load("f", "").height(), 0);
}

#[test]
fn lines_are_split_as_the_standard_library_splits_them() {
    for text in [
        "",
        "\n",
        "a",
        "a\n",
        "a\nb",
        "a\r\nb\r\n",
        "a\rb",
        "a\r",
        "a\r\r\n",
        "\n\n",
        "\r\n\r\n",
        "x\n\ny\n\n",
        "好\n😀",
    ] {
        let expected: Vec<String> = text.lines().map(String::from).collect();
        assert_eq!(split_into_lines(text), expected);
    }
    assert_eq!(split_into_lines("a\r\r\nb\r"), ["a\r", "b\r"]);
}

#[test]
fn contents_put_a_line_feed_after_each_line() {
    assert_eq!(Buffer::load("f", "ab\r\ncd").contents(), "ab\ncd\n");
    assert_eq!(Buffer::load("f", "ab\n\n").contents(), "ab\n\n");
    assert_eq!(Buffer::default().contents(), "");
}

#[test]
fn save_without_a_file_fails() {
    let mut buffer = Buffer::default();
    buffer.insert_char('a', at(0, 0));
    assert!(!buffer.is_file_loaded());
    assert_eq!(buffer.save(true), Err(SaveError::NoPath));
    assert_eq!(buffer.save(false), Err(SaveError::NoPath));
    assert!(buffer.is_dirty());
}

#[test]
fn a_failed_save_leaves_the_buffer_as_it_was() {
    let mut buffer = Buffer::load("f", "ab");
    buffer.insert_char('c', at(0, 2));
    assert_eq!(buffer.save(false), Err(SaveError::WriteFailed));
    assert!(buffer.is_dirty());
    assert_eq!(buffer.save_as("g", false), Err(SaveError::WriteFailed));
    assert!(buffer.is_dirty());
    assert_eq!(buffer.get_file_info().get_path(), Some("f"));
    assert_eq!(texts(&buffer), ["abc"]);
}

#[test]
fn a_save_clears_the_dirty_flag() {
    let mut buffer = Buffer::load("f", "ab");
    buffer.insert_char('c', at(0, 2));
    assert_eq!(buffer.save(true), Ok(()));
    assert!(!buffer.is_dirty());
    buffer.delete(at(0, 0));
    assert!(buffer.is_dirty());
    assert_eq!(buffer.save_as("g", true), Ok(()));
    assert!(!buffer.is_dirty());
    assert_eq!(buffer.get_file_info().get_path(), Some("g"));
    let mut fresh = Buffer::default();
    assert_eq!(fresh.save_as("new.txt", true), Ok(()));
    assert!(fresh.is_file_loaded());
}

#[test]
fn a_file_is_shown_by_its_name() {
    assert_eq!(FileInfo::default().to_string(), "[default]");
    assert!(!FileInfo::default().has_path());
    assert_eq!(FileInfo::default().get_path(), None);
    let info = FileInfo::from("some/dir/notes.txt");
    assert!(info.has_path());
    assert_eq!(info.get_path(), Some("some/dir/notes.txt"));
    assert_eq!(info.to_string(), "notes.txt");
    assert_eq!(FileInfo::from("plain").to_string(), "plain");
    assert_eq!(FileInfo::from("..").to_string(), "[default]");
}

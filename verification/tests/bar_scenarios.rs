use text_editor::editor::command::Edit;
use text_editor::editor::documentstatus::{decimal_string, DocumentStatus};
use text_editor::editor::uicomponents::commandbar::caret_column_for;
use text_editor::editor::uicomponents::messagebar::{outlived, LIFETIME_NANOS};
use text_editor::editor::uicomponents::statusbar::fit_to_width;
use text_editor::editor::uicomponents::{CommandBar, MessageBar, StatusBar};
use text_editor::prelude::Size;

fn status(total_lines: usize, current_line_idx: usize, is_modified: bool, name: &str) -> DocumentStatus {
    DocumentStatus { total_lines, current_line_idx, is_modified, file_name: name.to_string() }
}

#[test]
fn the_status_is_put_into_words() {
    let changed = status(12, 2, true, "a.txt");
    assert_eq!(changed.modified_indicator_to_string(), "(modified)");
    assert_eq!(changed.line_count_to_string(), "12 lines");
    assert_eq!(changed.position_indicator_to_string(), "3/12");
    let fresh = DocumentStatus::default();
    assert_eq!(fresh.modified_indicator_to_string(), "");
    assert_eq!(fresh.line_count_to_string(), "0 lines");
    assert_eq!(fresh.position_indicator_to_string(), "1/0");
    let far = status(usize::MAX, usize::MAX, false, "");
    assert_eq!(far.position_indicator_to_string(), format!("{}/{}", usize::MAX, usize::MAX));
    assert_eq!(status(1000000, 9, false, "").line_count_to_string(), "1000000 lines");
}

#[test]
fn statuses_compare_by_what_they_tell() {
    assert!(status(1, 0, false, "a") == status(1, 0, false, "a"));
    assert!(status(1, 0, false, "a") != status(2, 0, false, "a"));
    assert!(status(1, 0, false, "a") != status(1, 1, false, "a"));
    assert!(status(1, 0, false, "a") != status(1, 0, true, "a"));
    assert!(status(1, 0, false, "a") != status(1, 0, false, "b"));
    assert!(DocumentStatus::default() == status(0, 0, false, ""));
}

#[test]
fn the_status_line_has_the_position_at_the_right_edge() {
    let mut bar = StatusBar::default();
    bar.resize(Size { height: 1, width: 40 });
    bar.update_status(status(12, 2, true, "a.txt"));
    assert_eq!(bar.draw(), "a.txt - 12 lines (modified)         3/12");
    bar.update_status(status(0, 0, false, "[default]"));
    assert_eq!(bar.draw(), "[default] - 0 lines                  1/0");
    assert_eq!(bar.draw().len(), 40);
}

#[test]
fn a_status_line_that_does_not_fit_is_left_out() {
    let mut bar = StatusBar::default();
    bar.update_status(status(12, 2, true, "a.txt"));
    bar.set_size(Size { height: 1, width: 30 });
    assert_eq!(bar.draw(), "");
    bar.set_size(Size { height: 1, width: 31 });
    assert_eq!(bar.draw(), "a.txt - 12 lines (modified)3/12");
    bar.set_size(Size { height: 1, width: 32 });
    assert_eq!(bar.draw(), "a.txt - 12 lines (modified) 3/12");
    bar.set_size(Size { height: 1, width: 0 });
    assert_eq!(bar.draw(), "");
    bar.update_status(status(1, 0, false, "好.txt"));
    bar.set_size(Size { height: 1, width: 20 });
    assert_eq!(bar.draw(), "");
    bar.set_size(Size { height: 1, width: 21 });
    assert_eq!(bar.draw(), "好.txt - 1 lines 1/1");
    assert_eq!(bar.draw().len(), 21);
    bar.set_size(Size { height: 1, width: 22 });
    assert_eq!(bar.draw(), "好.txt - 1 lines  1/1");
}

#[test]
fn the_status_bar_is_drawn_when_it_has_news() {
    let mut bar = StatusBar::default();
    assert!(!bar.needs_redraw());
    bar.update_status(DocumentStatus::default());
    assert!(!bar.needs_redraw());
    assert_eq!(bar.render(), None);
    bar.update_status(status(1, 0, false, "a"));
    assert!(bar.needs_redraw());
    bar.set_size(Size { height: 1, width: 15 });
    assert_eq!(bar.render(), Some("a - 1 lines 1/1".to_string()));
    assert!(!bar.needs_redraw());
    bar.update_status(status(1, 0, false, "a"));
    assert!(!bar.needs_redraw());
    bar.set_needs_redraw(true);
    assert!(bar.needs_redraw());
}

#[test]
fn rows_are_cut_or_filled_to_the_width() {
    assert_eq!(fit_to_width("abc", 5), "abc  ");
    assert_eq!(fit_to_width("abcdef", 3), "abc");
    assert_eq!(fit_to_width("abc", 3), "abc");
    assert_eq!(fit_to_width("好a好", 2), "好a");
    assert_eq!(fit_to_width("好", 3), "好  ");
    assert_eq!(fit_to_width("", 2), "  ");
    assert_eq!(fit_to_width("abc", 0), "");
    let width = 7;
    for text in ["", "ab", "abcdefg", "abcdefghij", "好好"] {
        assert_eq!(fit_to_width(text, width), format!("{text:width$.width$}"));
    }
}

#[test]
fn a_message_shows_for_ten_seconds() {
    assert_eq!(LIFETIME_NANOS, 10_000_000_000);
    assert!(!outlived(0));
    assert!(!outlived(10_000_000_000));
    assert!(outlived(10_000_000_001));
    assert!(outlived(u128::MAX));
}

#[test]
fn a_fresh_message_is_drawn() {
    let mut bar = MessageBar::default();
    assert!(!bar.is_expired());
    assert!(!bar.needs_redraw());
    bar.update_message("saved");
    assert!(bar.needs_redraw());
    assert!(!bar.is_expired());
    assert_eq!(bar.draw(), "saved");
    assert_eq!(bar.render_when(false), Some("saved".to_string()));
    assert!(!bar.needs_redraw());
    assert_eq!(bar.render_when(false), None);
    bar.resize(Size { height: 1, width: 10 });
    assert!(bar.needs_redraw());
}

#[test]
fn an_expired_message_is_cleared_once() {
    let mut bar = MessageBar::default();
    bar.update_message("saved");
    bar.set_needs_redraw(false);
    assert!(!bar.needs_redraw_when(false));
    assert!(bar.needs_redraw_when(true));
    assert_eq!(bar.render_when(true), Some(String::new()));
    assert!(!bar.needs_redraw_when(true));
    assert_eq!(bar.render_when(true), None);
    assert_eq!(bar.draw_when(false), "saved");
    assert_eq!(bar.draw_when(true), "");
    bar.update_message("again");
    assert!(bar.needs_redraw_when(false));
    bar.set_needs_redraw(false);
    assert!(bar.needs_redraw_when(true));
}

#[test]
fn the_command_bar_takes_what_is_typed() {
    let mut bar = CommandBar::default();
    bar.set_size(Size { height: 1, width: 20 });
    bar.set_prompt("Save as: ");
    bar.handle_edit_command(Edit::Insert('a'));
    bar.handle_edit_command(Edit::Insert('好'));
    bar.handle_edit_command(Edit::Insert('b'));
    bar.handle_edit_command(Edit::Delete);
    bar.handle_edit_command(Edit::InsertNewline);
    assert_eq!(bar.value(), "a好b");
    bar.handle_edit_command(Edit::DeleteBackward);
    assert_eq!(bar.value(), "a好");
    assert_eq!(bar.caret_position_col(), 9 + 3);
    assert_eq!(bar.draw(), "Save as: a好");
    assert!(bar.needs_redraw());
    assert_eq!(bar.render(), Some("Save as: a好".to_string()));
    assert_eq!(bar.render(), None);
    bar.clear_value();
    assert_eq!(bar.value(), "");
    assert!(bar.needs_redraw());
    bar.handle_edit_command(Edit::DeleteBackward);
    assert_eq!(bar.value(), "");
    assert_eq!(bar.caret_position_col(), 9);
}

#[test]
fn the_command_bar_shows_the_end_of_a_long_value() {
    let mut bar = CommandBar::default();
    bar.resize(Size { height: 1, width: 8 });
    bar.set_prompt("name:");
    for c in "abcdef".chars() {
        bar.handle_edit_command(Edit::Insert(c));
    }
    assert_eq!(bar.draw(), "name:def");
    assert_eq!(bar.caret_position_col(), 8);
    bar.set_size(Size { height: 1, width: 3 });
    assert_eq!(bar.draw(), "name:");
    assert_eq!(bar.caret_position_col(), 3);
}

#[test]
fn the_caret_stops_at_the_edge_of_the_bar() {
    assert_eq!(caret_column_for(3, 4, 10), 7);
    assert_eq!(caret_column_for(3, 7, 10), 10);
    assert_eq!(caret_column_for(3, 8, 10), 10);
    assert_eq!(caret_column_for(12, 0, 10), 10);
    assert_eq!(caret_column_for(usize::MAX, usize::MAX, 10), 10);
    assert_eq!(caret_column_for(usize::MAX, 1, usize::MAX), usize::MAX);
    assert_eq!(caret_column_for(0, 0, 0), 0);
}

#[test]
fn numbers_are_written_in_decimal() {
    assert_eq!(decimal_string(0), "0");
    assert_eq!(decimal_string(7), "7");
    assert_eq!(decimal_string(10), "10");
    assert_eq!(decimal_string(909), "909");
    assert_eq!(decimal_string(1234567890), "1234567890");
    assert_eq!(decimal_string(usize::MAX), usize::MAX.to_string());
}

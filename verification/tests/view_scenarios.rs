use text_editor::editor::command::{Edit, Move};
use text_editor::editor::uicomponents::view::SaveError;
use text_editor::editor::uicomponents::View;
use text_editor::prelude::{Location, Position, Size};

fn view_of(contents: &str, height: usize, width: usize) -> View {
    let mut view = View::default();
    view.load("file.txt", contents);
    view.resize(Size { height, width });
    view
}

fn rows(view: &View) -> Vec<String> {
    view.draw()
}

fn go(view: &mut View, moves: &[Move]) {
    for command in moves {
        view.handle_move_command(*command);
    }
}

#[test]
fn the_view_starts_empty_and_unscrolled() {
    let view = View::default();
    assert_eq!(view.caret_position(), Position { col: 0, row: 0 });
    assert!(!view.needs_redraw());
    assert!(!view.is_file_loaded());
    assert_eq!(rows(&view).len(), 0);
    let status = view.get_status();
    assert_eq!(status.total_lines, 0);
    assert_eq!(status.current_line_idx, 0);
    assert!(!status.is_modified);
    assert_eq!(status.file_name, "[default]");
}

#[test]
fn right_steps_over_clusters_and_wraps_to_the_next_line() {
    let mut view = view_of("a😀\nxy", 5, 20);
    go(&mut view, &[Move::Right]);
    assert_eq!(view.caret_position(), Position { col: 1, row: 0 });
    go(&mut view, &[Move::Right]);
    assert_eq!(view.caret_position(), Position { col: 3, row: 0 });
    go(&mut view, &[Move::Right]);
    assert_eq!(view.caret_position(), Position { col: 0, row: 1 });
    go(&mut view, &[Move::Right, Move::Right]);
    assert_eq!(view.caret_position(), Position { col: 2, row: 1 });
}

#[test]
fn right_at_the_end_of_the_last_line_moves_nothing() {
    let mut view = view_of("a😀\nxy", 5, 20);
    go(&mut view, &[Move::Down, Move::EndOfLine]);
    assert_eq!(view.caret_position(), Position { col: 2, row: 1 });
    go(&mut view, &[Move::Right]);
    assert_eq!(view.caret_position(), Position { col: 2, row: 1 });
    assert_eq!(view.get_status().current_line_idx, 1);
    go(&mut view, &[Move::Right, Move::Right]);
    assert_eq!(view.caret_position(), Position { col: 2, row: 1 });
    let mut single = view_of("a", 5, 20);
    go(&mut single, &[Move::Right, Move::Right]);
    assert_eq!(single.caret_position(), Position { col: 1, row: 0 });
    assert_eq!(single.get_status().current_line_idx, 0);
    let mut empty = View::default();
    empty.resize(Size { height: 5, width: 20 });
    go(&mut empty, &[Move::Right]);
    assert_eq!(empty.caret_position(), Position { col: 0, row: 0 });
}

#[test]
fn right_below_the_last_line_moves_nothing() {
    let mut view = view_of("a😀\nxy", 5, 20);
    go(&mut view, &[Move::Down, Move::Down]);
    assert_eq!(view.caret_position(), Position { col: 0, row: 2 });
    go(&mut view, &[Move::Right]);
    assert_eq!(view.caret_position(), Position { col: 0, row: 2 });
    assert_eq!(view.get_status().current_line_idx, 2);
}

#[test]
fn left_wraps_to_the_end_of_the_line_before() {
    let mut view = view_of("a😀\nxy", 5, 20);
    go(&mut view, &[Move::Left]);
    assert_eq!(view.caret_position(), Position { col: 0, row: 0 });
    go(&mut view, &[Move::Down, Move::Left]);
    assert_eq!(view.caret_position(), Position { col: 3, row: 0 });
    go(&mut view, &[Move::Left]);
    assert_eq!(view.caret_position(), Position { col: 1, row: 0 });
}

#[test]
fn up_and_down_keep_the_caret_on_the_line() {
    let mut view = view_of("abcdef\nab\n\nabcd", 10, 20);
    go(&mut view, &[Move::EndOfLine]);
    assert_eq!(view.caret_position(), Position { col: 6, row: 0 });
    go(&mut view, &[Move::Down]);
    assert_eq!(view.caret_position(), Position { col: 2, row: 1 });
    go(&mut view, &[Move::Down]);
    assert_eq!(view.caret_position(), Position { col: 0, row: 2 });
    go(&mut view, &[Move::Down, Move::EndOfLine]);
    assert_eq!(view.caret_position(), Position { col: 4, row: 3 });
    go(&mut view, &[Move::Down]);
    assert_eq!(view.caret_position(), Position { col: 0, row: 4 });
    go(&mut view, &[Move::Down]);
    assert_eq!(view.caret_position(), Position { col: 0, row: 4 });
    go(&mut view, &[Move::Up, Move::EndOfLine, Move::Up, Move::Up, Move::Up, Move::Up]);
    assert_eq!(view.caret_position(), Position { col: 0, row: 0 });
    go(&mut view, &[Move::EndOfLine, Move::StartOfLine]);
    assert_eq!(view.caret_position(), Position { col: 0, row: 0 });
}

#[test]
fn pages_move_by_the_height_less_one() {
    let text = "0\n1\n2\n3\n4\n5\n6\n7\n8\n9";
    let mut view = view_of(text, 4, 20);
    go(&mut view, &[Move::PageDown]);
    assert_eq!(view.get_status().current_line_idx, 3);
    assert_eq!(view.caret_position(), Position { col: 0, row: 3 });
    go(&mut view, &[Move::PageDown]);
    assert_eq!(view.get_status().current_line_idx, 6);
    assert_eq!(view.caret_position(), Position { col: 0, row: 3 });
    assert_eq!(rows(&view), ["3", "4", "5", "6"]);
    go(&mut view, &[Move::PageDown, Move::PageDown]);
    assert_eq!(view.get_status().current_line_idx, 10);
    assert_eq!(rows(&view), ["7", "8", "9", "_"]);
    go(&mut view, &[Move::PageUp]);
    assert_eq!(view.get_status().current_line_idx, 7);
    assert_eq!(view.caret_position(), Position { col: 0, row: 0 });
    go(&mut view, &[Move::PageUp, Move::PageUp, Move::PageUp]);
    assert_eq!(view.get_status().current_line_idx, 0);
    assert_eq!(rows(&view), ["0", "1", "2", "3"]);
}

#[test]
fn the_caret_stays_in_view_through_any_moves() {
    let text = "abcdefghijklmnopqrstuvwxyz\n好好好好好好好好好好\n\nxy\n0123456789\nlast line here";
    let mut view = view_of(text, 3, 7);
    let moves = [
        Move::EndOfLine,
        Move::Down,
        Move::Down,
        Move::Right,
        Move::Right,
        Move::Right,
        Move::EndOfLine,
        Move::PageDown,
        Move::PageDown,
        Move::Left,
        Move::Up,
        Move::EndOfLine,
        Move::PageUp,
        Move::StartOfLine,
        Move::Left,
        Move::Down,
        Move::Down,
        Move::Down,
        Move::Down,
        Move::Down,
        Move::Down,
        Move::Up,
        Move::EndOfLine,
    ];
    for command in moves {
        view.handle_move_command(command);
        let caret = view.caret_position();
        assert!(caret.row < 3);
        assert!(caret.col < 7);
    }
}

#[test]
fn scrolling_shifts_no_further_than_needed() {
    let mut view = view_of("0123456789", 2, 4);
    go(&mut view, &[Move::Right, Move::Right, Move::Right]);
    assert_eq!(view.caret_position(), Position { col: 3, row: 0 });
    assert_eq!(rows(&view), ["0123", "_"]);
    go(&mut view, &[Move::Right]);
    assert_eq!(view.caret_position(), Position { col: 3, row: 0 });
    assert_eq!(rows(&view), ["1234", "_"]);
    go(&mut view, &[Move::EndOfLine]);
    assert_eq!(view.caret_position(), Position { col: 3, row: 0 });
    assert_eq!(rows(&view), ["789", "_"]);
    go(&mut view, &[Move::Left, Move::Left, Move::Left, Move::Left]);
    assert_eq!(view.caret_position(), Position { col: 0, row: 0 });
    assert_eq!(rows(&view), ["6789", "_"]);
    go(&mut view, &[Move::StartOfLine]);
    assert_eq!(rows(&view), ["0123", "_"]);
}

#[test]
fn an_area_without_room_cannot_show_the_caret() {
    let mut view = view_of("ab\ncd", 0, 0);
    go(&mut view, &[Move::Down, Move::Right]);
    assert_eq!(view.caret_position(), Position { col: 0, row: 0 });
    assert_eq!(rows(&view).len(), 0);
}

#[test]
fn typing_moves_the_caret_along() {
    let mut view = View::default();
    view.resize(Size { height: 5, width: 20 });
    view.set_needs_redraw(false);
    view.handle_edit_command(Edit::Insert('a'));
    assert!(view.needs_redraw());
    view.handle_edit_command(Edit::Insert('好'));
    assert_eq!(view.caret_position(), Position { col: 3, row: 0 });
    view.handle_edit_command(Edit::InsertNewline);
    assert_eq!(view.caret_position(), Position { col: 0, row: 1 });
    view.handle_edit_command(Edit::Insert('b'));
    assert_eq!(view.get_buffer().contents(), "a好\nb\n");
    assert_eq!(view.caret_position(), Position { col: 1, row: 1 });
    let status = view.get_status();
    assert_eq!(status.total_lines, 2);
    assert_eq!(status.current_line_idx, 1);
    assert!(status.is_modified);
}

#[test]
fn a_mark_that_joins_a_cluster_does_not_move_the_caret() {
    let mut view = View::default();
    view.resize(Size { height: 5, width: 20 });
    view.handle_edit_command(Edit::Insert('e'));
    assert_eq!(view.caret_position(), Position { col: 1, row: 0 });
    view.handle_edit_command(Edit::Insert('\u{301}'));
    assert_eq!(view.caret_position(), Position { col: 1, row: 0 });
    assert_eq!(view.get_buffer().contents(), "e\u{301}\n");
}

#[test]
fn deleting_forward_and_backward() {
    let mut view = view_of("ab\ncd", 5, 20);
    view.handle_edit_command(Edit::DeleteBackward);
    assert_eq!(view.get_buffer().contents(), "ab\ncd\n");
    assert!(!view.get_buffer().is_dirty());
    view.handle_edit_command(Edit::Delete);
    assert_eq!(view.get_buffer().contents(), "b\ncd\n");
    go(&mut view, &[Move::Down]);
    view.handle_edit_command(Edit::DeleteBackward);
    assert_eq!(view.get_buffer().contents(), "bcd\n");
    assert_eq!(view.caret_position(), Position { col: 1, row: 0 });
    view.handle_edit_command(Edit::DeleteBackward);
    assert_eq!(view.get_buffer().contents(), "cd\n");
    assert_eq!(view.caret_position(), Position { col: 0, row: 0 });
    go(&mut view, &[Move::EndOfLine]);
    view.handle_edit_command(Edit::Delete);
    assert_eq!(view.get_buffer().contents(), "cd\n");
}

#[test]
fn rows_show_the_visible_part_of_each_line() {
    let mut view = view_of("abcdef\n好a好b\n\nxyz", 3, 3);
    assert_eq!(rows(&view), ["abc", "好a好", ""]);
    go(&mut view, &[Move::EndOfLine]);
    assert_eq!(view.caret_position(), Position { col: 2, row: 0 });
    assert_eq!(rows(&view), ["ef", "", ""]);
    go(&mut view, &[Move::Down, Move::Down, Move::Down]);
    assert_eq!(view.caret_position(), Position { col: 0, row: 2 });
    assert_eq!(rows(&view), ["好a好", "", "xyz"]);
    view.set_needs_redraw(true);
    assert_eq!(view.render(), Some(vec!["好a好".to_string(), "".to_string(), "xyz".to_string()]));
    assert!(!view.needs_redraw());
    assert_eq!(view.render(), None);
}

#[test]
fn centering_puts_the_caret_in_the_middle() {
    let text = "0\n1\n2\n3\n4\n5\n6\n7\n8\n9";
    let mut view = view_of(text, 5, 20);
    go(&mut view, &[Move::PageDown, Move::PageDown]);
    assert_eq!(view.get_status().current_line_idx, 8);
    view.center_text_location();
    assert_eq!(view.caret_position(), Position { col: 0, row: 3 });
    assert_eq!(rows(&view), ["5", "6", "7", "8", "9"]);
    go(&mut view, &[Move::PageUp, Move::PageUp]);
    view.center_text_location();
    assert_eq!(view.caret_position(), Position { col: 0, row: 0 });
}

#[test]
fn resizing_scrolls_the_caret_into_view() {
    let text = "0\n1\n2\n3\n4\n5\n6\n7\n8\n9";
    let mut view = view_of(text, 10, 20);
    go(&mut view, &[Move::PageDown]);
    assert_eq!(view.caret_position(), Position { col: 0, row: 9 });
    view.set_needs_redraw(false);
    view.set_size(Size { height: 4, width: 20 });
    assert_eq!(view.caret_position(), Position { col: 0, row: 3 });
    assert!(view.needs_redraw());
    view.set_needs_redraw(false);
    view.set_size(Size { height: 6, width: 20 });
    assert!(!view.needs_redraw());
    view.resize(Size { height: 6, width: 20 });
    assert!(view.needs_redraw());
}

#[test]
fn saving_through_the_view() {
    let mut view = View::default();
    view.handle_edit_command(Edit::Insert('a'));
    assert_eq!(view.save(true), Err(SaveError::NoPath));
    assert!(view.get_status().is_modified);
    assert_eq!(view.save_as("a.txt", false), Err(SaveError::WriteFailed));
    assert!(!view.is_file_loaded());
    assert_eq!(view.save_as("a.txt", true), Ok(()));
    assert!(view.is_file_loaded());
    assert!(!view.get_status().is_modified);
    assert_eq!(view.get_status().file_name, "a.txt");
    view.handle_edit_command(Edit::Insert('b'));
    view.set_needs_redraw(false);
    assert_eq!(view.save(false), Err(SaveError::WriteFailed));
    assert!(!view.needs_redraw());
    assert_eq!(view.save(true), Ok(()));
    assert!(view.needs_redraw());
    assert!(!view.get_status().is_modified);
}

#[test]
fn positions_subtract_without_going_below_zero() {
    let a = Position { col: 5, row: 2 };
    let b = Position { col: 3, row: 7 };
    assert_eq!(a.saturating_sub(b), Position { col: 2, row: 0 });
    assert_eq!(b.saturating_sub(a), Position { col: 0, row: 5 });
    assert_eq!(Position::default(), Position { col: 0, row: 0 });
    assert_eq!(Location::default(), Location { grapheme_idx: 0, line_idx: 0 });
    assert_eq!(Size::default(), Size { height: 0, width: 0 });
}

use text_editor::editor::line::glyph::{
    classify, classify_measured, is_blank_text, is_lone_control_text, BLANK_MARK, CONTROL_MARK,
    UNPRINTABLE_MARK,
};
use text_editor::editor::line::GraphemeWidth;
use text_editor::editor::line::Line;

#[test]
fn mixed_width_line_measures_four_columns() {
    let line = Line::from("a😀b");
    assert_eq!(line.grapheme_count(), 3);
    assert_eq!(line.width(), 4);
    assert_eq!(line.width_until(0), 0);
    assert_eq!(line.width_until(1), 1);
    assert_eq!(line.width_until(2), 3);
    assert_eq!(line.width_until(3), 4);
    assert_eq!(line.width_until(100), 4);
}

#[test]
fn tab_is_drawn_as_a_space_of_half_width() {
    assert_eq!(classify("\t"), (Some(' '), GraphemeWidth::Half));
    assert_eq!(Line::get_replacement_character("\t"), Some(' '));
    assert_eq!(classify_measured("\t", 1, true, true), (Some(' '), GraphemeWidth::Half));
    assert_eq!(Line::from("\t").width(), 1);
}

#[test]
fn split_past_the_end_returns_an_empty_line() {
    let mut line = Line::from("x");
    let tail = line.split(1);
    assert_eq!(tail.to_string(), "");
    assert_eq!(tail.grapheme_count(), 0);
    assert_eq!(line.to_string(), "x");
    assert_eq!(line.grapheme_count(), 1);
}

#[test]
fn space_is_drawn_as_it_is() {
    assert_eq!(classify(" "), (None, GraphemeWidth::Half));
    assert_eq!(classify_measured(" ", 2, true, false), (None, GraphemeWidth::Half));
    assert_eq!(Line::get_replacement_character(" "), None);
}

#[test]
fn wide_whitespace_gets_the_blank_mark() {
    assert_eq!(classify("\u{3000}"), (Some(BLANK_MARK), GraphemeWidth::Half));
    assert_eq!(BLANK_MARK, '␣');
    assert_eq!(classify_measured("\u{a0}", 1, true, false), (Some('␣'), GraphemeWidth::Half));
}

#[test]
fn zero_width_text_gets_a_mark() {
    assert_eq!(classify("\u{200b}"), (Some(UNPRINTABLE_MARK), GraphemeWidth::Half));
    assert_eq!(UNPRINTABLE_MARK, '·');
    assert_eq!(CONTROL_MARK, '▯');
    assert_eq!(classify_measured("\u{7}", 0, false, true), (Some('▯'), GraphemeWidth::Half));
    assert_eq!(classify_measured("\u{7}", 0, false, false), (Some('·'), GraphemeWidth::Half));
    assert_eq!(classify_measured("", 0, true, false), (Some('·'), GraphemeWidth::Half));
}

#[test]
fn other_text_is_half_or_full_by_its_measure() {
    assert_eq!(classify("a"), (None, GraphemeWidth::Half));
    assert_eq!(classify("好"), (None, GraphemeWidth::Full));
    assert_eq!(classify("😀"), (None, GraphemeWidth::Full));
    assert_eq!(classify_measured("x", 1, false, false), (None, GraphemeWidth::Half));
    assert_eq!(classify_measured("x", 2, false, false), (None, GraphemeWidth::Full));
    assert_eq!(classify_measured("x", 3, false, false), (None, GraphemeWidth::Full));
    assert_eq!(usize::from(GraphemeWidth::Half), 1);
    assert_eq!(usize::from(GraphemeWidth::Full), 2);
}

#[test]
fn blank_and_control_are_told_by_their_characters() {
    assert!(is_blank_text(""));
    assert!(is_blank_text(" \t\u{3000}"));
    assert!(is_blank_text("\u{9}\u{d}\u{85}\u{a0}\u{1680}\u{2000}\u{200a}\u{2028}\u{2029}\u{202f}\u{205f}"));
    assert!(!is_blank_text("\u{200b}"));
    assert!(!is_blank_text("\u{180e}"));
    assert!(!is_blank_text("\u{8}"));
    assert!(!is_blank_text("\u{e}"));
    assert!(!is_blank_text(" a "));
    assert!(is_lone_control_text("\u{7}"));
    assert!(is_lone_control_text("\u{9f}"));
    assert!(is_lone_control_text("\u{0}"));
    assert!(is_lone_control_text("\u{1f}"));
    assert!(is_lone_control_text("\u{7f}"));
    assert!(!is_lone_control_text(" "));
    assert!(!is_lone_control_text("~"));
    assert!(!is_lone_control_text("\u{a0}"));
    assert!(!is_lone_control_text("a"));
    assert!(!is_lone_control_text("\u{7}\u{7}"));
    assert!(!is_lone_control_text(""));
}

#[test]
fn a_line_gives_its_text_back() {
    for text in ["", "x", "hello world", "a😀b", "e\u{301}e\u{301}", "\t tab", "tail\n", "日本語"] {
        let line = Line::from(text);
        assert_eq!(line.to_string(), text);
        assert_eq!(line.as_str(), text);
    }
}

#[test]
fn clusters_keep_their_marks_together() {
    let line = Line::from("e\u{301}x");
    assert_eq!(line.grapheme_count(), 2);
    assert_eq!(line.get_visible_graphemes(0..1), "e\u{301}");
    assert_eq!(line.get_visible_graphemes(1..2), "x");
    assert_eq!(Line::from("🇩🇪🇫🇷").grapheme_count(), 2);
    assert_eq!(Line::from("").grapheme_count(), 0);
    assert_eq!(Line::default().grapheme_count(), 0);
    assert_eq!(Line::default().to_string(), "");
}

#[test]
fn split_then_append_restores_the_text() {
    let text = "a😀e\u{301}b";
    let count = Line::from(text).grapheme_count();
    assert_eq!(count, 4);
    for g in 0..=count + 2 {
        let mut line = Line::from(text);
        let tail = line.split(g);
        assert_eq!(line.grapheme_count(), g.min(count));
        assert_eq!(tail.grapheme_count(), count - g.min(count));
        line.append(&tail);
        assert_eq!(line.to_string(), text);
        assert_eq!(line.grapheme_count(), count);
    }
    let mut line = Line::from(text);
    let tail = line.split(2);
    assert_eq!(line.to_string(), "a😀");
    assert_eq!(tail.to_string(), "e\u{301}b");
}

#[test]
fn insert_then_delete_restores_the_text() {
    let text = "a😀b";
    for g in 0..=3 {
        let mut line = Line::from(text);
        line.insert_char('x', g);
        assert_eq!(line.grapheme_count(), 4);
        line.delete(g);
        assert_eq!(line.to_string(), text);
        assert_eq!(line.grapheme_count(), 3);
    }
}

#[test]
fn a_combining_mark_joins_the_cluster_before_it() {
    let mut line = Line::from("e");
    line.insert_char('\u{301}', 1);
    assert_eq!(line.to_string(), "e\u{301}");
    assert_eq!(line.grapheme_count(), 1);
    line.delete(1);
    assert_eq!(line.to_string(), "e\u{301}");
}

#[test]
fn insert_puts_the_character_before_the_cluster() {
    let mut line = Line::from("a😀b");
    line.insert_char('x', 1);
    assert_eq!(line.to_string(), "ax😀b");
    line.insert_char('y', 3);
    assert_eq!(line.to_string(), "ax😀yb");
    line.insert_char('z', 0);
    assert_eq!(line.to_string(), "zax😀yb");
    line.insert_char('!', 6);
    assert_eq!(line.to_string(), "zax😀yb!");
    line.insert_char('?', 100);
    assert_eq!(line.to_string(), "zax😀yb!?");
    line.append_char('好');
    assert_eq!(line.to_string(), "zax😀yb!?好");
    assert_eq!(line.width(), 11);
}

#[test]
fn delete_removes_the_whole_cluster() {
    let mut line = Line::from("ae\u{301}😀b");
    line.delete(1);
    assert_eq!(line.to_string(), "a😀b");
    line.delete(1);
    assert_eq!(line.to_string(), "ab");
    line.delete(2);
    assert_eq!(line.to_string(), "ab");
    line.delete(usize::MAX);
    assert_eq!(line.to_string(), "ab");
    line.delete_last();
    assert_eq!(line.to_string(), "a");
    line.delete_last();
    assert_eq!(line.to_string(), "");
    line.delete_last();
    assert_eq!(line.to_string(), "");
    assert_eq!(line.grapheme_count(), 0);
}

#[test]
fn width_does_not_shrink_with_the_index() {
    let line = Line::from("a😀\tb好e\u{301}");
    let mut last = 0;
    for g in 0..10 {
        let width = line.width_until(g);
        assert!(last <= width);
        last = width;
    }
    assert_eq!(line.width_until(6), line.width());
    assert_eq!(line.width(), 1 + 2 + 1 + 1 + 2 + 1);
}

#[test]
fn a_line_stays_consistent_through_edits() {
    let mut line = Line::from("ab");
    line.insert_char('😀', 1);
    line.append_char('好');
    line.delete(0);
    let tail = line.split(2);
    line.append(&tail);
    line.insert_char('\t', 0);
    let fresh = Line::from(line.as_str());
    assert_eq!(line.to_string(), "\t😀b好");
    assert_eq!(line.grapheme_count(), fresh.grapheme_count());
    assert_eq!(line.width(), fresh.width());
    for g in 0..6 {
        assert_eq!(line.width_until(g), fresh.width_until(g));
        assert_eq!(line.grapheme_idx_to_byte_idx(g), fresh.grapheme_idx_to_byte_idx(g));
    }
    assert_eq!(line.width(), line.width_until(line.grapheme_count()));
    assert_eq!(line.width(), 1 + 2 + 1 + 2);
}

#[test]
fn visible_graphemes_are_cut_by_cluster_index() {
    let line = Line::from("a😀bc");
    assert_eq!(line.get_visible_graphemes(0..4), "a😀bc");
    assert_eq!(line.get_visible_graphemes(1..3), "😀b");
    assert_eq!(line.get_visible_graphemes(2..100), "bc");
    assert_eq!(line.get_visible_graphemes(4..100), "");
    assert_eq!(line.get_visible_graphemes(9..100), "");
    assert_eq!(line.get_visible_graphemes(2..2), "");
    assert_eq!(line.get_visible_graphemes(3..1), "");
}

#[test]
fn byte_offsets_and_cluster_indices_correspond() {
    let line = Line::from("a😀b");
    assert_eq!(line.grapheme_idx_to_byte_idx(0), 0);
    assert_eq!(line.grapheme_idx_to_byte_idx(1), 1);
    assert_eq!(line.grapheme_idx_to_byte_idx(2), 5);
    assert_eq!(line.grapheme_idx_to_byte_idx(3), 0);
    assert_eq!(line.grapheme_idx_to_byte_idx(9), 0);
    assert_eq!(line.byte_idx_to_grapheme_idx(0), Some(0));
    assert_eq!(line.byte_idx_to_grapheme_idx(1), Some(1));
    assert_eq!(line.byte_idx_to_grapheme_idx(2), Some(2));
    assert_eq!(line.byte_idx_to_grapheme_idx(5), Some(2));
    assert_eq!(line.byte_idx_to_grapheme_idx(6), None);
    assert_eq!(line.byte_idx_to_grapheme_idx(7), None);
    assert_eq!(Line::default().grapheme_idx_to_byte_idx(0), 0);
    assert_eq!(Line::default().byte_idx_to_grapheme_idx(0), None);
}

#[test]
fn fragments_hold_text_width_and_offset() {
    let items = vec![(0, "a"), (1, "😀"), (5, "\t"), (6, "e\u{301}")];
    let fragments = Line::fragments_of(&items);
    assert_eq!(fragments.len(), 4);
    assert_eq!(fragments[0].grapheme, "a");
    assert_eq!(fragments[0].rendered_width, GraphemeWidth::Half);
    assert_eq!(fragments[0].start, 0);
    assert_eq!(fragments[1].grapheme, "😀");
    assert_eq!(fragments[1].rendered_width, GraphemeWidth::Full);
    assert_eq!(fragments[1].start, 1);
    assert_eq!(fragments[2].grapheme, "\t");
    assert_eq!(fragments[2].rendered_width, GraphemeWidth::Half);
    assert_eq!(fragments[2].start, 5);
    assert_eq!(fragments[3].grapheme, "e\u{301}");
    assert_eq!(fragments[3].start, 6);
    assert!(Line::fragments_of(&Vec::new()).is_empty());
}

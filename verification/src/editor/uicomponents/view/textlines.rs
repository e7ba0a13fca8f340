//! Cutting a text into its physical lines.

use crate::editor::line::segment::is_single_line;
use std::string::String;
use std::vec::Vec;
use vstd::prelude::*;
use vstd::std_specs::iter::IteratorSpec;

verus! {

/// The index of the first line feed in `text`, or its length if it has none.
pub open spec fn line_end(text: Seq<char>) -> int
    decreases text.len(),
{
    if text.len() == 0 || text[0] == '\n' {
        0
    } else {
        1 + line_end(text.drop_first())
    }
}

/// `line` without the carriage return at its end, if it has one.
pub open spec fn without_carriage_return(line: Seq<char>) -> Seq<char> {
    if line.len() > 0 && line.last() == '\r' {
        line.drop_last()
    } else {
        line
    }
}

/// The lines of `text`. A line ends at a line feed, or at a carriage return
/// followed by a line feed; neither belongs to the line. What follows the
/// last line feed is a line too, unless it is empty.
pub open spec fn split_lines(text: Seq<char>) -> Seq<Seq<char>>
    decreases text.len(),
{
    let end = line_end(text);
    if text.len() == 0 {
        Seq::empty()
    } else if end < 0 || end >= text.len() {
        seq![text]
    } else {
        seq![without_carriage_return(text.take(end))] + split_lines(text.skip(end + 1))
    }
}

/// Whether `text` holds no line feed.
pub open spec fn has_no_line_feed(text: Seq<char>) -> bool {
    forall|i: int| 0 <= i < text.len() ==> #[trigger] text[i] != '\n'
}

/// `String::pop`: removes the last character and returns it, or returns
/// `None` if the string is empty.
pub assume_specification[ String::pop ](s: &mut String) -> (last: Option<char>)
    ensures
        old(s)@.len() == 0 ==> last is None && final(s)@ == old(s)@,
        old(s)@.len() > 0 ==> last == Some(old(s)@.last()) && final(s)@ == old(s)@.drop_last(),
;

/// A text without line feed, followed by anything, ends its first line where
/// what follows begins with a line feed, or else runs on.
proof fn lemma_line_end_after(head: Seq<char>, rest: Seq<char>)
    requires
        has_no_line_feed(head),
    ensures
        line_end(head + rest) == head.len() + line_end(rest),
    decreases head.len(),
{
    if head.len() == 0 {
        assert(head + rest =~= rest);
    } else {
        assert((head + rest).drop_first() =~= head.drop_first() + rest);
        assert((head + rest)[0] == head[0]);
        lemma_line_end_after(head.drop_first(), rest);
    }
}

/// The lines of `contents`, each as a string of its own.
pub fn split_into_lines(contents: &str) -> (lines: Vec<String>)
    ensures
        lines@.map_values(|line: String| line@) == split_lines(contents@),
        forall|i: int| 0 <= i < lines@.len() ==> is_single_line(#[trigger] lines@[i]@),
{
    broadcast use vstd::string::group_string_axioms;

    let mut lines: Vec<String> = Vec::new();
    let mut current: String = String::new();
    let mut ends_with_cr: bool = false;
    let mut chars = contents.chars();
    let ghost text = contents@;
    proof {
        assert(lines@.map_values(|line: String| line@) =~= Seq::<Seq<char>>::empty());
        assert(current@ + chars.remaining() =~= text);
        assert(Seq::<Seq<char>>::empty() + split_lines(text) =~= split_lines(text));
    }
    loop
        invariant_except_break
            split_lines(text) == lines@.map_values(|line: String| line@) + split_lines(
                current@ + chars.remaining(),
            ),
            ends_with_cr == (current@.len() > 0 && current@.last() == '\r'),
        invariant
            chars.decrease() is Some,
            has_no_line_feed(current@),
            forall|i: int| 0 <= i < lines@.len() ==> is_single_line(#[trigger] lines@[i]@),
        ensures
            split_lines(text) == lines@.map_values(|line: String| line@) + split_lines(current@),
        decreases chars.decrease()->0,
    {
        let ghost before = chars.remaining();
        let ghost done = lines@.map_values(|line: String| line@);
        let ghost held = current@;
        match chars.next() {
            Some(c) => {
                let ghost rest = chars.remaining();
                assert(before =~= seq![c] + rest);
                if c == '\n' {
                    if ends_with_cr {
                        current.pop();
                    }
                    proof {
                        let whole = held + before;
                        lemma_line_end_after(held, before);
                        assert(whole.take(held.len() as int) =~= held);
                        assert(whole.skip(held.len() as int + 1) =~= rest);
                        assert(current@ == without_carriage_return(held));
                        assert(split_lines(whole) == seq![current@] + split_lines(rest));
                        assert(Seq::<char>::empty() + rest =~= rest);
                        assert(lines@.push(current).map_values(|line: String| line@) =~= done
                            + seq![current@]);
                        assert(done + (seq![current@] + split_lines(rest)) =~= (done
                            + seq![current@]) + split_lines(rest));
                    }
                    lines.push(current);
                    current = String::new();
                    ends_with_cr = false;
                } else {
                    current.push(c);
                    ends_with_cr = c == '\r';
                    assert(current@ + rest =~= held + before);
                }
            },
            None => {
                assert(current@ + before =~= current@);
                break ;
            },
        }
    }
    if current.as_str().is_empty() {
        proof {
            assert(lines@.map_values(|line: String| line@) + Seq::<Seq<char>>::empty()
                =~= lines@.map_values(|line: String| line@));
        }
    } else {
        proof {
            lemma_line_end_after(current@, Seq::<char>::empty());
            assert(current@ + Seq::<char>::empty() =~= current@);
            assert(lines@.push(current).map_values(|line: String| line@) =~= lines@.map_values(
                |line: String| line@,
            ) + seq![current@]);
        }
        lines.push(current);
    }
    lines
}

} // verus!

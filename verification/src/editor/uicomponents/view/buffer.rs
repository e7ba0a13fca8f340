//! The document: its lines, the file it belongs to, and whether it has
//! changes that were not saved.

use super::fileinfo::FileInfo;
use super::textlines::{split_into_lines, split_lines};
use crate::editor::line::segment::{
    cluster_count, columns_until, saturated, text_before, text_from, with_char_inserted,
    with_grapheme_deleted,
};
use crate::editor::line::Line;
use crate::prelude::{GraphemeIdx, LineIdx, Location};
use std::string::String;
use std::vec::Vec;
use vstd::prelude::*;
use vstd::string::StringExecFns;

verus! {

/// Why a buffer was not saved.
#[derive(Copy, Clone, Debug, PartialEq, Eq, Structural)]
pub enum SaveError {
    /// The buffer belongs to no file.
    NoPath,
    /// The file could not be created or written.
    WriteFailed,
}

/// The lines of a document with `c` put in at `at`: as a line of its own
/// after the last line, or into the line that `at` names. Unchanged where
/// `at` names a line further on.
pub open spec fn with_char_at(texts: Seq<Seq<char>>, c: char, at: Location) -> Seq<Seq<char>> {
    if at.line_idx == texts.len() {
        texts.push(seq![c])
    } else if at.line_idx < texts.len() {
        texts.update(
            at.line_idx as int,
            with_char_inserted(texts[at.line_idx as int], c, at.grapheme_idx as int),
        )
    } else {
        texts
    }
}

/// Whether a deletion at `at` joins the line with the next: `at` stands at
/// or past the end of a line that another line follows.
pub open spec fn joins_lines(texts: Seq<Seq<char>>, at: Location) -> bool {
    &&& at.line_idx + 1 < texts.len()
    &&& at.grapheme_idx >= cluster_count(texts[at.line_idx as int])
}

/// Whether a deletion at `at` removes a cluster of its line.
pub open spec fn removes_grapheme(texts: Seq<Seq<char>>, at: Location) -> bool {
    &&& at.line_idx < texts.len()
    &&& at.grapheme_idx < cluster_count(texts[at.line_idx as int])
}

/// The lines of a document after a deletion at `at`.
pub open spec fn with_deletion_at(texts: Seq<Seq<char>>, at: Location) -> Seq<Seq<char>> {
    let line = at.line_idx as int;
    if joins_lines(texts, at) {
        texts.update(line, texts[line] + texts[line + 1]).remove(line + 1)
    } else if removes_grapheme(texts, at) {
        texts.update(line, with_grapheme_deleted(texts[line], at.grapheme_idx as int))
    } else {
        texts
    }
}

/// The lines of a document with a line break put in at `at`: an empty line
/// after the last line, or the line that `at` names cut in two. Unchanged
/// where `at` names a line further on.
pub open spec fn with_newline_at(texts: Seq<Seq<char>>, at: Location) -> Seq<Seq<char>> {
    let line = at.line_idx as int;
    if at.line_idx == texts.len() {
        texts.push(Seq::empty())
    } else if at.line_idx < texts.len() {
        texts.update(line, text_before(texts[line], at.grapheme_idx as int)).insert(
            line + 1,
            text_from(texts[line], at.grapheme_idx as int),
        )
    } else {
        texts
    }
}

/// The lines written out one after the other, a line feed after each.
pub open spec fn joined(texts: Seq<Seq<char>>) -> Seq<char>
    decreases texts.len(),
{
    if texts.len() == 0 {
        Seq::empty()
    } else {
        joined(texts.drop_last()) + texts.last() + seq!['\n']
    }
}

/// A document in memory.
pub struct Buffer {
    lines: Vec<Line>,
    file_info: FileInfo,
    dirty: bool,
}

impl View for Buffer {
    type V = Seq<Seq<char>>;

    /// The text of each line, in order.
    open spec fn view(&self) -> Seq<Seq<char>> {
        self.lines().map_values(|line: Line| line@)
    }
}

impl Buffer {
    /// The lines, in order.
    pub closed spec fn lines(&self) -> Seq<Line> {
        self.lines@
    }

    /// Whether there are changes that were not saved.
    pub closed spec fn dirty(&self) -> bool {
        self.dirty
    }

    /// The path of the file that the buffer belongs to, if any.
    pub closed spec fn path(&self) -> Option<Seq<char>> {
        self.file_info.path()
    }

    /// Every line is well-formed.
    pub open spec fn wf(&self) -> bool {
        forall|i: int| 0 <= i < self.lines().len() ==> (#[trigger] self.lines()[i]).wf()
    }

    /// Whether there are changes that were not saved.
    pub fn is_dirty(&self) -> (dirty: bool)
        ensures
            dirty == self.dirty(),
    {
        self.dirty
    }

    /// The file that the buffer belongs to.
    pub fn get_file_info(&self) -> (info: &FileInfo)
        ensures
            info.path() == self.path(),
    {
        &self.file_info
    }

    /// The number of grapheme clusters of the line of index `idx`; zero if
    /// there is no such line.
    pub fn grapheme_count(&self, idx: LineIdx) -> (count: GraphemeIdx)
        requires
            self.wf(),
        ensures
            count == if idx < self@.len() {
                cluster_count(self@[idx as int])
            } else {
                0
            },
    {
        if idx < self.lines.len() {
            self.lines[idx].grapheme_count()
        } else {
            0
        }
    }

    /// The columns that the first `until` clusters of the line of index `idx`
    /// take, as `Line::width_until` sums them; zero if there is no such
    /// line.
    pub fn width_until(&self, idx: LineIdx, until: GraphemeIdx) -> (columns: GraphemeIdx)
        requires
            self.wf(),
        ensures
            columns == if idx < self@.len() {
                saturated(columns_until(self@[idx as int], until as int))
            } else {
                0
            },
    {
        if idx < self.lines.len() {
            self.lines[idx].width_until(until)
        } else {
            0
        }
    }

    /// The buffer for the file at `file_name`, whose text is `contents`: one
    /// line for each line of the text, and no unsaved changes.
    pub fn load(file_name: &str, contents: &str) -> (buffer: Self)
        ensures
            buffer.wf(),
            buffer@ == split_lines(contents@),
            buffer.path() == Some(file_name@),
            !buffer.dirty(),
    {
        let texts: Vec<String> = split_into_lines(contents);
        let mut lines: Vec<Line> = Vec::new();
        let mut i: usize = 0;
        while i < texts.len()
            invariant
                i <= texts.len(),
                lines@.len() == i,
                forall|k: int| 0 <= k < texts@.len() ==> crate::editor::line::segment::is_single_line(#[trigger] texts@[k]@),
                forall|k: int| 0 <= k < i ==> (#[trigger] lines@[k]).wf() && lines@[k]@ == texts@[k]@,
            decreases texts.len() - i,
        {
            lines.push(Line::from(texts[i].as_str()));
            i += 1;
        }
        assert(lines@.map_values(|line: Line| line@) =~= texts@.map_values(
            |text: String| text@,
        ));
        Buffer { lines, file_info: FileInfo::from(file_name), dirty: false }
    }

    /// What a save writes: every line, each followed by a line feed.
    pub fn contents(&self) -> (text: String)
        ensures
            text@ == joined(self@),
    {
        let mut text: String = String::new();
        let mut i: usize = 0;
        assert(self@.take(0) =~= Seq::<Seq<char>>::empty());
        while i < self.lines.len()
            invariant
                i <= self.lines.len(),
                text@ == joined(self@.take(i as int)),
            decreases self.lines.len() - i,
        {
            proof {
                assert(self@.take(i + 1).drop_last() =~= self@.take(i as int));
                assert(self@.take(i + 1).last() == self@[i as int]);
            }
            text.append(self.lines[i].as_str());
            text.push('\n');
            i += 1;
        }
        assert(self@.take(self.lines.len() as int) =~= self@);
        text
    }

    /// Records the outcome of writing `contents()` to the buffer's own file.
    /// Without a file nothing was to be written and the save fails. With
    /// `written` the buffer has no unsaved changes any more. Otherwise it
    /// stays as it was.
    pub fn save(&mut self, written: bool) -> (outcome: Result<(), SaveError>)
        ensures
            final(self)@ == old(self)@,
            final(self).lines() == old(self).lines(),
            final(self).path() == old(self).path(),
            outcome == if old(self).path() is None {
                Err::<(), SaveError>(SaveError::NoPath)
            } else if written {
                Ok::<(), SaveError>(())
            } else {
                Err::<(), SaveError>(SaveError::WriteFailed)
            },
            final(self).dirty() == (old(self).dirty() && outcome is Err),
    {
        if !self.file_info.has_path() {
            return Err(SaveError::NoPath);
        }
        if !written {
            return Err(SaveError::WriteFailed);
        }
        self.dirty = false;
        Ok(())
    }

    /// Records the outcome of writing `contents()` to the file at
    /// `file_name`. With `written` the buffer belongs to that file from now
    /// on and has no unsaved changes. Otherwise it stays as it was.
    pub fn save_as(&mut self, file_name: &str, written: bool) -> (outcome: Result<(), SaveError>)
        ensures
            final(self)@ == old(self)@,
            final(self).lines() == old(self).lines(),
            outcome == if written {
                Ok::<(), SaveError>(())
            } else {
                Err::<(), SaveError>(SaveError::WriteFailed)
            },
            final(self).path() == if written {
                Some(file_name@)
            } else {
                old(self).path()
            },
            final(self).dirty() == (old(self).dirty() && !written),
    {
        if !written {
            return Err(SaveError::WriteFailed);
        }
        self.file_info = FileInfo::from(file_name);
        self.dirty = false;
        Ok(())
    }

    /// Whether the buffer has no line.
    pub fn is_empty(&self) -> (empty: bool)
        ensures
            empty == (self@.len() == 0),
    {
        self.lines.is_empty()
    }

    /// Whether the buffer belongs to a file.
    pub fn is_file_loaded(&self) -> (loaded: bool)
        ensures
            loaded == self.path() is Some,
    {
        self.file_info.has_path()
    }

    /// The number of lines.
    pub fn height(&self) -> (height: LineIdx)
        ensures
            height == self@.len(),
    {
        self.lines.len()
    }

    /// Puts `character` in at `at`: as a new line after the last line, or
    /// into the line that `at` names. Where `at` names a line further on,
    /// nothing happens.
    pub fn insert_char(&mut self, character: char, at: Location)
        requires
            old(self).wf(),
        ensures
            final(self).wf(),
            final(self)@ == with_char_at(old(self)@, character, at),
            final(self).dirty() == (old(self).dirty() || at.line_idx <= old(self)@.len()),
            final(self).path() == old(self).path(),
    {
        if at.line_idx == self.lines.len() {
            let mut text: String = String::new();
            text.push(character);
            assert(text@ =~= seq![character]);
            self.lines.push(Line::from(text.as_str()));
            self.dirty = true;
            assert(self@ =~= with_char_at(old(self)@, character, at));
        } else if at.line_idx < self.lines.len() {
            assert(self.lines()[at.line_idx as int].wf());
            self.lines[at.line_idx].insert_char(character, at.grapheme_idx);
            self.dirty = true;
            assert(self@ =~= with_char_at(old(self)@, character, at));
        }
    }

    /// Deletes at `at`: the cluster there, or, at the end of a line that
    /// another follows, the break between the two. Otherwise nothing
    /// happens.
    pub fn delete(&mut self, at: Location)
        requires
            old(self).wf(),
        ensures
            final(self).wf(),
            final(self)@ == with_deletion_at(old(self)@, at),
            final(self).dirty() == (old(self).dirty() || joins_lines(old(self)@, at)
                || removes_grapheme(old(self)@, at)),
            final(self).path() == old(self).path(),
    {
        if at.line_idx < self.lines.len() {
            assert(self.lines()[at.line_idx as int].wf());
            let count: usize = self.lines[at.line_idx].grapheme_count();
            if at.grapheme_idx >= count && self.lines.len() - 1 > at.line_idx {
                let next_line: Line = self.lines.remove(at.line_idx + 1);
                assert(self.lines()[at.line_idx as int] == old(self).lines()[at.line_idx as int]);
                self.lines[at.line_idx].append(&next_line);
                self.dirty = true;
                assert(self@ =~= with_deletion_at(old(self)@, at));
            } else if at.grapheme_idx < count {
                assert(self.lines()[at.line_idx as int].wf());
                self.lines[at.line_idx].delete(at.grapheme_idx);
                self.dirty = true;
                assert(self@ =~= with_deletion_at(old(self)@, at));
            }
        }
    }

    /// Breaks the line at `at`: a new empty line after the last line, or the
    /// line that `at` names cut in two before the cluster that `at` names.
    /// Where `at` names a line further on, nothing happens.
    pub fn insert_newline(&mut self, at: Location)
        requires
            old(self).wf(),
        ensures
            final(self).wf(),
            final(self)@ == with_newline_at(old(self)@, at),
            final(self).dirty() == (old(self).dirty() || at.line_idx <= old(self)@.len()),
            final(self).path() == old(self).path(),
    {
        if at.line_idx == self.lines.len() {
            self.lines.push(Line::default());
            self.dirty = true;
            assert(self@ =~= with_newline_at(old(self)@, at));
        } else if at.line_idx < self.lines.len() {
            assert(self.lines()[at.line_idx as int].wf());
            let tail: Line = self.lines[at.line_idx].split(at.grapheme_idx);
            self.lines.insert(at.line_idx + 1, tail);
            self.dirty = true;
            assert(self@ =~= with_newline_at(old(self)@, at));
        }
    }

    /// The line of index `idx`, if there is one.
    pub fn get_line(&self, idx: usize) -> (line: Option<&Line>)
        ensures
            match line {
                Some(line) => idx < self.lines().len() && *line == self.lines()[idx as int],
                None => idx >= self.lines().len(),
            },
    {
        if idx < self.lines.len() {
            Some(&self.lines[idx])
        } else {
            None
        }
    }
}

impl Default for Buffer {
    /// A buffer without lines, file or changes.
    fn default() -> (buffer: Self)
        ensures
            buffer.wf(),
            buffer@ == Seq::<Seq<char>>::empty(),
            buffer.path() is None,
            !buffer.dirty(),
    {
        let buffer = Buffer { lines: Vec::new(), file_info: FileInfo::default(), dirty: false };
        assert(buffer@ =~= Seq::<Seq<char>>::empty());
        buffer
    }
}

} // verus!

//! What the status bar tells of the document.

use std::string::String;
use vstd::prelude::*;
use vstd::string::StringExecFns;

verus! {

/// The character for the digit `d`, which is less than ten.
pub open spec fn digit_char(d: int) -> char {
    ('0' as int + d) as char
}

/// `n` written in decimal, without sign or leading zeros.
pub open spec fn decimal(n: nat) -> Seq<char>
    decreases n,
{
    if n < 10 {
        seq![digit_char(n as int)]
    } else {
        decimal(n / 10).push(digit_char((n % 10) as int))
    }
}

/// The character for the digit `d`.
fn digit(d: usize) -> (c: char)
    requires
        d < 10,
    ensures
        c == digit_char(d as int),
{
    match d {
        0 => '0',
        1 => '1',
        2 => '2',
        3 => '3',
        4 => '4',
        5 => '5',
        6 => '6',
        7 => '7',
        8 => '8',
        _ => '9',
    }
}

/// Appends `n` in decimal to `text`.
fn push_decimal(text: &mut String, n: usize)
    ensures
        final(text)@ == old(text)@ + decimal(n as nat),
    decreases n,
{
    if n >= 10 {
        push_decimal(text, n / 10);
    }
    text.push(digit(n % 10));
    assert(text@ =~= old(text)@ + decimal(n as nat));
}

/// `n` written in decimal.
pub fn decimal_string(n: usize) -> (text: String)
    ensures
        text@ == decimal(n as nat),
{
    let mut text: String = String::new();
    push_decimal(&mut text, n);
    assert(text@ =~= decimal(n as nat));
    text
}

/// A snapshot of the document for display.
#[derive(Debug)]
pub struct DocumentStatus {
    pub total_lines: usize,
    pub current_line_idx: usize,
    pub is_modified: bool,
    pub file_name: String,
}

/// What a snapshot tells.
pub struct StatusModel {
    /// The number of lines of the document.
    pub total_lines: usize,
    /// The line on which the cursor stands, counted from zero.
    pub current_line_idx: usize,
    /// Whether the document has unsaved changes.
    pub is_modified: bool,
    /// The name under which the document is shown.
    pub file_name: Seq<char>,
}

impl View for DocumentStatus {
    type V = StatusModel;

    open spec fn view(&self) -> StatusModel {
        StatusModel {
            total_lines: self.total_lines,
            current_line_idx: self.current_line_idx,
            is_modified: self.is_modified,
            file_name: self.file_name@,
        }
    }
}

/// `(modified)` if the document has unsaved changes, else nothing.
pub open spec fn modified_indicator(status: StatusModel) -> Seq<char> {
    if status.is_modified {
        "(modified)"@
    } else {
        Seq::empty()
    }
}

/// The number of lines, as in `12 lines`.
pub open spec fn line_count(status: StatusModel) -> Seq<char> {
    decimal(status.total_lines as nat) + " lines"@
}

/// The cursor's line, counted from one, and the number of lines, as in
/// `3/12`. The line's number stops at the largest `usize`.
pub open spec fn position_indicator(status: StatusModel) -> Seq<char> {
    let line: nat = if status.current_line_idx < usize::MAX {
        (status.current_line_idx + 1) as nat
    } else {
        usize::MAX as nat
    };
    decimal(line) + seq!['/'] + decimal(status.total_lines as nat)
}

impl DocumentStatus {
    /// `(modified)` if the document has unsaved changes, else nothing.
    pub fn modified_indicator_to_string(&self) -> (text: String)
        ensures
            text@ == modified_indicator(self@),
    {
        if self.is_modified {
            String::from_str("(modified)")
        } else {
            String::new()
        }
    }

    /// The number of lines, as in `12 lines`.
    pub fn line_count_to_string(&self) -> (text: String)
        ensures
            text@ == line_count(self@),
    {
        let mut text: String = decimal_string(self.total_lines);
        text.append(" lines");
        text
    }

    /// The cursor's line, counted from one, and the number of lines, as in
    /// `3/12`.
    pub fn position_indicator_to_string(&self) -> (text: String)
        ensures
            text@ == position_indicator(self@),
    {
        let mut text: String = decimal_string(self.current_line_idx.saturating_add(1));
        text.push('/');
        text.append(decimal_string(self.total_lines).as_str());
        text
    }
}

impl PartialEq for DocumentStatus {
    /// Whether two snapshots tell the same.
    fn eq(&self, other: &Self) -> (same: bool) {
        self.total_lines == other.total_lines && self.current_line_idx == other.current_line_idx
            && self.is_modified == other.is_modified && self.file_name == other.file_name
    }
}

impl vstd::std_specs::cmp::PartialEqSpecImpl for DocumentStatus {
    open spec fn obeys_eq_spec() -> bool {
        true
    }

    open spec fn eq_spec(&self, other: &Self) -> bool {
        self@ == other@
    }
}

impl Eq for DocumentStatus {

}

impl Default for DocumentStatus {
    /// An empty, unmodified document without a name.
    fn default() -> (status: Self)
        ensures
            status@ == (StatusModel {
                total_lines: 0,
                current_line_idx: 0,
                is_modified: false,
                file_name: Seq::empty(),
            }),
    {
        DocumentStatus {
            total_lines: 0,
            current_line_idx: 0,
            is_modified: false,
            file_name: String::new(),
        }
    }
}

} // verus!

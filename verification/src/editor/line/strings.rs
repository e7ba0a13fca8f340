//! Editing a `String` at byte offsets, and what that does to its characters.

use std::string::String;
use vstd::prelude::*;
use vstd::string::StringExecFns;
use vstd::utf8::*;

verus! {

/// The length of `text` in bytes, encoded as UTF-8.
pub open spec fn byte_len(text: Seq<char>) -> nat {
    encode_utf8(text).len()
}

/// Whether the byte offset `at` falls between two characters of `text`, or
/// at its start or end.
pub open spec fn on_char_boundary(text: Seq<char>, at: int) -> bool {
    is_char_boundary(encode_utf8(text), at)
}

/// The characters of `text` that are encoded before the byte offset `at`.
pub open spec fn chars_before(text: Seq<char>, at: int) -> Seq<char> {
    decode_utf8(encode_utf8(text).subrange(0, at))
}

/// The characters of `text` that are encoded from the byte offset `at` on.
pub open spec fn chars_from(text: Seq<char>, at: int) -> Seq<char> {
    decode_utf8(encode_utf8(text).subrange(at, encode_utf8(text).len() as int))
}

/// `String::insert`: puts `ch` at the byte offset `idx`. It panics unless
/// `idx` lies on a character boundary, which the precondition demands.
pub assume_specification[ String::insert ](s: &mut String, idx: usize, ch: char)
    requires
        on_char_boundary(old(s)@, idx as int),
    ensures
        final(s)@ == chars_before(old(s)@, idx as int) + seq![ch] + chars_from(old(s)@, idx as int),
;

/// `String::push`: appends `ch`.
pub assume_specification[ String::push ](s: &mut String, ch: char)
    ensures
        final(s)@ == old(s)@.push(ch),
;

/// `String::split_off`: keeps what lies before the byte offset `at` and
/// returns the rest. It panics unless `at` lies on a character boundary.
pub assume_specification[ String::split_off ](s: &mut String, at: usize) -> (tail: String)
    requires
        on_char_boundary(old(s)@, at as int),
    ensures
        final(s)@ == chars_before(old(s)@, at as int),
        tail@ == chars_from(old(s)@, at as int),
;

/// Removes from `s` what lies between the byte offsets `start` and `end`,
/// both of which lie on character boundaries.
pub fn remove_range(s: &mut String, start: usize, end: usize)
    requires
        start <= end,
        on_char_boundary(old(s)@, start as int),
        on_char_boundary(old(s)@, end as int),
    ensures
        final(s)@ == chars_before(old(s)@, start as int) + chars_from(old(s)@, end as int),
{
    let tail: String = s.split_off(end);
    proof {
        lemma_boundary_within_prefix(old(s)@, start as int, end as int);
    }
    let _ = s.split_off(start);
    s.append(tail.as_str());
}

/// The length of `s` in bytes.
pub fn byte_length(s: &str) -> (length: usize)
    ensures
        length == byte_len(s@),
{
    s.as_bytes().len()
}

/// A boundary of a text is a boundary of any prefix that reaches it, and
/// what lies before it is the same in both.
pub proof fn lemma_boundary_within_prefix(text: Seq<char>, start: int, end: int)
    requires
        0 <= start <= end,
        on_char_boundary(text, start),
        on_char_boundary(text, end),
    ensures
        on_char_boundary(chars_before(text, end), start),
        chars_before(chars_before(text, end), start) == chars_before(text, start),
{
    let bytes = encode_utf8(text);
    encode_utf8_valid_utf8(text);
    assert(end <= bytes.len()) by {
        reveal_with_fuel(is_char_boundary, 2);
    }
    let head = bytes.subrange(0, end);
    valid_utf8_split(bytes, end);
    decode_utf8_encode_utf8(head);
    assert(encode_utf8(chars_before(text, end)) == head);
    if start == 0 {
    } else if start == end {
        is_char_boundary_start_end_of_seq(head);
    } else {
        is_char_boundary_iff_not_is_continuation_byte(bytes, start);
        is_char_boundary_iff_not_is_continuation_byte(head, start);
        assert(head[start] == bytes[start]);
    }
    assert(head.subrange(0, start) =~= bytes.subrange(0, start));
}

/// Encoding distributes over concatenation.
pub proof fn lemma_encode_concat(a: Seq<char>, b: Seq<char>)
    ensures
        encode_utf8(a + b) == encode_utf8(a) + encode_utf8(b),
    decreases a.len(),
{
    if a.len() == 0 {
        assert(a + b =~= b);
        assert(encode_utf8(a) =~= Seq::<u8>::empty());
        assert(encode_utf8(a) + encode_utf8(b) =~= encode_utf8(b));
    } else {
        assert((a + b).drop_first() =~= a.drop_first() + b);
        lemma_encode_concat(a.drop_first(), b);
        assert((a + b)[0] == a[0]);
        assert(encode_utf8(a + b) =~= encode_scalar(a[0] as u32) + (encode_utf8(a.drop_first())
            + encode_utf8(b)));
        assert(encode_utf8(a + b) =~= encode_utf8(a) + encode_utf8(b));
    }
}

/// The end of a prefix is a character boundary of the whole.
pub proof fn lemma_boundary_after_prefix(a: Seq<char>, b: Seq<char>)
    ensures
        on_char_boundary(a + b, byte_len(a) as int),
    decreases a.len(),
{
    let bytes = encode_utf8(a + b);
    encode_utf8_valid_utf8(a + b);
    if a.len() == 0 {
        assert(encode_utf8(a) =~= Seq::<u8>::empty());
    } else {
        let rest = a.drop_first();
        lemma_encode_concat(a, b);
        assert((a + b).drop_first() =~= rest + b);
        encode_utf8_first_scalar(a + b);
        encode_utf8_first_scalar(a);
        assert((a + b)[0] == a[0]);
        let first_len = encode_scalar(a[0] as u32).len();
        assert(first_len > 0);
        assert(pop_first_scalar(bytes) =~= encode_utf8(rest + b));
        assert(byte_len(a) == first_len + byte_len(rest));
        lemma_boundary_after_prefix(rest, b);
        assert(byte_len(a) <= bytes.len());
    }
}

/// Cutting `a + b` at the byte where `a` ends gives `a` and `b` back.
pub proof fn lemma_cut_after_prefix(a: Seq<char>, b: Seq<char>)
    ensures
        on_char_boundary(a + b, byte_len(a) as int),
        chars_before(a + b, byte_len(a) as int) == a,
        chars_from(a + b, byte_len(a) as int) == b,
        byte_len(a + b) == byte_len(a) + byte_len(b),
{
    lemma_boundary_after_prefix(a, b);
    lemma_encode_concat(a, b);
    let bytes = encode_utf8(a + b);
    let k = byte_len(a) as int;
    assert(bytes.subrange(0, k) =~= encode_utf8(a));
    assert(bytes.subrange(k, bytes.len() as int) =~= encode_utf8(b));
    encode_utf8_decode_utf8(a);
    encode_utf8_decode_utf8(b);
}

} // verus!

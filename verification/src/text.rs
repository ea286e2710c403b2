//! ASCII text as bytes: conversion from and to strings, searching, lines and
//! trimming.

use vstd::prelude::*;
use vstd::string::is_ascii_spec_bytes;
use vstd::utf8::is_ascii_chars;

verus! {

pub const LINE_FEED: u8 = 10;

/// The characters that stand for the given ASCII bytes.
pub open spec fn ascii_chars(bytes: Seq<u8>) -> Seq<char> {
    Seq::new(bytes.len(), |i: int| bytes[i] as char)
}

/// The bytes that stand for the given ASCII characters.
pub open spec fn ascii_bytes(chars: Seq<char>) -> Seq<u8> {
    Seq::new(chars.len(), |i: int| chars[i] as u8)
}

/// Whether every byte is an ASCII character.
pub open spec fn all_ascii(bytes: Seq<u8>) -> bool {
    forall|i: int| 0 <= i < bytes.len() ==> bytes[i] < 128
}

/// Turning ASCII bytes into characters and back changes nothing, and the
/// characters are ASCII.
pub proof fn lemma_ascii_bytes_round_trip(bytes: Seq<u8>)
    requires
        all_ascii(bytes),
    ensures
        ascii_bytes(ascii_chars(bytes)) == bytes,
        is_ascii_chars(ascii_chars(bytes)),
{
    assert forall|i: int| 0 <= i < bytes.len() implies ascii_bytes(ascii_chars(bytes))[i]
        == bytes[i] by {
        assert(bytes[i] < 128);
        assert((bytes[i] as char) as u8 == bytes[i]);
    }
    assert(ascii_bytes(ascii_chars(bytes)) =~= bytes);
    assert forall|i: int| 0 <= i < ascii_chars(bytes).len() implies '\0' <= #[trigger] ascii_chars(
        bytes,
    )[i] <= '\u{7f}' by {
        assert(bytes[i] < 128);
    }
}

/// Turning ASCII characters into bytes and back changes nothing, and the
/// bytes are ASCII.
pub proof fn lemma_ascii_chars_round_trip(chars: Seq<char>)
    requires
        is_ascii_chars(chars),
    ensures
        ascii_chars(ascii_bytes(chars)) == chars,
        all_ascii(ascii_bytes(chars)),
{
    assert forall|i: int| 0 <= i < chars.len() implies ascii_chars(ascii_bytes(chars))[i]
        == chars[i] && ascii_bytes(chars)[i] < 128 by {
        assert('\0' <= chars[i] <= '\u{7f}');
        assert((chars[i] as u8) as char == chars[i]);
    }
    assert(ascii_chars(ascii_bytes(chars)) =~= chars);
}

/// `String::from_utf8` on bytes that are all ASCII. Such bytes are valid
/// UTF-8 in which each byte encodes the character of the same number, so the
/// call succeeds and the string holds one character per byte.
#[verifier::external_body]
pub(crate) fn ascii_string(bytes: Vec<u8>) -> (text: String)
    requires
        all_ascii(bytes@),
    ensures
        text@ == ascii_chars(bytes@),
{
    match String::from_utf8(bytes) {
        Ok(text) => text,
        Err(_) => String::new(),
    }
}

/// The bytes of an ASCII string.
pub(crate) fn bytes_of(text: &str) -> (bytes: &[u8])
    requires
        text.is_ascii(),
    ensures
        bytes@ == ascii_bytes(text@),
        all_ascii(bytes@),
{
    broadcast use is_ascii_spec_bytes;

    let bytes = text.as_bytes();
    proof {
        assert(bytes@ =~= ascii_bytes(text@));
        assert forall|i: int| 0 <= i < bytes@.len() implies bytes@[i] < 128 by {
            assert(text@[i] as u32 <= 127);
        }
    }
    bytes
}

// ------------------------------------------------------------
// Searching

/// Whether `pattern` stands in `text` at index `at`.
pub open spec fn matches_at(text: Seq<u8>, pattern: Seq<u8>, at: int) -> bool {
    &&& 0 <= at
    &&& at + pattern.len() <= text.len()
    &&& text.subrange(at, at + pattern.len()) == pattern
}

/// Whether `pattern` stands anywhere in `text`.
pub open spec fn contains(text: Seq<u8>, pattern: Seq<u8>) -> bool {
    exists|at: int| matches_at(text, pattern, at)
}

/// Whether `text` begins with `pattern`.
pub open spec fn starts_with(text: Seq<u8>, pattern: Seq<u8>) -> bool {
    matches_at(text, pattern, 0)
}

/// The index of the first byte at or after `from` that is `first` or
/// `second`, or the length of the text if there is none.
pub open spec fn first_of(text: Seq<u8>, first: u8, second: u8, from: int) -> int
    decreases text.len() - from,
{
    if from < 0 || from >= text.len() {
        text.len() as int
    } else if text[from] == first || text[from] == second {
        from
    } else {
        first_of(text, first, second, from + 1)
    }
}

/// The index of the line feed that ends the line beginning at `from`, or the
/// length of the text if the line is the last one and has no line feed.
pub open spec fn line_end(text: Seq<u8>, from: int) -> int {
    first_of(text, LINE_FEED, LINE_FEED, from)
}

pub proof fn lemma_first_of_bounds(text: Seq<u8>, first: u8, second: u8, from: int)
    requires
        0 <= from <= text.len(),
    ensures
        from <= first_of(text, first, second, from) <= text.len(),
        first_of(text, first, second, from) < text.len() ==> text[first_of(
            text,
            first,
            second,
            from,
        )] == first || text[first_of(text, first, second, from)] == second,
        forall|i: int|
            from <= i < first_of(text, first, second, from) ==> text[i] != first && text[i]
                != second,
    decreases text.len() - from,
{
    if from < text.len() && text[from] != first && text[from] != second {
        lemma_first_of_bounds(text, first, second, from + 1);
    }
}

pub(crate) fn find_first_of(text: &[u8], first: u8, second: u8, from: usize) -> (at: usize)
    requires
        from <= text@.len(),
    ensures
        at == first_of(text@, first, second, from as int),
        from <= at <= text@.len(),
{
    let mut at: usize = from;
    while at < text.len() && text[at] != first && text[at] != second
        invariant
            from <= at <= text@.len(),
            first_of(text@, first, second, at as int) == first_of(
                text@,
                first,
                second,
                from as int,
            ),
        decreases text@.len() - at,
    {
        at += 1;
    }
    at
}

/// Whether `pattern` stands in `text` at index `at`.
pub(crate) fn matches_pattern(text: &[u8], pattern: &[u8], at: usize) -> (found: bool)
    requires
        at <= text@.len(),
    ensures
        found == matches_at(text@, pattern@, at as int),
{
    if pattern.len() > text.len() - at {
        return false;
    }
    let mut k: usize = 0;
    while k < pattern.len()
        invariant
            k <= pattern@.len(),
            at + pattern@.len() <= text@.len() <= usize::MAX,
            forall|j: int| 0 <= j < k ==> text@[at + j] == pattern@[j],
        decreases pattern@.len() - k,
    {
        if text[at + k] != pattern[k] {
            proof {
                assert(text@.subrange(at as int, at + pattern@.len())[k as int] == text@[at + k]);
            }
            return false;
        }
        k += 1;
    }
    proof {
        assert(text@.subrange(at as int, at + pattern@.len()) =~= pattern@);
    }
    true
}

/// Whether `pattern` stands anywhere in `text`.
pub(crate) fn contains_pattern(text: &[u8], pattern: &[u8]) -> (found: bool)
    ensures
        found == contains(text@, pattern@),
{
    let mut at: usize = 0;
    while at < text.len()
        invariant
            at <= text@.len(),
            forall|i: int| 0 <= i < at ==> !matches_at(text@, pattern@, i),
        decreases text@.len() - at,
    {
        if matches_pattern(text, pattern, at) {
            return true;
        }
        at += 1;
    }
    matches_pattern(text, pattern, at)
}

// ------------------------------------------------------------
// Trimming

/// White space, as trimming understands it.
pub open spec fn is_space(byte: u8) -> bool {
    byte == 32 || (9 <= byte && byte <= 13)
}

pub(crate) fn space(byte: u8) -> (r: bool)
    ensures
        r == is_space(byte),
{
    byte == 32 || (9 <= byte && byte <= 13)
}

/// `text` without the white space at its beginning.
pub open spec fn trim_start(text: Seq<u8>) -> Seq<u8>
    decreases text.len(),
{
    if text.len() > 0 && is_space(text[0]) {
        trim_start(text.drop_first())
    } else {
        text
    }
}

/// `text` without the white space at its end.
pub open spec fn trim_end(text: Seq<u8>) -> Seq<u8>
    decreases text.len(),
{
    if text.len() > 0 && is_space(text.last()) {
        trim_end(text.drop_last())
    } else {
        text
    }
}

/// `text` without the white space at its beginning and at its end.
pub open spec fn trim(text: Seq<u8>) -> Seq<u8> {
    trim_end(trim_start(text))
}

/// The bounds of the part of `text[from..to]` that is left when the white
/// space at both ends is taken away.
pub(crate) fn trim_range(text: &[u8], from: usize, to: usize) -> (bounds: (usize, usize))
    requires
        from <= to <= text@.len(),
    ensures
        from <= bounds.0 <= bounds.1 <= to,
        text@.subrange(bounds.0 as int, bounds.1 as int) == trim(
            text@.subrange(from as int, to as int),
        ),
{
    let mut lo: usize = from;
    while lo < to && space(text[lo])
        invariant
            from <= lo <= to <= text@.len(),
            trim_start(text@.subrange(lo as int, to as int)) == trim_start(
                text@.subrange(from as int, to as int),
            ),
        decreases to - lo,
    {
        proof {
            assert(text@.subrange(lo as int, to as int).drop_first() =~= text@.subrange(
                lo + 1,
                to as int,
            ));
        }
        lo += 1;
    }
    let mut hi: usize = to;
    while lo < hi && space(text[hi - 1])
        invariant
            lo <= hi <= to <= text@.len(),
            trim_end(text@.subrange(lo as int, hi as int)) == trim_end(
                text@.subrange(lo as int, to as int),
            ),
        decreases hi - lo,
    {
        proof {
            assert(text@.subrange(lo as int, hi as int).drop_last() =~= text@.subrange(
                lo as int,
                hi - 1,
            ));
        }
        hi -= 1;
    }
    proof {
        let part = text@.subrange(lo as int, to as int);
        assert(trim_start(part) == part);
        let kept = text@.subrange(lo as int, hi as int);
        assert(trim_end(kept) == kept);
    }
    (lo, hi)
}

/// A copy of `text[from..to]`.
pub(crate) fn copy_range(text: &[u8], from: usize, to: usize) -> (part: Vec<u8>)
    requires
        from <= to <= text@.len(),
    ensures
        part@ == text@.subrange(from as int, to as int),
{
    let mut part: Vec<u8> = Vec::new();
    let mut at: usize = from;
    while at < to
        invariant
            from <= at <= to <= text@.len(),
            part@ == text@.subrange(from as int, at as int),
        decreases to - at,
    {
        part.push(text[at]);
        proof {
            assert(part@ =~= text@.subrange(from as int, at + 1));
        }
        at += 1;
    }
    part
}

/// Whether two byte strings are equal.
pub(crate) fn same_bytes(left: &Vec<u8>, right: &Vec<u8>) -> (same: bool)
    ensures
        same == (left@ == right@),
{
    if left.len() != right.len() {
        return false;
    }
    let mut at: usize = 0;
    while at < left.len()
        invariant
            at <= left@.len(),
            left@.len() == right@.len(),
            forall|i: int| 0 <= i < at ==> left@[i] == right@[i],
        decreases left@.len() - at,
    {
        if left[at] != right[at] {
            return false;
        }
        at += 1;
    }
    proof {
        assert(left@ =~= right@);
    }
    true
}

} // verus!

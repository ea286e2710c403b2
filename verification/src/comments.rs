//! Comment stripping: takes `//` comments and nesting `/* */` comments out
//! of ASCII text in one forward pass, and keeps every other byte.

use crate::text::all_ascii;
use crate::text::find_first_of;
use crate::text::lemma_first_of_bounds;
use crate::text::line_end;
use crate::text::LINE_FEED;
use vstd::prelude::*;

verus! {

pub const SLASH: u8 = 47;

pub const STAR: u8 = 42;

/// Whether the bytes `first` and `second` stand in `text` at index `at`.
pub open spec fn pair_at(text: Seq<u8>, at: int, first: u8, second: u8) -> bool {
    &&& 0 <= at
    &&& at + 1 < text.len()
    &&& text[at] == first
    &&& text[at + 1] == second
}

/// Whether a line comment begins at `at`: `//`.
pub open spec fn opens_line(text: Seq<u8>, at: int) -> bool {
    pair_at(text, at, SLASH, SLASH)
}

/// Whether a block comment begins at `at`: `/*`.
pub open spec fn opens_block(text: Seq<u8>, at: int) -> bool {
    pair_at(text, at, SLASH, STAR)
}

/// Whether a block comment ends at `at`: `*/`.
pub open spec fn closes_block(text: Seq<u8>, at: int) -> bool {
    pair_at(text, at, STAR, SLASH)
}

/// Whether a comment begins at `at`.
pub open spec fn opens_comment(text: Seq<u8>, at: int) -> bool {
    opens_line(text, at) || opens_block(text, at)
}

/// `text` from index `at` on without its comments, `stars` block comments
/// being open at `at`.
///
/// Outside of comments every byte is kept, line feeds included. `//` begins
/// a line comment: it runs to the end of its line, and one line feed stands
/// for it and the line feed that ends the line, also where the text ends
/// without one. `/*` begins a block comment: it goes altogether, with the
/// line breaks inside it. Inside a block comment `/*` opens a further one
/// and `*/` closes the innermost; what is left of the text when a block
/// comment is never closed goes with it. `*/` outside of a comment is text
/// like any other.
pub open spec fn strip_from(text: Seq<u8>, at: int, stars: nat) -> Seq<u8>
    decreases text.len() - at,
{
    if at < 0 || at >= text.len() {
        Seq::empty()
    } else if stars == 0 {
        if opens_line(text, at) {
            let end = line_end(text, at);
            if at <= end && end < text.len() {
                seq![LINE_FEED] + strip_from(text, end + 1, 0)
            } else {
                seq![LINE_FEED]
            }
        } else if opens_block(text, at) {
            strip_from(text, at + 2, 1)
        } else {
            seq![text[at]] + strip_from(text, at + 1, 0)
        }
    } else {
        if opens_block(text, at) {
            strip_from(text, at + 2, stars + 1)
        } else if closes_block(text, at) {
            strip_from(text, at + 2, (stars - 1) as nat)
        } else {
            strip_from(text, at + 1, stars)
        }
    }
}

/// `text` without its comments.
pub open spec fn strip_comments(text: Seq<u8>) -> Seq<u8> {
    strip_from(text, 0, 0)
}

// ------------------------------------------------------------

/// Strips the comments from ASCII text.
pub(crate) fn strip(text: &[u8]) -> (out: Vec<u8>)
    requires
        all_ascii(text@),
    ensures
        out@ == strip_comments(text@),
        all_ascii(out@),
{
    let mut out: Vec<u8> = Vec::new();
    let mut stars: usize = 0;
    let mut at: usize = 0;
    while at < text.len()
        invariant
            at <= text@.len(),
            stars <= at,
            all_ascii(text@),
            all_ascii(out@),
            strip_comments(text@) == out@ + strip_from(text@, at as int, stars as nat),
        decreases text@.len() - at,
    {
        let first: u8 = text[at];
        let paired: bool = text.len() - at > 1;
        let ghost before = out@;
        let ghost rest = strip_from(text@, at as int, stars as nat);
        if stars == 0 {
            if first == SLASH && paired && text[at + 1] == SLASH {
                let end: usize = find_first_of(text, LINE_FEED, LINE_FEED, at);
                out.push(LINE_FEED);
                let next: usize = if end < text.len() {
                    end + 1
                } else {
                    end
                };
                proof {
                    let tail = strip_from(text@, next as int, 0);
                    assert(rest =~= seq![LINE_FEED] + tail);
                    assert(before + rest =~= out@ + tail);
                }
                at = next;
            } else if first == SLASH && paired && text[at + 1] == STAR {
                stars = 1;
                at += 2;
            } else {
                out.push(first);
                proof {
                    let tail = strip_from(text@, at + 1, 0);
                    assert(before + rest =~= out@ + tail);
                }
                at += 1;
            }
        } else {
            if first == SLASH && paired && text[at + 1] == STAR {
                stars += 1;
                at += 2;
            } else if first == STAR && paired && text[at + 1] == SLASH {
                stars -= 1;
                at += 2;
            } else {
                at += 1;
            }
        }
    }
    proof {
        assert(out@ + Seq::<u8>::empty() =~= out@);
    }
    out
}

// ------------------------------------------------------------
// Text that stripping leaves as it is

/// Whether no comment begins in `text`: neither `//` nor `/*` stands in it.
pub open spec fn has_no_comment(text: Seq<u8>) -> bool {
    forall|i: int| !#[trigger] opens_comment(text, i)
}

/// Text in which no comment begins is kept from any index on, byte for byte.
pub proof fn lemma_plain_is_kept_from(text: Seq<u8>, at: int)
    requires
        0 <= at <= text.len(),
        has_no_comment(text),
    ensures
        strip_from(text, at, 0) == text.subrange(at, text.len() as int),
    decreases text.len() - at,
{
    if at < text.len() {
        assert(!opens_comment(text, at));
        lemma_plain_is_kept_from(text, at + 1);
        assert(seq![text[at]] + text.subrange(at + 1, text.len() as int) =~= text.subrange(
            at,
            text.len() as int,
        ));
    } else {
        assert(text.subrange(at, text.len() as int) =~= Seq::<u8>::empty());
    }
}

/// Text in which no comment begins is returned unchanged: every byte is
/// kept, line feeds and carriage returns included.
pub proof fn lemma_plain_is_kept(text: Seq<u8>)
    requires
        has_no_comment(text),
    ensures
        strip_comments(text) == text,
{
    lemma_plain_is_kept_from(text, 0);
    assert(text.subrange(0, text.len() as int) =~= text);
}

/// No comment begins in stripped text; and outside of comments a byte that
/// is no slash is the first byte that is kept.
pub proof fn lemma_stripped_is_plain_from(text: Seq<u8>, at: int, stars: nat)
    requires
        0 <= at <= text.len(),
    ensures
        has_no_comment(strip_from(text, at, stars)),
        stars == 0 && at < text.len() && text[at] != SLASH ==> strip_from(text, at, stars).len() > 0
            && strip_from(text, at, stars)[0] == text[at],
    decreases text.len() - at,
{
    let out = strip_from(text, at, stars);
    if at >= text.len() {
        assert forall|i: int| !#[trigger] opens_comment(out, i) by {}
    } else if stars == 0 {
        if opens_line(text, at) {
            let end = line_end(text, at);
            lemma_first_of_bounds(text, LINE_FEED, LINE_FEED, at);
            if end < text.len() {
                let rest = strip_from(text, end + 1, 0);
                lemma_stripped_is_plain_from(text, end + 1, 0);
                assert forall|i: int| !#[trigger] opens_comment(out, i) by {
                    if 1 <= i && i + 1 < out.len() {
                        assert(out[i] == rest[i - 1] && out[i + 1] == rest[i]);
                        assert(!opens_comment(rest, i - 1));
                    }
                }
            } else {
                assert forall|i: int| !#[trigger] opens_comment(out, i) by {}
            }
        } else if opens_block(text, at) {
            lemma_stripped_is_plain_from(text, at + 2, 1);
        } else {
            let rest = strip_from(text, at + 1, 0);
            lemma_stripped_is_plain_from(text, at + 1, 0);
            assert forall|i: int| !#[trigger] opens_comment(out, i) by {
                if 1 <= i && i + 1 < out.len() {
                    assert(out[i] == rest[i - 1] && out[i + 1] == rest[i]);
                    assert(!opens_comment(rest, i - 1));
                } else if i == 0 && out.len() > 1 {
                    assert(out[1] == rest[0]);
                    if text[at] == SLASH {
                        assert(at + 1 < text.len());
                        assert(text[at + 1] != SLASH && text[at + 1] != STAR);
                        assert(rest[0] == text[at + 1]);
                    }
                }
            }
        }
    } else {
        if opens_block(text, at) {
            lemma_stripped_is_plain_from(text, at + 2, stars + 1);
        } else if closes_block(text, at) {
            lemma_stripped_is_plain_from(text, at + 2, (stars - 1) as nat);
        } else {
            lemma_stripped_is_plain_from(text, at + 1, stars);
        }
    }
}

/// No comment begins in stripped text.
pub proof fn lemma_stripped_is_plain(text: Seq<u8>)
    ensures
        has_no_comment(strip_comments(text)),
{
    lemma_stripped_is_plain_from(text, 0, 0);
}

/// Stripping text that has been stripped changes nothing.
pub proof fn lemma_strip_idempotent(text: Seq<u8>)
    ensures
        strip_comments(strip_comments(text)) == strip_comments(text),
{
    lemma_stripped_is_plain(text);
    lemma_plain_is_kept(strip_comments(text));
}

/// Stripped ASCII text is ASCII: each of its bytes is a byte of the text or
/// a line feed.
pub proof fn lemma_stripped_is_ascii(text: Seq<u8>, at: int, stars: nat)
    requires
        0 <= at <= text.len(),
        all_ascii(text),
    ensures
        all_ascii(strip_from(text, at, stars)),
    decreases text.len() - at,
{
    let out = strip_from(text, at, stars);
    if at < text.len() {
        if stars == 0 {
            if opens_line(text, at) {
                let end = line_end(text, at);
                lemma_first_of_bounds(text, LINE_FEED, LINE_FEED, at);
                if end < text.len() {
                    let rest = strip_from(text, end + 1, 0);
                    lemma_stripped_is_ascii(text, end + 1, 0);
                    assert forall|i: int| 0 <= i < out.len() implies out[i] < 128 by {
                        if i > 0 {
                            assert(out[i] == rest[i - 1]);
                        }
                    }
                }
            } else if opens_block(text, at) {
                lemma_stripped_is_ascii(text, at + 2, 1);
            } else {
                let rest = strip_from(text, at + 1, 0);
                lemma_stripped_is_ascii(text, at + 1, 0);
                assert forall|i: int| 0 <= i < out.len() implies out[i] < 128 by {
                    if i > 0 {
                        assert(out[i] == rest[i - 1]);
                    }
                }
            }
        } else {
            if opens_block(text, at) {
                lemma_stripped_is_ascii(text, at + 2, stars + 1);
            } else if closes_block(text, at) {
                lemma_stripped_is_ascii(text, at + 2, (stars - 1) as nat);
            } else {
                lemma_stripped_is_ascii(text, at + 1, stars);
            }
        }
    }
}

} // verus!

//! The `#define size`, `#define rate` and `#define loop` directives: finding
//! the line that counts and reading the numbers on it.

use crate::text::ascii_bytes;
use crate::text::bytes_of;
use crate::text::find_first_of;
use crate::text::line_end;
use crate::text::matches_pattern;
use crate::text::starts_with;
use crate::text::trim;
use crate::text::trim_range;
use crate::text::LINE_FEED;
use vstd::prelude::*;

verus! {

/// A directive of the annotated source.
#[derive(Clone, Copy, Debug, PartialEq, Eq, Structural)]
pub enum Directive {
    /// `#define size <width> <height>`
    Size,
    /// `#define rate <frames per second>`
    Rate,
    /// `#define loop <frames>`
    Loop,
}

/// Why a token is no positive 32-bit number.
#[derive(Clone, Copy, Debug, PartialEq, Eq, Structural)]
pub enum NumberFault {
    /// The token is empty.
    Empty,
    /// The token holds something else than decimal digits behind an optional
    /// `+`, or no digit at all.
    InvalidDigit,
    /// The number does not fit in 32 bits.
    TooLarge,
    /// The number is zero.
    Zero,
}

impl Directive {
    /// The word that names the directive.
    pub open spec fn word(self) -> Seq<char> {
        match self {
            Directive::Size => "size"@,
            Directive::Rate => "rate"@,
            Directive::Loop => "loop"@,
        }
    }

    /// What a line that sets the directive begins with.
    pub open spec fn prefix(self) -> Seq<u8> {
        match self {
            Directive::Size => ascii_bytes("#define size "@),
            Directive::Rate => ascii_bytes("#define rate "@),
            Directive::Loop => ascii_bytes("#define loop "@),
        }
    }

    pub fn name(self) -> (word: &'static str)
        ensures
            word@ == self.word(),
    {
        match self {
            Directive::Size => "size",
            Directive::Rate => "rate",
            Directive::Loop => "loop",
        }
    }

    fn prefix_bytes(self) -> (bytes: &'static [u8])
        ensures
            bytes@ == self.prefix(),
    {
        proof {
            reveal_strlit("#define size ");
            reveal_strlit("#define rate ");
            reveal_strlit("#define loop ");
        }
        match self {
            Directive::Size => bytes_of("#define size "),
            Directive::Rate => bytes_of("#define rate "),
            Directive::Loop => bytes_of("#define loop "),
        }
    }
}

// ------------------------------------------------------------
// The line that counts

/// What the line `line` gives the directive that begins with `prefix`: once
/// the white space at both ends of the line is taken away, the line must
/// begin with the prefix, and what follows it, trimmed again, is the value.
pub open spec fn line_value(line: Seq<u8>, prefix: Seq<u8>) -> Option<Seq<u8>> {
    let line = trim(line);
    if starts_with(line, prefix) {
        Some(trim(line.subrange(prefix.len() as int, line.len() as int)))
    } else {
        None
    }
}

/// The value on the last line at or after the one beginning at `from` that
/// sets the directive.
pub open spec fn value_from(text: Seq<u8>, prefix: Seq<u8>, from: int) -> Option<Seq<u8>>
    decreases text.len() - from,
{
    if from < 0 || from >= text.len() {
        None
    } else {
        let end = line_end(text, from);
        let here = line_value(text.subrange(from, end), prefix);
        if from <= end && end < text.len() {
            match value_from(text, prefix, end + 1) {
                Some(later) => Some(later),
                None => here,
            }
        } else {
            here
        }
    }
}

/// The value of the directive in `text`, if any line sets it: the last such
/// line counts.
pub open spec fn directive_value(text: Seq<u8>, directive: Directive) -> Option<Seq<u8>> {
    value_from(text, directive.prefix(), 0)
}

/// Finds the bounds of the value of `directive` in `text`.
pub(crate) fn find_directive(text: &[u8], directive: Directive) -> (bounds: Option<(usize, usize)>)
    ensures
        match bounds {
            Some((from, to)) => from <= to <= text@.len() && directive_value(text@, directive)
                == Some(text@.subrange(from as int, to as int)),
            None => directive_value(text@, directive) is None,
        },
{
    let prefix = directive.prefix_bytes();
    let mut found: Option<(usize, usize)> = None;
    let mut from: usize = 0;
    while from < text.len()
        invariant
            prefix@ == directive.prefix(),
            found matches Some((lo, hi)) ==> lo <= hi <= text@.len(),
            directive_value(text@, directive) == (match value_from(
                text@,
                prefix@,
                from as int,
            ) {
                Some(later) => Some(later),
                None => match found {
                    Some((lo, hi)) => Some(text@.subrange(lo as int, hi as int)),
                    None => None,
                },
            }),
        decreases text@.len() - from,
    {
        let end: usize = find_first_of(text, LINE_FEED, LINE_FEED, from);
        let (lo, hi) = trim_range(text, from, end);
        let ghost line = text@.subrange(lo as int, hi as int);
        if matches_pattern(text, prefix, lo) && prefix.len() <= hi - lo {
            let (from_value, to_value) = trim_range(text, lo + prefix.len(), hi);
            proof {
                assert(line.subrange(0, prefix@.len() as int) =~= text@.subrange(
                    lo as int,
                    lo + prefix@.len(),
                ));
                assert(line.subrange(prefix@.len() as int, line.len() as int) =~= text@.subrange(
                    lo + prefix@.len(),
                    hi as int,
                ));
            }
            found = Some((from_value, to_value));
        } else {
            proof {
                if starts_with(line, prefix@) {
                    assert(line.subrange(0, prefix@.len() as int) =~= text@.subrange(
                        lo as int,
                        lo + prefix@.len(),
                    ));
                }
            }
        }
        if end == text.len() {
            from = end;
        } else {
            from = end + 1;
        }
    }
    found
}

// ------------------------------------------------------------
// Numbers

pub open spec fn is_digit(byte: u8) -> bool {
    48 <= byte && byte <= 57
}

/// Reads decimal digits from left to right, starting from the number `so_far`.
pub open spec fn read_digits(digits: Seq<u8>, so_far: nat) -> Result<nat, NumberFault>
    decreases digits.len(),
{
    if digits.len() == 0 {
        Ok(so_far)
    } else if !is_digit(digits[0]) {
        Err(NumberFault::InvalidDigit)
    } else if so_far * 10 + (digits[0] - 48) > u32::MAX {
        Err(NumberFault::TooLarge)
    } else {
        read_digits(digits.drop_first(), (so_far * 10 + (digits[0] - 48)) as nat)
    }
}

/// The positive number that `token` writes in decimal digits, behind a `+`
/// or not.
pub open spec fn read_number(token: Seq<u8>) -> Result<u32, NumberFault> {
    if token.len() == 0 {
        Err(NumberFault::Empty)
    } else {
        let digits = if token[0] == 43 {
            token.drop_first()
        } else {
            token
        };
        if digits.len() == 0 {
            Err(NumberFault::InvalidDigit)
        } else {
            match read_digits(digits, 0) {
                Ok(number) => if number == 0 {
                    Err(NumberFault::Zero)
                } else {
                    Ok(number as u32)
                },
                Err(fault) => Err(fault),
            }
        }
    }
}

proof fn lemma_read_digits_bound(digits: Seq<u8>, so_far: nat)
    requires
        so_far <= u32::MAX,
    ensures
        read_digits(digits, so_far) matches Ok(number) ==> number <= u32::MAX,
    decreases digits.len(),
{
    if digits.len() > 0 && is_digit(digits[0]) && so_far * 10 + (digits[0] - 48) <= u32::MAX {
        lemma_read_digits_bound(digits.drop_first(), (so_far * 10 + (digits[0] - 48)) as nat);
    }
}

/// Reads the positive number that `text[from..to]` writes.
pub(crate) fn parse_number(text: &[u8], from: usize, to: usize) -> (number: Result<u32, NumberFault>)
    requires
        from <= to <= text@.len(),
    ensures
        number == read_number(text@.subrange(from as int, to as int)),
        number matches Ok(n) ==> n > 0,
{
    let ghost token = text@.subrange(from as int, to as int);
    if from == to {
        return Err(NumberFault::Empty);
    }
    let start: usize = if text[from] == 43 {
        from + 1
    } else {
        from
    };
    proof {
        assert(token[0] == text@[from as int]);
        assert(token.drop_first() =~= text@.subrange(from + 1, to as int));
    }
    if start == to {
        return Err(NumberFault::InvalidDigit);
    }
    let ghost digits = text@.subrange(start as int, to as int);
    let mut number: u32 = 0;
    let mut at: usize = start;
    while at < to
        invariant
            start <= at <= to <= text@.len(),
            token == text@.subrange(from as int, to as int),
            read_number(token) == (match read_digits(digits, 0) {
                Ok(number) => if number == 0 {
                    Err(NumberFault::Zero)
                } else {
                    Ok(number as u32)
                },
                Err(fault) => Err(fault),
            }),
            read_digits(digits, 0) == read_digits(text@.subrange(at as int, to as int), number as nat),
        decreases to - at,
    {
        let byte: u8 = text[at];
        proof {
            let rest = text@.subrange(at as int, to as int);
            assert(rest[0] == byte);
            assert(rest.drop_first() =~= text@.subrange(at + 1, to as int));
        }
        if !(48 <= byte && byte <= 57) {
            return Err(NumberFault::InvalidDigit);
        }
        let digit: u32 = (byte - 48) as u32;
        let next: Option<u32> = match number.checked_mul(10) {
            Some(tenfold) => tenfold.checked_add(digit),
            None => None,
        };
        match next {
            Some(next) => {
                number = next;
            },
            None => {
                return Err(NumberFault::TooLarge);
            },
        }
        at += 1;
    }
    proof {
        assert(text@.subrange(at as int, to as int).len() == 0);
    }
    if number == 0 {
        Err(NumberFault::Zero)
    } else {
        Ok(number)
    }
}

// ------------------------------------------------------------
// Tokens

/// White space between tokens: space, tab, line feed, form feed and
/// carriage return.
pub open spec fn is_blank(byte: u8) -> bool {
    byte == 32 || byte == 9 || byte == 10 || byte == 12 || byte == 13
}

fn blank(byte: u8) -> (r: bool)
    ensures
        r == is_blank(byte),
{
    byte == 32 || byte == 9 || byte == 10 || byte == 12 || byte == 13
}

/// The index of the first byte at or after `from` that is white space, if
/// `blanks` is true, or that is none, if it is false; the length of the text
/// if there is no such byte.
pub open spec fn run_end(text: Seq<u8>, from: int, blanks: bool) -> int
    decreases text.len() - from,
{
    if from < 0 || from >= text.len() {
        text.len() as int
    } else if is_blank(text[from]) == blanks {
        from
    } else {
        run_end(text, from + 1, blanks)
    }
}

proof fn lemma_run_end_bounds(text: Seq<u8>, from: int, blanks: bool)
    requires
        0 <= from <= text.len(),
    ensures
        from <= run_end(text, from, blanks) <= text.len(),
        from < text.len() && is_blank(text[from]) != blanks ==> from < run_end(
            text,
            from,
            blanks,
        ),
    decreases text.len() - from,
{
    if from < text.len() && is_blank(text[from]) != blanks {
        lemma_run_end_bounds(text, from + 1, blanks);
    }
}

fn find_run_end(text: &[u8], from: usize, blanks: bool) -> (at: usize)
    requires
        from <= text@.len(),
    ensures
        at == run_end(text@, from as int, blanks),
        from <= at <= text@.len(),
{
    let mut at: usize = from;
    while at < text.len() && blank(text[at]) != blanks
        invariant
            from <= at <= text@.len(),
            run_end(text@, at as int, blanks) == run_end(text@, from as int, blanks),
        decreases text@.len() - at,
    {
        at += 1;
    }
    at
}

/// The positive numbers that the tokens of `value` write, from the token at
/// or after `from` on: the tokens are what white space separates. The first
/// token that writes no such number decides the fault.
pub open spec fn read_numbers(value: Seq<u8>, from: int) -> Result<Seq<u32>, NumberFault>
    decreases value.len() - from,
{
    let start = run_end(value, from, false);
    let end = run_end(value, start, true);
    if from < 0 || start < from || start >= value.len() || end <= start || end > value.len() {
        Ok(Seq::empty())
    } else {
        match read_number(value.subrange(start, end)) {
            Err(fault) => Err(fault),
            Ok(number) => match read_numbers(value, end) {
                Err(fault) => Err(fault),
                Ok(rest) => Ok(seq![number] + rest),
            },
        }
    }
}

/// Reads the positive numbers that the tokens of `text[from..to]` write.
pub(crate) fn parse_numbers(text: &[u8], from: usize, to: usize) -> (numbers: Result<
    Vec<u32>,
    NumberFault,
>)
    requires
        from <= to <= text@.len(),
    ensures
        match numbers {
            Ok(numbers) => read_numbers(text@.subrange(from as int, to as int), 0) == Ok::<
                Seq<u32>,
                NumberFault,
            >(numbers@),
            Err(fault) => read_numbers(text@.subrange(from as int, to as int), 0) == Err::<
                Seq<u32>,
                NumberFault,
            >(fault),
        },
{
    let value = slice_part(text, from, to);
    let mut numbers: Vec<u32> = Vec::new();
    let mut at: usize = 0;
    loop
        invariant
            at <= value@.len(),
            value@ == text@.subrange(from as int, to as int),
            read_numbers(value@, 0) == (match read_numbers(value@, at as int) {
                Err(fault) => Err(fault),
                Ok(rest) => Ok(numbers@ + rest),
            }),
        decreases value@.len() - at,
    {
        let start: usize = find_run_end(value, at, false);
        if start >= value.len() {
            proof {
                assert(numbers@ + Seq::<u32>::empty() =~= numbers@);
            }
            return Ok(numbers);
        }
        let end: usize = find_run_end(value, start, true);
        proof {
            lemma_run_end_bounds(value@, at as int, false);
            lemma_run_end_bounds(value@, start as int, true);
            lemma_first_blank(value@, at as int);
        }
        match parse_number(value, start, end) {
            Err(fault) => {
                return Err(fault);
            },
            Ok(number) => {
                proof {
                    let rest = read_numbers(value@, end as int);
                    if rest is Ok {
                        assert(numbers@.push(number) + rest->Ok_0 =~= numbers@ + (seq![number]
                            + rest->Ok_0));
                    }
                }
                numbers.push(number);
            },
        }
        at = end;
    }
}

proof fn lemma_first_blank(text: Seq<u8>, from: int)
    requires
        0 <= from <= text.len(),
    ensures
        run_end(text, from, false) < text.len() ==> !is_blank(text[run_end(text, from, false)]),
    decreases text.len() - from,
{
    if from < text.len() && is_blank(text[from]) {
        lemma_first_blank(text, from + 1);
    }
}

/// The part `text[from..to]` of a slice.
fn slice_part(text: &[u8], from: usize, to: usize) -> (part: &[u8])
    requires
        from <= to <= text@.len(),
    ensures
        part@ == text@.subrange(from as int, to as int),
{
    vstd::slice::slice_subrange(text, from, to)
}

/// A number that is read is positive.
pub proof fn lemma_number_is_positive(token: Seq<u8>)
    ensures
        read_number(token) matches Ok(number) ==> number > 0,
{
    if token.len() > 0 {
        let digits = if token[0] == 43 {
            token.drop_first()
        } else {
            token
        };
        lemma_read_digits_bound(digits, 0);
    }
}

/// All the numbers that are read are positive.
pub proof fn lemma_numbers_are_positive(value: Seq<u8>, from: int)
    ensures
        read_numbers(value, from) matches Ok(numbers) ==> forall|i: int|
            0 <= i < numbers.len() ==> numbers[i] > 0,
    decreases value.len() - from,
{
    let start = run_end(value, from, false);
    let end = run_end(value, start, true);
    if !(from < 0 || start < from || start >= value.len() || end <= start || end > value.len()) {
        let token = value.subrange(start, end);
        lemma_number_is_positive(token);
        lemma_numbers_are_positive(value, end);
        if read_numbers(value, from) is Ok {
            let number = read_number(token)->Ok_0;
            let rest = read_numbers(value, end)->Ok_0;
            let numbers = read_numbers(value, from)->Ok_0;
            assert(numbers == seq![number] + rest);
            assert forall|i: int| 0 <= i < numbers.len() implies numbers[i] > 0 by {
                if i > 0 {
                    assert(numbers[i] == rest[i - 1]);
                }
            }
        }
    }
}

} // verus!

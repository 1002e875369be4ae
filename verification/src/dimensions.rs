//! Reading a target size written as `WIDTHxHEIGHT`.
//!
//! The text holds exactly one `x`. What stands before it is the width and what stands
//! after it is the height. Each is a decimal number that fits in 32 bits: one or more of
//! the digits `0` to `9`, with or without a `+` in front, and nothing else.

use crate::report::{explain, with_reason};
use crate::text::{characters, framed};
use vstd::prelude::*;
use vstd::string::{StrSliceExecFns, StringExecFns};

verus! {

/// Why a text is no target size.
#[derive(Clone, Debug, PartialEq, Eq)]
pub enum DimensionsError {
    /// The text does not hold exactly one `x`.
    InvalidDimensionsFormat,
    /// What stands before the `x`, kept here, is no number that fits.
    InvalidWidth(String),
    /// What stands after the `x`, kept here, is no number that fits.
    InvalidHeight(String),
}

/// A [`DimensionsError`] with its text as a sequence of characters.
pub enum DimensionsErrorView {
    InvalidDimensionsFormat,
    InvalidWidth(Seq<char>),
    InvalidHeight(Seq<char>),
}

impl View for DimensionsError {
    type V = DimensionsErrorView;

    open spec fn view(&self) -> DimensionsErrorView {
        match *self {
            DimensionsError::InvalidDimensionsFormat => DimensionsErrorView::InvalidDimensionsFormat,
            DimensionsError::InvalidWidth(token) => DimensionsErrorView::InvalidWidth(token@),
            DimensionsError::InvalidHeight(token) => DimensionsErrorView::InvalidHeight(token@),
        }
    }
}

impl DimensionsErrorView {
    /// The first line of the error: what is wrong, and with which side.
    pub open spec fn summary(self) -> Seq<char> {
        match self {
            DimensionsErrorView::InvalidDimensionsFormat =>
                "Error: Invalid dimensions format. Use WIDTHxHEIGHT, e.g., 800x600."@,
            DimensionsErrorView::InvalidWidth(token) => "Error: Invalid width value '"@ + token
                + "'. Width must be a positive integer."@,
            DimensionsErrorView::InvalidHeight(token) => "Error: Invalid height value '"@ + token
                + "'. Height must be a positive integer."@,
        }
    }

    /// The cause given on the second line.
    pub open spec fn reason(self) -> Seq<char> {
        match self {
            DimensionsErrorView::InvalidDimensionsFormat =>
                "expected exactly one 'x' between the width and the height"@,
            _ => "expected a whole number from 0 to 4294967295"@,
        }
    }

    /// The error in its two-line shape.
    pub open spec fn message(self) -> Seq<char> {
        with_reason(self.summary(), self.reason())
    }
}

impl DimensionsError {
    /// The error as it is printed: the summary line, then the line that gives the cause.
    pub fn message(&self) -> (text: String)
        ensures
            text@ == self@.message(),
    {
        match self {
            DimensionsError::InvalidDimensionsFormat => explain(
                String::from_str(
                    "Error: Invalid dimensions format. Use WIDTHxHEIGHT, e.g., 800x600.",
                ),
                "expected exactly one 'x' between the width and the height",
            ),
            DimensionsError::InvalidWidth(token) => explain(
                framed(
                    "Error: Invalid width value '",
                    token.as_str(),
                    "'. Width must be a positive integer.",
                ),
                "expected a whole number from 0 to 4294967295",
            ),
            DimensionsError::InvalidHeight(token) => explain(
                framed(
                    "Error: Invalid height value '",
                    token.as_str(),
                    "'. Height must be a positive integer.",
                ),
                "expected a whole number from 0 to 4294967295",
            ),
        }
    }
}

/// Whether `c` is one of the digits `0` to `9`.
pub open spec fn is_digit(c: char) -> bool {
    '0' <= c <= '9'
}

/// The number that the digit `c` stands for.
pub open spec fn digit_value(c: char) -> nat {
    if is_digit(c) {
        (c as int - '0' as int) as nat
    } else {
        0
    }
}

/// The number that a row of digits writes in base ten; 0 for no digits at all.
pub open spec fn digits_value(digits: Seq<char>) -> nat
    decreases digits.len(),
{
    if digits.len() == 0 {
        0
    } else {
        digits_value(digits.drop_last()) * 10 + digit_value(digits.last())
    }
}

/// Whether `text` holds digits only.
pub open spec fn all_digits(text: Seq<char>) -> bool {
    forall|i: int| 0 <= i < text.len() ==> is_digit(#[trigger] text[i])
}

/// `token` without the `+` that may stand in front.
pub open spec fn unsigned_part(token: Seq<char>) -> Seq<char> {
    if token.len() > 0 && token[0] == '+' {
        token.drop_first()
    } else {
        token
    }
}

/// The number that `token` writes, if it writes one that fits in 32 bits.
pub open spec fn parsed_number(token: Seq<char>) -> Option<u32> {
    let digits = unsigned_part(token);
    if digits.len() > 0 && all_digits(digits) && digits_value(digits) <= u32::MAX {
        Some(digits_value(digits) as u32)
    } else {
        None
    }
}

/// Whether the one and only `x` of `text` stands at `at`.
pub open spec fn is_separator(text: Seq<char>, at: int) -> bool {
    &&& 0 <= at < text.len()
    &&& text[at] == 'x'
    &&& forall|j: int| 0 <= j < text.len() && j != at ==> text[j] != 'x'
}

/// Whether `text` holds exactly one `x`.
pub open spec fn has_one_separator(text: Seq<char>) -> bool {
    exists|at: int| is_separator(text, at)
}

/// Where the `x` of a text with exactly one `x` stands.
pub open spec fn separator_position(text: Seq<char>) -> int {
    choose|at: int| is_separator(text, at)
}

/// What stands before the `x`.
pub open spec fn width_token(text: Seq<char>) -> Seq<char> {
    text.subrange(0, separator_position(text))
}

/// What stands after the `x`.
pub open spec fn height_token(text: Seq<char>) -> Seq<char> {
    text.subrange(separator_position(text) + 1, text.len() as int)
}

/// The target size that `text` writes, or why it writes none. A width that is no number is
/// reported before the height is looked at.
pub open spec fn parsed_dimensions(text: Seq<char>) -> Result<(u32, u32), DimensionsErrorView> {
    if !has_one_separator(text) {
        Err(DimensionsErrorView::InvalidDimensionsFormat)
    } else {
        match parsed_number(width_token(text)) {
            None => Err(DimensionsErrorView::InvalidWidth(width_token(text))),
            Some(width) => match parsed_number(height_token(text)) {
                None => Err(DimensionsErrorView::InvalidHeight(height_token(text))),
                Some(height) => Ok((width, height)),
            },
        }
    }
}

/// The view of what [`parse_dimensions`] returns.
pub open spec fn parse_view(parsed: Result<(u32, u32), DimensionsError>) -> Result<
    (u32, u32),
    DimensionsErrorView,
> {
    match parsed {
        Ok(size) => Ok(size),
        Err(error) => Err(error@),
    }
}

/// A row of digits is worth at least as much as any of its beginnings.
proof fn lemma_digits_value_grows(digits: Seq<char>, n: int)
    requires
        0 <= n <= digits.len(),
    ensures
        digits_value(digits.take(n)) <= digits_value(digits),
    decreases digits.len(),
{
    if n == digits.len() {
        assert(digits.take(n) =~= digits);
    } else {
        lemma_digits_value_grows(digits.drop_last(), n);
        assert(digits.drop_last().take(n) =~= digits.take(n));
    }
}

/// Reads the number that the characters from `from` up to `to` write.
fn parse_number(chars: &Vec<char>, from: usize, to: usize) -> (value: Option<u32>)
    requires
        from <= to <= chars.len(),
    ensures
        value == parsed_number(chars@.subrange(from as int, to as int)),
{
    let ghost token = chars@.subrange(from as int, to as int);
    let start: usize = if from < to && chars[from] == '+' {
        from + 1
    } else {
        from
    };
    let ghost digits = unsigned_part(token);
    assert(digits =~= chars@.subrange(start as int, to as int));
    if start == to {
        return None;
    }
    let mut value: u32 = 0;
    let mut i: usize = start;
    while i < to
        invariant
            start <= i <= to <= chars.len(),
            start < to,
            token == chars@.subrange(from as int, to as int),
            digits == unsigned_part(token),
            digits == chars@.subrange(start as int, to as int),
            all_digits(digits.take(i - start)),
            value == digits_value(digits.take(i - start)),
        decreases to - i,
    {
        let c: char = chars[i];
        assert(c == digits[i - start]);
        if !(c >= '0' && c <= '9') {
            assert(!is_digit(digits[i - start]));
            return None;
        }
        let digit: u32 = c as u32 - '0' as u32;
        assert(digits.take(i - start + 1).drop_last() =~= digits.take(i - start));
        assert(digits.take(i - start + 1).last() == c);
        if value > (u32::MAX - digit) / 10 {
            proof {
                lemma_digits_value_grows(digits, i - start + 1);
            }
            return None;
        }
        value = value * 10 + digit;
        assert forall|j: int| 0 <= j < i - start + 1 implies is_digit(
            #[trigger] digits.take(i - start + 1)[j],
        ) by {
            if j < i - start {
                assert(digits.take(i - start + 1)[j] == digits.take(i - start)[j]);
            }
        }
        i = i + 1;
    }
    assert(digits.take(i - start) =~= digits);
    Some(value)
}

/// Reads a target size written as `WIDTHxHEIGHT`, such as `800x600`.
pub fn parse_dimensions(dimensions_str: &str) -> (parsed: Result<(u32, u32), DimensionsError>)
    ensures
        parse_view(parsed) == parsed_dimensions(dimensions_str@),
{
    let chars = characters(dimensions_str);
    let len: usize = chars.len();
    let mut at: usize = 0;
    while at < len && chars[at] != 'x'
        invariant
            at <= len == chars.len(),
            forall|j: int| 0 <= j < at ==> chars@[j] != 'x',
        decreases len - at,
    {
        at = at + 1;
    }
    if at == len {
        assert(!has_one_separator(chars@));
        return Err(DimensionsError::InvalidDimensionsFormat);
    }
    let mut k: usize = at + 1;
    while k < len
        invariant
            at < k <= len == chars.len(),
            chars@ == dimensions_str@,
            chars@[at as int] == 'x',
            forall|j: int| at < j < k ==> chars@[j] != 'x',
        decreases len - k,
    {
        if chars[k] == 'x' {
            assert forall|p: int| !is_separator(chars@, p) by {
                if is_separator(chars@, p) {
                    if p == at as int {
                        assert(chars@[k as int] != 'x');
                    } else {
                        assert(chars@[at as int] != 'x');
                    }
                }
            }
            return Err(DimensionsError::InvalidDimensionsFormat);
        }
        k = k + 1;
    }
    assert(is_separator(chars@, at as int));
    assert forall|p: int| is_separator(chars@, p) implies p == at by {
        if p != at {
            assert(chars@[at as int] != 'x');
        }
    }
    assert(separator_position(chars@) == at);
    let width: u32 = match parse_number(&chars, 0, at) {
        Some(width) => width,
        None => {
            let token = dimensions_str.substring_char(0, at);
            return Err(DimensionsError::InvalidWidth(String::from_str(token)));
        },
    };
    let height: u32 = match parse_number(&chars, at + 1, len) {
        Some(height) => height,
        None => {
            let token = dimensions_str.substring_char(at + 1, len);
            return Err(DimensionsError::InvalidHeight(String::from_str(token)));
        },
    };
    Ok((width, height))
}

} // verus!

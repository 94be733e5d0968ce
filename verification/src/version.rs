//! The version numbers in the text that an interpreter reports about itself.
//!
//! The text is cut at every character that is not a decimal digit. The first
//! piece is the major number, the second the minor number; what follows the
//! second piece is not looked at.

use std::str::Chars;
use vstd::prelude::*;
use vstd::std_specs::iter::IteratorSpec;

verus! {

/// The two numbers that are read out of a version text.
#[derive(Debug, Clone, Copy, PartialEq, Eq)]
pub enum Field {
    Major,
    Minor,
}

/// Why a text holds no version.
#[derive(Debug, Clone, Copy, PartialEq, Eq)]
pub enum VersionError {
    /// The text ends with the major number: no character follows it.
    MissingMinor,
    /// The piece for this number holds no digit.
    Empty(Field),
    /// The piece for this number does not fit in 32 bits.
    TooLarge(Field),
}

/// `c` is one of the ten decimal digits.
pub open spec fn is_digit(c: char) -> bool {
    48 <= c as u32 <= 57
}

/// The number that the digit `c` stands for.
pub open spec fn digit_value(c: char) -> nat
    recommends
        is_digit(c),
{
    (c as u32 - 48) as nat
}

/// How many digits `text` begins with.
pub open spec fn leading_digits(text: Seq<char>) -> nat
    decreases text.len(),
{
    if text.len() > 0 && is_digit(text[0]) {
        1 + leading_digits(text.skip(1))
    } else {
        0
    }
}

/// The value of `digits` read as a decimal numeral; 0 for the empty numeral.
pub open spec fn decimal_value(digits: Seq<char>) -> nat
    decreases digits.len(),
{
    if digits.len() == 0 {
        0
    } else {
        10 * decimal_value(digits.drop_last()) + digit_value(digits.last())
    }
}

/// The number that a piece made of digits only stands for.
pub open spec fn number_of(digits: Seq<char>, field: Field) -> Result<u32, VersionError> {
    if digits.len() == 0 {
        Err(VersionError::Empty(field))
    } else if decimal_value(digits) > u32::MAX {
        Err(VersionError::TooLarge(field))
    } else {
        Ok(decimal_value(digits) as u32)
    }
}

/// What is left of `text` behind its first piece and the character that ends
/// the piece; `None` where the piece runs to the end of the text.
pub open spec fn after_first_piece(text: Seq<char>) -> Option<Seq<char>> {
    if leading_digits(text) < text.len() {
        Some(text.skip(leading_digits(text) as int + 1))
    } else {
        None
    }
}

/// The first piece of `text`: its leading digits.
pub open spec fn first_piece(text: Seq<char>) -> Seq<char> {
    text.take(leading_digits(text) as int)
}

/// The version that `text` holds.
pub open spec fn version_of(text: Seq<char>) -> Result<(u32, u32), VersionError> {
    match number_of(first_piece(text), Field::Major) {
        Err(e) => Err(e),
        Ok(major) => match after_first_piece(text) {
            None => Err(VersionError::MissingMinor),
            Some(rest) => match number_of(first_piece(rest), Field::Minor) {
                Err(e) => Err(e),
                Ok(minor) => Ok((major, minor)),
            },
        },
    }
}

/// A version is accepted when its major number is 3 and its minor number is
/// at least 3.
pub open spec fn suitable(major: u32, minor: u32) -> bool {
    major == 3 && minor >= 3
}

/// Says whether the version `major.minor` is accepted.
pub fn is_suitable(major: u32, minor: u32) -> (accepted: bool)
    ensures
        accepted == suitable(major, minor),
{
    major == 3 && minor >= 3
}

/// Appending a digit to a numeral multiplies its value by ten and adds the digit.
proof fn decimal_value_push(text: Seq<char>, count: int)
    requires
        0 <= count < text.len(),
    ensures
        decimal_value(text.take(count + 1)) == 10 * decimal_value(text.take(count)) + digit_value(
            text[count],
        ),
{
    assert(text.take(count + 1).drop_last() =~= text.take(count));
}

/// The leading digits of a text whose first `count` characters are digits.
proof fn leading_digits_skip(text: Seq<char>, count: int)
    requires
        0 <= count <= text.len(),
        forall|i: int| 0 <= i < count ==> is_digit(#[trigger] text[i]),
    ensures
        leading_digits(text) == count + leading_digits(text.skip(count)),
    decreases count,
{
    if count > 0 {
        leading_digits_skip(text.skip(1), count - 1);
        assert(text.skip(1).skip(count - 1) =~= text.skip(count));
    } else {
        assert(text.skip(0) =~= text);
    }
}

/// The leading digits of a text that begins with the numeral `digits` and
/// goes on with `rest`, which does not begin with a digit.
proof fn leading_digits_of_numeral(digits: Seq<char>, rest: Seq<char>)
    requires
        forall|i: int| 0 <= i < digits.len() ==> is_digit(#[trigger] digits[i]),
        rest.len() > 0 ==> !is_digit(rest[0]),
    ensures
        leading_digits(digits + rest) == digits.len(),
        first_piece(digits + rest) == digits,
{
    let text = digits + rest;
    assert forall|i: int| 0 <= i < digits.len() implies is_digit(#[trigger] text[i]) by {
        assert(text[i] == digits[i]);
    }
    leading_digits_skip(text, digits.len() as int);
    assert(text.skip(digits.len() as int) =~= rest);
    assert(text.take(digits.len() as int) =~= digits);
}

/// A text made of two numerals with one character between them that is no
/// digit holds the values of the two numerals, whatever follows the second
/// numeral, as long as that does not begin with a digit. Each numeral has at
/// least one digit and a value that fits in 32 bits.
pub proof fn two_numerals_are_the_version(
    major: Seq<char>,
    separator: char,
    minor: Seq<char>,
    tail: Seq<char>,
)
    requires
        major.len() > 0,
        minor.len() > 0,
        forall|i: int| 0 <= i < major.len() ==> is_digit(#[trigger] major[i]),
        forall|i: int| 0 <= i < minor.len() ==> is_digit(#[trigger] minor[i]),
        !is_digit(separator),
        tail.len() > 0 ==> !is_digit(tail[0]),
        decimal_value(major) <= u32::MAX,
        decimal_value(minor) <= u32::MAX,
    ensures
        version_of(major + seq![separator] + minor + tail) == Ok::<(u32, u32), VersionError>(
            (decimal_value(major) as u32, decimal_value(minor) as u32),
        ),
{
    let text = major + seq![separator] + minor + tail;
    let behind = seq![separator] + minor + tail;
    assert(text =~= major + behind);
    leading_digits_of_numeral(major, behind);
    assert(text.skip(major.len() as int + 1) =~= minor + tail);
    leading_digits_of_numeral(minor, tail);
}

/// A text that holds a version begins with a digit, and a character that is
/// no digit follows its leading digits, with a digit behind it.
pub proof fn version_needs_two_numerals(text: Seq<char>)
    requires
        version_of(text) is Ok,
    ensures
        0 < leading_digits(text) < text.len(),
        !is_digit(text[leading_digits(text) as int]),
        leading_digits(text) + 1 < text.len(),
        is_digit(text[leading_digits(text) as int + 1]),
{
    leading_digits_end(text);
    let rest = text.skip(leading_digits(text) as int + 1);
    assert(rest[0] == text[leading_digits(text) as int + 1]);
}

/// The character behind the leading digits of a text is no digit.
proof fn leading_digits_end(text: Seq<char>)
    ensures
        leading_digits(text) <= text.len(),
        leading_digits(text) < text.len() ==> !is_digit(text[leading_digits(text) as int]),
    decreases text.len(),
{
    if text.len() > 0 && is_digit(text[0]) {
        leading_digits_end(text.skip(1));
    }
}

/// Reads one piece off the front of `chars`, and the character that ends it.
/// Returns the number that the piece stands for, and whether a character ended it.
fn read_piece(chars: &mut Chars<'_>, field: Field) -> (read: (Result<u32, VersionError>, bool))
    requires
        (*old(chars)).obeys_prophetic_iter_laws(),
        (*old(chars)).decrease() is Some,
    ensures
        (*final(chars)).obeys_prophetic_iter_laws(),
        (*final(chars)).decrease() is Some,
        read.0 == number_of(first_piece((*old(chars)).remaining()), field),
        read.1 == (after_first_piece((*old(chars)).remaining()) is Some),
        read.1 ==> (*final(chars)).remaining() == after_first_piece((*old(chars)).remaining())->0,
{
    let ghost text = (*chars).remaining();
    let ghost mut count: int = 0;
    let mut value: u32 = 0;
    let mut empty = true;
    let mut too_large = false;
    let mut ended = false;
    loop
        invariant_except_break
            !ended,
            (*chars).remaining() == text.skip(count),
        invariant
            (*chars).obeys_prophetic_iter_laws(),
            (*chars).decrease() is Some,
            0 <= count <= text.len(),
            forall|i: int| 0 <= i < count ==> is_digit(#[trigger] text[i]),
            empty == (count == 0),
            too_large ==> decimal_value(text.take(count)) > u32::MAX,
            !too_large ==> value == decimal_value(text.take(count)),
        ensures
            count == leading_digits(text),
            ended == (count < text.len()),
            ended ==> (*chars).remaining() == text.skip(count + 1),
        decreases (*chars).decrease()->0,
    {
        match chars.next() {
            None => {
                proof {
                    leading_digits_skip(text, count);
                }
                break ;
            },
            Some(c) => {
                assert(text.skip(count).drop_first() =~= text.skip(count + 1));
                let code: u32 = c as u32;
                if 48 <= code && code <= 57 {
                    proof {
                        decimal_value_push(text, count);
                    }
                    if !too_large {
                        let digit: u32 = code - 48;
                        match value.checked_mul(10) {
                            None => {
                                too_large = true;
                            },
                            Some(tens) => match tens.checked_add(digit) {
                                None => {
                                    too_large = true;
                                },
                                Some(sum) => {
                                    value = sum;
                                },
                            },
                        }
                    }
                    empty = false;
                    proof {
                        count = count + 1;
                    }
                } else {
                    proof {
                        leading_digits_skip(text, count);
                    }
                    ended = true;
                    break ;
                }
            },
        }
    }
    let number = if empty {
        Err(VersionError::Empty(field))
    } else if too_large {
        Err(VersionError::TooLarge(field))
    } else {
        Ok(value)
    };
    (number, ended)
}

/// Reads the major and the minor number out of `version`.
///
/// The text is cut at every character that is not a decimal digit. The piece
/// before the first cut is the major number and the piece behind it the minor
/// number: `3.14rc1` holds 3 and 14. A piece without a digit and a number
/// that does not fit in 32 bits are errors, and so is a text that ends with
/// the major number. The major number is judged before the minor number is
/// looked for.
pub fn parse_version(version: &str) -> (parsed: Result<(u32, u32), VersionError>)
    ensures
        parsed == version_of(version@),
{
    let mut chars = version.chars();
    let (major, more) = read_piece(&mut chars, Field::Major);
    match major {
        Err(e) => Err(e),
        Ok(major) => {
            if !more {
                Err(VersionError::MissingMinor)
            } else {
                let (minor, _) = read_piece(&mut chars, Field::Minor);
                match minor {
                    Err(e) => Err(e),
                    Ok(minor) => Ok((major, minor)),
                }
            }
        },
    }
}

} // verus!

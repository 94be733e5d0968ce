//! Bytes that come from outside the program, read as lines and as text.
//!
//! A line ends with a line feed, or with the end of the bytes. The line feed
//! is no part of the line, and neither is a carriage return directly before
//! it. After the last line feed there is one more line only if bytes follow.

use vstd::prelude::*;
use vstd::slice::slice_subrange;
use vstd::utf8::*;

verus! {

/// The byte that ends a line.
pub const LINE_FEED: u8 = 10;

/// The byte that may stand before a line feed without belonging to the line.
pub const CARRIAGE_RETURN: u8 = 13;

/// How many bytes stand before the first line feed of `bytes`; all of them
/// where there is no line feed.
pub open spec fn line_length(bytes: Seq<u8>) -> nat
    decreases bytes.len(),
{
    if bytes.len() > 0 && bytes[0] != LINE_FEED {
        1 + line_length(bytes.skip(1))
    } else {
        0
    }
}

/// The first line of `bytes`, without what ends it.
pub open spec fn first_line(bytes: Seq<u8>) -> Seq<u8> {
    let length = line_length(bytes) as int;
    if 0 < length < bytes.len() && bytes[length - 1] == CARRIAGE_RETURN {
        bytes.take(length - 1)
    } else {
        bytes.take(length)
    }
}

/// What follows the first line of `bytes` and the line feed that ends it.
pub open spec fn after_first_line(bytes: Seq<u8>) -> Seq<u8> {
    if line_length(bytes) < bytes.len() {
        bytes.skip(line_length(bytes) as int + 1)
    } else {
        Seq::empty()
    }
}

/// The line length of bytes whose first `count` bytes are no line feeds.
proof fn line_length_skip(bytes: Seq<u8>, count: int)
    requires
        0 <= count <= bytes.len(),
        forall|i: int| 0 <= i < count ==> #[trigger] bytes[i] != LINE_FEED,
    ensures
        line_length(bytes) == count + line_length(bytes.skip(count)),
    decreases count,
{
    if count > 0 {
        line_length_skip(bytes.skip(1), count - 1);
        assert(bytes.skip(1).skip(count - 1) =~= bytes.skip(count));
    } else {
        assert(bytes.skip(0) =~= bytes);
    }
}

/// Cuts the first line off `bytes`. Returns the line and what follows it, or
/// `None` where `bytes` is empty and so holds no line.
pub fn split_line(bytes: &[u8]) -> (cut: Option<(&[u8], &[u8])>)
    ensures
        cut is None <==> bytes@.len() == 0,
        cut matches Some((line, rest)) ==> line@ == first_line(bytes@) && rest@
            == after_first_line(bytes@),
{
    let length = bytes.len();
    if length == 0 {
        return None;
    }
    let mut end: usize = 0;
    while end < length && bytes[end] != LINE_FEED
        invariant
            length == bytes@.len(),
            end <= length,
            forall|i: int| 0 <= i < end ==> #[trigger] bytes@[i] != LINE_FEED,
        decreases length - end,
    {
        end = end + 1;
    }
    proof {
        line_length_skip(bytes@, end as int);
    }
    let stop: usize = if 0 < end && end < length && bytes[end - 1] == CARRIAGE_RETURN {
        end - 1
    } else {
        end
    };
    let line = slice_subrange(bytes, 0, stop);
    let rest = if end < length {
        slice_subrange(bytes, end + 1, length)
    } else {
        slice_subrange(bytes, length, length)
    };
    Some((line, rest))
}

/// Reads `bytes` as UTF-8 text.
///
/// Calls `std::str::from_utf8`, which checks that the bytes are well-formed
/// UTF-8 and hands back the same bytes as a string slice, or an error where
/// they are not. The contract says that in the terms of the library's model
/// of UTF-8: there is a text exactly when the bytes are valid, and the text is
/// made of the characters that the bytes encode. The body is not verified.
#[verifier::external_body]
pub(crate) fn decode(bytes: &[u8]) -> (text: Option<&str>)
    ensures
        text is Some <==> valid_utf8(bytes@),
        text matches Some(t) ==> t@ == decode_utf8(bytes@),
{
    std::str::from_utf8(bytes).ok()
}

} // verus!

//! File-system paths, kept as text.
//!
//! Paths are put together by the standard library, which knows the
//! conventions of the platform that the crate is built for. It works on the
//! text of a path alone and asks the file system nothing. This crate reads no
//! path: it names what the standard library hands back and passes it on.

use std::path::PathBuf;
use vstd::prelude::*;

verus! {

/// The path that `std::path::PathBuf::push` makes of `base` when `leaf` is
/// pushed onto it.
pub uninterp spec fn joined_path(base: Seq<char>, leaf: Seq<char>) -> Seq<char>;

/// The path that `std::path::PathBuf::pop` leaves of `path`.
pub uninterp spec fn popped_path(path: Seq<char>) -> Seq<char>;

/// The texts of `paths`.
pub open spec fn texts(paths: Seq<String>) -> Seq<Seq<char>> {
    Seq::new(paths.len(), |i: int| paths[i]@)
}

/// Pushes `leaf` onto the path `base`.
///
/// Calls `std::path::PathBuf::push` on a buffer made of `base`. The call looks
/// at the text of its two arguments only; the contract gives its result the
/// name [`joined_path`] and claims no more. The result is text again, since
/// both arguments are. The body is not verified.
#[verifier::external_body]
pub(crate) fn join(base: &str, leaf: &str) -> (joined: String)
    ensures
        joined@ == joined_path(base@, leaf@),
{
    let mut buffer = PathBuf::from(base);
    buffer.push(leaf);
    buffer.to_string_lossy().into_owned()
}

/// Takes the last component off `path`; where there is none to take, the
/// path stays as it is.
///
/// Calls `std::path::PathBuf::pop` on a buffer made of `path`. The call looks
/// at the text of its argument only; the contract gives what is left the name
/// [`popped_path`] and claims no more. The body is not verified.
#[verifier::external_body]
pub(crate) fn pop(path: &str) -> (shorter: String)
    ensures
        shorter@ == popped_path(path@),
{
    let mut buffer = PathBuf::from(path);
    buffer.pop();
    buffer.to_string_lossy().into_owned()
}

} // verus!

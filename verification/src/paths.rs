//! Questions about a path's text that the standard library answers.

use vstd::prelude::*;

verus! {

/// The extension that `std::path::Path::extension` reports for a path, as text.
pub uninterp spec fn path_extension(path: Seq<char>) -> Option<Seq<char>>;

/// The final component that `std::path::Path::file_name` reports for a path, as text.
pub uninterp spec fn path_file_name(path: Seq<char>) -> Option<Seq<char>>;

/// The characters of an optional string.
pub open spec fn option_text(value: Option<String>) -> Option<Seq<char>> {
    match value {
        Some(text) => Some(text@),
        None => None,
    }
}

/// The extension of a path: none for the empty path, otherwise what the
/// standard library reports.
pub open spec fn extension(path: Seq<char>) -> Option<Seq<char>> {
    if path.len() == 0 {
        None
    } else {
        path_extension(path)
    }
}

/// Calls `std::path::Path::extension`.
///
/// Trusted: the result is the extension the standard library finds in `path`,
/// and the empty path has none (it has no file name to take one from).
#[verifier::external_body]
pub(crate) fn extension_of(path: &str) -> (res: Option<String>)
    ensures
        path@.len() == 0 ==> res is None,
        path@.len() > 0 ==> option_text(res) == path_extension(path@),
{
    match std::path::Path::new(path).extension() {
        Some(found) => Some(found.to_string_lossy().into_owned()),
        None => None,
    }
}

/// Calls `std::path::Path::file_name`.
///
/// Trusted: the result is the final component the standard library finds in
/// `path`, or nothing where the path has none.
#[verifier::external_body]
pub(crate) fn file_name_of(path: &str) -> (res: Option<String>)
    ensures
        option_text(res) == path_file_name(path@),
{
    match std::path::Path::new(path).file_name() {
        Some(found) => Some(found.to_string_lossy().into_owned()),
        None => None,
    }
}

} // verus!

//! Path computations that need no file system, done by `std::path`.
//!
//! A path is held as its text. What `std::path` makes of a text differs
//! between platforms and takes pages to write down, so the results carry
//! names here: each name stands for what the standard library returns on
//! the platform the crate is built for, and the contracts of the verified
//! functions speak of those names.

use vstd::prelude::*;

verus! {

/// Whether `std::path::Path::is_absolute` holds of the path with this text.
pub uninterp spec fn path_is_absolute(path: Seq<char>) -> bool;

/// The final component of the path with this text, as
/// `std::path::Path::file_name` gives it.
pub uninterp spec fn path_file_name(path: Seq<char>) -> Option<Seq<char>>;

/// The text of `std::path::Path::join` applied to `base` and `path`.
pub uninterp spec fn path_join(base: Seq<char>, path: Seq<char>) -> Seq<char>;

/// The text of `std::path::Path::with_extension` applied to `path` and `ext`.
pub uninterp spec fn path_with_extension(path: Seq<char>, ext: Seq<char>) -> Seq<char>;

/// What `std::path::Path::strip_prefix` leaves of `path` below `base`.
pub uninterp spec fn path_strip_prefix(path: Seq<char>, base: Seq<char>) -> Option<Seq<char>>;

/// The text that `str::to_lowercase` makes of `text`.
pub uninterp spec fn text_lowercase(text: Seq<char>) -> Seq<char>;

/// Index of the last `.` in `name`, or `-1` where it holds none.
pub open spec fn last_dot(name: Seq<char>) -> int
    decreases name.len(),
{
    if name.len() == 0 {
        -1
    } else if name.last() == '.' {
        name.len() - 1
    } else {
        last_dot(name.drop_last())
    }
}

/// The extension of a file name: what follows its last `.`, unless the name
/// has no `.` or its only `.` is the first character.
pub open spec fn extension_of(name: Option<Seq<char>>) -> Option<Seq<char>> {
    match name {
        None => None,
        Some(name) => if last_dot(name) <= 0 {
            None
        } else {
            Some(name.subrange(last_dot(name) + 1, name.len() as int))
        },
    }
}

/// Whether `ext` may be handed to [`with_extension`]: it holds no path
/// separator of any platform.
pub open spec fn is_plain_extension(ext: Seq<char>) -> bool {
    forall|i: int| 0 <= i < ext.len() ==> ext[i] != '/' && ext[i] != '\\'
}

/// Calls `std::path::Path::is_absolute`; the contract only names the result.
#[verifier::external_body]
pub(crate) fn is_absolute(path: &str) -> (r: bool)
    ensures
        r == path_is_absolute(path@),
{
    std::path::Path::new(path).is_absolute()
}

/// Calls `std::path::Path::file_name`; the contract only names the result.
#[verifier::external_body]
pub(crate) fn file_name(path: &str) -> (r: Option<String>)
    ensures
        r.deep_view() == path_file_name(path@),
{
    std::path::Path::new(path).file_name().map(|name| name.to_string_lossy().into_owned())
}

/// Calls `std::path::Path::extension`. The standard library documents the
/// extension as a function of the file name: none without a file name,
/// none without a `.` in it, none where the only `.` leads the name, and
/// otherwise what follows the last `.`. The contract states exactly that.
#[verifier::external_body]
pub(crate) fn extension(path: &str) -> (r: Option<String>)
    ensures
        r.deep_view() == extension_of(path_file_name(path@)),
{
    std::path::Path::new(path).extension().map(|ext| ext.to_string_lossy().into_owned())
}

/// Calls `std::path::Path::join`; the contract only names the result.
#[verifier::external_body]
pub(crate) fn join(base: &str, path: &str) -> (r: String)
    ensures
        r@ == path_join(base@, path@),
{
    std::path::Path::new(base).join(path).to_string_lossy().into_owned()
}

/// Calls `std::path::Path::with_extension`, which panics on an extension
/// that holds a path separator; the contract only names the result.
#[verifier::external_body]
pub(crate) fn with_extension(path: &str, ext: &str) -> (r: String)
    requires
        is_plain_extension(ext@),
    ensures
        r@ == path_with_extension(path@, ext@),
{
    std::path::Path::new(path).with_extension(ext).to_string_lossy().into_owned()
}

/// Calls `std::path::Path::strip_prefix`, with its error turned into
/// `None`; the contract only names the result.
#[verifier::external_body]
pub(crate) fn strip_prefix(path: &str, base: &str) -> (r: Option<String>)
    ensures
        r.deep_view() == path_strip_prefix(path@, base@),
{
    match std::path::Path::new(path).strip_prefix(base) {
        Ok(rest) => Some(rest.to_string_lossy().into_owned()),
        Err(_) => None,
    }
}

/// Calls `str::to_lowercase`; the contract only names the result.
#[verifier::external_body]
pub(crate) fn to_lowercase(text: &str) -> (r: String)
    ensures
        r@ == text_lowercase(text@),
{
    text.to_lowercase()
}

} // verus!

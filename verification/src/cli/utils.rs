//! Checks on paths: does it exist, is it a file, does it carry a name.
//!
//! Each check is a function of the path's text and of what the [`Host`]
//! recorded. A check that passes hands the path back.

use vstd::prelude::*;
use crate::host::Host;
use crate::paths::{
    extension, extension_of, file_name, is_absolute, is_plain_extension, join, path_file_name,
    path_is_absolute, path_join, path_with_extension, text_lowercase, to_lowercase, with_extension,
};
use crate::text::{chars_of, join3, join5};

verus! {

/// Why a path was turned down.
#[derive(Debug, PartialEq, Eq)]
pub enum PathError {
    /// Nothing exists at the path.
    NotAPath { path: String },
    /// The path is not a regular file.
    NotAFile { path: String },
    /// The path is not a directory.
    NotADirectory { path: String },
    /// The file's name is not the expected one.
    WrongName { expected: String, path: String },
    /// The file has no extension where one was expected.
    NoExtension { expected: String, path: String },
    /// The file's extension is not the expected one.
    WrongExtension { expected: String, found: String },
    /// The file carries the expected text neither as name nor as extension.
    WrongNameOrExtension { expected: String, path: String },
    /// The path names a place where nothing exists.
    Missing { path: String },
}

/// A [`PathError`] with its texts as sequences.
pub enum PathErrorView {
    NotAPath { path: Seq<char> },
    NotAFile { path: Seq<char> },
    NotADirectory { path: Seq<char> },
    WrongName { expected: Seq<char>, path: Seq<char> },
    NoExtension { expected: Seq<char>, path: Seq<char> },
    WrongExtension { expected: Seq<char>, found: Seq<char> },
    WrongNameOrExtension { expected: Seq<char>, path: Seq<char> },
    Missing { path: Seq<char> },
}

impl View for PathError {
    type V = PathErrorView;

    open spec fn view(&self) -> PathErrorView {
        match *self {
            PathError::NotAPath { path } => PathErrorView::NotAPath { path: path@ },
            PathError::NotAFile { path } => PathErrorView::NotAFile { path: path@ },
            PathError::NotADirectory { path } => PathErrorView::NotADirectory { path: path@ },
            PathError::WrongName { expected, path } => PathErrorView::WrongName {
                expected: expected@,
                path: path@,
            },
            PathError::NoExtension { expected, path } => PathErrorView::NoExtension {
                expected: expected@,
                path: path@,
            },
            PathError::WrongExtension { expected, found } => PathErrorView::WrongExtension {
                expected: expected@,
                found: found@,
            },
            PathError::WrongNameOrExtension { expected, path } => {
                PathErrorView::WrongNameOrExtension { expected: expected@, path: path@ }
            },
            PathError::Missing { path } => PathErrorView::Missing { path: path@ },
        }
    }
}

impl PathErrorView {
    /// The text shown for the error.
    pub open spec fn message(self) -> Seq<char> {
        match self {
            PathErrorView::NotAPath { path } => "'"@ + path
                + "' is not a path: Path not found or permission denied"@,
            PathErrorView::NotAFile { path } => "'"@ + path
                + "' is not a file: File not found or permission denied"@,
            PathErrorView::NotADirectory { path } => "'"@ + path
                + "' is not a directory: Directory not found"@,
            PathErrorView::WrongName { expected, path } => "Expected file with name '"@ + expected
                + "', got '"@ + path + "'"@,
            PathErrorView::NoExtension { expected, path } => "Expected file with extension '"@
                + expected + "', got file '"@ + path + "'"@,
            PathErrorView::WrongExtension { expected, found } => "Expected file extension '"@
                + expected + "', got '"@ + found + "'"@,
            PathErrorView::WrongNameOrExtension { expected, path } =>
                "Expected file with name or extension '"@ + expected + "', got '"@ + path + "'"@,
            PathErrorView::Missing { path } => "'"@ + path + "' does not exist"@,
        }
    }
}

impl PathError {
    /// The text shown for the error.
    pub fn message(&self) -> (text: String)
        ensures
            text@ == self@.message(),
    {
        match self {
            PathError::NotAPath { path } => join3(
                "'",
                path.as_str(),
                "' is not a path: Path not found or permission denied",
            ),
            PathError::NotAFile { path } => join3(
                "'",
                path.as_str(),
                "' is not a file: File not found or permission denied",
            ),
            PathError::NotADirectory { path } => join3(
                "'",
                path.as_str(),
                "' is not a directory: Directory not found",
            ),
            PathError::WrongName { expected, path } => join5(
                "Expected file with name '",
                expected.as_str(),
                "', got '",
                path.as_str(),
                "'",
            ),
            PathError::NoExtension { expected, path } => join5(
                "Expected file with extension '",
                expected.as_str(),
                "', got file '",
                path.as_str(),
                "'",
            ),
            PathError::WrongExtension { expected, found } => join5(
                "Expected file extension '",
                expected.as_str(),
                "', got '",
                found.as_str(),
                "'",
            ),
            PathError::WrongNameOrExtension { expected, path } => join5(
                "Expected file with name or extension '",
                expected.as_str(),
                "', got '",
                path.as_str(),
                "'",
            ),
            PathError::Missing { path } => join3("'", path.as_str(), "' does not exist"),
        }
    }
}

/// The outcome of a check, with its texts as sequences.
pub open spec fn checked(r: Result<String, PathError>) -> Result<Seq<char>, PathErrorView> {
    match r {
        Ok(path) => Ok(path@),
        Err(e) => Err(e@),
    }
}

/// What [`path_or_err`] returns.
pub open spec fn spec_path_or_err(path: Seq<char>, host: Host) -> Result<Seq<char>, PathErrorView> {
    if host.has(path) {
        Ok(path)
    } else {
        Err(PathErrorView::NotAPath { path })
    }
}

/// What [`file_or_err`] returns.
pub open spec fn spec_file_or_err(path: Seq<char>, host: Host) -> Result<Seq<char>, PathErrorView> {
    if host.has_file(path) {
        Ok(path)
    } else {
        Err(PathErrorView::NotAFile { path })
    }
}

/// What [`dir_or_err`] returns.
pub open spec fn spec_dir_or_err(path: Seq<char>, host: Host) -> Result<Seq<char>, PathErrorView> {
    if host.has_dir(path) {
        Ok(path)
    } else {
        Err(PathErrorView::NotADirectory { path })
    }
}

/// Whether the file name of `path` is `name`, letter case aside.
pub open spec fn is_named(path: Seq<char>, name: Seq<char>) -> bool {
    path_file_name(path) matches Some(n) && text_lowercase(n) == text_lowercase(name)
}

/// What [`file_with_name`] returns.
pub open spec fn spec_file_with_name(path: Seq<char>, name: Seq<char>, host: Host) -> Result<
    Seq<char>,
    PathErrorView,
> {
    if !host.has_file(path) {
        Err(PathErrorView::NotAFile { path })
    } else if is_named(path, name) {
        Ok(path)
    } else {
        Err(PathErrorView::WrongName { expected: name, path })
    }
}

/// The extension to look for: `ext` itself, or, unless `strict`, `ext`
/// without the `.` that leads it.
pub open spec fn wanted_extension(ext: Seq<char>, strict: bool) -> Seq<char> {
    if !strict && ext.len() > 0 && ext[0] == '.' {
        ext.subrange(1, ext.len() as int)
    } else {
        ext
    }
}

/// What [`file_with_ext`] returns.
pub open spec fn spec_file_with_ext(
    path: Seq<char>,
    ext: Seq<char>,
    strict: bool,
    host: Host,
) -> Result<Seq<char>, PathErrorView> {
    if !host.has_file(path) {
        Err(PathErrorView::NotAFile { path })
    } else {
        match extension_of(path_file_name(path)) {
            None => Err(PathErrorView::NoExtension { expected: ext, path }),
            Some(found) => if text_lowercase(wanted_extension(ext, strict)) == text_lowercase(
                found,
            ) {
                Ok(path)
            } else {
                Err(
                    PathErrorView::WrongExtension {
                        expected: wanted_extension(ext, strict),
                        found,
                    },
                )
            },
        }
    }
}

/// What [`file_with_name_or_ext`] returns.
pub open spec fn spec_file_with_name_or_ext(
    path: Seq<char>,
    name_or_ext: Seq<char>,
    host: Host,
) -> Result<Seq<char>, PathErrorView> {
    if !host.has_file(path) {
        Err(PathErrorView::NotAFile { path })
    } else if spec_file_with_name(path, name_or_ext, host) is Ok || spec_file_with_ext(
        path,
        name_or_ext,
        false,
        host,
    ) is Ok {
        Ok(path)
    } else {
        Err(PathErrorView::WrongNameOrExtension { expected: name_or_ext, path })
    }
}

/// Whether `path` is nothing but a file name, with no directory before it.
pub open spec fn is_bare_name(path: Seq<char>) -> bool {
    path_file_name(path) == Some(path)
}

/// Where a relative `path` lies: below `root`, where one is given.
pub open spec fn below(root: Option<Seq<char>>, path: Seq<char>) -> Seq<char> {
    match root {
        None => path,
        Some(root) => path_join(root, path),
    }
}

/// What [`filename_or_exists`] returns.
pub open spec fn spec_filename_or_exists(
    path: Seq<char>,
    root: Option<Seq<char>>,
    host: Host,
) -> Result<Seq<char>, PathErrorView> {
    if path_is_absolute(path) {
        if host.has(path) {
            Ok(path)
        } else {
            Err(PathErrorView::Missing { path })
        }
    } else if is_bare_name(path) {
        Ok(path)
    } else if host.has(below(root, path)) {
        Ok(below(root, path))
    } else {
        Err(PathErrorView::Missing { path })
    }
}

/// What [`filename_or_exists_with_ext`] returns.
pub open spec fn spec_filename_or_exists_with_ext(
    path: Seq<char>,
    root: Option<Seq<char>>,
    ext: Option<Seq<char>>,
    host: Host,
) -> Result<Seq<char>, PathErrorView> {
    let plain = spec_filename_or_exists(path, root, host);
    match ext {
        None => plain,
        Some(ext) => if plain is Ok {
            plain
        } else if spec_filename_or_exists(path_with_extension(path, ext), root, host) is Ok {
            spec_filename_or_exists(path_with_extension(path, ext), root, host)
        } else {
            plain
        },
    }
}

/// What [`executable_or_exists`] returns.
pub open spec fn spec_executable_or_exists(
    path: Seq<char>,
    root: Option<Seq<char>>,
    host: Host,
) -> Result<Seq<char>, PathErrorView> {
    spec_filename_or_exists_with_ext(
        path,
        root,
        if host.windows {
            Some("exe"@)
        } else {
            None
        },
        host,
    )
}

/// Accepts a path at which something exists.
pub fn path_or_err(path: &str, host: &Host) -> (r: Result<String, PathError>)
    ensures
        checked(r) == spec_path_or_err(path@, *host),
{
    if !host.is_present(path) {
        return Err(PathError::NotAPath { path: path.to_owned() });
    }
    Ok(path.to_owned())
}

/// Accepts a path to a regular file.
pub fn file_or_err(path: &str, host: &Host) -> (r: Result<String, PathError>)
    ensures
        checked(r) == spec_file_or_err(path@, *host),
{
    if !host.is_file(path) {
        return Err(PathError::NotAFile { path: path.to_owned() });
    }
    Ok(path.to_owned())
}

/// Accepts a path to a directory.
pub fn dir_or_err(path: &str, host: &Host) -> (r: Result<String, PathError>)
    ensures
        checked(r) == spec_dir_or_err(path@, *host),
{
    if !host.is_dir(path) {
        return Err(PathError::NotADirectory { path: path.to_owned() });
    }
    Ok(path.to_owned())
}

/// Accepts a regular file whose name is `name`, letter case aside.
pub fn file_with_name(path: &str, name: &str, host: &Host) -> (r: Result<String, PathError>)
    ensures
        checked(r) == spec_file_with_name(path@, name@, *host),
{
    let buf = file_or_err(path, host)?;
    match file_name(path) {
        Some(found) => {
            if to_lowercase(found.as_str()) == to_lowercase(name) {
                return Ok(buf);
            }
        },
        None => {},
    }
    Err(PathError::WrongName { expected: name.to_owned(), path: buf })
}

/// The extension to look for in a file's name.
fn extension_to_find(ext: &str, strict: bool) -> (wanted: String)
    ensures
        wanted@ == wanted_extension(ext@, strict),
{
    let chars = chars_of(ext);
    if !strict && chars.len() > 0 && chars[0] == '.' {
        ext.substring_char(1, chars.len()).to_owned()
    } else {
        ext.to_owned()
    }
}

/// Accepts a regular file whose extension is `ext`, letter case aside.
/// Unless `strict`, a `.` that leads `ext` is not part of the extension.
pub fn file_with_ext(path: &str, ext: &str, strict: bool, host: &Host) -> (r: Result<
    String,
    PathError,
>)
    ensures
        checked(r) == spec_file_with_ext(path@, ext@, strict, *host),
{
    let buf = file_or_err(path, host)?;
    let found = match extension(path) {
        Some(found) => found,
        None => {
            return Err(PathError::NoExtension { expected: ext.to_owned(), path: buf });
        },
    };
    let wanted = extension_to_find(ext, strict);
    if to_lowercase(wanted.as_str()) != to_lowercase(found.as_str()) {
        return Err(PathError::WrongExtension { expected: wanted, found });
    }
    Ok(buf)
}

/// Accepts a regular file that carries `name_or_ext` as its name or as its
/// extension.
pub fn file_with_name_or_ext(path: &str, name_or_ext: &str, host: &Host) -> (r: Result<
    String,
    PathError,
>)
    ensures
        checked(r) == spec_file_with_name_or_ext(path@, name_or_ext@, *host),
{
    let buf = file_or_err(path, host)?;
    match file_with_name(path, name_or_ext, host) {
        Ok(found) => Ok(found),
        Err(_) => match file_with_ext(path, name_or_ext, false, host) {
            Ok(found) => Ok(found),
            Err(_) => Err(
                PathError::WrongNameOrExtension { expected: name_or_ext.to_owned(), path: buf },
            ),
        },
    }
}

/// Accepts a bare file name as it is, and any other path if something
/// exists there. A relative path is looked for below `root`, and the path
/// below `root` is what comes back.
pub fn filename_or_exists(path: &str, root: Option<&str>, host: &Host) -> (r: Result<
    String,
    PathError,
>)
    ensures
        checked(r) == spec_filename_or_exists(path@, root.deep_view(), *host),
{
    let absolute = is_absolute(path);
    if absolute && !host.is_present(path) {
        return Err(PathError::Missing { path: path.to_owned() });
    }
    let bare = match file_name(path) {
        Some(name) => name == path.to_owned(),
        None => false,
    };
    if absolute || bare {
        return Ok(path.to_owned());
    }
    let full_path = match root {
        None => path.to_owned(),
        Some(root) => join(root, path),
    };
    if !host.is_present(full_path.as_str()) {
        return Err(PathError::Missing { path: path.to_owned() });
    }
    Ok(full_path)
}

/// As [`filename_or_exists`], but where `path` is turned down and `ext` is
/// given, `path` with the extension `ext` is tried too.
pub fn filename_or_exists_with_ext(
    path: &str,
    root: Option<&str>,
    ext: Option<&str>,
    host: &Host,
) -> (r: Result<String, PathError>)
    requires
        ext matches Some(e) ==> is_plain_extension(e@),
    ensures
        checked(r) == spec_filename_or_exists_with_ext(
            path@,
            root.deep_view(),
            ext.deep_view(),
            *host,
        ),
{
    let plain = filename_or_exists(path, root, host);
    if plain.is_ok() {
        return plain;
    }
    if let Some(ext) = ext {
        let try_ext = with_extension(path, ext);
        let other = filename_or_exists(try_ext.as_str(), root, host);
        if other.is_ok() {
            return other;
        }
    }
    plain
}

/// Accepts the name of an executable, or a path to one that exists; on
/// Windows the suffix `exe` may be left out.
pub fn executable_or_exists(path: &str, root: Option<&str>, host: &Host) -> (r: Result<
    String,
    PathError,
>)
    ensures
        checked(r) == spec_executable_or_exists(path@, root.deep_view(), *host),
{
    if host.windows {
        proof {
            reveal_strlit("exe");
        }
        filename_or_exists_with_ext(path, root, Some("exe"), host)
    } else {
        filename_or_exists_with_ext(path, root, None, host)
    }
}

} // verus!

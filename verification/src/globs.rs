//! Globs: compiling the filters and keeping the files among what a search
//! found.
//!
//! The search itself walks the file system and is the caller's work, done
//! with `globmatch`. The filters are compiled here, by `globmatch` too, so
//! that a glob with a mistake in it stops the run with an error that names
//! the field it stands in.

use vstd::prelude::*;
use crate::host::Host;
use crate::text::{join3, join5};

verus! {

#[verifier::external_type_specification]
#[verifier::external_body]
pub struct ExGlobSet<'a>(globmatch::GlobSet<'a>);

/// The error text of `globmatch::wrappers::build_glob_set` for these globs,
/// or `None` where it compiles them all.
pub uninterp spec fn glob_set_error(filter: Option<Seq<Seq<char>>>, case_sensitive: bool) -> Option<
    Seq<char>,
>;

/// A glob that could not be used.
#[derive(Debug, PartialEq, Eq)]
pub struct GlobError {
    /// The field of the configuration file that holds the glob.
    pub field: String,
    /// The configuration file.
    pub file: String,
    /// What is wrong with the glob.
    pub detail: String,
}

/// A [`GlobError`] with its texts as sequences.
pub struct GlobErrorView {
    pub field: Seq<char>,
    pub file: Seq<char>,
    pub detail: Seq<char>,
}

impl View for GlobError {
    type V = GlobErrorView;

    open spec fn view(&self) -> GlobErrorView {
        GlobErrorView { field: self.field@, file: self.file@, detail: self.detail@ }
    }
}

impl GlobErrorView {
    /// The text shown for the error.
    pub open spec fn message(self) -> Seq<char> {
        "Error while parsing '"@ + self.field + "': "@ + self.detail
    }

    /// What the user is advised to do about the error.
    pub open spec fn suggestion(self) -> Seq<char> {
        "Check the format of the field '"@ + self.field + "' in the provided file '"@ + self.file
            + "'."@
    }
}

impl GlobError {
    /// The text shown for the error.
    pub fn message(&self) -> (text: String)
        ensures
            text@ == self@.message(),
    {
        let mut text = join3("Error while parsing '", self.field.as_str(), "': ");
        text.append(self.detail.as_str());
        text
    }

    /// What the user is advised to do about the error: it names the field
    /// and the file.
    pub fn suggestion(&self) -> (text: String)
        ensures
            text@ == self@.suggestion(),
    {
        join5(
            "Check the format of the field '",
            self.field.as_str(),
            "' in the provided file '",
            self.file.as_str(),
            "'.",
        )
    }
}

/// Calls `globmatch::wrappers::build_glob_set`, which compiles each glob of
/// the list. As its source shows, it returns no sets for no list, and one
/// set for each glob of a list where all compile; otherwise it returns an
/// error text, which the contract only names.
#[verifier::external_body]
fn compile_glob_set<'a>(filter: &'a Option<Vec<String>>, case_sensitive: bool) -> (r: Result<
    Option<Vec<globmatch::GlobSet<'a>>>,
    String,
>)
    ensures
        filter is None ==> r is Ok,
        match r {
            Ok(sets) => {
                &&& glob_set_error(filter.deep_view(), case_sensitive) is None
                &&& sets is None <==> filter is None
                &&& sets matches Some(sets) ==> sets@.len() == filter->0@.len()
            },
            Err(text) => glob_set_error(filter.deep_view(), case_sensitive) == Some(text@),
        },
{
    let globs: Option<Vec<&str>> = filter.as_ref().map(|f| f.iter().map(|s| s.as_str()).collect());
    globmatch::wrappers::build_glob_set(&globs, case_sensitive)
}

/// Puts the field and the file to an error text, so that the user sees
/// where to look; a success passes through.
pub fn wrap_result<T>(result: Result<T, String>, field: &str, file: &str) -> (r: Result<
    T,
    GlobError,
>)
    ensures
        match result {
            Ok(value) => r == Ok::<T, GlobError>(value),
            Err(detail) => r matches Err(e) && e@ == (GlobErrorView {
                field: field@,
                file: file@,
                detail: detail@,
            }),
        },
{
    match result {
        Ok(value) => Ok(value),
        Err(detail) => Err(GlobError { field: field.to_owned(), file: file.to_owned(), detail }),
    }
}

/// Compiles the globs of a filter. No filter gives no sets; a list gives
/// one set for each of its globs. A glob that does not compile is an error
/// that names `field` and `file`.
pub fn build_glob_set_from<'a>(
    filter: &'a Option<Vec<String>>,
    field: &str,
    file: &str,
    case_sensitive: bool,
) -> (r: Result<Option<Vec<globmatch::GlobSet<'a>>>, GlobError>)
    ensures
        filter is None ==> r is Ok,
        match r {
            Ok(sets) => {
                &&& glob_set_error(filter.deep_view(), case_sensitive) is None
                &&& sets is None <==> filter is None
                &&& sets matches Some(sets) ==> sets@.len() == filter->0@.len()
            },
            Err(e) => glob_set_error(filter.deep_view(), case_sensitive) matches Some(detail)
                && e@ == (GlobErrorView { field: field@, file: file@, detail }),
        },
{
    wrap_result(compile_glob_set(filter, case_sensitive), field, file)
}

/// The regular files among `found`, in their order.
pub open spec fn spec_match_paths(found: Seq<Seq<char>>, host: Host) -> Seq<Seq<char>> {
    found.filter(|path: Seq<char>| host.has_file(path))
}

/// Keeps the regular files among the paths that the search found:
/// directories and whatever else is no file are dropped without a word.
pub fn match_paths(found: &Vec<String>, host: &Host) -> (files: Vec<String>)
    ensures
        files.deep_view() == spec_match_paths(found.deep_view(), *host),
{
    let mut files: Vec<String> = Vec::new();
    let mut i: usize = 0;
    let ghost is_file = |path: Seq<char>| host.has_file(path);
    assert(found.deep_view().take(0) =~= Seq::empty());
    assert(files.deep_view() =~= found.deep_view().take(0).filter(is_file));
    while i < found.len()
        invariant
            i <= found.len(),
            is_file == |path: Seq<char>| host.has_file(path),
            files.deep_view() == found.deep_view().take(i as int).filter(is_file),
        decreases found.len() - i,
    {
        let ghost before = files.deep_view();
        proof {
            let next = found.deep_view().take(i + 1);
            assert(next.drop_last() =~= found.deep_view().take(i as int));
            assert(next.last() == found[i as int]@);
            reveal(Seq::filter);
        }
        if host.is_file(found[i].as_str()) {
            files.push(found[i].clone());
            assert(files.deep_view() =~= before.push(found[i as int]@));
        }
        i += 1;
    }
    assert(found.deep_view().take(i as int) =~= found.deep_view());
    files
}

} // verus!

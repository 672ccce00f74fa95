//! The settings of a run: what the configuration file holds and what the
//! command line overrides.

use vstd::prelude::*;
use crate::text::{chars_of, digits_end, number, read_number, run_end};

pub mod utils;

verus! {

/// The configuration file.
#[derive(Debug, PartialEq, Eq)]
pub struct JsonModel {
    /// Paths and globs of the files to analyse, relative to the
    /// configuration file.
    pub paths: Vec<String>,
    /// Globs of paths that the search skips with all that lies below them.
    /// Without this field hidden paths are skipped; an empty list skips
    /// nothing.
    pub filter_pre: Option<Vec<String>>,
    /// Globs of files that are dropped after the search.
    pub filter_post: Option<Vec<String>>,
    /// Path to a `.clang-tidy` file.
    pub tidy_file: Option<String>,
    /// Directory into which the `.clang-tidy` file is copied for the run.
    pub tidy_root: Option<String>,
    /// Directory that holds `compile_commands.json`.
    pub build_root: Option<String>,
    /// Path or name of the `clang-tidy` executable.
    pub command: Option<String>,
    /// Directory of the configuration file, against which its relative
    /// paths are resolved.
    pub root: String,
    /// Name of the configuration file, for messages.
    pub name: String,
}

/// The configuration file together with the command line's overrides.
#[derive(Debug, PartialEq, Eq)]
pub struct Data {
    /// The configuration file.
    pub json: JsonModel,
    /// Override for the tidy file.
    pub tidy_file: Option<String>,
    /// Override for the build root.
    pub build_root: Option<String>,
    /// Override for the executable.
    pub command: Option<String>,
    /// Number of jobs; `None` stands for all logical cores.
    pub jobs: Option<u8>,
    /// Whether `clang-tidy` applies the fixes it suggests.
    pub fix: bool,
    /// Whether warnings of `clang-tidy` are discarded.
    pub ignore_warn: bool,
    /// Whether all output but errors is suppressed.
    pub quiet: bool,
}

/// A number of jobs that cannot be used.
#[derive(Debug, PartialEq, Eq)]
pub struct JobsError {
    /// What stood where the number was expected.
    pub value: String,
}

/// Where the digits of a number of jobs start: after the `+` that may lead
/// them.
pub open spec fn jobs_start(text: Seq<char>) -> int {
    if text.len() > 0 && text[0] == '+' {
        1
    } else {
        0
    }
}

/// The number of jobs that `text` stands for: at least one decimal digit
/// and nothing else, but for a leading `+`, and no more than 255.
pub open spec fn spec_parse_jobs(text: Seq<char>) -> Option<u8> {
    let digits = text.subrange(jobs_start(text), text.len() as int);
    if digits.len() > 0 && digits_end(text, jobs_start(text)) == text.len() && number(digits)
        <= 255 {
        Some(number(digits) as u8)
    } else {
        None
    }
}

/// Reads the number of jobs from the command line's text.
pub fn parse_jobs(value: &str) -> (r: Result<u8, JobsError>)
    ensures
        match r {
            Ok(jobs) => spec_parse_jobs(value@) == Some(jobs),
            Err(e) => spec_parse_jobs(value@) is None && e.value@ == value@,
        },
{
    let chars = chars_of(value);
    let start: usize = if chars.len() > 0 && chars[0] == '+' {
        1
    } else {
        0
    };
    let end = run_end(&chars, start);
    if end > start && end == chars.len() {
        if let Some(jobs) = read_number(&chars, start, end) {
            return Ok(jobs);
        }
    }
    Err(JobsError { value: value.to_owned() })
}

impl JobsError {
    /// The text shown for the error.
    pub fn message(&self) -> (text: &'static str)
        ensures
            text@ == "Invalid parameter for option --jobs"@,
    {
        "Invalid parameter for option --jobs"
    }

    /// What the user is advised to do about the error.
    pub fn suggestion(&self) -> (text: &'static str)
        ensures
            text@ == "Please provide a number in the range [0 .. 255]"@,
    {
        "Please provide a number in the range [0 .. 255]"
    }
}

} // verus!

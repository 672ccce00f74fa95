//! Decision logic of a batch runner for `clang-tidy`: which settings take
//! effect, which files are analysed, what each call's outcome means, and
//! what the run reports at its end.
//!
//! The library performs no input or output. Whatever the file system or a
//! child process said is handed in as plain values, and every function here
//! is proved to return what its contract states for all such values.
//!
//! - [`host`]: what the caller wrote down of the file system.
//! - [`paths`] and [`text`]: path computations and text building.
//! - [`cli`]: the settings, and the checks on paths in [`cli::utils`].
//! - [`resolve`]: the effective configuration.
//! - [`globs`]: the filters, and the files among what a search found.
//! - [`cmd`]: the executable, its version, its calls and their outcomes.
//! - [`stage`]: placing the tidy file.
//! - [`report`]: the outcomes of all files as one report.
//! - [`run`]: the whole run as a sequence of steps.

pub mod cli;
pub mod cmd;
pub mod globs;
pub mod host;
pub mod paths;
pub mod report;
pub mod resolve;
pub mod run;
pub mod stage;
pub mod text;

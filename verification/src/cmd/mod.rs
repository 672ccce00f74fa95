//! The executable: its version, the arguments it is called with, and what
//! the outcome of a call means.
//!
//! Nothing here starts a process. [`Runner::probe`] and
//! [`Runner::run_tidy`] say which call to make; [`Runner::validate`] and
//! [`Runner::run`] take what came of the call.

use vstd::prelude::*;
use crate::text::{join2, join3, join5, signed_decimal, signed_decimal_text};
use self::version::{spec_parse, Version, VersionError};

pub mod version;

verus! {

/// The lowest major version of `clang-tidy` that knows `--config-file`.
pub const CONFIG_FILE_MAJOR: u8 = 12;

/// A call of the executable that has ended.
#[derive(Debug, PartialEq, Eq)]
pub struct Output {
    /// The exit code, or `None` where a signal ended the process.
    pub status: Option<i32>,
    /// What the process wrote to its standard output.
    pub stdout: String,
    /// What the process wrote to its standard error.
    pub stderr: String,
}

/// A call to make: the program and its arguments.
#[derive(Debug, PartialEq, Eq)]
pub struct Invocation {
    pub program: String,
    pub args: Vec<String>,
}

/// An [`Invocation`] with its texts as sequences.
pub struct InvocationView {
    pub program: Seq<char>,
    pub args: Seq<Seq<char>>,
}

impl DeepView for Invocation {
    type V = InvocationView;

    open spec fn deep_view(&self) -> InvocationView {
        InvocationView { program: self.program@, args: self.args.deep_view() }
    }
}

/// How a process ended, if not well.
#[derive(Clone, Copy, Debug, PartialEq, Eq, Structural)]
pub enum StatusError {
    /// The process ended with this exit code, which is not zero.
    Code(i32),
    /// A signal ended the process.
    Signal,
}

/// What a call for one file came to.
#[derive(Debug, PartialEq, Eq)]
pub enum RunResult {
    /// The file passed.
    Pass,
    /// The file passed, with this to say.
    Warn(String),
    /// The call failed, with this to say.
    Fail(String),
}

/// A [`RunResult`] with its text as a sequence.
pub enum RunResultView {
    Pass,
    Warn(Seq<char>),
    Fail(Seq<char>),
}

/// Why the executable cannot be used.
#[derive(Debug, PartialEq, Eq)]
pub enum ProbeError {
    /// The process could not be started.
    Spawn { reason: String },
    /// The call for the version ended badly.
    Status { status: StatusError, stderr: String },
    /// The call's output holds no version.
    Version { stdout: String, error: VersionError },
}

/// A [`ProbeError`] with its texts as sequences.
pub enum ProbeErrorView {
    Spawn { reason: Seq<char> },
    Status { status: StatusError, stderr: Seq<char> },
    Version { stdout: Seq<char>, error: VersionError },
}

/// Why `--config-file` cannot be used.
#[derive(Clone, Copy, Debug, PartialEq, Eq, Structural)]
pub enum ConfigFileError {
    /// The version of the executable has not been read.
    UnknownVersion,
    /// The executable is older than [`CONFIG_FILE_MAJOR`].
    TooOld { version: Version },
}

/// The executable and, once it has been probed, its version.
#[derive(Debug)]
pub struct Runner {
    cmd: String,
    version: Option<Version>,
}

impl View for RunResult {
    type V = RunResultView;

    open spec fn view(&self) -> RunResultView {
        match *self {
            RunResult::Pass => RunResultView::Pass,
            RunResult::Warn(text) => RunResultView::Warn(text@),
            RunResult::Fail(text) => RunResultView::Fail(text@),
        }
    }
}

impl View for ProbeError {
    type V = ProbeErrorView;

    open spec fn view(&self) -> ProbeErrorView {
        match *self {
            ProbeError::Spawn { reason } => ProbeErrorView::Spawn { reason: reason@ },
            ProbeError::Status { status, stderr } => ProbeErrorView::Status {
                status,
                stderr: stderr@,
            },
            ProbeError::Version { stdout, error } => ProbeErrorView::Version {
                stdout: stdout@,
                error,
            },
        }
    }
}

impl StatusError {
    /// The text shown for the error.
    pub open spec fn spec_message(self) -> Seq<char> {
        match self {
            StatusError::Code(code) => "Process terminated with code "@ + signed_decimal(
                code as int,
            ),
            StatusError::Signal => "Process terminated by signal"@,
        }
    }

    /// The text shown for the error.
    pub fn message(&self) -> (text: String)
        ensures
            text@ == self.spec_message(),
    {
        match self {
            StatusError::Code(code) => join2(
                "Process terminated with code ",
                signed_decimal_text(*code).as_str(),
            ),
            StatusError::Signal => "Process terminated by signal".to_owned(),
        }
    }
}

impl ProbeErrorView {
    /// The text shown for the error.
    pub open spec fn message(self) -> Seq<char> {
        match self {
            ProbeErrorView::Spawn { reason } => reason,
            ProbeErrorView::Status { status, stderr } => status.spec_message() + "\n---\n"@
                + stderr,
            ProbeErrorView::Version { stdout, error } => "Failed to parse --version output "@
                + stdout + ": "@ + error.spec_message(),
        }
    }
}

impl ProbeError {
    /// The text shown for the error.
    pub fn message(&self) -> (text: String)
        ensures
            text@ == self@.message(),
    {
        match self {
            ProbeError::Spawn { reason } => reason.clone(),
            ProbeError::Status { status, stderr } => join3(
                status.message().as_str(),
                "\n---\n",
                stderr.as_str(),
            ),
            ProbeError::Version { stdout, error } => {
                let text = join2(
                    join3("Failed to parse --version output ", stdout.as_str(), ": ").as_str(),
                    error.message(),
                );
                assert(text@ =~= self@.message());
                text
            },
        }
    }
}

impl ConfigFileError {
    /// The text shown for the error.
    pub open spec fn spec_message(self) -> Seq<char> {
        match self {
            ConfigFileError::UnknownVersion =>
                "Unknown version, --config-file requires clang-tidy version 12.0.0 or higher"@,
            ConfigFileError::TooOld { version } => "Invalid version "@ + version.text()
                + ", --config-file requires clang-tidy version 12.0.0 or higher"@,
        }
    }

    /// The text shown for the error.
    pub fn message(&self) -> (text: String)
        ensures
            text@ == self.spec_message(),
    {
        match self {
            ConfigFileError::UnknownVersion => {
                "Unknown version, --config-file requires clang-tidy version 12.0.0 or higher".to_owned()
            },
            ConfigFileError::TooOld { version } => join3(
                "Invalid version ",
                version.to_text().as_str(),
                ", --config-file requires clang-tidy version 12.0.0 or higher",
            ),
        }
    }
}

/// What [`Runner::eval_status`] returns.
pub open spec fn spec_eval_status(status: Option<i32>) -> Result<(), StatusError> {
    match status {
        Some(code) => if code == 0 {
            Ok(())
        } else {
            Err(StatusError::Code(code))
        },
        None => Err(StatusError::Signal),
    }
}

/// The version that a call for the version shows, or why it shows none.
pub open spec fn spec_probe(spawned: Result<Output, String>) -> Result<Version, ProbeErrorView> {
    match spawned {
        Err(reason) => Err(ProbeErrorView::Spawn { reason: reason@ }),
        Ok(output) => match spec_eval_status(output.status) {
            Err(status) => Err(ProbeErrorView::Status { status, stderr: output.stderr@ }),
            Ok(_) => match spec_parse(output.stdout@) {
                Err(error) => Err(ProbeErrorView::Version { stdout: output.stdout@, error }),
                Ok(version) => Ok(version),
            },
        },
    }
}

/// What [`Runner::run`] returns.
pub open spec fn spec_run(spawned: Result<Output, String>, ignore_warn: bool) -> RunResultView {
    match spawned {
        Err(reason) => RunResultView::Fail(reason@),
        Ok(output) => match spec_eval_status(output.status) {
            Err(status) => if output.stderr@.len() != 0 || output.stdout@.len() != 0 {
                RunResultView::Fail(
                    status.spec_message() + "\n---\n"@ + output.stderr@ + "---\n"@
                        + output.stdout@,
                )
            } else {
                RunResultView::Fail(status.spec_message())
            },
            Ok(_) => if output.stderr@.len() != 0 && !ignore_warn {
                RunResultView::Warn(output.stderr@ + "---\n"@ + output.stdout@)
            } else {
                RunResultView::Pass
            },
        },
    }
}

/// The arguments of the call that analyses `file`.
pub open spec fn spec_tidy_args(file: Seq<char>, build_root: Seq<char>, fix: bool) -> Seq<
    Seq<char>,
> {
    if fix {
        seq![file, "-p="@ + build_root, "-fix"@, "-fix-errors"@]
    } else {
        seq![file, "-p="@ + build_root]
    }
}

/// The call that asks the executable `program` for its version.
pub open spec fn spec_probe_call(program: Seq<char>) -> InvocationView {
    InvocationView { program, args: seq!["--version"@] }
}

/// The call of the executable `program` that analyses `file`.
pub open spec fn spec_tidy_call(
    program: Seq<char>,
    file: Seq<char>,
    build_root: Seq<char>,
    fix: bool,
) -> InvocationView {
    InvocationView { program, args: spec_tidy_args(file, build_root, fix) }
}

/// What [`Runner::supports_config_file`] returns for an executable of this
/// version.
pub open spec fn spec_supports_config_file(version: Option<Version>) -> Result<
    (),
    ConfigFileError,
> {
    match version {
        None => Err(ConfigFileError::UnknownVersion),
        Some(version) => if version.major < CONFIG_FILE_MAJOR {
            Err(ConfigFileError::TooOld { version })
        } else {
            Ok(())
        },
    }
}

impl Runner {
    /// The executable, as a path or a name.
    pub closed spec fn path(&self) -> Seq<char> {
        self.cmd@
    }

    /// The version that a probe has shown.
    pub closed spec fn version(&self) -> Option<Version> {
        self.version
    }

    /// A runner for the executable `path`, whose version is not known yet.
    pub fn new(path: &str) -> (runner: Runner)
        ensures
            runner.path() == path@,
            runner.version() is None,
    {
        Runner { cmd: path.to_owned(), version: None }
    }

    /// Judges how a process ended: well with exit code 0, and badly with
    /// any other code or where a signal ended it.
    pub fn eval_status(status: Option<i32>) -> (r: Result<(), StatusError>)
        ensures
            r == spec_eval_status(status),
    {
        match status {
            Some(code) => if code == 0 {
                Ok(())
            } else {
                Err(StatusError::Code(code))
            },
            None => Err(StatusError::Signal),
        }
    }

    /// The version as text, once a probe has shown it.
    pub fn get_version(&self) -> (text: Option<String>)
        ensures
            text.deep_view() == match self.version() {
                Some(version) => Some(version.text()),
                None => None,
            },
    {
        match &self.version {
            Some(version) => Some(version.to_text()),
            None => None,
        }
    }

    /// The executable, as a path or a name.
    pub fn get_path(&self) -> (path: String)
        ensures
            path@ == self.path(),
    {
        self.cmd.clone()
    }

    /// The call that asks the executable for its version.
    pub fn probe(&self) -> (call: Invocation)
        ensures
            call.deep_view() == spec_probe_call(self.path()),
    {
        let args = vec!["--version".to_owned()];
        assert(args.deep_view() =~= seq!["--version"@]);
        Invocation { program: self.cmd.clone(), args }
    }

    /// Takes what came of the call for the version. Where the process
    /// started, ended with exit code 0 and printed a version, the runner
    /// knows that version from now on; otherwise it is left as it was.
    pub fn validate(&mut self, spawned: &Result<Output, String>) -> (r: Result<(), ProbeError>)
        ensures
            final(self).path() == old(self).path(),
            match r {
                Ok(_) => final(self).version() is Some && spec_probe(*spawned) == Ok::<
                    Version,
                    ProbeErrorView,
                >(final(self).version()->0),
                Err(e) => final(self).version() == old(self).version() && spec_probe(*spawned)
                    == Err::<Version, ProbeErrorView>(e@),
            },
    {
        let output = match spawned {
            Ok(output) => output,
            Err(reason) => {
                return Err(ProbeError::Spawn { reason: reason.clone() });
            },
        };
        if let Err(status) = Runner::eval_status(output.status) {
            return Err(ProbeError::Status { status, stderr: output.stderr.clone() });
        }
        match Version::from_str(output.stdout.as_str()) {
            Ok(version) => {
                self.version = Some(version);
                Ok(())
            },
            Err(error) => Err(ProbeError::Version { stdout: output.stdout.clone(), error }),
        }
    }

    /// Says what the call for one file came to. A process that could not
    /// be started, ended with another exit code than 0 or was ended by a
    /// signal is a failure; its text says how the process ended and holds
    /// what the process wrote. One that ended with exit code 0 is a
    /// warning where it wrote to its standard error and warnings are not
    /// ignored, and a pass otherwise.
    pub fn run(spawned: &Result<Output, String>, ignore_warn: bool) -> (r: RunResult)
        ensures
            r@ == spec_run(*spawned, ignore_warn),
    {
        let output = match spawned {
            Ok(output) => output,
            Err(reason) => {
                return RunResult::Fail(reason.clone());
            },
        };
        if let Err(status) = Runner::eval_status(output.status) {
            let head = status.message();
            if !output.stderr.as_str().is_empty() || !output.stdout.as_str().is_empty() {
                return RunResult::Fail(
                    join5(
                        head.as_str(),
                        "\n---\n",
                        output.stderr.as_str(),
                        "---\n",
                        output.stdout.as_str(),
                    ),
                );
            }
            return RunResult::Fail(head);
        }
        if !output.stderr.as_str().is_empty() && !ignore_warn {
            return RunResult::Warn(
                join3(output.stderr.as_str(), "---\n", output.stdout.as_str()),
            );
        }
        RunResult::Pass
    }

    /// The call that analyses `file` against the compilation database in
    /// `build_root`, applying fixes where `fix` is set.
    pub fn run_tidy(&self, file: &str, build_root: &str, fix: bool) -> (call: Invocation)
        ensures
            call.deep_view() == spec_tidy_call(self.path(), file@, build_root@, fix),
    {
        let mut args: Vec<String> = Vec::new();
        args.push(file.to_owned());
        args.push(join2("-p=", build_root));
        if fix {
            args.push("-fix".to_owned());
            args.push("-fix-errors".to_owned());
        }
        assert(args.deep_view() =~= spec_tidy_args(file@, build_root@, fix));
        Invocation { program: self.cmd.clone(), args }
    }

    /// Whether the executable knows `--config-file`: its version must have
    /// been read, and its major version must be at least
    /// [`CONFIG_FILE_MAJOR`].
    pub fn supports_config_file(&self) -> (r: Result<(), ConfigFileError>)
        ensures
            r == spec_supports_config_file(self.version()),
    {
        match self.version {
            None => Err(ConfigFileError::UnknownVersion),
            Some(version) => if version.major < CONFIG_FILE_MAJOR {
                Err(ConfigFileError::TooOld { version })
            } else {
                Ok(())
            },
        }
    }
}

impl Clone for Runner {
    fn clone(&self) -> (copy: Runner)
        ensures
            copy.path() == self.path(),
            copy.version() == self.version(),
    {
        Runner { cmd: self.cmd.clone(), version: self.version }
    }
}

} // verus!

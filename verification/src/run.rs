//! The run, step by step.
//!
//! A run alternates between work on the machine and decisions. The work is
//! the caller's: searching for files, starting processes, copying and
//! removing the tidy file. The decisions are made here. [`Run::start`]
//! says what to do first; the caller does it, and hands what came of it to
//! [`Run::step`], which says what to do next, until the run is finished.
//!
//! ```text
//! start -> [Discover] -> Probe -> [Inspect -> [Copy]] -> Execute -> [Remove] -> Finish
//! ```
//!
//! An error before the files are analysed ends the run at once. A file
//! that fails does not: all files are analysed, and the report names the
//! ones that failed. A tidy file that the run has copied is removed before
//! the run finishes, however it ends.

use vstd::prelude::*;
use crate::cli::Data;
use crate::cmd::version::Version;
use crate::cmd::{
    spec_probe, spec_probe_call, spec_run, spec_tidy_call, Invocation, InvocationView, Output,
    ProbeError, ProbeErrorView, Runner,
};
use crate::globs::{
    build_glob_set_from, glob_set_error, match_paths, spec_match_paths, GlobError, GlobErrorView,
};
use crate::host::Host;
use crate::report::{
    aggregate, collect_dump, spec_aggregate, spec_collect_dump, spec_shown_path, FileOutcome,
    FileOutcomeView, Report, ReportView,
};
use crate::resolve::{
    canonical_or_self, resolve, spec_resolve, EffectiveConfig, EffectiveConfigView, ResolveError,
    ResolveErrorView,
};
use crate::stage::{
    place_tidy_file, spec_place, spec_target, target, Destination, DestinationView, Placement,
    PlacementView, StageError, StageErrorView,
};
use crate::text::{join2, join3};

verus! {

/// Where a run stands: what it waits for.
#[derive(Clone, Copy, Debug, PartialEq, Eq, Structural)]
pub enum Stage {
    /// For the files that the search finds.
    Discovering,
    /// For the executable's answer to `--version`.
    Probing,
    /// For a look at the place where the tidy file goes.
    Inspecting,
    /// For the copy of the tidy file.
    Copying,
    /// For the analysis of the files.
    Executing,
    /// For the removal of the copied tidy file.
    Cleaning,
    /// For nothing: the run is finished.
    Done,
}

/// Why a run failed.
#[derive(Debug, PartialEq, Eq)]
pub enum RunError {
    /// The settings do not make an effective configuration.
    Resolve(ResolveError),
    /// A glob cannot be used.
    Glob(GlobError),
    /// The executable cannot be used.
    Command { command: String, cause: ProbeError },
    /// The tidy file cannot be placed.
    Stage(StageError),
    /// The workers could not be set up.
    Pool { reason: String },
    /// Files failed; the report names them.
    Execution { report: Report },
    /// The caller handed in something that the run did not wait for.
    Unexpected,
}

/// A [`RunError`] with its texts as sequences.
pub enum RunErrorView {
    Resolve(ResolveErrorView),
    Glob(GlobErrorView),
    Command { command: Seq<char>, cause: ProbeErrorView },
    Stage(StageErrorView),
    Pool { reason: Seq<char> },
    Execution { report: ReportView },
    Unexpected,
}

impl View for RunError {
    type V = RunErrorView;

    open spec fn view(&self) -> RunErrorView {
        match *self {
            RunError::Resolve(e) => RunErrorView::Resolve(e@),
            RunError::Glob(e) => RunErrorView::Glob(e@),
            RunError::Command { command, cause } => RunErrorView::Command {
                command: command@,
                cause: cause@,
            },
            RunError::Stage(e) => RunErrorView::Stage(e@),
            RunError::Pool { reason } => RunErrorView::Pool { reason: reason@ },
            RunError::Execution { report } => RunErrorView::Execution { report: report@ },
            RunError::Unexpected => RunErrorView::Unexpected,
        }
    }
}

impl RunErrorView {
    /// The text shown for the error.
    pub open spec fn message(self) -> Seq<char> {
        match self {
            RunErrorView::Resolve(e) => e.message(),
            RunErrorView::Glob(e) => e.message(),
            RunErrorView::Command { command, cause } => "Failed to execute the specified command '"@
                + command + "': "@ + cause.message(),
            RunErrorView::Stage(e) => e.message(),
            RunErrorView::Pool { reason } => "Failed to create thread pool: "@ + reason,
            RunErrorView::Execution { report } => "Execution failed for the following files:\n"@
                + spec_collect_dump(report.failures),
            RunErrorView::Unexpected => "The run was handed what it did not wait for"@,
        }
    }

    /// What the user is advised to do about the error.
    pub open spec fn suggestion(self) -> Option<Seq<char>> {
        match self {
            RunErrorView::Resolve(e) => e.suggestion(),
            RunErrorView::Glob(e) => Some(e.suggestion()),
            RunErrorView::Command { command, .. } => Some(
                "Please make sure that the command '"@ + command
                    + "' exists or is in your search path"@,
            ),
            RunErrorView::Stage(e) => e.suggestion(),
            RunErrorView::Pool { .. } => Some("Please try to decrease the number of jobs"@),
            RunErrorView::Execution { .. } => None,
            RunErrorView::Unexpected => None,
        }
    }
}

impl RunError {
    /// The text shown for the error.
    pub fn message(&self) -> (text: String)
        ensures
            text@ == self@.message(),
    {
        match self {
            RunError::Resolve(e) => e.message(),
            RunError::Glob(e) => e.message(),
            RunError::Command { command, cause } => {
                let text = join2(
                    join3("Failed to execute the specified command '", command.as_str(), "': ")
                        .as_str(),
                    cause.message().as_str(),
                );
                assert(text@ =~= self@.message());
                text
            },
            RunError::Stage(e) => e.message(),
            RunError::Pool { reason } => join2("Failed to create thread pool: ", reason.as_str()),
            RunError::Execution { report } => join2(
                "Execution failed for the following files:\n",
                collect_dump(&report.failures).as_str(),
            ),
            RunError::Unexpected => "The run was handed what it did not wait for".to_owned(),
        }
    }

    /// What the user is advised to do about the error.
    pub fn suggestion(&self) -> (text: Option<String>)
        ensures
            text.deep_view() == self@.suggestion(),
    {
        match self {
            RunError::Resolve(e) => e.suggestion(),
            RunError::Glob(e) => Some(e.suggestion()),
            RunError::Command { command, .. } => Some(
                join3(
                    "Please make sure that the command '",
                    command.as_str(),
                    "' exists or is in your search path",
                ),
            ),
            RunError::Stage(e) => e.suggestion(),
            RunError::Pool { .. } => Some("Please try to decrease the number of jobs".to_owned()),
            RunError::Execution { .. } => None,
            RunError::Unexpected => None,
        }
    }
}

/// The number of workers for `jobs` on a machine with `cores` logical
/// cores: as many as asked for, and as many as there are cores where
/// nothing is asked for, but never none.
pub open spec fn spec_setup_jobs(jobs: Option<u8>, cores: usize) -> usize {
    match jobs {
        Some(n) => if n == 0 {
            1usize
        } else {
            n as usize
        },
        None => if cores == 0 {
            1usize
        } else {
            cores
        },
    }
}

/// The number of workers that make the calls.
pub fn setup_jobs(jobs: Option<u8>, cores: usize) -> (workers: usize)
    ensures
        workers == spec_setup_jobs(jobs, cores),
        workers >= 1,
{
    match jobs {
        Some(n) => if n == 0 {
            1
        } else {
            n as usize
        },
        None => if cores == 0 {
            1
        } else {
            cores
        },
    }
}

/// How a run ended, with its texts as sequences.
pub open spec fn result_view(result: Result<Report, RunError>) -> Result<ReportView, RunErrorView> {
    match result {
        Ok(report) => Ok(report@),
        Err(e) => Err(e@),
    }
}

/// What the caller is to do next.
#[derive(Debug)]
pub enum Action<'a> {
    /// Search below `root` for what the `patterns` match; skip what
    /// `filter_pre` matches with all that lies below it, and drop what
    /// `filter_post` matches. Without `filter_pre`, skip hidden paths.
    Discover {
        patterns: &'a Vec<String>,
        root: &'a str,
        filter_pre: Option<Vec<globmatch::GlobSet<'a>>>,
        filter_post: Option<Vec<globmatch::GlobSet<'a>>>,
    },
    /// Ask the executable for its version.
    Probe { call: Invocation },
    /// Look whether `dst` exists and, where it does, read it and `src`.
    Inspect { src: String, dst: String },
    /// Copy `src` to `dst`.
    Copy { src: String, dst: String },
    /// Make the calls, at most `jobs` at a time, or as many at a time as
    /// the machine has cores where `jobs` is `None`.
    Execute { calls: Vec<Invocation>, jobs: Option<u8> },
    /// Remove the copied tidy file.
    Remove { path: String },
    /// Nothing more: the run has ended with `result`.
    Finish { result: Result<Report, RunError> },
}

/// An [`Action`] with its texts as sequences. Of a compiled filter it
/// keeps the number of its globs.
pub enum ActionView {
    Discover {
        patterns: Seq<Seq<char>>,
        root: Seq<char>,
        filter_pre: Option<nat>,
        filter_post: Option<nat>,
    },
    Probe { call: InvocationView },
    Inspect { src: Seq<char>, dst: Seq<char> },
    Copy { src: Seq<char>, dst: Seq<char> },
    Execute { calls: Seq<InvocationView>, jobs: Option<u8> },
    Remove { path: Seq<char> },
    Finish { result: Result<ReportView, RunErrorView> },
}

/// The number of globs of a filter.
pub open spec fn filter_size<T>(filter: Option<Vec<T>>) -> Option<nat> {
    match filter {
        Some(globs) => Some(globs@.len()),
        None => None,
    }
}

impl<'a> View for Action<'a> {
    type V = ActionView;

    open spec fn view(&self) -> ActionView {
        match *self {
            Action::Discover { patterns, root, filter_pre, filter_post } => ActionView::Discover {
                patterns: patterns.deep_view(),
                root: root@,
                filter_pre: filter_size(filter_pre),
                filter_post: filter_size(filter_post),
            },
            Action::Probe { call } => ActionView::Probe { call: call.deep_view() },
            Action::Inspect { src, dst } => ActionView::Inspect { src: src@, dst: dst@ },
            Action::Copy { src, dst } => ActionView::Copy { src: src@, dst: dst@ },
            Action::Execute { calls, jobs } => ActionView::Execute {
                calls: calls.deep_view(),
                jobs,
            },
            Action::Remove { path } => ActionView::Remove { path: path@ },
            Action::Finish { result } => ActionView::Finish { result: result_view(result) },
        }
    }
}

/// What came of the caller's work.
#[derive(Debug)]
pub enum Event {
    /// The search found the paths `found` and left out `filtered` more;
    /// `host` says what each of the paths found is.
    Discovered { found: Vec<String>, filtered: usize, host: Host },
    /// The search could not start: a pattern cannot be used.
    DiscoveryFailed { detail: String },
    /// The call for the version has been made.
    Probed { spawned: Result<Output, String> },
    /// The place where the tidy file goes has been looked at.
    Inspected { destination: Destination },
    /// The copy has been tried.
    Copied { outcome: Result<(), String> },
    /// The calls have been made; the results stand in the order of the
    /// calls.
    Executed { results: Vec<Result<Output, String>> },
    /// The workers could not be set up, and no call has been made.
    PoolFailed { reason: String },
    /// The copied tidy file is gone, or was gone already.
    Removed,
}

/// A run between two steps.
#[derive(Debug)]
pub struct Run {
    stage: Stage,
    config: EffectiveConfig,
    name: String,
    runner: Runner,
    files: Vec<String>,
    filtered: usize,
    staged: Option<String>,
    pending: Option<Result<Report, RunError>>,
}

/// A [`Run`] with its texts as sequences.
pub struct RunView {
    /// What the run waits for.
    pub stage: Stage,
    /// The settings the run goes by.
    pub config: EffectiveConfigView,
    /// The name of the configuration file.
    pub name: Seq<char>,
    /// The executable that is called.
    pub program: Seq<char>,
    /// The version of the executable, once it is known.
    pub version: Option<Version>,
    /// The files to analyse, in canonical form.
    pub files: Seq<Seq<char>>,
    /// The number of paths that the filters left out.
    pub filtered: usize,
    /// The tidy file that this run has copied and has yet to remove.
    pub staged: Option<Seq<char>>,
    /// How the run ends once the copied tidy file is removed.
    pub pending: Option<Result<ReportView, RunErrorView>>,
}

/// The copy's outcome with its text as a sequence.
pub open spec fn outcome_view(outcome: Result<(), String>) -> Result<(), Seq<char>> {
    match outcome {
        Ok(_) => Ok(()),
        Err(reason) => Err(reason@),
    }
}

/// The files to analyse among the paths `found`: the regular files, each
/// in its canonical form.
pub open spec fn spec_files(found: Seq<Seq<char>>, host: Host) -> Seq<Seq<char>> {
    spec_match_paths(found, host).map_values(|path: Seq<char>| canonical_or_self(host, path))
}

/// The calls for the files, one for each, in their order.
pub open spec fn spec_calls(
    program: Seq<char>,
    files: Seq<Seq<char>>,
    build_root: Seq<char>,
    fix: bool,
) -> Seq<InvocationView> {
    Seq::new(files.len(), |i: int| spec_tidy_call(program, files[i], build_root, fix))
}

/// The outcomes for the files, given what came of their calls.
pub open spec fn spec_outcomes(
    files: Seq<Seq<char>>,
    strip_root: Option<Seq<char>>,
    results: Seq<Result<Output, String>>,
    ignore_warn: bool,
) -> Seq<FileOutcomeView> {
    Seq::new(
        files.len(),
        |i: int|
            FileOutcomeView {
                path: spec_shown_path(files[i], strip_root),
                result: spec_run(results[i], ignore_warn),
            },
    )
}

/// How a run with this report ends.
pub open spec fn spec_verdict(report: ReportView) -> Result<ReportView, RunErrorView> {
    if report.is_success() {
        Ok(report)
    } else {
        Err(RunErrorView::Execution { report })
    }
}

impl RunView {
    /// The directory that the shown paths are relative to: the tidy root.
    pub open spec fn strip_root(self) -> Option<Seq<char>> {
        match self.config.tidy_file_and_root {
            Some((_, root)) => Some(root),
            None => None,
        }
    }

    /// On to the analysis of the files.
    pub open spec fn execute(self) -> (RunView, ActionView) {
        (
            RunView { stage: Stage::Executing, pending: None, ..self },
            ActionView::Execute {
                calls: spec_calls(
                    self.program,
                    self.files,
                    self.config.build_root,
                    self.config.fix,
                ),
                jobs: self.config.jobs,
            },
        )
    }

    /// The run ends with `result`: at once, or, where it has copied the
    /// tidy file, once that is removed.
    pub open spec fn finish(self, result: Result<ReportView, RunErrorView>) -> (
        RunView,
        ActionView,
    ) {
        match self.staged {
            Some(path) => (
                RunView { stage: Stage::Cleaning, pending: Some(result), ..self },
                ActionView::Remove { path },
            ),
            None => (
                RunView { stage: Stage::Done, pending: None, ..self },
                ActionView::Finish { result },
            ),
        }
    }

    /// The caller handed in something that the run did not wait for. A
    /// run that waits for the removal of the tidy file asks for it again;
    /// any other run ends.
    pub open spec fn unexpected(self) -> (RunView, ActionView) {
        if self.stage == Stage::Cleaning && self.staged is Some {
            (self, ActionView::Remove { path: self.staged->0 })
        } else {
            self.finish(Err(RunErrorView::Unexpected))
        }
    }

    /// The search has found `found`.
    pub open spec fn discovered(self, found: Seq<Seq<char>>, filtered: usize, host: Host) -> (
        RunView,
        ActionView,
    ) {
        if self.stage != Stage::Discovering {
            self.unexpected()
        } else {
            (
                RunView { stage: Stage::Probing, files: spec_files(found, host), filtered, ..self },
                ActionView::Probe { call: spec_probe_call(self.program) },
            )
        }
    }

    /// The search could not start.
    pub open spec fn discovery_failed(self, detail: Seq<char>) -> (RunView, ActionView) {
        if self.stage != Stage::Discovering {
            self.unexpected()
        } else {
            self.finish(
                Err(
                    RunErrorView::Glob(
                        GlobErrorView { field: "paths"@, file: self.name, detail },
                    ),
                ),
            )
        }
    }

    /// The call for the version has been made.
    pub open spec fn probed(self, spawned: Result<Output, String>) -> (RunView, ActionView) {
        if self.stage != Stage::Probing {
            self.unexpected()
        } else {
            match spec_probe(spawned) {
                Err(cause) => self.finish(
                    Err(RunErrorView::Command { command: self.program, cause }),
                ),
                Ok(version) => match self.config.tidy_file_and_root {
                    Some((src, root)) => (
                        RunView { stage: Stage::Inspecting, version: Some(version), ..self },
                        ActionView::Inspect { src, dst: spec_target(root) },
                    ),
                    None => RunView { version: Some(version), ..self }.execute(),
                },
            }
        }
    }

    /// The place where the tidy file goes has been looked at.
    pub open spec fn inspected(self, found: DestinationView) -> (RunView, ActionView) {
        if self.stage != Stage::Inspecting {
            self.unexpected()
        } else {
            match spec_place(self.config.tidy_file_and_root, found) {
                Err(e) => self.finish(Err(RunErrorView::Stage(e))),
                Ok(PlacementView::Copy { src, dst }) => (
                    RunView { stage: Stage::Copying, ..self },
                    ActionView::Copy { src, dst },
                ),
                Ok(_) => self.execute(),
            }
        }
    }

    /// The copy has been tried.
    pub open spec fn copied(self, outcome: Result<(), Seq<char>>) -> (RunView, ActionView) {
        if self.stage != Stage::Copying || self.config.tidy_file_and_root is None || self.staged
            is Some {
            self.unexpected()
        } else {
            match outcome {
                Err(reason) => self.finish(
                    Err(
                        RunErrorView::Stage(
                            StageErrorView::Copy { dst_root: self.strip_root()->0, reason },
                        ),
                    ),
                ),
                Ok(_) => RunView {
                    staged: Some(spec_target(self.strip_root()->0)),
                    ..self
                }.execute(),
            }
        }
    }

    /// The calls have been made.
    pub open spec fn executed(self, results: Seq<Result<Output, String>>) -> (
        RunView,
        ActionView,
    ) {
        if self.stage != Stage::Executing || results.len() != self.files.len() {
            self.unexpected()
        } else {
            self.finish(
                spec_verdict(
                    spec_aggregate(
                        spec_outcomes(
                            self.files,
                            self.strip_root(),
                            results,
                            self.config.ignore_warnings,
                        ),
                    ),
                ),
            )
        }
    }

    /// The workers could not be set up.
    pub open spec fn pool_failed(self, reason: Seq<char>) -> (RunView, ActionView) {
        if self.stage != Stage::Executing {
            self.unexpected()
        } else {
            self.finish(Err(RunErrorView::Pool { reason }))
        }
    }

    /// The copied tidy file is gone.
    pub open spec fn removed(self) -> (RunView, ActionView) {
        if self.stage != Stage::Cleaning {
            self.unexpected()
        } else {
            (
                RunView { stage: Stage::Done, staged: None, pending: None, ..self },
                ActionView::Finish {
                    result: match self.pending {
                        Some(result) => result,
                        None => Err(RunErrorView::Unexpected),
                    },
                },
            )
        }
    }

    /// The run after `event`, and what the caller is to do next.
    pub open spec fn step(self, event: Event) -> (RunView, ActionView) {
        match event {
            Event::Discovered { found, filtered, host } => self.discovered(
                found.deep_view(),
                filtered,
                host,
            ),
            Event::DiscoveryFailed { detail } => self.discovery_failed(detail@),
            Event::Probed { spawned } => self.probed(spawned),
            Event::Inspected { destination } => self.inspected(destination@),
            Event::Copied { outcome } => self.copied(outcome_view(outcome)),
            Event::Executed { results } => self.executed(results@),
            Event::PoolFailed { reason } => self.pool_failed(reason@),
            Event::Removed => self.removed(),
        }
    }
}

/// What [`Run::start`] returns.
pub open spec fn spec_start(data: Data, host: Host) -> Result<(RunView, ActionView), RunErrorView> {
    match spec_resolve(data, host) {
        Err(e) => Err(RunErrorView::Resolve(e)),
        Ok(config) => match glob_set_error(data.json.filter_pre.deep_view(), !host.windows) {
            Some(detail) => Err(
                RunErrorView::Glob(
                    GlobErrorView { field: "filterPre"@, file: data.json.name@, detail },
                ),
            ),
            None => match glob_set_error(data.json.filter_post.deep_view(), !host.windows) {
                Some(detail) => Err(
                    RunErrorView::Glob(
                        GlobErrorView { field: "filterPost"@, file: data.json.name@, detail },
                    ),
                ),
                None => {
                    let run = RunView {
                        stage: if data.json.paths@.len() == 0 {
                            Stage::Probing
                        } else {
                            Stage::Discovering
                        },
                        config,
                        name: data.json.name@,
                        program: config.command,
                        version: None,
                        files: Seq::empty(),
                        filtered: 0,
                        staged: None,
                        pending: None,
                    };
                    if data.json.paths@.len() == 0 {
                        Ok((run, ActionView::Probe { call: spec_probe_call(config.command) }))
                    } else {
                        Ok(
                            (
                                run,
                                ActionView::Discover {
                                    patterns: data.json.paths.deep_view(),
                                    root: data.json.root@,
                                    filter_pre: filter_size(data.json.filter_pre),
                                    filter_post: filter_size(data.json.filter_post),
                                },
                            ),
                        )
                    }
                },
            },
        },
    }
}

impl View for Run {
    type V = RunView;

    closed spec fn view(&self) -> RunView {
        RunView {
            stage: self.stage,
            config: self.config@,
            name: self.name@,
            program: self.runner.path(),
            version: self.runner.version(),
            files: self.files.deep_view(),
            filtered: self.filtered,
            staged: self.staged.deep_view(),
            pending: match self.pending {
                Some(result) => Some(result_view(result)),
                None => None,
            },
        }
    }
}

impl Run {
    /// Begins a run: settles the configuration and compiles the filters.
    /// Where that succeeds, the caller is to search for the files, or,
    /// where there is no pattern to search by, to probe the executable at
    /// once. Where it fails, nothing has been done and nothing is to be
    /// undone.
    pub fn start<'a>(data: &'a Data, host: &Host) -> (r: Result<(Run, Action<'a>), RunError>)
        ensures
            match r {
                Ok((run, action)) => spec_start(*data, *host) == Ok::<
                    (RunView, ActionView),
                    RunErrorView,
                >((run@, action@)),
                Err(e) => spec_start(*data, *host) == Err::<(RunView, ActionView), RunErrorView>(
                    e@,
                ),
            },
    {
        let config = match resolve(data, host) {
            Ok(config) => config,
            Err(e) => {
                return Err(RunError::Resolve(e));
            },
        };
        let filter_pre = match build_glob_set_from(
            &data.json.filter_pre,
            "filterPre",
            data.json.name.as_str(),
            !host.windows,
        ) {
            Ok(sets) => sets,
            Err(e) => {
                return Err(RunError::Glob(e));
            },
        };
        let filter_post = match build_glob_set_from(
            &data.json.filter_post,
            "filterPost",
            data.json.name.as_str(),
            !host.windows,
        ) {
            Ok(sets) => sets,
            Err(e) => {
                return Err(RunError::Glob(e));
            },
        };
        let runner = Runner::new(config.command.as_str());
        let search = data.json.paths.len() > 0;
        let run = Run {
            stage: if search {
                Stage::Discovering
            } else {
                Stage::Probing
            },
            config,
            name: data.json.name.clone(),
            runner,
            files: Vec::new(),
            filtered: 0,
            staged: None,
            pending: None,
        };
        assert(run@.files =~= Seq::empty());
        if search {
            let action = Action::Discover {
                patterns: &data.json.paths,
                root: data.json.root.as_str(),
                filter_pre,
                filter_post,
            };
            Ok((run, action))
        } else {
            let call = run.runner.probe();
            Ok((run, Action::Probe { call }))
        }
    }

    /// What the run waits for.
    pub fn stage(&self) -> (stage: Stage)
        ensures
            stage == self@.stage,
    {
        self.stage
    }

    /// The settings the run goes by.
    pub fn config(&self) -> (config: &EffectiveConfig)
        ensures
            config@ == self@.config,
    {
        &self.config
    }

    /// The executable, with its version once that is known.
    pub fn runner(&self) -> (runner: &Runner)
        ensures
            runner.path() == self@.program,
            runner.version() == self@.version,
    {
        &self.runner
    }

    /// The files to analyse, in canonical form.
    pub fn files(&self) -> (files: &Vec<String>)
        ensures
            files.deep_view() == self@.files,
    {
        &self.files
    }

    /// The number of paths that the filters left out.
    pub fn filtered(&self) -> (filtered: usize)
        ensures
            filtered == self@.filtered,
    {
        self.filtered
    }

    /// The directory that the shown paths are relative to.
    pub fn strip_root(&self) -> (root: Option<String>)
        ensures
            root.deep_view() == self@.strip_root(),
    {
        match &self.config.tidy_file_and_root {
            Some((_, root)) => Some(root.clone()),
            None => None,
        }
    }

    /// The tidy file that this run has copied and has yet to remove. A
    /// caller that is stopped in the middle of a run removes this file.
    pub fn staged(&self) -> (path: Option<String>)
        ensures
            path.deep_view() == self@.staged,
    {
        match &self.staged {
            Some(path) => Some(path.clone()),
            None => None,
        }
    }

    /// On to the analysis of the files.
    fn execute<'a>(self) -> (r: (Run, Action<'a>))
        ensures
            (r.0@, r.1@) == self@.execute(),
    {
        let mut run = self;
        let mut calls: Vec<Invocation> = Vec::new();
        let mut i: usize = 0;
        while i < run.files.len()
            invariant
                run == self,
                i <= run.files.len(),
                calls.len() == i,
                forall|k: int|
                    0 <= k < i ==> (#[trigger] calls[k]).deep_view() == spec_tidy_call(
                        run.runner.path(),
                        run.files[k]@,
                        run.config.build_root@,
                        run.config.fix,
                    ),
            decreases run.files.len() - i,
        {
            let call = run.runner.run_tidy(
                run.files[i].as_str(),
                run.config.build_root.as_str(),
                run.config.fix,
            );
            calls.push(call);
            i += 1;
        }
        assert(calls.deep_view() =~= spec_calls(
            self@.program,
            self@.files,
            self@.config.build_root,
            self@.config.fix,
        ));
        run.stage = Stage::Executing;
        run.pending = None;
        let jobs = run.config.jobs;
        (run, Action::Execute { calls, jobs })
    }

    /// The run ends with `result`, once the copied tidy file is removed.
    fn finish<'a>(self, result: Result<Report, RunError>) -> (r: (Run, Action<'a>))
        ensures
            (r.0@, r.1@) == self@.finish(result_view(result)),
    {
        let mut run = self;
        match &run.staged {
            Some(path) => {
                let path = path.clone();
                run.stage = Stage::Cleaning;
                run.pending = Some(result);
                (run, Action::Remove { path })
            },
            None => {
                run.stage = Stage::Done;
                run.pending = None;
                (run, Action::Finish { result })
            },
        }
    }

    /// The caller handed in something that the run did not wait for.
    fn unexpected<'a>(self) -> (r: (Run, Action<'a>))
        ensures
            (r.0@, r.1@) == self@.unexpected(),
    {
        if matches!(self.stage, Stage::Cleaning) {
            if let Some(path) = &self.staged {
                let path = path.clone();
                return (self, Action::Remove { path });
            }
        }
        self.finish(Err(RunError::Unexpected))
    }

    /// Takes what the search found: `found` are the paths that matched,
    /// `filtered` is the number of paths that the filters left out, and
    /// `host` says what each path found is. The regular files among the
    /// paths are the files to analyse. Next the executable is probed.
    pub fn discovered<'a>(self, found: &Vec<String>, filtered: usize, host: &Host) -> (r: (
        Run,
        Action<'a>,
    ))
        ensures
            (r.0@, r.1@) == self@.discovered(found.deep_view(), filtered, *host),
    {
        if !matches!(self.stage, Stage::Discovering) {
            return self.unexpected();
        }
        let kept = match_paths(found, host);
        let mut files: Vec<String> = Vec::new();
        let mut i: usize = 0;
        while i < kept.len()
            invariant
                i <= kept.len(),
                files.len() == i,
                forall|k: int|
                    0 <= k < i ==> (#[trigger] files[k])@ == canonical_or_self(*host, kept[k]@),
            decreases kept.len() - i,
        {
            let canonical = match host.canonicalize(kept[i].as_str()) {
                Some(canonical) => canonical,
                None => kept[i].clone(),
            };
            files.push(canonical);
            i += 1;
        }
        assert(files.deep_view() =~= spec_files(found.deep_view(), *host));
        let mut run = self;
        run.stage = Stage::Probing;
        run.files = files;
        run.filtered = filtered;
        let call = run.runner.probe();
        (run, Action::Probe { call })
    }

    /// Takes the reason why the search could not start. The run ends.
    pub fn discovery_failed<'a>(self, detail: &str) -> (r: (Run, Action<'a>))
        ensures
            (r.0@, r.1@) == self@.discovery_failed(detail@),
    {
        if !matches!(self.stage, Stage::Discovering) {
            return self.unexpected();
        }
        let e = GlobError {
            field: "paths".to_owned(),
            file: self.name.clone(),
            detail: detail.to_owned(),
        };
        self.finish(Err(RunError::Glob(e)))
    }

    /// Takes what came of the call for the version. An executable that
    /// does not show its version ends the run. Otherwise the tidy file is
    /// placed, where there is one, and the files are analysed.
    pub fn probed<'a>(self, spawned: &Result<Output, String>) -> (r: (Run, Action<'a>))
        ensures
            (r.0@, r.1@) == self@.probed(*spawned),
    {
        if !matches!(self.stage, Stage::Probing) {
            return self.unexpected();
        }
        let mut run = self;
        if let Err(cause) = run.runner.validate(spawned) {
            let command = run.runner.get_path();
            return run.finish(Err(RunError::Command { command, cause }));
        }
        let inspect = match &run.config.tidy_file_and_root {
            Some((src, root)) => Some((src.clone(), target(root.as_str()))),
            None => None,
        };
        match inspect {
            Some((src, dst)) => {
                run.stage = Stage::Inspecting;
                (run, Action::Inspect { src, dst })
            },
            None => run.execute(),
        }
    }

    /// Takes what was found where the tidy file goes. A file with another
    /// content, or one that cannot be read, ends the run. Otherwise the
    /// tidy file is copied, unless it is there already, and the files are
    /// analysed.
    pub fn inspected<'a>(self, found: &Destination) -> (r: (Run, Action<'a>))
        ensures
            (r.0@, r.1@) == self@.inspected(found@),
    {
        if !matches!(self.stage, Stage::Inspecting) {
            return self.unexpected();
        }
        match place_tidy_file(&self.config.tidy_file_and_root, found) {
            Err(e) => self.finish(Err(RunError::Stage(e))),
            Ok(Placement::Copy { src, dst }) => {
                let mut run = self;
                run.stage = Stage::Copying;
                (run, Action::Copy { src, dst })
            },
            Ok(_) => self.execute(),
        }
    }

    /// Takes how the copy went. A copy that failed ends the run. After a
    /// copy that succeeded the run is in charge of the copied file, and
    /// the files are analysed.
    pub fn copied<'a>(self, outcome: &Result<(), String>) -> (r: (Run, Action<'a>))
        ensures
            (r.0@, r.1@) == self@.copied(outcome_view(*outcome)),
    {
        if !matches!(self.stage, Stage::Copying) || self.staged.is_some() {
            return self.unexpected();
        }
        let root = match &self.config.tidy_file_and_root {
            Some((_, root)) => root.clone(),
            None => {
                return self.unexpected();
            },
        };
        match crate::stage::copied(root.as_str(), outcome) {
            Err(e) => self.finish(Err(RunError::Stage(e))),
            Ok(staged) => {
                let mut run = self;
                run.staged = Some(staged);
                run.execute()
            },
        }
    }

    /// Takes what came of the calls, in the order of the calls. Each file
    /// gets its outcome and the outcomes make the report. The run ends
    /// well where no file failed.
    pub fn executed<'a>(self, results: &Vec<Result<Output, String>>) -> (r: (Run, Action<'a>))
        ensures
            (r.0@, r.1@) == self@.executed(results@),
    {
        if !matches!(self.stage, Stage::Executing) || results.len() != self.files.len() {
            return self.unexpected();
        }
        let strip_root = self.strip_root();
        let mut outcomes: Vec<FileOutcome> = Vec::new();
        let mut i: usize = 0;
        while i < self.files.len()
            invariant
                i <= self.files.len(),
                results.len() == self.files.len(),
                outcomes.len() == i,
                strip_root.deep_view() == self@.strip_root(),
                forall|k: int|
                    0 <= k < i ==> (#[trigger] outcomes[k]).deep_view() == (FileOutcomeView {
                        path: spec_shown_path(self.files[k]@, self@.strip_root()),
                        result: spec_run(results[k], self.config.ignore_warnings),
                    }),
            decreases self.files.len() - i,
        {
            let outcome = FileOutcome::new(
                self.files[i].as_str(),
                &strip_root,
                &results[i],
                self.config.ignore_warnings,
            );
            outcomes.push(outcome);
            i += 1;
        }
        assert(outcomes.deep_view() =~= spec_outcomes(
            self@.files,
            self@.strip_root(),
            results@,
            self@.config.ignore_warnings,
        ));
        let report = aggregate(&outcomes);
        if report.is_success() {
            self.finish(Ok(report))
        } else {
            self.finish(Err(RunError::Execution { report }))
        }
    }

    /// Takes the reason why the workers could not be set up. The run ends.
    pub fn pool_failed<'a>(self, reason: &str) -> (r: (Run, Action<'a>))
        ensures
            (r.0@, r.1@) == self@.pool_failed(reason@),
    {
        if !matches!(self.stage, Stage::Executing) {
            return self.unexpected();
        }
        self.finish(Err(RunError::Pool { reason: reason.to_owned() }))
    }

    /// Takes the word that the copied tidy file is gone. The run is
    /// finished, with the result that it had when the removal began.
    pub fn removed<'a>(self) -> (r: (Run, Action<'a>))
        ensures
            (r.0@, r.1@) == self@.removed(),
    {
        if !matches!(self.stage, Stage::Cleaning) {
            return self.unexpected();
        }
        let mut run = self;
        let result = match run.pending.take() {
            Some(result) => result,
            None => Err(RunError::Unexpected),
        };
        run.stage = Stage::Done;
        run.staged = None;
        (run, Action::Finish { result })
    }

    /// Takes what came of the caller's work, and says what to do next.
    pub fn step<'a>(self, event: Event) -> (r: (Run, Action<'a>))
        ensures
            (r.0@, r.1@) == self@.step(event),
    {
        match event {
            Event::Discovered { found, filtered, host } => self.discovered(
                &found,
                filtered,
                &host,
            ),
            Event::DiscoveryFailed { detail } => self.discovery_failed(detail.as_str()),
            Event::Probed { spawned } => self.probed(&spawned),
            Event::Inspected { destination } => self.inspected(&destination),
            Event::Copied { outcome } => self.copied(&outcome),
            Event::Executed { results } => self.executed(&results),
            Event::PoolFailed { reason } => self.pool_failed(reason.as_str()),
            Event::Removed => self.removed(),
        }
    }
}

/// The run after the events `events`, taken one after the other.
pub open spec fn spec_after(run: RunView, events: Seq<Event>) -> RunView
    decreases events.len(),
{
    if events.len() == 0 {
        run
    } else {
        spec_after(run.step(events[0]).0, events.drop_first())
    }
}

/// What the caller is told to do after each of the events `events`.
pub open spec fn spec_actions(run: RunView, events: Seq<Event>) -> Seq<ActionView>
    decreases events.len(),
{
    if events.len() == 0 {
        Seq::empty()
    } else {
        seq![run.step(events[0]).1] + spec_actions(run.step(events[0]).0, events.drop_first())
    }
}

/// Whether a result is what a run without files may end with: a success
/// with an empty report, or an error that is not about files.
pub open spec fn is_trivial(result: Result<ReportView, RunErrorView>) -> bool {
    match result {
        Ok(report) => report == ReportView::empty(),
        Err(RunErrorView::Execution { .. }) => false,
        Err(_) => true,
    }
}

/// Whether the run's stage fits what it has in its charge: a finished run
/// has nothing to remove, and a run that waits for a removal has.
pub open spec fn is_consistent(run: RunView) -> bool {
    &&& run.stage == Stage::Done ==> run.staged is None
    &&& run.stage == Stage::Cleaning ==> run.staged is Some
}

/// Every run that a step or the start yields is consistent.
pub proof fn steps_are_consistent(run: RunView, event: Event, data: Data, host: Host)
    ensures
        is_consistent(run.step(event).0),
        spec_start(data, host) matches Ok(begun) ==> is_consistent(begun.0) && begun.0.staged
            is None,
{
}

/// A run is never finished while a tidy file that it has copied is still
/// there: the step that finishes a run leaves nothing to remove.
pub proof fn finish_leaves_nothing_staged(run: RunView, event: Event)
    ensures
        run.step(event).1 is Finish ==> run.step(event).0.staged is None,
        run.step(event).1 is Finish <==> run.step(event).0.stage == Stage::Done,
{
}

/// A copied tidy file stays in the run's charge until the caller says that
/// it is gone, and the caller is asked to remove it whenever the run
/// waits for that.
pub proof fn staged_until_removed(run: RunView, event: Event)
    requires
        run.staged is Some,
    ensures
        run.step(event).0.staged == run.staged || (run.stage == Stage::Cleaning && event is Removed
            && run.step(event).0.staged is None),
        run.step(event).0.stage == Stage::Cleaning ==> run.step(event).1 == (ActionView::Remove {
            path: run.staged->0,
        }),
{
}

/// The run takes charge of a file only when the caller has copied the tidy
/// file, which the run asks for only where no file was: what was there
/// before the run is never removed.
pub proof fn only_a_copy_stages(run: RunView, event: Event)
    requires
        run.staged is None,
        run.step(event).0.staged is Some,
    ensures
        run.stage == Stage::Copying,
        event matches Event::Copied { outcome: Ok(_) },
        run.strip_root() is Some,
        run.step(event).0.staged == Some(spec_target(run.strip_root()->0)),
        run.step(event).0.stage == Stage::Executing,
{
}

/// The copy is asked for only where the caller found no file at the
/// destination.
pub proof fn copy_needs_an_empty_place(run: RunView, event: Event)
    requires
        run.step(event).1 is Copy,
    ensures
        run.stage == Stage::Inspecting,
        event matches Event::Inspected { destination: Destination::Absent },
{
}

/// A consistent run stays consistent, whatever comes.
pub proof fn runs_stay_consistent(run: RunView, events: Seq<Event>)
    requires
        is_consistent(run),
    ensures
        is_consistent(spec_after(run, events)),
    decreases events.len(),
{
    if events.len() > 0 {
        runs_stay_consistent(run.step(events[0]).0, events.drop_first());
    }
}

/// The caller is told what to do once after each event.
pub proof fn one_action_for_each_event(run: RunView, events: Seq<Event>)
    ensures
        spec_actions(run, events).len() == events.len(),
    decreases events.len(),
{
    if events.len() > 0 {
        one_action_for_each_event(run.step(events[0]).0, events.drop_first());
    }
}

/// However a run goes on: once it is finished, it has nothing left in its
/// charge, and the caller has been asked to remove the tidy file that the
/// run had in its charge.
pub proof fn staged_file_is_removed(run: RunView, events: Seq<Event>)
    requires
        is_consistent(run),
        run.staged is Some,
        run.stage != Stage::Cleaning,
        spec_after(run, events).stage == Stage::Done,
    ensures
        spec_after(run, events).staged is None,
        exists|j: int|
            0 <= j < events.len() && #[trigger] spec_actions(run, events)[j] == (ActionView::Remove {
                path: run.staged->0,
            }),
    decreases events.len(),
{
    runs_stay_consistent(run, events);
    one_action_for_each_event(run, events);
    if events.len() > 0 {
        let next = run.step(events[0]).0;
        let rest = events.drop_first();
        staged_until_removed(run, events[0]);
        one_action_for_each_event(next, rest);
        if next.stage == Stage::Cleaning {
            assert(spec_actions(run, events)[0] == (ActionView::Remove { path: run.staged->0 }));
        } else {
            staged_file_is_removed(next, rest);
            let j = choose|j: int|
                0 <= j < rest.len() && #[trigger] spec_actions(next, rest)[j] == (
                ActionView::Remove { path: next.staged->0 });
            assert(spec_actions(run, events)[j + 1] == spec_actions(next, rest)[j]);
        }
    }
}

/// Whether an error is one that ends a run before any file is analysed.
pub open spec fn is_early(e: RunErrorView) -> bool {
    e is Resolve || e is Glob || e is Command || e is Stage
}

/// Whether the calls have been asked for: the run waits for them, or has
/// them behind it.
pub open spec fn is_past_the_calls(run: RunView) -> bool {
    &&& run.stage == Stage::Executing || run.stage == Stage::Cleaning || run.stage == Stage::Done
    &&& run.pending matches Some(Err(e)) ==> !is_early(e)
}

/// The calls are asked for only when all has gone well so far, and from
/// then on no error about the settings, the globs, the executable or the
/// tidy file ends the run: such an error ends a run before any call.
pub proof fn early_errors_precede_the_calls(run: RunView, event: Event)
    ensures
        run.step(event).1 is Execute ==> is_past_the_calls(run.step(event).0) && (run.stage
            == Stage::Probing || run.stage == Stage::Inspecting || run.stage == Stage::Copying),
        is_past_the_calls(run) ==> is_past_the_calls(run.step(event).0) && run.step(event).1
            !is Execute && (run.step(event).1 matches ActionView::Finish { result: Err(e) }
            ==> !is_early(e)),
{
}

/// Once the calls have been asked for, whatever comes, no error that
/// belongs before the calls ends the run, and the calls are not asked for
/// again.
pub proof fn no_early_error_after_the_calls(run: RunView, events: Seq<Event>)
    requires
        is_past_the_calls(run),
    ensures
        forall|j: int|
            0 <= j < events.len() ==> {
                let action = #[trigger] spec_actions(run, events)[j];
                &&& action !is Execute
                &&& action matches ActionView::Finish { result: Err(e) } ==> !is_early(e)
            },
    decreases events.len(),
{
    one_action_for_each_event(run, events);
    if events.len() > 0 {
        let next = run.step(events[0]).0;
        let rest = events.drop_first();
        early_errors_precede_the_calls(run, events[0]);
        no_early_error_after_the_calls(next, rest);
        one_action_for_each_event(next, rest);
        assert forall|j: int| 0 <= j < events.len() implies {
            let action = #[trigger] spec_actions(run, events)[j];
            &&& action !is Execute
            &&& action matches ActionView::Finish { result: Err(e) } ==> !is_early(e)
        } by {
            if j > 0 {
                assert(spec_actions(run, events)[j] == spec_actions(next, rest)[j - 1]);
            }
        }
    }
}

/// Whether a run has no files and can only end in the way of such a run.
pub open spec fn is_without_files(run: RunView) -> bool {
    &&& run.files.len() == 0
    &&& run.stage != Stage::Discovering
    &&& run.pending matches Some(result) ==> is_trivial(result)
}

/// A run without files makes no call, and no file can make it fail: it
/// stays without files, is never told to search, and where it finishes, it
/// does so with an empty report, or with an error that is not about
/// files. Told that no call was made, it ends well.
pub proof fn no_files_no_failures(run: RunView, event: Event)
    requires
        is_without_files(run),
    ensures
        is_without_files(run.step(event).0),
        run.step(event).1 !is Discover,
        run.step(event).1 matches ActionView::Execute { calls, .. } ==> calls.len() == 0,
        run.step(event).1 matches ActionView::Finish { result } ==> is_trivial(result),
        (run.stage == Stage::Executing && (event matches Event::Executed { results }
            && results@.len() == 0)) ==> (run.step(event).1 == ActionView::Finish {
            result: Ok(ReportView::empty()),
        } || run.step(event).0.pending == Some(
            Ok::<ReportView, RunErrorView>(ReportView::empty()),
        )),
{
    if let Event::Executed { results } = event {
        if run.stage == Stage::Executing && results@.len() == 0 {
            let outcomes = spec_outcomes(
                run.files,
                run.strip_root(),
                results@,
                run.config.ignore_warnings,
            );
            assert(outcomes.len() == 0);
        }
    }
}

/// No file is left out and none is counted twice: the run asks for one
/// call for each file, in the order of the files, and the report that the
/// results are gathered into counts each file once, whatever the calls
/// came to.
pub proof fn every_file_is_reported(run: RunView, results: Seq<Result<Output, String>>)
    requires
        run.stage == Stage::Executing,
        results.len() == run.files.len(),
    ensures
        run.execute().1 matches ActionView::Execute { calls, .. } && calls.len()
            == run.files.len() && (forall|i: int|
            0 <= i < calls.len() ==> (#[trigger] calls[i]).args[0] == run.files[i]),
        spec_aggregate(
            spec_outcomes(run.files, run.strip_root(), results, run.config.ignore_warnings),
        ).total() == run.files.len(),
        run.executed(results).1 matches ActionView::Finish { result: Ok(report) }
            ==> report.total() == run.files.len() && report.failures.len() == 0,
        run.executed(results).1 matches ActionView::Finish {
            result: Err(RunErrorView::Execution { report }),
        } ==> report.total() == run.files.len() && report.failures.len() > 0,
{
    crate::report::aggregation_counts_every_outcome(
        spec_outcomes(run.files, run.strip_root(), results, run.config.ignore_warnings),
    );
}

/// A run without files stays one: whatever comes, it is never told to
/// search, every call list it is handed is empty, and where it is finished
/// it is so with an empty report, or with an error that is not about
/// files.
pub proof fn runs_without_files_stay_trivial(run: RunView, events: Seq<Event>)
    requires
        is_without_files(run),
    ensures
        is_without_files(spec_after(run, events)),
        forall|j: int|
            0 <= j < events.len() ==> {
                let action = #[trigger] spec_actions(run, events)[j];
                &&& action !is Discover
                &&& action matches ActionView::Execute { calls, .. } ==> calls.len() == 0
                &&& action matches ActionView::Finish { result } ==> is_trivial(result)
            },
    decreases events.len(),
{
    one_action_for_each_event(run, events);
    if events.len() > 0 {
        let next = run.step(events[0]).0;
        let rest = events.drop_first();
        no_files_no_failures(run, events[0]);
        runs_without_files_stay_trivial(next, rest);
        one_action_for_each_event(next, rest);
        assert forall|j: int| 0 <= j < events.len() implies {
            let action = #[trigger] spec_actions(run, events)[j];
            &&& action !is Discover
            &&& action matches ActionView::Execute { calls, .. } ==> calls.len() == 0
            &&& action matches ActionView::Finish { result } ==> is_trivial(result)
        } by {
            if j > 0 {
                assert(spec_actions(run, events)[j] == spec_actions(next, rest)[j - 1]);
            }
        }
    }
}

/// A configuration without patterns finds no files and succeeds for want
/// of any: its run begins without a search, makes no call, and, unless an
/// error that has nothing to do with files ends it, finishes well with an
/// empty report.
pub proof fn empty_paths_run_is_trivial(data: Data, host: Host, events: Seq<Event>)
    requires
        data.json.paths@.len() == 0,
        spec_start(data, host) is Ok,
    ensures
        spec_start(data, host)->Ok_0.1 is Probe,
        spec_start(data, host)->Ok_0.0.files.len() == 0,
        forall|j: int|
            0 <= j < events.len() ==> {
                let action = #[trigger] spec_actions(spec_start(data, host)->Ok_0.0, events)[j];
                &&& action !is Discover
                &&& action matches ActionView::Execute { calls, .. } ==> calls.len() == 0
                &&& action matches ActionView::Finish { result } ==> is_trivial(result)
            },
{
    runs_without_files_stay_trivial(spec_start(data, host)->Ok_0.0, events);
}

/// The removal is asked for once: the run that waits for it is finished as
/// soon as the caller says that the file is gone, with the result that it
/// had when the removal began.
pub proof fn removal_finishes_the_run(run: RunView)
    requires
        run.stage == Stage::Cleaning,
        run.pending is Some,
    ensures
        run.step(Event::Removed).0.stage == Stage::Done,
        run.step(Event::Removed).0.staged is None,
        run.step(Event::Removed).1 == (ActionView::Finish { result: run.pending->0 }),
{
}

} // verus!

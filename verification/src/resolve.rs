//! Which settings take effect: the configuration file's values under the
//! command line's overrides.
//!
//! A value of the command line wins over one of the configuration file and
//! is checked at once. A value of the configuration file is resolved
//! against the file's directory, and checked only where no override
//! replaces it. A setting that neither supplies is an error where the run
//! needs it.

use vstd::prelude::*;
use crate::cli::utils::{
    dir_or_err, executable_or_exists, file_with_name_or_ext, path_or_err, spec_dir_or_err,
    spec_executable_or_exists, spec_file_with_name_or_ext, spec_path_or_err, PathError,
    PathErrorView,
};
use crate::cli::Data;
use crate::host::Host;
use crate::paths::{
    is_absolute, join, path_is_absolute, path_join, path_with_extension, with_extension,
};
use crate::text::{join2, join3, join5};

verus! {

/// A setting that both the configuration file and the command line know.
#[derive(Clone, Copy, Debug, PartialEq, Eq, Structural)]
pub enum Field {
    /// `tidyFile`, overridden by `--tidy`.
    TidyFile,
    /// `tidyRoot`.
    TidyRoot,
    /// `buildRoot`, overridden by `--build-root`.
    BuildRoot,
    /// `command`, overridden by `--command`.
    Command,
}

/// Why no effective configuration exists.
#[derive(Debug, PartialEq, Eq)]
pub enum ResolveError {
    /// A value of the configuration file `file` was turned down.
    InvalidField { field: Field, file: String, cause: PathError },
    /// A value of the command line was turned down.
    InvalidOverride { field: Field, cause: PathError },
    /// A tidy root is configured, but no tidy file.
    MissingTidyFile,
    /// A tidy file is given, but no tidy root to copy it to.
    MissingTidyRoot { tidy_file: String },
    /// Nothing names the build root.
    MissingBuildRoot,
}

/// A [`ResolveError`] with its texts as sequences.
pub enum ResolveErrorView {
    InvalidField { field: Field, file: Seq<char>, cause: PathErrorView },
    InvalidOverride { field: Field, cause: PathErrorView },
    MissingTidyFile,
    MissingTidyRoot { tidy_file: Seq<char> },
    MissingBuildRoot,
}

impl View for ResolveError {
    type V = ResolveErrorView;

    open spec fn view(&self) -> ResolveErrorView {
        match *self {
            ResolveError::InvalidField { field, file, cause } => ResolveErrorView::InvalidField {
                field,
                file: file@,
                cause: cause@,
            },
            ResolveError::InvalidOverride { field, cause } => ResolveErrorView::InvalidOverride {
                field,
                cause: cause@,
            },
            ResolveError::MissingTidyFile => ResolveErrorView::MissingTidyFile,
            ResolveError::MissingTidyRoot { tidy_file } => ResolveErrorView::MissingTidyRoot {
                tidy_file: tidy_file@,
            },
            ResolveError::MissingBuildRoot => ResolveErrorView::MissingBuildRoot,
        }
    }
}

impl Field {
    /// The setting's name in the configuration file.
    pub open spec fn spec_name(self) -> Seq<char> {
        match self {
            Field::TidyFile => "tidyFile"@,
            Field::TidyRoot => "tidyRoot"@,
            Field::BuildRoot => "buildRoot"@,
            Field::Command => "command"@,
        }
    }

    /// The option that overrides the setting; `tidyRoot` has none.
    pub open spec fn spec_option(self) -> Seq<char> {
        match self {
            Field::TidyFile => "--tidy"@,
            Field::TidyRoot => ""@,
            Field::BuildRoot => "--build-root"@,
            Field::Command => "--command"@,
        }
    }

    /// The setting's name in the configuration file.
    pub fn name(&self) -> (r: &'static str)
        ensures
            r@ == self.spec_name(),
    {
        match self {
            Field::TidyFile => "tidyFile",
            Field::TidyRoot => "tidyRoot",
            Field::BuildRoot => "buildRoot",
            Field::Command => "command",
        }
    }

    /// The option that overrides the setting; `tidyRoot` has none.
    pub fn option(&self) -> (r: &'static str)
        ensures
            r@ == self.spec_option(),
    {
        match self {
            Field::TidyFile => "--tidy",
            Field::TidyRoot => "",
            Field::BuildRoot => "--build-root",
            Field::Command => "--command",
        }
    }
}

impl ResolveErrorView {
    /// The text shown for the error.
    pub open spec fn message(self) -> Seq<char> {
        match self {
            ResolveErrorView::InvalidField { field, cause, .. } => "Invalid configuration for '"@
                + field.spec_name() + "': "@ + cause.message(),
            ResolveErrorView::InvalidOverride { field, cause } => "Invalid parameter for option "@
                + field.spec_option() + ": "@ + cause.message(),
            ResolveErrorView::MissingTidyFile =>
                "A valid tidy file must be specified for configurations with the field 'tidyRoot'"@,
            ResolveErrorView::MissingTidyRoot { tidy_file } => "Found tidy file '"@ + tidy_file
                + "' but could not find root folder configuration"@,
            ResolveErrorView::MissingBuildRoot =>
                "Build root must either be specified as command-line parameter or within the configuration file"@,
        }
    }

    /// What the user is advised to do about the error.
    pub open spec fn suggestion(self) -> Option<Seq<char>> {
        match self {
            ResolveErrorView::InvalidField { field, file, .. } => match field {
                Field::TidyRoot => Some(
                    "Please make sure that 'tidyRoot' is a valid directory and check the access permissions"@,
                ),
                Field::Command => Some(
                    "When using relative paths for the field 'command' please make sure to provide a valid path relative to the <JSON> root directory."@,
                ),
                _ => Some(
                    "Check the content of the field '"@ + field.spec_name() + "' in "@ + file
                        + "."@,
                ),
            },
            ResolveErrorView::InvalidOverride { field, .. } => match field {
                Field::TidyRoot => None,
                _ => Some(
                    "Please make sure that '"@ + field.spec_option()
                        + "' is either a valid absolute path or a valid path relative to the current working directory"@,
                ),
            },
            ResolveErrorView::MissingTidyFile => Some(
                "Specify the tidy file using the command line parameter '--tidy' or the field 'tidyFile' within the configuration file."@,
            ),
            ResolveErrorView::MissingTidyRoot { .. } => Some(
                "Please add the field 'tidyRoot' to your configuration file."@,
            ),
            ResolveErrorView::MissingBuildRoot => Some(
                "Specify the build root using the command line parameter '--build-root' or the field 'buildRoot' within the configuration file."@,
            ),
        }
    }
}

impl ResolveError {
    /// The text shown for the error.
    pub fn message(&self) -> (text: String)
        ensures
            text@ == self@.message(),
    {
        match self {
            ResolveError::InvalidField { field, cause, .. } => {
                let cause = cause.message();
                let text = join2(
                    join3("Invalid configuration for '", field.name(), "': ").as_str(),
                    cause.as_str(),
                );
                assert(text@ =~= self@.message());
                text
            },
            ResolveError::InvalidOverride { field, cause } => {
                let cause = cause.message();
                let text = join2(
                    join3("Invalid parameter for option ", field.option(), ": ").as_str(),
                    cause.as_str(),
                );
                assert(text@ =~= self@.message());
                text
            },
            ResolveError::MissingTidyFile => {
                "A valid tidy file must be specified for configurations with the field 'tidyRoot'".to_owned()
            },
            ResolveError::MissingTidyRoot { tidy_file } => join3(
                "Found tidy file '",
                tidy_file.as_str(),
                "' but could not find root folder configuration",
            ),
            ResolveError::MissingBuildRoot => {
                "Build root must either be specified as command-line parameter or within the configuration file".to_owned()
            },
        }
    }

    /// What the user is advised to do about the error: each advice names
    /// the field or the option to look at.
    pub fn suggestion(&self) -> (text: Option<String>)
        ensures
            text.deep_view() == self@.suggestion(),
    {
        match self {
            ResolveError::InvalidField { field, file, .. } => match field {
                Field::TidyRoot => Some(
                    "Please make sure that 'tidyRoot' is a valid directory and check the access permissions".to_owned(),
                ),
                Field::Command => Some(
                    "When using relative paths for the field 'command' please make sure to provide a valid path relative to the <JSON> root directory.".to_owned(),
                ),
                _ => Some(
                    join5(
                        "Check the content of the field '",
                        field.name(),
                        "' in ",
                        file.as_str(),
                        ".",
                    ),
                ),
            },
            ResolveError::InvalidOverride { field, .. } => match field {
                Field::TidyRoot => None,
                _ => Some(
                    join3(
                        "Please make sure that '",
                        field.option(),
                        "' is either a valid absolute path or a valid path relative to the current working directory",
                    ),
                ),
            },
            ResolveError::MissingTidyFile => Some(
                "Specify the tidy file using the command line parameter '--tidy' or the field 'tidyFile' within the configuration file.".to_owned(),
            ),
            ResolveError::MissingTidyRoot { .. } => Some(
                "Please add the field 'tidyRoot' to your configuration file.".to_owned(),
            ),
            ResolveError::MissingBuildRoot => Some(
                "Specify the build root using the command line parameter '--build-root' or the field 'buildRoot' within the configuration file.".to_owned(),
            ),
        }
    }
}

/// The settings a run goes by.
#[derive(Debug, PartialEq, Eq)]
pub struct EffectiveConfig {
    /// The tidy file and the directory it is copied to, both or neither.
    pub tidy_file_and_root: Option<(String, String)>,
    /// The directory that holds the compilation database.
    pub build_root: String,
    /// The executable, as a path or a name.
    pub command: String,
    /// The number of workers, never zero; `None` stands for all cores.
    pub jobs: Option<u8>,
    /// Whether the executable applies its fixes.
    pub fix: bool,
    /// Whether warnings are discarded.
    pub ignore_warnings: bool,
}

/// An [`EffectiveConfig`] with its texts as sequences.
pub struct EffectiveConfigView {
    pub tidy_file_and_root: Option<(Seq<char>, Seq<char>)>,
    pub build_root: Seq<char>,
    pub command: Seq<char>,
    pub jobs: Option<u8>,
    pub fix: bool,
    pub ignore_warnings: bool,
}

impl View for EffectiveConfig {
    type V = EffectiveConfigView;

    open spec fn view(&self) -> EffectiveConfigView {
        EffectiveConfigView {
            tidy_file_and_root: self.tidy_file_and_root.deep_view(),
            build_root: self.build_root@,
            command: self.command@,
            jobs: self.jobs,
            fix: self.fix,
            ignore_warnings: self.ignore_warnings,
        }
    }
}

/// A value of the configuration file that the command line replaced.
#[derive(Debug, PartialEq, Eq)]
pub struct Overridden {
    /// The setting.
    pub field: Field,
    /// The value in the configuration file, which does not count.
    pub configured: String,
    /// The value on the command line, which counts.
    pub given: String,
}

impl DeepView for Overridden {
    type V = (Field, Seq<char>, Seq<char>);

    open spec fn deep_view(&self) -> (Field, Seq<char>, Seq<char>) {
        (self.field, self.configured@, self.given@)
    }
}

/// The note for one setting: there is one where both the configuration
/// file and the command line supply a value.
pub open spec fn spec_overridden(
    field: Field,
    configured: Option<String>,
    given: Option<String>,
) -> Seq<(Field, Seq<char>, Seq<char>)> {
    match (configured, given) {
        (Some(configured), Some(given)) => seq![(field, configured@, given@)],
        _ => seq![],
    }
}

/// What [`overrides`] returns.
pub open spec fn spec_overrides(data: Data) -> Seq<(Field, Seq<char>, Seq<char>)> {
    spec_overridden(Field::TidyFile, data.json.tidy_file, data.tidy_file) + spec_overridden(
        Field::BuildRoot,
        data.json.build_root,
        data.build_root,
    ) + spec_overridden(Field::Command, data.json.command, data.command)
}

/// The name that the executable is looked up by where nothing names it.
pub open spec fn default_command() -> Seq<char> {
    "clang-tidy"@
}

/// The name or extension that a tidy file carries.
pub open spec fn tidy_name() -> Seq<char> {
    ".clang-tidy"@
}

/// A path of the configuration file, taken from the file's directory.
pub open spec fn configured(data: Data, path: Seq<char>) -> Seq<char> {
    path_join(data.json.root@, path)
}

/// The canonical form of a path that exists; the path itself otherwise.
pub open spec fn canonical_or_self(host: Host, path: Seq<char>) -> Seq<char> {
    match host.canonical(path) {
        Some(c) => c,
        None => path,
    }
}

/// What [`resolve_tidy_file`] returns.
pub open spec fn spec_resolve_tidy_file(data: Data, host: Host) -> Result<
    Option<Seq<char>>,
    ResolveErrorView,
> {
    match (data.json.tidy_file, data.tidy_file) {
        (_, Some(given)) => match spec_path_or_err(given@, host) {
            Err(cause) => Err(ResolveErrorView::InvalidOverride { field: Field::TidyFile, cause }),
            Ok(_) => match spec_file_with_name_or_ext(given@, tidy_name(), host) {
                Err(cause) => Err(
                    ResolveErrorView::InvalidOverride { field: Field::TidyFile, cause },
                ),
                Ok(_) => Ok(Some(canonical_or_self(host, given@))),
            },
        },
        (None, None) => Ok(None),
        (Some(path), None) => match spec_file_with_name_or_ext(
            configured(data, path@),
            tidy_name(),
            host,
        ) {
            Err(cause) => Err(
                ResolveErrorView::InvalidField {
                    field: Field::TidyFile,
                    file: data.json.name@,
                    cause,
                },
            ),
            Ok(_) => Ok(Some(canonical_or_self(host, configured(data, path@)))),
        },
    }
}

/// Where the configured tidy root lies.
pub open spec fn tidy_root_path(data: Data, path: Seq<char>) -> Seq<char> {
    if path_is_absolute(path) {
        path
    } else {
        configured(data, path)
    }
}

/// The tidy root that takes effect.
pub open spec fn spec_tidy_root(data: Data, host: Host) -> Result<
    Option<Seq<char>>,
    ResolveErrorView,
> {
    match data.json.tidy_root {
        None => Ok(None),
        Some(path) => match spec_dir_or_err(tidy_root_path(data, path@), host) {
            Err(cause) => Err(
                ResolveErrorView::InvalidField {
                    field: Field::TidyRoot,
                    file: data.json.name@,
                    cause,
                },
            ),
            Ok(_) => Ok(Some(canonical_or_self(host, tidy_root_path(data, path@)))),
        },
    }
}

/// What [`tidy_and_root`] returns.
pub open spec fn spec_tidy_and_root(data: Data, host: Host) -> Result<
    Option<(Seq<char>, Seq<char>)>,
    ResolveErrorView,
> {
    match spec_resolve_tidy_file(data, host) {
        Err(e) => Err(e),
        Ok(tidy_file) => match spec_tidy_root(data, host) {
            Err(e) => Err(e),
            Ok(tidy_root) => match (tidy_file, tidy_root) {
                (None, None) => Ok(None),
                (None, Some(_)) => Err(ResolveErrorView::MissingTidyFile),
                (Some(tidy_file), None) => Err(ResolveErrorView::MissingTidyRoot { tidy_file }),
                (Some(tidy_file), Some(tidy_root)) => Ok(Some((tidy_file, tidy_root))),
            },
        },
    }
}

/// What [`build_root`] returns.
pub open spec fn spec_build_root(data: Data, host: Host) -> Result<Seq<char>, ResolveErrorView> {
    match (data.json.build_root, data.build_root) {
        (_, Some(given)) => match spec_dir_or_err(given@, host) {
            Err(cause) => Err(ResolveErrorView::InvalidOverride { field: Field::BuildRoot, cause }),
            Ok(_) => Ok(canonical_or_self(host, given@)),
        },
        (None, None) => Err(ResolveErrorView::MissingBuildRoot),
        (Some(path), None) => match spec_dir_or_err(configured(data, path@), host) {
            Err(cause) => Err(
                ResolveErrorView::InvalidField {
                    field: Field::BuildRoot,
                    file: data.json.name@,
                    cause,
                },
            ),
            Ok(_) => Ok(canonical_or_self(host, configured(data, path@))),
        },
    }
}

/// What [`command`] returns.
pub open spec fn spec_command(data: Data, host: Host) -> Result<Seq<char>, ResolveErrorView> {
    match (data.json.command, data.command) {
        (_, Some(given)) => Ok(given@),
        (None, None) => Ok(default_command()),
        (Some(path), None) => match spec_executable_or_exists(
            path@,
            Some(data.json.root@),
            host,
        ) {
            Err(cause) => Err(
                ResolveErrorView::InvalidField {
                    field: Field::Command,
                    file: data.json.name@,
                    cause,
                },
            ),
            Ok(path) => Ok(path),
        },
    }
}

/// The number of workers asked for: at least one wherever a number is given.
pub open spec fn spec_jobs(jobs: Option<u8>) -> Option<u8> {
    match jobs {
        None => None,
        Some(n) => if n == 0 {
            Some(1u8)
        } else {
            Some(n)
        },
    }
}

/// What [`resolve`] returns.
pub open spec fn spec_resolve(data: Data, host: Host) -> Result<
    EffectiveConfigView,
    ResolveErrorView,
> {
    match spec_tidy_and_root(data, host) {
        Err(e) => Err(e),
        Ok(tidy_file_and_root) => match spec_build_root(data, host) {
            Err(e) => Err(e),
            Ok(build_root) => match spec_command(data, host) {
                Err(e) => Err(e),
                Ok(command) => Ok(
                    EffectiveConfigView {
                        tidy_file_and_root,
                        build_root,
                        command,
                        jobs: spec_jobs(data.jobs),
                        fix: data.fix,
                        ignore_warnings: data.ignore_warn,
                    },
                ),
            },
        },
    }
}

/// The canonical form of a path that a check has accepted.
fn canonical_of(host: &Host, path: &str) -> (r: String)
    ensures
        r@ == canonical_or_self(*host, path@),
{
    match host.canonicalize(path) {
        Some(c) => c,
        None => path.to_owned(),
    }
}

/// The tidy file that takes effect, in canonical form, or `None` where
/// neither the configuration file nor the command line names one.
pub fn resolve_tidy_file(data: &Data, host: &Host) -> (r: Result<Option<String>, ResolveError>)
    ensures
        match r {
            Ok(file) => spec_resolve_tidy_file(*data, *host) == Ok::<
                Option<Seq<char>>,
                ResolveErrorView,
            >(file.deep_view()),
            Err(e) => spec_resolve_tidy_file(*data, *host) == Err::<
                Option<Seq<char>>,
                ResolveErrorView,
            >(e@),
        },
{
    match &data.tidy_file {
        Some(given) => {
            if let Err(cause) = path_or_err(given.as_str(), host) {
                return Err(ResolveError::InvalidOverride { field: Field::TidyFile, cause });
            }
            match file_with_name_or_ext(given.as_str(), ".clang-tidy", host) {
                Err(cause) => Err(
                    ResolveError::InvalidOverride { field: Field::TidyFile, cause },
                ),
                Ok(_) => Ok(Some(canonical_of(host, given.as_str()))),
            }
        },
        None => match &data.json.tidy_file {
            None => Ok(None),
            Some(path) => {
                let full_path = join(data.json.root.as_str(), path.as_str());
                match file_with_name_or_ext(full_path.as_str(), ".clang-tidy", host) {
                    Err(cause) => Err(
                        ResolveError::InvalidField {
                            field: Field::TidyFile,
                            file: data.json.name.clone(),
                            cause,
                        },
                    ),
                    Ok(_) => Ok(Some(canonical_of(host, full_path.as_str()))),
                }
            },
        },
    }
}

/// The tidy root that takes effect, in canonical form.
fn resolve_tidy_root(data: &Data, host: &Host) -> (r: Result<Option<String>, ResolveError>)
    ensures
        match r {
            Ok(root) => spec_tidy_root(*data, *host) == Ok::<Option<Seq<char>>, ResolveErrorView>(
                root.deep_view(),
            ),
            Err(e) => spec_tidy_root(*data, *host) == Err::<Option<Seq<char>>, ResolveErrorView>(
                e@,
            ),
        },
{
    match &data.json.tidy_root {
        None => Ok(None),
        Some(path) => {
            let full_path = if is_absolute(path.as_str()) {
                path.clone()
            } else {
                join(data.json.root.as_str(), path.as_str())
            };
            match dir_or_err(full_path.as_str(), host) {
                Err(cause) => Err(
                    ResolveError::InvalidField {
                        field: Field::TidyRoot,
                        file: data.json.name.clone(),
                        cause,
                    },
                ),
                Ok(_) => Ok(Some(canonical_of(host, full_path.as_str()))),
            }
        },
    }
}

/// The tidy file and the directory it is to be copied to, both in
/// canonical form; `None` where neither is named. One without the other is
/// an error.
pub fn tidy_and_root(data: &Data, host: &Host) -> (r: Result<
    Option<(String, String)>,
    ResolveError,
>)
    ensures
        match r {
            Ok(pair) => spec_tidy_and_root(*data, *host) == Ok::<
                Option<(Seq<char>, Seq<char>)>,
                ResolveErrorView,
            >(pair.deep_view()),
            Err(e) => spec_tidy_and_root(*data, *host) == Err::<
                Option<(Seq<char>, Seq<char>)>,
                ResolveErrorView,
            >(e@),
        },
{
    let tidy_file = resolve_tidy_file(data, host)?;
    let tidy_root = resolve_tidy_root(data, host)?;
    match (tidy_file, tidy_root) {
        (None, None) => Ok(None),
        (None, Some(_)) => Err(ResolveError::MissingTidyFile),
        (Some(tidy_file), None) => Err(ResolveError::MissingTidyRoot { tidy_file }),
        (Some(tidy_file), Some(tidy_root)) => Ok(Some((tidy_file, tidy_root))),
    }
}

/// The build root that takes effect, in canonical form.
pub fn build_root(data: &Data, host: &Host) -> (r: Result<String, ResolveError>)
    ensures
        match r {
            Ok(path) => spec_build_root(*data, *host) == Ok::<Seq<char>, ResolveErrorView>(path@),
            Err(e) => spec_build_root(*data, *host) == Err::<Seq<char>, ResolveErrorView>(e@),
        },
{
    match &data.build_root {
        Some(given) => match dir_or_err(given.as_str(), host) {
            Err(cause) => Err(ResolveError::InvalidOverride { field: Field::BuildRoot, cause }),
            Ok(_) => Ok(canonical_of(host, given.as_str())),
        },
        None => match &data.json.build_root {
            None => Err(ResolveError::MissingBuildRoot),
            Some(path) => {
                let full_path = join(data.json.root.as_str(), path.as_str());
                match dir_or_err(full_path.as_str(), host) {
                    Err(cause) => Err(
                        ResolveError::InvalidField {
                            field: Field::BuildRoot,
                            file: data.json.name.clone(),
                            cause,
                        },
                    ),
                    Ok(_) => Ok(canonical_of(host, full_path.as_str())),
                }
            },
        },
    }
}

/// The executable that takes effect. One named on the command line is
/// taken as it is, and so is the default name; one named in the
/// configuration file must be a bare name or exist.
pub fn command(data: &Data, host: &Host) -> (r: Result<String, ResolveError>)
    ensures
        match r {
            Ok(path) => spec_command(*data, *host) == Ok::<Seq<char>, ResolveErrorView>(path@),
            Err(e) => spec_command(*data, *host) == Err::<Seq<char>, ResolveErrorView>(e@),
        },
{
    match &data.command {
        Some(given) => Ok(given.clone()),
        None => match &data.json.command {
            None => Ok("clang-tidy".to_owned()),
            Some(path) => match executable_or_exists(
                path.as_str(),
                Some(data.json.root.as_str()),
                host,
            ) {
                Err(cause) => Err(
                    ResolveError::InvalidField {
                        field: Field::Command,
                        file: data.json.name.clone(),
                        cause,
                    },
                ),
                Ok(path) => Ok(path),
            },
        },
    }
}

/// The settings that the run goes by, or the first reason why there are
/// none: the tidy file and its root first, then the build root, then the
/// executable.
pub fn resolve(data: &Data, host: &Host) -> (r: Result<EffectiveConfig, ResolveError>)
    ensures
        r matches Ok(config) ==> config.jobs != Some(0u8),
        match r {
            Ok(config) => spec_resolve(*data, *host) == Ok::<
                EffectiveConfigView,
                ResolveErrorView,
            >(config@),
            Err(e) => spec_resolve(*data, *host) == Err::<EffectiveConfigView, ResolveErrorView>(
                e@,
            ),
        },
{
    let tidy_file_and_root = tidy_and_root(data, host)?;
    let build_root = build_root(data, host)?;
    let command = command(data, host)?;
    let jobs = match data.jobs {
        None => None,
        Some(n) => if n == 0 {
            Some(1u8)
        } else {
            Some(n)
        },
    };
    Ok(
        EffectiveConfig {
            tidy_file_and_root,
            build_root,
            command,
            jobs,
            fix: data.fix,
            ignore_warnings: data.ignore_warn,
        },
    )
}

/// Adds the note for one setting to `notes`.
fn note_override(
    notes: &mut Vec<Overridden>,
    field: Field,
    configured: &Option<String>,
    given: &Option<String>,
)
    ensures
        final(notes).deep_view() == old(notes).deep_view() + spec_overridden(
            field,
            *configured,
            *given,
        ),
{
    if let Some(configured) = configured {
        if let Some(given) = given {
            notes.push(Overridden { field, configured: configured.clone(), given: given.clone() });
            assert(notes.deep_view() =~= old(notes).deep_view() + spec_overridden(
                field,
                Some(*configured),
                Some(*given),
            ));
            return ;
        }
    }
    assert(notes.deep_view() =~= old(notes).deep_view() + spec_overridden(
        field,
        *configured,
        *given,
    ));
}

/// The values of the configuration file that the command line replaces,
/// for the caller to report: no override goes unseen. The notes come in
/// the order tidy file, build root, executable.
pub fn overrides(data: &Data) -> (notes: Vec<Overridden>)
    ensures
        notes.deep_view() == spec_overrides(*data),
{
    let mut notes: Vec<Overridden> = Vec::new();
    assert(notes.deep_view() =~= Seq::<(Field, Seq<char>, Seq<char>)>::empty());
    note_override(&mut notes, Field::TidyFile, &data.json.tidy_file, &data.tidy_file);
    note_override(&mut notes, Field::BuildRoot, &data.json.build_root, &data.build_root);
    note_override(&mut notes, Field::Command, &data.json.command, &data.command);
    assert(notes.deep_view() =~= spec_overrides(*data));
    notes
}

/// Whether the configuration file or the command line names a tidy file.
pub open spec fn names_tidy_file(data: Data) -> bool {
    data.json.tidy_file is Some || data.tidy_file is Some
}

/// Whether the configuration file names a tidy root.
pub open spec fn names_tidy_root(data: Data) -> bool {
    data.json.tidy_root is Some
}

/// A tidy file on the command line that passes its checks takes effect,
/// whatever the configuration file says of the tidy file.
pub proof fn override_wins_tidy_file(data: Data, host: Host)
    requires
        data.tidy_file is Some,
        spec_path_or_err(data.tidy_file->0@, host) is Ok,
        spec_file_with_name_or_ext(data.tidy_file->0@, tidy_name(), host) is Ok,
    ensures
        spec_resolve_tidy_file(data, host) == Ok::<Option<Seq<char>>, ResolveErrorView>(
            host.canonical(data.tidy_file->0@),
        ),
{
}

/// A build root on the command line that is a directory takes effect,
/// whatever the configuration file says of the build root.
pub proof fn override_wins_build_root(data: Data, host: Host)
    requires
        data.build_root is Some,
        host.has_dir(data.build_root->0@),
    ensures
        host.canonical(data.build_root->0@) is Some,
        spec_build_root(data, host) == Ok::<Seq<char>, ResolveErrorView>(
            host.canonical(data.build_root->0@)->0,
        ),
{
}

/// An executable on the command line takes effect as it is written,
/// whatever the configuration file says of the executable.
pub proof fn override_wins_command(data: Data, host: Host)
    requires
        data.command is Some,
    ensures
        spec_command(data, host) == Ok::<Seq<char>, ResolveErrorView>(data.command->0@),
{
}

/// Under an override the configured value plays no part: two settings that
/// differ in nothing but the configuration file's tidy file, build root and
/// executable resolve alike, where the command line names all three.
pub proof fn configured_values_are_shadowed(data: Data, other: Data, host: Host)
    requires
        data.tidy_file is Some,
        data.build_root is Some,
        data.command is Some,
        other.tidy_file == data.tidy_file,
        other.build_root == data.build_root,
        other.command == data.command,
        other.jobs == data.jobs,
        other.fix == data.fix,
        other.ignore_warn == data.ignore_warn,
        other.json.tidy_root == data.json.tidy_root,
        other.json.root == data.json.root,
        other.json.name == data.json.name,
    ensures
        spec_resolve(data, host) == spec_resolve(other, host),
{
}

/// The tidy file and the tidy root come as a pair. Where each value that
/// is supplied passes its checks, resolution fails if and only if exactly
/// one of the two is named; with neither it succeeds with nothing to copy,
/// and with both it yields the pair.
pub proof fn tidy_pairing(data: Data, host: Host)
    requires
        spec_resolve_tidy_file(data, host) is Ok,
        spec_tidy_root(data, host) is Ok,
    ensures
        spec_tidy_and_root(data, host) is Err <==> (names_tidy_file(data) != names_tidy_root(data)),
        !names_tidy_file(data) && !names_tidy_root(data) ==> spec_tidy_and_root(data, host) == Ok::<
            Option<(Seq<char>, Seq<char>)>,
            ResolveErrorView,
        >(None),
        names_tidy_file(data) && names_tidy_root(data) ==> spec_tidy_and_root(data, host)
            matches Ok(Some(_)),
        names_tidy_file(data) && !names_tidy_root(data) ==> spec_tidy_and_root(data, host)
            matches Err(ResolveErrorView::MissingTidyRoot { .. }),
        !names_tidy_file(data) && names_tidy_root(data) ==> spec_tidy_and_root(data, host) == Err::<
            Option<(Seq<char>, Seq<char>)>,
            ResolveErrorView,
        >(ResolveErrorView::MissingTidyFile),
{
}

/// A value that is named and fails its checks makes resolution fail,
/// whatever else is named.
pub proof fn invalid_values_fail(data: Data, host: Host)
    requires
        spec_resolve_tidy_file(data, host) is Err || spec_tidy_root(data, host) is Err,
    ensures
        spec_tidy_and_root(data, host) is Err,
        spec_resolve(data, host) is Err,
{
}

/// Every error of resolution comes with advice for the user.
pub proof fn resolution_errors_come_with_advice(data: Data, host: Host)
    ensures
        spec_resolve(data, host) matches Err(e) ==> e.suggestion() is Some,
        spec_tidy_and_root(data, host) matches Err(e) ==> e.suggestion() is Some,
        spec_build_root(data, host) matches Err(e) ==> e.suggestion() is Some,
        spec_command(data, host) matches Err(e) ==> e.suggestion() is Some,
{
}

/// Whether resolution may ask what is at `path`.
pub open spec fn asks_about(data: Data, windows: bool, path: Seq<char>) -> bool {
    ||| data.tidy_file matches Some(given) && path == given@
    ||| data.tidy_file is None && (data.json.tidy_file matches Some(file) && path == configured(
        data,
        file@,
    ))
    ||| data.json.tidy_root matches Some(root) && path == tidy_root_path(data, root@)
    ||| data.build_root matches Some(given) && path == given@
    ||| data.build_root is None && (data.json.build_root matches Some(root) && path == configured(
        data,
        root@,
    ))
    ||| data.command is None && (data.json.command matches Some(command) && {
        ||| path == command@
        ||| path == configured(data, command@)
        ||| windows && path == path_with_extension(command@, "exe"@)
        ||| windows && path == configured(data, path_with_extension(command@, "exe"@))
    })
}

/// Adds `path` to `paths`.
fn ask(paths: &mut Vec<String>, path: String)
    ensures
        forall|p: Seq<char>|
            final(paths).deep_view().contains(p) <==> old(paths).deep_view().contains(p) || p
                == path@,
{
    let ghost before = paths.deep_view();
    paths.push(path);
    assert(paths.deep_view() =~= before.push(path@));
    assert forall|p: Seq<char>|
        paths.deep_view().contains(p) <==> before.contains(p) || p == path@ by {
        if before.contains(p) {
            let i = choose|i: int| 0 <= i < before.len() && before[i] == p;
            assert(paths.deep_view()[i] == p);
        }
        if p == path@ {
            assert(paths.deep_view()[before.len() as int] == p);
        }
    }
}

/// The paths that resolution may ask about. A caller that writes down what
/// is at each of them has a [`Host`] that serves for [`resolve`].
pub fn probe_paths(data: &Data, windows: bool) -> (paths: Vec<String>)
    ensures
        forall|path: Seq<char>|
            paths.deep_view().contains(path) <==> asks_about(*data, windows, path),
{
    let mut paths: Vec<String> = Vec::new();
    assert(paths.deep_view() =~= Seq::empty());
    let root = data.json.root.as_str();
    match &data.tidy_file {
        Some(given) => ask(&mut paths, given.clone()),
        None => match &data.json.tidy_file {
            Some(file) => ask(&mut paths, join(root, file.as_str())),
            None => {},
        },
    }
    match &data.json.tidy_root {
        Some(tidy_root) => {
            if is_absolute(tidy_root.as_str()) {
                ask(&mut paths, tidy_root.clone());
            } else {
                ask(&mut paths, join(root, tidy_root.as_str()));
            }
        },
        None => {},
    }
    match &data.build_root {
        Some(given) => ask(&mut paths, given.clone()),
        None => match &data.json.build_root {
            Some(build_root) => ask(&mut paths, join(root, build_root.as_str())),
            None => {},
        },
    }
    if data.command.is_none() {
        if let Some(command) = &data.json.command {
            ask(&mut paths, command.clone());
            ask(&mut paths, join(root, command.as_str()));
            if windows {
                proof {
                    reveal_strlit("exe");
                }
                let with_exe = with_extension(command.as_str(), "exe");
                ask(&mut paths, join(root, with_exe.as_str()));
                ask(&mut paths, with_exe);
            }
        }
    }
    paths
}

/// Resolution reads nothing but the paths it asks about: two hosts that
/// agree on the platform and on those paths give the same result.
pub proof fn resolution_reads_what_it_asks_about(data: Data, a: Host, b: Host)
    requires
        a.windows == b.windows,
        forall|path: Seq<char>|
            asks_about(data, a.windows, path) ==> a.entry(path) == b.entry(path),
    ensures
        spec_resolve(data, a) == spec_resolve(data, b),
{
    if let Some(given) = data.tidy_file {
        assert(asks_about(data, a.windows, given@));
    } else if let Some(file) = data.json.tidy_file {
        assert(asks_about(data, a.windows, configured(data, file@)));
    }
    if let Some(tidy_root) = data.json.tidy_root {
        assert(asks_about(data, a.windows, tidy_root_path(data, tidy_root@)));
    }
    if let Some(given) = data.build_root {
        assert(asks_about(data, a.windows, given@));
    } else if let Some(build_root) = data.json.build_root {
        assert(asks_about(data, a.windows, configured(data, build_root@)));
    }
    assert(spec_tidy_and_root(data, a) == spec_tidy_and_root(data, b));
    assert(spec_build_root(data, a) == spec_build_root(data, b));
    if data.command is None {
        if let Some(command) = data.json.command {
            let with_exe = path_with_extension(command@, "exe"@);
            assert(asks_about(data, a.windows, command@));
            assert(asks_about(data, a.windows, configured(data, command@)));
            if a.windows {
                assert(asks_about(data, a.windows, with_exe));
                assert(asks_about(data, a.windows, configured(data, with_exe)));
            }
        }
    }
    assert(spec_command(data, a) == spec_command(data, b));
}

} // verus!

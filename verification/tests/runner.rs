use run_clang_tidy::cmd::version::{Version, VersionError};
use run_clang_tidy::cmd::{
    ConfigFileError, Output, ProbeError, RunResult, Runner, StatusError, CONFIG_FILE_MAJOR,
};

fn output(status: Option<i32>, stdout: &str, stderr: &str) -> Result<Output, String> {
    Ok(Output { status, stdout: stdout.to_string(), stderr: stderr.to_string() })
}

fn probed(stdout: &str) -> Runner {
    let mut runner = Runner::new("clang-tidy");
    runner.validate(&output(Some(0), stdout, "")).unwrap();
    runner
}

#[test]
fn new_runner_knows_no_version() {
    let runner = Runner::new("some/path/to/clang-tidy");
    assert_eq!("some/path/to/clang-tidy", runner.get_path());
    assert_eq!(None, runner.get_version());
}

#[test]
fn eval_status_accepts_zero_only() {
    assert_eq!(Ok(()), Runner::eval_status(Some(0)));
    assert_eq!(Err(StatusError::Code(1)), Runner::eval_status(Some(1)));
    assert_eq!(Err(StatusError::Code(-1)), Runner::eval_status(Some(-1)));
    assert_eq!(Err(StatusError::Signal), Runner::eval_status(None));
}

#[test]
fn status_error_messages() {
    assert_eq!("Process terminated with code 1", StatusError::Code(1).message());
    assert_eq!("Process terminated with code 139", StatusError::Code(139).message());
    assert_eq!("Process terminated with code -1", StatusError::Code(-1).message());
    assert_eq!(
        "Process terminated with code -2147483648",
        StatusError::Code(i32::MIN).message()
    );
    assert_eq!(
        "Process terminated with code 2147483647",
        StatusError::Code(i32::MAX).message()
    );
    assert_eq!("Process terminated by signal", StatusError::Signal.message());
}

#[test]
fn probe_asks_for_the_version() {
    let call = Runner::new("/usr/bin/clang-tidy").probe();
    assert_eq!("/usr/bin/clang-tidy", call.program);
    assert_eq!(vec!["--version".to_string()], call.args);
}

#[test]
fn validate_reads_the_version() {
    let mut runner = Runner::new("clang-tidy");
    let spawned = output(Some(0), "LLVM (http://llvm.org/):\n  LLVM version 15.0.7\n", "");
    assert!(runner.validate(&spawned).is_ok());
    assert_eq!(Some("15.0.7".to_string()), runner.get_version());
    assert_eq!("clang-tidy", runner.get_path());
}

#[test]
fn validate_turns_down_a_failed_call() {
    let mut runner = probed("version 15.0.7");

    let e = runner.validate(&Err("No such file or directory (os error 2)".to_string())).unwrap_err();
    assert!(matches!(&e, ProbeError::Spawn { reason }
        if reason == "No such file or directory (os error 2)"));
    assert_eq!("No such file or directory (os error 2)", e.message());

    let e = runner.validate(&output(Some(2), "version 16.0.0", "bad option\n")).unwrap_err();
    assert!(matches!(&e, ProbeError::Status { status: StatusError::Code(2), stderr }
        if stderr == "bad option\n"));
    assert_eq!("Process terminated with code 2\n---\nbad option\n", e.message());

    let e = runner.validate(&output(None, "version 16.0.0", "")).unwrap_err();
    assert!(matches!(&e, ProbeError::Status { status: StatusError::Signal, .. }));

    let e = runner.validate(&output(Some(0), "clang-tidy 16", "")).unwrap_err();
    assert!(matches!(&e, ProbeError::Version { stdout, error: VersionError::NoMatch }
        if stdout == "clang-tidy 16"));
    assert_eq!(
        "Failed to parse --version output clang-tidy 16: Failed to match version",
        e.message()
    );

    let e = runner.validate(&output(Some(0), "version 1.2.300", "")).unwrap_err();
    assert!(matches!(&e, ProbeError::Version { error: VersionError::InvalidPatch, .. }));

    // a probe that fails leaves the runner as it was
    assert_eq!(Some("15.0.7".to_string()), runner.get_version());
}

#[test]
fn run_tidy_builds_the_call() {
    let runner = Runner::new("clang-tidy");
    let call = runner.run_tidy("/proj/src/a.c", "/proj/_bld/out", false);
    assert_eq!("clang-tidy", call.program);
    assert_eq!(vec!["/proj/src/a.c".to_string(), "-p=/proj/_bld/out".to_string()], call.args);

    let call = runner.run_tidy("/proj/src/a.c", "/proj/_bld/out", true);
    assert_eq!(
        vec![
            "/proj/src/a.c".to_string(),
            "-p=/proj/_bld/out".to_string(),
            "-fix".to_string(),
            "-fix-errors".to_string(),
        ],
        call.args
    );
}

#[test]
fn run_passes_a_quiet_success() {
    assert!(matches!(Runner::run(&output(Some(0), "", ""), false), RunResult::Pass));
    assert!(matches!(Runner::run(&output(Some(0), "notes", ""), false), RunResult::Pass));
    assert!(matches!(Runner::run(&output(Some(0), "notes", ""), true), RunResult::Pass));
}

#[test]
fn run_warns_on_standard_error() {
    let spawned = output(Some(0), "a.c:1:1: warning\n", "1 warning generated.\n");
    match Runner::run(&spawned, false) {
        RunResult::Warn(text) => {
            assert_eq!("1 warning generated.\n---\na.c:1:1: warning\n", text)
        }
        other => panic!("expected a warning, got {other:?}"),
    }
    // with warnings ignored the text is dropped
    assert!(matches!(Runner::run(&spawned, true), RunResult::Pass));
}

#[test]
fn run_fails_on_a_bad_exit() {
    match Runner::run(&output(Some(1), "out\n", "err\n"), false) {
        RunResult::Fail(text) => {
            assert_eq!("Process terminated with code 1\n---\nerr\n---\nout\n", text)
        }
        other => panic!("expected a failure, got {other:?}"),
    }
    // ignoring warnings does not turn a failure into a pass
    assert!(matches!(Runner::run(&output(Some(1), "out\n", "err\n"), true), RunResult::Fail(_)));
    // what was written to the standard output is kept even without a word on standard error
    match Runner::run(&output(Some(3), "out\n", ""), false) {
        RunResult::Fail(text) => assert_eq!("Process terminated with code 3\n---\n---\nout\n", text),
        other => panic!("expected a failure, got {other:?}"),
    }
    // a process that wrote nothing leaves only its exit to report
    match Runner::run(&output(Some(3), "", ""), false) {
        RunResult::Fail(text) => assert_eq!("Process terminated with code 3", text),
        other => panic!("expected a failure, got {other:?}"),
    }
}

#[test]
fn run_fails_on_a_signal() {
    match Runner::run(&output(None, "", ""), false) {
        RunResult::Fail(text) => assert_eq!("Process terminated by signal", text),
        other => panic!("expected a failure, got {other:?}"),
    }
    match Runner::run(&output(None, "o", "e"), true) {
        RunResult::Fail(text) => assert_eq!("Process terminated by signal\n---\ne---\no", text),
        other => panic!("expected a failure, got {other:?}"),
    }
}

#[test]
fn run_fails_where_nothing_started() {
    match Runner::run(&Err("Permission denied (os error 13)".to_string()), false) {
        RunResult::Fail(text) => assert_eq!("Permission denied (os error 13)", text),
        other => panic!("expected a failure, got {other:?}"),
    }
}

#[test]
fn supports_config_file_needs_a_recent_version() {
    assert_eq!(12, CONFIG_FILE_MAJOR);
    let unknown = Runner::new("clang-tidy");
    assert_eq!(Err(ConfigFileError::UnknownVersion), unknown.supports_config_file());
    assert_eq!(
        "Unknown version, --config-file requires clang-tidy version 12.0.0 or higher",
        ConfigFileError::UnknownVersion.message()
    );

    let old = probed("version 11.1.0");
    let too_old = ConfigFileError::TooOld { version: Version { major: 11, minor: 1, patch: 0 } };
    assert_eq!(Err(too_old), old.supports_config_file());
    assert_eq!(
        "Invalid version 11.1.0, --config-file requires clang-tidy version 12.0.0 or higher",
        too_old.message()
    );
    assert!(probed("version 9.0.0").supports_config_file().is_err());
    assert_eq!(Ok(()), probed("version 12.0.0").supports_config_file());
    assert_eq!(Ok(()), probed("version 17.0.6").supports_config_file());
}

#[test]
fn clone_keeps_path_and_version() {
    let runner = probed("version 13.0.1");
    let copy = runner.clone();
    assert_eq!(runner.get_path(), copy.get_path());
    assert_eq!(Some("13.0.1".to_string()), copy.get_version());
}

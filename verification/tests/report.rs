use std::collections::BTreeSet;

use run_clang_tidy::cmd::{Output, RunResult};
use run_clang_tidy::report::{aggregate, collect_dump, shown_path, FileOutcome, Report};

fn pass(path: &str) -> FileOutcome {
    FileOutcome { path: path.to_string(), result: RunResult::Pass }
}

fn warn(path: &str, text: &str) -> FileOutcome {
    FileOutcome { path: path.to_string(), result: RunResult::Warn(text.to_string()) }
}

fn fail(path: &str, text: &str) -> FileOutcome {
    FileOutcome { path: path.to_string(), result: RunResult::Fail(text.to_string()) }
}

fn entry(path: &str, text: &str) -> (String, String) {
    (path.to_string(), text.to_string())
}

fn copy(outcome: &FileOutcome) -> FileOutcome {
    let result = match &outcome.result {
        RunResult::Pass => RunResult::Pass,
        RunResult::Warn(text) => RunResult::Warn(text.clone()),
        RunResult::Fail(text) => RunResult::Fail(text.clone()),
    };
    FileOutcome { path: outcome.path.clone(), result }
}

fn as_sets(report: &Report) -> (usize, BTreeSet<(String, String)>, BTreeSet<(String, String)>) {
    (
        report.passed,
        report.warnings.iter().cloned().collect(),
        report.failures.iter().cloned().collect(),
    )
}

// All orders of the outcomes, by Heap's algorithm.
fn permutations(items: &mut Vec<FileOutcome>, k: usize, visit: &mut dyn FnMut(&Vec<FileOutcome>)) {
    if k <= 1 {
        visit(items);
        return;
    }
    for i in 0..k {
        permutations(items, k - 1, visit);
        if k % 2 == 0 {
            items.swap(i, k - 1);
        } else {
            items.swap(0, k - 1);
        }
    }
}

#[test]
fn aggregate_of_nothing_is_empty_and_a_success() {
    let report = aggregate(&vec![]);
    assert_eq!(0, report.passed);
    assert!(report.warnings.is_empty());
    assert!(report.failures.is_empty());
    assert!(report.is_success());
    assert_eq!(0, report.exit_code());
    assert_eq!(None, report.warning_message());
    assert_eq!(None, report.failure_message());
}

#[test]
fn aggregate_sorts_the_outcomes_by_kind() {
    let outcomes = vec![
        pass("a.c"),
        fail("b.c", "error 1"),
        warn("c.c", "warning 1"),
        pass("d.c"),
        fail("e.c", "error 2"),
        pass("f.c"),
    ];
    let report = aggregate(&outcomes);
    assert_eq!(3, report.passed);
    assert_eq!(vec![entry("c.c", "warning 1")], report.warnings);
    assert_eq!(vec![entry("b.c", "error 1"), entry("e.c", "error 2")], report.failures);
    assert!(!report.is_success());
    assert_eq!(1, report.exit_code());
    assert_eq!(outcomes.len(), report.passed + report.warnings.len() + report.failures.len());
}

#[test]
fn warnings_alone_do_not_fail_the_run() {
    let report = aggregate(&vec![warn("a.c", "w"), warn("b.c", "w"), pass("c.c")]);
    assert!(report.is_success());
    assert_eq!(0, report.exit_code());
    assert_eq!(2, report.warnings.len());
    assert_eq!(None, report.failure_message());
}

#[test]
fn one_failure_fails_the_run() {
    let report = aggregate(&vec![pass("a.c"), pass("b.c"), fail("c.c", "e")]);
    assert!(!report.is_success());
    assert_eq!(vec![entry("c.c", "e")], report.failures);
}

#[test]
fn aggregate_does_not_depend_on_the_order() {
    let mut outcomes = vec![
        pass("a.c"),
        fail("b.c", "error"),
        warn("c.c", "warning"),
        fail("b.c", "error"),
        fail("d.c", "other error"),
        warn("a.c", "warning"),
    ];
    let expected = as_sets(&aggregate(&outcomes));
    let success = aggregate(&outcomes).is_success();
    let mut count = 0;
    let n = outcomes.len();
    permutations(&mut outcomes, n, &mut |order| {
        let report = aggregate(order);
        assert_eq!(expected, as_sets(&report));
        assert_eq!(success, report.is_success());
        assert_eq!(3, report.failures.len());
        assert_eq!(2, report.warnings.len());
        count += 1;
    });
    assert_eq!(720, count);
}

#[test]
fn aggregate_may_be_done_in_parts() {
    let outcomes =
        vec![pass("a.c"), fail("b.c", "e1"), warn("c.c", "w1"), fail("d.c", "e2"), pass("e.c")];
    let whole = aggregate(&outcomes);
    for cut in 0..=outcomes.len() {
        let left = aggregate(&outcomes[..cut].iter().map(copy).collect());
        let right = aggregate(&outcomes[cut..].iter().map(copy).collect());
        assert_eq!(whole.passed, left.passed + right.passed);
        assert_eq!(whole.warnings, [left.warnings, right.warnings].concat());
        assert_eq!(whole.failures, [left.failures, right.failures].concat());
    }
}

#[test]
fn collect_dump_lists_paths_and_texts() {
    assert_eq!("", collect_dump(&vec![]));
    assert_eq!("a.c\nerror", collect_dump(&vec![entry("a.c", "error")]));
    assert_eq!(
        "a.c\nerror 1\nb.c\nerror 2\nc.c\nerror 3",
        collect_dump(&vec![entry("a.c", "error 1"), entry("b.c", "error 2"), entry("c.c", "error 3")])
    );
}

#[test]
fn report_messages() {
    let report = aggregate(&vec![fail("b.c", "error 1"), warn("c.c", "warning 1"), fail("e.c", "x")]);
    assert_eq!(
        Some("Warnings have been issued for the following files:\n\nc.c\nwarning 1".to_string()),
        report.warning_message()
    );
    assert_eq!(
        Some("Execution failed for the following files:\nb.c\nerror 1\ne.c\nx".to_string()),
        report.failure_message()
    );
}

#[test]
fn shown_path_is_relative_to_the_root() {
    assert_eq!("/proj/src/a.c", shown_path("/proj/src/a.c", &None));
    assert_eq!("src/a.c", shown_path("/proj/src/a.c", &Some("/proj".to_string())));
    assert_eq!("a.c", shown_path("/proj/src/a.c", &Some("/proj/src".to_string())));
    // a file that does not lie below the root is shown in full
    assert_eq!("/other/a.c", shown_path("/other/a.c", &Some("/proj".to_string())));
    assert_eq!("/project/a.c", shown_path("/project/a.c", &Some("/proj".to_string())));
}

#[test]
fn outcome_of_a_call() {
    let spawned = Ok(Output { status: Some(1), stdout: "o".into(), stderr: "e".into() });
    let outcome = FileOutcome::new("/proj/src/a.c", &Some("/proj".to_string()), &spawned, false);
    assert_eq!("src/a.c", outcome.path);
    assert!(matches!(&outcome.result, RunResult::Fail(text)
        if text == "Process terminated with code 1\n---\ne---\no"));

    let spawned = Ok(Output { status: Some(0), stdout: "o".into(), stderr: "e".into() });
    let outcome = FileOutcome::new("/proj/src/a.c", &None, &spawned, true);
    assert_eq!("/proj/src/a.c", outcome.path);
    assert!(matches!(outcome.result, RunResult::Pass));
}

//! The outcome of the run: what each file's call came to, gathered into
//! the files to warn about and the files that failed.
//!
//! The calls end in no particular order. What the report holds, and
//! whether the run succeeded, does not depend on that order.

use vstd::prelude::*;
use crate::cmd::{spec_run, Output, RunResult, RunResultView, Runner};
use crate::paths::{path_strip_prefix, strip_prefix};
use crate::text::join2;

verus! {

broadcast use vstd::seq_lib::group_to_multiset_ensures;

/// What came of the call for one file.
#[derive(Debug, PartialEq, Eq)]
pub struct FileOutcome {
    /// The file, as it is shown to the user.
    pub path: String,
    /// What the call came to.
    pub result: RunResult,
}

/// A [`FileOutcome`] with its texts as sequences.
pub struct FileOutcomeView {
    pub path: Seq<char>,
    pub result: RunResultView,
}

impl DeepView for FileOutcome {
    type V = FileOutcomeView;

    open spec fn deep_view(&self) -> FileOutcomeView {
        FileOutcomeView { path: self.path@, result: self.result@ }
    }
}

/// The outcome of the run.
#[derive(Debug, PartialEq, Eq)]
pub struct Report {
    /// How many files passed without a word.
    pub passed: usize,
    /// The files that passed with a warning, each with the warning.
    pub warnings: Vec<(String, String)>,
    /// The files whose call failed, each with what the call said.
    pub failures: Vec<(String, String)>,
}

/// A [`Report`] with its texts as sequences.
pub struct ReportView {
    pub passed: nat,
    pub warnings: Seq<(Seq<char>, Seq<char>)>,
    pub failures: Seq<(Seq<char>, Seq<char>)>,
}

impl View for Report {
    type V = ReportView;

    open spec fn view(&self) -> ReportView {
        ReportView {
            passed: self.passed as nat,
            warnings: self.warnings.deep_view(),
            failures: self.failures.deep_view(),
        }
    }
}

impl ReportView {
    /// The report of a run without files.
    pub open spec fn empty() -> ReportView {
        ReportView { passed: 0, warnings: Seq::empty(), failures: Seq::empty() }
    }

    /// The report with one more outcome.
    pub open spec fn with(self, outcome: FileOutcomeView) -> ReportView {
        match outcome.result {
            RunResultView::Pass => ReportView { passed: self.passed + 1, ..self },
            RunResultView::Warn(text) => ReportView {
                warnings: self.warnings.push((outcome.path, text)),
                ..self
            },
            RunResultView::Fail(text) => ReportView {
                failures: self.failures.push((outcome.path, text)),
                ..self
            },
        }
    }

    /// Two reports as one.
    pub open spec fn merge(self, other: ReportView) -> ReportView {
        ReportView {
            passed: self.passed + other.passed,
            warnings: self.warnings + other.warnings,
            failures: self.failures + other.failures,
        }
    }

    /// Whether the run succeeded: no file failed. Warnings do not count.
    pub open spec fn is_success(self) -> bool {
        self.failures.len() == 0
    }

    /// The number of outcomes that the report was made from.
    pub open spec fn total(self) -> nat {
        self.passed + self.warnings.len() + self.failures.len()
    }
}

/// What [`aggregate`] returns.
pub open spec fn spec_aggregate(outcomes: Seq<FileOutcomeView>) -> ReportView
    decreases outcomes.len(),
{
    if outcomes.len() == 0 {
        ReportView::empty()
    } else {
        spec_aggregate(outcomes.drop_last()).with(outcomes.last())
    }
}

/// The outcome that puts `entry` among the warnings.
pub open spec fn warning_of(entry: (Seq<char>, Seq<char>)) -> FileOutcomeView {
    FileOutcomeView { path: entry.0, result: RunResultView::Warn(entry.1) }
}

/// The outcome that puts `entry` among the failures.
pub open spec fn failure_of(entry: (Seq<char>, Seq<char>)) -> FileOutcomeView {
    FileOutcomeView { path: entry.0, result: RunResultView::Fail(entry.1) }
}

/// The path of `path` as it is shown: relative to `strip_root` where it
/// lies below it.
pub open spec fn spec_shown_path(path: Seq<char>, strip_root: Option<Seq<char>>) -> Seq<char> {
    match strip_root {
        None => path,
        Some(root) => match path_strip_prefix(path, root) {
            Some(rest) => rest,
            None => path,
        },
    }
}

/// The entries one below the other: each path, and below it its text.
pub open spec fn spec_collect_dump(items: Seq<(Seq<char>, Seq<char>)>) -> Seq<char>
    decreases items.len(),
{
    if items.len() == 0 {
        Seq::empty()
    } else if items.len() == 1 {
        items[0].0 + "\n"@ + items[0].1
    } else {
        spec_collect_dump(items.drop_last()) + "\n"@ + items.last().0 + "\n"@ + items.last().1
    }
}

/// The path of `path` as it is shown to the user.
pub fn shown_path(path: &str, strip_root: &Option<String>) -> (shown: String)
    ensures
        shown@ == spec_shown_path(path@, strip_root.deep_view()),
{
    match strip_root {
        None => path.to_owned(),
        Some(root) => match strip_prefix(path, root.as_str()) {
            Some(rest) => rest,
            None => path.to_owned(),
        },
    }
}

impl FileOutcome {
    /// The outcome for `path`, given what came of its call.
    pub fn new(
        path: &str,
        strip_root: &Option<String>,
        spawned: &Result<Output, String>,
        ignore_warn: bool,
    ) -> (outcome: FileOutcome)
        ensures
            outcome.path@ == spec_shown_path(path@, strip_root.deep_view()),
            outcome.result@ == spec_run(*spawned, ignore_warn),
    {
        FileOutcome { path: shown_path(path, strip_root), result: Runner::run(spawned, ignore_warn) }
    }
}

/// Gathers the outcomes into a report: the files that passed are counted,
/// the others are kept with what was said of them, in the order in which
/// they came.
pub fn aggregate(outcomes: &Vec<FileOutcome>) -> (report: Report)
    ensures
        report@ == spec_aggregate(outcomes.deep_view()),
{
    let mut report = Report { passed: 0, warnings: Vec::new(), failures: Vec::new() };
    let mut i: usize = 0;
    assert(report.warnings.deep_view() =~= Seq::empty());
    assert(report.failures.deep_view() =~= Seq::empty());
    assert(outcomes.deep_view().take(0) =~= Seq::empty());
    while i < outcomes.len()
        invariant
            i <= outcomes.len(),
            report@ == spec_aggregate(outcomes.deep_view().take(i as int)),
            report@.total() == i,
        decreases outcomes.len() - i,
    {
        let ghost before = report@;
        let ghost seen = outcomes.deep_view().take(i as int);
        let outcome = &outcomes[i];
        proof {
            let next = outcomes.deep_view().take(i + 1);
            assert(next.drop_last() =~= seen);
            assert(next.last() == outcome.deep_view());
        }
        match &outcome.result {
            RunResult::Pass => {
                report.passed = report.passed + 1;
            },
            RunResult::Warn(text) => {
                report.warnings.push((outcome.path.clone(), text.clone()));
                assert(report.warnings.deep_view() =~= before.warnings.push(
                    (outcome.path@, text@),
                ));
            },
            RunResult::Fail(text) => {
                report.failures.push((outcome.path.clone(), text.clone()));
                assert(report.failures.deep_view() =~= before.failures.push(
                    (outcome.path@, text@),
                ));
            },
        }
        assert(report@ == before.with(outcome.deep_view()));
        i += 1;
    }
    assert(outcomes.deep_view().take(i as int) =~= outcomes.deep_view());
    report
}

/// Writes the entries one below the other: each path, and below it its
/// text.
pub fn collect_dump(items: &Vec<(String, String)>) -> (text: String)
    ensures
        text@ == spec_collect_dump(items.deep_view()),
{
    let mut text = String::new();
    let mut i: usize = 0;
    assert(items.deep_view().take(0) =~= Seq::empty());
    while i < items.len()
        invariant
            i <= items.len(),
            text@ == spec_collect_dump(items.deep_view().take(i as int)),
        decreases items.len() - i,
    {
        proof {
            let next = items.deep_view().take(i + 1);
            assert(next.drop_last() =~= items.deep_view().take(i as int));
            assert(next.last() == items[i as int].deep_view());
            if i == 0 {
                assert(text@ =~= Seq::empty());
            }
        }
        let ghost before = text@;
        if i > 0 {
            text.append("\n");
        }
        text.append(items[i].0.as_str());
        text.append("\n");
        text.append(items[i].1.as_str());
        assert(text@ =~= spec_collect_dump(items.deep_view().take(i + 1))) by {
            let next = items.deep_view().take(i + 1);
            if i == 0 {
                assert(text@ =~= next[0].0 + "\n"@ + next[0].1);
            } else {
                assert(text@ =~= before + "\n"@ + next.last().0 + "\n"@ + next.last().1);
            }
        }
        i += 1;
    }
    assert(items.deep_view().take(i as int) =~= items.deep_view());
    text
}

impl Report {
    /// Whether the run succeeded: no file failed. Warnings do not count.
    pub fn is_success(&self) -> (r: bool)
        ensures
            r == self@.is_success(),
    {
        self.failures.len() == 0
    }

    /// The exit status of the run: 0 where it succeeded, 1 where a file
    /// failed.
    pub fn exit_code(&self) -> (code: i32)
        ensures
            code == if self@.is_success() {
                0i32
            } else {
                1i32
            },
    {
        if self.is_success() {
            0
        } else {
            1
        }
    }

    /// The text that lists the files with warnings, where there are any.
    pub fn warning_message(&self) -> (text: Option<String>)
        ensures
            text.deep_view() == if self@.warnings.len() == 0 {
                None
            } else {
                Some(
                    "Warnings have been issued for the following files:\n\n"@ + spec_collect_dump(
                        self@.warnings,
                    ),
                )
            },
    {
        if self.warnings.len() == 0 {
            None
        } else {
            Some(
                join2(
                    "Warnings have been issued for the following files:\n\n",
                    collect_dump(&self.warnings).as_str(),
                ),
            )
        }
    }

    /// The text that lists the files that failed, where there are any.
    pub fn failure_message(&self) -> (text: Option<String>)
        ensures
            text.deep_view() == if self@.is_success() {
                None
            } else {
                Some(
                    "Execution failed for the following files:\n"@ + spec_collect_dump(
                        self@.failures,
                    ),
                )
            },
    {
        if self.failures.len() == 0 {
            None
        } else {
            Some(
                join2(
                    "Execution failed for the following files:\n",
                    collect_dump(&self.failures).as_str(),
                ),
            )
        }
    }
}

/// Every outcome is counted once: as passed, as a warning or as a failure.
pub proof fn aggregation_counts_every_outcome(outcomes: Seq<FileOutcomeView>)
    ensures
        spec_aggregate(outcomes).total() == outcomes.len(),
    decreases outcomes.len(),
{
    if outcomes.len() > 0 {
        aggregation_counts_every_outcome(outcomes.drop_last());
    }
}

/// An entry is among the warnings as often as its outcome is among the
/// outcomes, and so for the failures.
pub proof fn aggregation_keeps_entries(outcomes: Seq<FileOutcomeView>, entry: (Seq<char>, Seq<char>))
    ensures
        spec_aggregate(outcomes).warnings.to_multiset().count(entry)
            == outcomes.to_multiset().count(warning_of(entry)),
        spec_aggregate(outcomes).failures.to_multiset().count(entry)
            == outcomes.to_multiset().count(failure_of(entry)),
    decreases outcomes.len(),
{
    if outcomes.len() == 0 {
        assert(outcomes.to_multiset().len() == 0);
        assert(spec_aggregate(outcomes).warnings.to_multiset().len() == 0);
        assert(spec_aggregate(outcomes).failures.to_multiset().len() == 0);
    } else {
        let rest = outcomes.drop_last();
        let last = outcomes.last();
        aggregation_keeps_entries(rest, entry);
        assert(outcomes =~= rest.push(last));
        assert(outcomes.to_multiset() =~= rest.to_multiset().insert(last));
        match last.result {
            RunResultView::Pass => {},
            RunResultView::Warn(text) => {
                assert(spec_aggregate(outcomes).warnings.to_multiset() =~= spec_aggregate(
                    rest,
                ).warnings.to_multiset().insert((last.path, text)));
                assert(last == warning_of((last.path, text)));
            },
            RunResultView::Fail(text) => {
                assert(spec_aggregate(outcomes).failures.to_multiset() =~= spec_aggregate(
                    rest,
                ).failures.to_multiset().insert((last.path, text)));
                assert(last == failure_of((last.path, text)));
            },
        }
    }
}

/// The order of the outcomes does not matter. Two runs whose outcomes are
/// the same but for their order warn about the same files and fail for the
/// same files, as often and with the same texts, count the same number of
/// passes, and agree on whether the run succeeded.
pub proof fn aggregation_ignores_order(a: Seq<FileOutcomeView>, b: Seq<FileOutcomeView>)
    requires
        a.to_multiset() == b.to_multiset(),
    ensures
        spec_aggregate(a).warnings.to_multiset() == spec_aggregate(b).warnings.to_multiset(),
        spec_aggregate(a).failures.to_multiset() == spec_aggregate(b).failures.to_multiset(),
        spec_aggregate(a).warnings.to_set() == spec_aggregate(b).warnings.to_set(),
        spec_aggregate(a).failures.to_set() == spec_aggregate(b).failures.to_set(),
        spec_aggregate(a).passed == spec_aggregate(b).passed,
        spec_aggregate(a).is_success() == spec_aggregate(b).is_success(),
{
    let ra = spec_aggregate(a);
    let rb = spec_aggregate(b);
    assert forall|entry: (Seq<char>, Seq<char>)|
        ra.warnings.to_multiset().count(entry) == rb.warnings.to_multiset().count(entry)
        && ra.failures.to_multiset().count(entry) == rb.failures.to_multiset().count(entry) by {
        aggregation_keeps_entries(a, entry);
        aggregation_keeps_entries(b, entry);
    }
    assert(ra.warnings.to_multiset() =~= rb.warnings.to_multiset());
    assert(ra.failures.to_multiset() =~= rb.failures.to_multiset());
    assert(ra.warnings.len() == rb.warnings.len()) by {
        assert(ra.warnings.to_multiset().len() == rb.warnings.to_multiset().len());
    }
    assert(ra.failures.len() == rb.failures.len()) by {
        assert(ra.failures.to_multiset().len() == rb.failures.to_multiset().len());
    }
    assert(a.len() == b.len()) by {
        a.to_multiset_ensures();
        b.to_multiset_ensures();
    }
    aggregation_counts_every_outcome(a);
    aggregation_counts_every_outcome(b);
    assert(ra.warnings.to_set() =~= rb.warnings.to_set()) by {
        assert forall|entry: (Seq<char>, Seq<char>)|
            ra.warnings.to_set().contains(entry) == rb.warnings.to_set().contains(entry) by {
            assert(ra.warnings.contains(entry) <==> ra.warnings.to_multiset().count(entry) > 0);
            assert(rb.warnings.contains(entry) <==> rb.warnings.to_multiset().count(entry) > 0);
        }
    }
    assert(ra.failures.to_set() =~= rb.failures.to_set()) by {
        assert forall|entry: (Seq<char>, Seq<char>)|
            ra.failures.to_set().contains(entry) == rb.failures.to_set().contains(entry) by {
            assert(ra.failures.contains(entry) <==> ra.failures.to_multiset().count(entry) > 0);
            assert(rb.failures.contains(entry) <==> rb.failures.to_multiset().count(entry) > 0);
        }
    }
}

/// The outcomes may be gathered in parts: the report of two runs of
/// outcomes in a row is the two reports as one.
pub proof fn aggregation_splits(a: Seq<FileOutcomeView>, b: Seq<FileOutcomeView>)
    ensures
        spec_aggregate(a + b) == spec_aggregate(a).merge(spec_aggregate(b)),
    decreases b.len(),
{
    if b.len() == 0 {
        assert(a + b =~= a);
        assert(spec_aggregate(a).merge(spec_aggregate(b)).warnings =~= spec_aggregate(a).warnings);
        assert(spec_aggregate(a).merge(spec_aggregate(b)).failures =~= spec_aggregate(a).failures);
    } else {
        aggregation_splits(a, b.drop_last());
        assert((a + b).drop_last() =~= a + b.drop_last());
        assert((a + b).last() == b.last());
        let left = spec_aggregate(a);
        let right = spec_aggregate(b.drop_last());
        match b.last().result {
            RunResultView::Pass => {},
            RunResultView::Warn(text) => {
                assert((left.warnings + right.warnings).push((b.last().path, text))
                    =~= left.warnings + right.warnings.push((b.last().path, text)));
            },
            RunResultView::Fail(text) => {
                assert((left.failures + right.failures).push((b.last().path, text))
                    =~= left.failures + right.failures.push((b.last().path, text)));
            },
        }
    }
}

} // verus!

//! Outcomes of test files and of whole suites, and the reporters that render
//! the events of a run.
use vstd::prelude::*;

use crate::reports::config::{hides, Config, Format};
use crate::json::{json_text, render_json, JsonValue};
use crate::reports::codec::{encode_file_report, file_json_is, file_of_json};
use crate::text::{decimal, join, joined, push_decimal, split_lines, text_lines};

pub mod codec;
pub mod config;

verus! {

/// One named assertion within a test.
#[derive(Debug, Clone, PartialEq, Eq)]
pub struct CheckReport {
    pub name: String,
    pub success: bool,
    pub failure: Option<String>,
    pub location: String,
}

/// One test, named by its path through the groups that hold it.
#[derive(Debug, Clone, PartialEq, Eq)]
pub struct TestReport {
    pub success: bool,
    pub path: Vec<String>,
    pub location: String,
    pub checks: Vec<CheckReport>,
}

/// A file whose evaluation finished and produced its tests.
#[derive(Debug, Clone, PartialEq, Eq)]
pub struct TestFileCompletedReport {
    pub tests: Vec<TestReport>,
    pub file: String,
    pub elapsed: u128,
}

/// A file whose evaluation could not be run or whose result could not be read.
#[derive(Debug, Clone, PartialEq, Eq)]
pub struct TestFileErroredReport {
    pub file: String,
    pub error: String,
    pub elapsed: u128,
}

/// A file whose evaluation was stopped at its deadline.
#[derive(Debug, Clone, PartialEq, Eq)]
pub struct TestFileTimedOutReport {
    pub file: String,
    pub timeout: u64,
    pub elapsed: u128,
}

/// The terminal result of evaluating one file.
#[derive(Debug, Clone, PartialEq, Eq)]
pub enum TestFileReport {
    Completed(TestFileCompletedReport),
    Errored(TestFileErroredReport),
    TimedOut(TestFileTimedOutReport),
}

/// What a check holds.
pub struct CheckModel {
    pub name: Seq<char>,
    pub success: bool,
    pub failure: Option<Seq<char>>,
    pub location: Seq<char>,
}

/// What a test holds.
pub struct TestModel {
    pub success: bool,
    pub path: Seq<Seq<char>>,
    pub location: Seq<char>,
    pub checks: Seq<CheckModel>,
}

/// What a file outcome holds.
pub enum FileModel {
    Completed { tests: Seq<TestModel>, file: Seq<char>, elapsed: u128 },
    Errored { file: Seq<char>, error: Seq<char>, elapsed: u128 },
    TimedOut { file: Seq<char>, timeout: u64, elapsed: u128 },
}

impl View for CheckReport {
    type V = CheckModel;

    open spec fn view(&self) -> CheckModel {
        CheckModel {
            name: self.name@,
            success: self.success,
            failure: opt_view(self.failure),
            location: self.location@,
        }
    }
}

pub open spec fn strings_view(v: Seq<String>) -> Seq<Seq<char>> {
    v.map_values(|s: String| s@)
}

pub open spec fn checks_view(v: Seq<CheckReport>) -> Seq<CheckModel> {
    v.map_values(|c: CheckReport| c@)
}

impl View for TestReport {
    type V = TestModel;

    open spec fn view(&self) -> TestModel {
        TestModel {
            success: self.success,
            path: strings_view(self.path@),
            location: self.location@,
            checks: checks_view(self.checks@),
        }
    }
}

pub open spec fn tests_view(v: Seq<TestReport>) -> Seq<TestModel> {
    v.map_values(|t: TestReport| t@)
}

impl View for TestFileReport {
    type V = FileModel;

    open spec fn view(&self) -> FileModel {
        match self {
            TestFileReport::Completed(c) => FileModel::Completed {
                tests: tests_view(c.tests@),
                file: c.file@,
                elapsed: c.elapsed,
            },
            TestFileReport::Errored(e) => FileModel::Errored {
                file: e.file@,
                error: e.error@,
                elapsed: e.elapsed,
            },
            TestFileReport::TimedOut(t) => FileModel::TimedOut {
                file: t.file@,
                timeout: t.timeout,
                elapsed: t.elapsed,
            },
        }
    }
}

/// Number of failed checks among `checks`.
pub open spec fn failed_checks(checks: Seq<CheckReport>) -> nat
    decreases checks.len(),
{
    if checks.len() == 0 {
        0
    } else {
        failed_checks(checks.drop_last()) + if checks.last().success {
            0nat
        } else {
            1nat
        }
    }
}

/// Number of failed checks over all of `tests`.
pub open spec fn failed_in_tests(tests: Seq<TestReport>) -> nat
    decreases tests.len(),
{
    if tests.len() == 0 {
        0
    } else {
        failed_in_tests(tests.drop_last()) + failed_checks(tests.last().checks@)
    }
}

/// Counts the failed checks of a list of checks.
fn count_failed_checks(checks: &Vec<CheckReport>) -> (r: usize)
    ensures
        r == failed_checks(checks@),
{
    let mut n: usize = 0;
    let mut i: usize = 0;
    while i < checks.len()
        invariant
            i <= checks.len(),
            n == failed_checks(checks@.take(i as int)),
            n <= i,
        decreases checks.len() - i,
    {
        assert(checks@.take(i + 1).drop_last() =~= checks@.take(i as int));
        if !checks[i].success {
            n = n + 1;
        }
        i = i + 1;
    }
    assert(checks@.take(i as int) =~= checks@);
    n
}

impl TestFileCompletedReport {
    /// Total number of failed checks in the file.
    pub fn failed_count(&self) -> (r: u128)
        ensures
            r == failed_in_tests(self.tests@),
    {
        let mut n: u128 = 0;
        let mut i: usize = 0;
        while i < self.tests.len()
            invariant
                i <= self.tests.len(),
                n == failed_in_tests(self.tests@.take(i as int)),
                n <= i * 0xffff_ffff_ffff_ffffnat,
            decreases self.tests.len() - i,
        {
            assert(self.tests@.take(i + 1).drop_last() =~= self.tests@.take(i as int));
            let c = count_failed_checks(&self.tests[i].checks);
            proof {
                let m = 0xffff_ffff_ffff_ffffnat;
                assert((i + 1) * m <= m * m) by (nonlinear_arith)
                    requires
                        i + 1 <= m,
                ;
                assert(i * m + m == (i + 1) * m) by (nonlinear_arith);
            }
            n = n + c as u128;
            i = i + 1;
        }
        assert(self.tests@.take(i as int) =~= self.tests@);
        n
    }
}

/// A file that completed with no failed check.
pub open spec fn succeeded(r: TestFileReport) -> bool {
    match r {
        TestFileReport::Completed(c) => failed_in_tests(c.tests@) == 0,
        _ => false,
    }
}

/// A file that completed with at least one failed check.
pub open spec fn failed(r: TestFileReport) -> bool {
    match r {
        TestFileReport::Completed(c) => failed_in_tests(c.tests@) > 0,
        _ => false,
    }
}

pub open spec fn errored(r: TestFileReport) -> bool {
    r is Errored
}

pub open spec fn timed_out(r: TestFileReport) -> bool {
    r is TimedOut
}

/// A file outcome that makes the suite fail.
pub open spec fn is_issue(r: TestFileReport) -> bool {
    failed(r) || errored(r) || timed_out(r)
}

/// Number of outcomes in `s` of which `p` holds.
pub open spec fn count_where(s: Seq<TestFileReport>, p: spec_fn(TestFileReport) -> bool) -> nat
    decreases s.len(),
{
    if s.len() == 0 {
        0
    } else {
        count_where(s.drop_last(), p) + if p(s.last()) {
            1nat
        } else {
            0nat
        }
    }
}

pub proof fn lemma_count_where_bound(s: Seq<TestFileReport>, p: spec_fn(TestFileReport) -> bool)
    ensures
        count_where(s, p) <= s.len(),
    decreases s.len(),
{
    if s.len() > 0 {
        lemma_count_where_bound(s.drop_last(), p);
    }
}

pub open spec fn succeeded_count(s: Seq<TestFileReport>) -> nat {
    count_where(s, |x: TestFileReport| succeeded(x))
}

pub open spec fn failed_count_of(s: Seq<TestFileReport>) -> nat {
    count_where(s, |x: TestFileReport| failed(x))
}

pub open spec fn errored_count(s: Seq<TestFileReport>) -> nat {
    count_where(s, |x: TestFileReport| errored(x))
}

pub open spec fn timed_out_count(s: Seq<TestFileReport>) -> nat {
    count_where(s, |x: TestFileReport| timed_out(x))
}

/// Whether some outcome in `s` makes the suite fail.
pub open spec fn any_issue(s: Seq<TestFileReport>) -> bool {
    exists|i: int| 0 <= i < s.len() && is_issue(#[trigger] s[i])
}

/// The outcomes of every evaluated file of a run and the run's duration.
#[derive(Clone, PartialEq, Eq, Debug)]
pub struct TestSuiteReport {
    pub reports: Vec<TestFileReport>,
    pub elapsed: u128,
}

impl TestFileReport {
    pub fn is_succeeded(&self) -> (r: bool)
        ensures
            r == succeeded(*self),
    {
        match self {
            TestFileReport::Completed(c) => c.failed_count() == 0,
            _ => false,
        }
    }

    pub fn is_failed(&self) -> (r: bool)
        ensures
            r == failed(*self),
    {
        match self {
            TestFileReport::Completed(c) => c.failed_count() > 0,
            _ => false,
        }
    }

    pub fn is_errored(&self) -> (r: bool)
        ensures
            r == errored(*self),
    {
        match self {
            TestFileReport::Errored(_) => true,
            _ => false,
        }
    }

    pub fn is_timed_out(&self) -> (r: bool)
        ensures
            r == timed_out(*self),
    {
        match self {
            TestFileReport::TimedOut(_) => true,
            _ => false,
        }
    }
}

impl TestSuiteReport {
    pub fn new(reports: Vec<TestFileReport>, elapsed: u128) -> (r: Self)
        ensures
            r.reports@ == reports@,
            r.elapsed == elapsed,
    {
        Self { reports, elapsed }
    }

    /// Number of evaluated files.
    pub fn processed_files(&self) -> (r: usize)
        ensures
            r == self.reports@.len(),
    {
        self.reports.len()
    }

    /// Number of files that completed with no failed check.
    pub fn succeeded_files(&self) -> (r: usize)
        ensures
            r == succeeded_count(self.reports@),
    {
        let ghost p = |x: TestFileReport| succeeded(x);
        let mut n: usize = 0;
        let mut i: usize = 0;
        while i < self.reports.len()
            invariant
                i <= self.reports.len(),
                n == count_where(self.reports@.take(i as int), p),
                p == (|x: TestFileReport| succeeded(x)),
            decreases self.reports.len() - i,
        {
            assert(self.reports@.take(i + 1).drop_last() =~= self.reports@.take(i as int));
            proof {
                lemma_count_where_bound(self.reports@.take(i as int), p);
            }
            if self.reports[i].is_succeeded() {
                n = n + 1;
            }
            i = i + 1;
        }
        assert(self.reports@.take(i as int) =~= self.reports@);
        n
    }

    /// Number of files that completed with at least one failed check.
    pub fn failed_files(&self) -> (r: usize)
        ensures
            r == failed_count_of(self.reports@),
    {
        let ghost p = |x: TestFileReport| failed(x);
        let mut n: usize = 0;
        let mut i: usize = 0;
        while i < self.reports.len()
            invariant
                i <= self.reports.len(),
                n == count_where(self.reports@.take(i as int), p),
                p == (|x: TestFileReport| failed(x)),
            decreases self.reports.len() - i,
        {
            assert(self.reports@.take(i + 1).drop_last() =~= self.reports@.take(i as int));
            proof {
                lemma_count_where_bound(self.reports@.take(i as int), p);
            }
            if self.reports[i].is_failed() {
                n = n + 1;
            }
            i = i + 1;
        }
        assert(self.reports@.take(i as int) =~= self.reports@);
        n
    }

    /// Number of files whose evaluation errored.
    pub fn errored_files(&self) -> (r: usize)
        ensures
            r == errored_count(self.reports@),
    {
        let ghost p = |x: TestFileReport| errored(x);
        let mut n: usize = 0;
        let mut i: usize = 0;
        while i < self.reports.len()
            invariant
                i <= self.reports.len(),
                n == count_where(self.reports@.take(i as int), p),
                p == (|x: TestFileReport| errored(x)),
            decreases self.reports.len() - i,
        {
            assert(self.reports@.take(i + 1).drop_last() =~= self.reports@.take(i as int));
            proof {
                lemma_count_where_bound(self.reports@.take(i as int), p);
            }
            if self.reports[i].is_errored() {
                n = n + 1;
            }
            i = i + 1;
        }
        assert(self.reports@.take(i as int) =~= self.reports@);
        n
    }

    /// Number of files whose evaluation was stopped at its deadline.
    pub fn timed_out_files(&self) -> (r: usize)
        ensures
            r == timed_out_count(self.reports@),
    {
        let ghost p = |x: TestFileReport| timed_out(x);
        let mut n: usize = 0;
        let mut i: usize = 0;
        while i < self.reports.len()
            invariant
                i <= self.reports.len(),
                n == count_where(self.reports@.take(i as int), p),
                p == (|x: TestFileReport| timed_out(x)),
            decreases self.reports.len() - i,
        {
            assert(self.reports@.take(i + 1).drop_last() =~= self.reports@.take(i as int));
            proof {
                lemma_count_where_bound(self.reports@.take(i as int), p);
            }
            if self.reports[i].is_timed_out() {
                n = n + 1;
            }
            i = i + 1;
        }
        assert(self.reports@.take(i as int) =~= self.reports@);
        n
    }

    /// Wall-clock duration of the run, in milliseconds.
    pub fn total_elapsed(&self) -> (r: u128)
        ensures
            r == self.elapsed,
    {
        self.elapsed
    }

    /// Whether some file failed, errored or timed out.
    pub fn has_issues(&self) -> (r: bool)
        ensures
            r == any_issue(self.reports@),
    {
        let mut i: usize = 0;
        while i < self.reports.len()
            invariant
                i <= self.reports.len(),
                forall|j: int| 0 <= j < i ==> !is_issue(#[trigger] self.reports@[j]),
            decreases self.reports.len() - i,
        {
            let r = &self.reports[i];
            if r.is_failed() || r.is_errored() || r.is_timed_out() {
                return true;
            }
            i = i + 1;
        }
        false
    }
}

/// A suite with no outcomes has no issues.
pub proof fn lemma_empty_suite_has_no_issues()
    ensures
        !any_issue(Seq::<TestFileReport>::empty()),
{
}

/// A suite has issues exactly when some file failed, errored or timed out,
/// that is when those three counts are not all zero.
pub proof fn lemma_issues_iff_counts(s: Seq<TestFileReport>)
    ensures
        any_issue(s) <==> failed_count_of(s) + errored_count(s) + timed_out_count(s) > 0,
    decreases s.len(),
{
    if s.len() > 0 {
        lemma_issues_iff_counts(s.drop_last());
        if any_issue(s.drop_last()) {
            let i = choose|i: int| 0 <= i < s.drop_last().len() && is_issue(#[trigger] s.drop_last()[i]);
            assert(is_issue(s[i]));
        }
        if any_issue(s) {
            let i = choose|i: int| 0 <= i < s.len() && is_issue(#[trigger] s[i]);
            if i < s.len() - 1 {
                assert(is_issue(s.drop_last()[i]));
            }
        }
        if is_issue(s.last()) {
            assert(is_issue(s[s.len() - 1]));
        }
    }
}

/// An event of a run, in the order the run emits them.
#[derive(Debug, PartialEq, Eq, Clone)]
pub enum ReportEvent {
    TestFileNotFound(String),
    TestFileInvalid(String),
    TestFileCompleted(TestFileReport),
    TestSuiteCompleted(TestSuiteReport),
}

/// Turns events into messages; `None` prints nothing.
pub trait Reporter {
    /// Whether `m` is a message this reporter may give for `e`.
    spec fn message_ok(&self, e: ReportEvent, m: Option<Seq<char>>) -> bool;

    fn on(&self, report_event: &ReportEvent) -> (r: Option<String>)
        ensures
            self.message_ok(*report_event, opt_view(r)),
    ;
}

pub open spec fn opt_view(o: Option<String>) -> Option<Seq<char>> {
    match o {
        Some(s) => Some(s@),
        None => None,
    }
}

/// The failure lines of a check, each indented under its heading.
pub open spec fn indented(lines: Seq<Seq<char>>) -> Seq<char>
    decreases lines.len(),
{
    if lines.len() == 0 {
        Seq::empty()
    } else {
        indented(lines.drop_last()) + "      "@ + lines.last() + "\n"@
    }
}

/// The lines for one check of the test at `path`.
pub open spec fn check_text(path: Seq<char>, c: CheckReport) -> Seq<char> {
    if c.success {
        "✓ "@ + path + " -> "@ + c.name@ + "\n"@
    } else {
        "✗ "@ + path + " -> "@ + c.name@ + "\n"@ + match c.failure {
            Some(f) => "    Failure:\n"@ + indented(text_lines(f@)) + "      at "@ + c.location@
                + "\n"@,
            None => "    Failed at "@ + c.location@ + "\n"@,
        }
    }
}

pub open spec fn checks_text(path: Seq<char>, checks: Seq<CheckReport>) -> Seq<char>
    decreases checks.len(),
{
    if checks.len() == 0 {
        Seq::empty()
    } else {
        checks_text(path, checks.drop_last()) + check_text(path, checks.last())
    }
}

pub open spec fn test_path_text(t: TestReport) -> Seq<char> {
    joined(t.path@, " -> "@)
}

pub open spec fn tests_text(tests: Seq<TestReport>) -> Seq<char>
    decreases tests.len(),
{
    if tests.len() == 0 {
        Seq::empty()
    } else {
        tests_text(tests.drop_last()) + checks_text(test_path_text(tests.last()), tests.last().checks@)
    }
}

pub open spec fn file_header(file: Seq<char>, elapsed: u128) -> Seq<char> {
    "File: "@ + file + " ("@ + decimal(elapsed as nat) + "ms)\n"@
}

/// The human rendering of one file outcome.
pub open spec fn file_text(r: TestFileReport) -> Seq<char> {
    match r {
        TestFileReport::Completed(c) => {
            let n = failed_in_tests(c.tests@);
            file_header(c.file@, c.elapsed) + tests_text(c.tests@) + (if n > 0 {
                "FAILED ("@ + decimal(n) + " failed)\n"@
            } else {
                Seq::empty()
            }) + "\n"@
        },
        TestFileReport::Errored(e) => file_header(e.file@, e.elapsed) + "ERROR: "@ + e.error@
            + "\n"@,
        TestFileReport::TimedOut(t) => file_header(t.file@, t.elapsed) + "TIMEOUT: Exceeded "@
            + decimal(t.timeout as nat) + "ms limit\n"@ + "\n"@,
    }
}

pub open spec fn count_line(n: nat, what: Seq<char>) -> Seq<char> {
    if n > 0 {
        decimal(n) + what
    } else {
        Seq::empty()
    }
}

/// The human rendering of the suite summary.
pub open spec fn suite_text(s: TestSuiteReport) -> Seq<char> {
    let rs = s.reports@;
    if rs.len() == 0 {
        "No test files found\n"@
    } else if failed_count_of(rs) == 0 && errored_count(rs) == 0 && timed_out_count(rs) == 0 {
        "All tests passed ("@ + decimal(s.elapsed as nat) + "ms)\n"@
    } else {
        decimal(succeeded_count(rs)) + " file(s) succeeded\n"@ + count_line(
            errored_count(rs),
            " file(s) had errors\n"@,
        ) + count_line(failed_count_of(rs), " file(s) failed\n"@) + count_line(
            timed_out_count(rs),
            " file(s) timed out\n"@,
        ) + "Total time: "@ + decimal(s.elapsed as nat) + "ms\n"@
    }
}

/// What the human reporter prints for an event under `config`: warnings for
/// skipped paths, the file's text unless `config` hides it, and the summary
/// always.
pub open spec fn human_message(config: Config, e: ReportEvent) -> Option<Seq<char>> {
    match e {
        ReportEvent::TestFileNotFound(p) => Some("Warning: '"@ + p@ + "' is not found, skipping.\n"@),
        ReportEvent::TestFileInvalid(p) => Some(
            "Warning: '"@ + p@ + "' is not a test file, skipping.\n"@,
        ),
        ReportEvent::TestFileCompleted(r) => if hides(config, r) {
            None
        } else {
            Some(file_text(r))
        },
        ReportEvent::TestSuiteCompleted(s) => Some(suite_text(s)),
    }
}

fn push_failure(out: &mut String, failure: &String)
    ensures
        final(out)@ == old(out)@ + indented(text_lines(failure@)),
{
    let lines = split_lines(failure.as_str());
    let ghost views = lines@.map_values(|l: String| l@);
    let ghost start = out@;
    let mut i: usize = 0;
    while i < lines.len()
        invariant
            i <= lines.len(),
            views == lines@.map_values(|l: String| l@),
            out@ == start + indented(views.take(i as int)),
        decreases lines.len() - i,
    {
        assert(views.take(i + 1).drop_last() =~= views.take(i as int));
        out.append("      ");
        out.append(lines[i].as_str());
        out.append("\n");
        assert(out@ =~= start + indented(views.take(i + 1)));
        i = i + 1;
    }
    assert(views.take(i as int) =~= views);
}

fn push_check(out: &mut String, path: &str, c: &CheckReport)
    ensures
        final(out)@ == old(out)@ + check_text(path@, *c),
{
    let ghost start = out@;
    if c.success {
        out.append("✓ ");
    } else {
        out.append("✗ ");
    }
    out.append(path);
    out.append(" -> ");
    out.append(c.name.as_str());
    out.append("\n");
    if !c.success {
        match &c.failure {
            Some(f) => {
                out.append("    Failure:\n");
                push_failure(out, f);
                out.append("      at ");
                out.append(c.location.as_str());
                out.append("\n");
            },
            None => {
                out.append("    Failed at ");
                out.append(c.location.as_str());
                out.append("\n");
            },
        }
    }
    assert(out@ =~= start + check_text(path@, *c));
}

fn push_tests(out: &mut String, tests: &Vec<TestReport>)
    ensures
        final(out)@ == old(out)@ + tests_text(tests@),
{
    let ghost start = out@;
    let mut i: usize = 0;
    while i < tests.len()
        invariant
            i <= tests.len(),
            out@ == start + tests_text(tests@.take(i as int)),
        decreases tests.len() - i,
    {
        assert(tests@.take(i + 1).drop_last() =~= tests@.take(i as int));
        let test = &tests[i];
        let path = join(&test.path, " -> ");
        let ghost mid = out@;
        let mut j: usize = 0;
        while j < test.checks.len()
            invariant
                j <= test.checks.len(),
                out@ == mid + checks_text(path@, test.checks@.take(j as int)),
            decreases test.checks.len() - j,
        {
            assert(test.checks@.take(j + 1).drop_last() =~= test.checks@.take(j as int));
            push_check(out, path.as_str(), &test.checks[j]);
            assert(out@ =~= mid + checks_text(path@, test.checks@.take(j + 1)));
            j = j + 1;
        }
        assert(test.checks@.take(j as int) =~= test.checks@);
        assert(out@ =~= start + tests_text(tests@.take(i + 1)));
        i = i + 1;
    }
    assert(tests@.take(i as int) =~= tests@);
}

fn push_header(out: &mut String, file: &String, elapsed: u128)
    ensures
        final(out)@ == old(out)@ + file_header(file@, elapsed),
{
    let ghost start = out@;
    out.append("File: ");
    out.append(file.as_str());
    out.append(" (");
    push_decimal(out, elapsed);
    out.append("ms)\n");
    assert(out@ =~= start + file_header(file@, elapsed));
}

fn push_count_line(out: &mut String, n: usize, what: &str)
    ensures
        final(out)@ == old(out)@ + count_line(n as nat, what@),
{
    let ghost start = out@;
    if n > 0 {
        push_decimal(out, n as u128);
        out.append(what);
    }
    assert(out@ =~= start + count_line(n as nat, what@));
}

/// Renders events as text for a terminal.
pub struct HumanReporter {
    pub config: Config,
}

impl HumanReporter {
    pub fn new(config: Config) -> (r: Self)
        ensures
            r.config == config,
    {
        Self { config }
    }

    /// The text of one file outcome.
    pub fn format_report(&self, result: &TestFileReport) -> (r: String)
        ensures
            r@ == file_text(*result),
    {
        let mut output = String::new();
        match result {
            TestFileReport::Completed(report) => {
                push_header(&mut output, &report.file, report.elapsed);
                push_tests(&mut output, &report.tests);
                let n = report.failed_count();
                if n > 0 {
                    output.append("FAILED (");
                    push_decimal(&mut output, n);
                    output.append(" failed)\n");
                }
                output.append("\n");
            },
            TestFileReport::Errored(report) => {
                push_header(&mut output, &report.file, report.elapsed);
                output.append("ERROR: ");
                output.append(report.error.as_str());
                output.append("\n");
            },
            TestFileReport::TimedOut(report) => {
                push_header(&mut output, &report.file, report.elapsed);
                output.append("TIMEOUT: Exceeded ");
                push_decimal(&mut output, report.timeout as u128);
                output.append("ms limit\n");
                output.append("\n");
            },
        }
        assert(output@ =~= file_text(*result));
        output
    }

    /// The summary of a suite.
    pub fn format_summary(&self, report: &TestSuiteReport) -> (r: String)
        ensures
            r@ == suite_text(*report),
    {
        let mut output = String::new();
        let processed = report.processed_files();
        let failed = report.failed_files();
        let errored = report.errored_files();
        let timed_out = report.timed_out_files();
        if processed == 0 {
            output.append("No test files found\n");
        } else if failed == 0 && errored == 0 && timed_out == 0 {
            output.append("All tests passed (");
            push_decimal(&mut output, report.total_elapsed());
            output.append("ms)\n");
        } else {
            push_decimal(&mut output, report.succeeded_files() as u128);
            output.append(" file(s) succeeded\n");
            push_count_line(&mut output, errored, " file(s) had errors\n");
            push_count_line(&mut output, failed, " file(s) failed\n");
            push_count_line(&mut output, timed_out, " file(s) timed out\n");
            output.append("Total time: ");
            push_decimal(&mut output, report.total_elapsed());
            output.append("ms\n");
        }
        assert(output@ =~= suite_text(*report));
        output
    }

    /// The message for one event.
    pub fn render(&self, report_event: &ReportEvent) -> (r: Option<String>)
        ensures
            opt_view(r) == human_message(self.config, *report_event),
    {
        match report_event {
            ReportEvent::TestFileNotFound(path) => {
                let mut s = String::new();
                s.append("Warning: '");
                s.append(path.as_str());
                s.append("' is not found, skipping.\n");
                assert(s@ =~= "Warning: '"@ + path@ + "' is not found, skipping.\n"@);
                Some(s)
            },
            ReportEvent::TestFileInvalid(path) => {
                let mut s = String::new();
                s.append("Warning: '");
                s.append(path.as_str());
                s.append("' is not a test file, skipping.\n");
                assert(s@ =~= "Warning: '"@ + path@ + "' is not a test file, skipping.\n"@);
                Some(s)
            },
            ReportEvent::TestFileCompleted(report) => {
                if self.config.should_hide_test_report(report) {
                    None
                } else {
                    Some(self.format_report(report))
                }
            },
            ReportEvent::TestSuiteCompleted(report) => Some(self.format_summary(report)),
        }
    }
}

impl Reporter for HumanReporter {
    open spec fn message_ok(&self, e: ReportEvent, m: Option<Seq<char>>) -> bool {
        m == human_message(self.config, e)
    }

    fn on(&self, report_event: &ReportEvent) -> Option<String> {
        self.render(report_event)
    }
}

/// Whether the machine-readable reporter prints anything for `e`: only
/// for a file outcome that `config` does not hide.
pub open spec fn json_shown(config: Config, e: ReportEvent) -> bool {
    e matches ReportEvent::TestFileCompleted(r) && !hides(config, r)
}

/// What the machine-readable reporter prints for `e`: nothing where it
/// shows nothing, else one line, the JSON text of the file's record, which
/// reads back as the file's outcome.
pub open spec fn json_message_ok(config: Config, e: ReportEvent, m: Option<Seq<char>>) -> bool {
    &&& m is Some <==> json_shown(config, e)
    &&& m matches Some(text) ==> {
        &&& forall|i: int| 0 <= i < text.len() ==> text[i] != '\n'
        &&& e matches ReportEvent::TestFileCompleted(r) && exists|v: JsonValue|
            #[trigger] json_text(v) == text && file_json_is(v, r@) && file_of_json(v) == Some(r@)
    }
}

/// Renders each shown file outcome as one line of JSON.
pub struct JsonReporter {
    pub config: Config,
}

impl JsonReporter {
    pub fn new(config: Config) -> (r: Self)
        ensures
            r.config == config,
    {
        Self { config }
    }

    /// The message for one event.
    pub fn render(&self, report_event: &ReportEvent) -> (r: Option<String>)
        ensures
            json_message_ok(self.config, *report_event, opt_view(r)),
    {
        match report_event {
            ReportEvent::TestFileCompleted(report) => {
                if self.config.should_hide_test_report(report) {
                    None
                } else {
                    let v = encode_file_report(report);
                    let text = render_json(&v);
                    assert(json_text(v) == text@ && file_json_is(v, report@) && file_of_json(v)
                        == Some(report@));
                    Some(text)
                }
            },
            _ => None,
        }
    }
}

impl Reporter for JsonReporter {
    open spec fn message_ok(&self, e: ReportEvent, m: Option<Seq<char>>) -> bool {
        json_message_ok(self.config, e, m)
    }

    fn on(&self, report_event: &ReportEvent) -> Option<String> {
        self.render(report_event)
    }
}

/// The reporter that the report settings select.
pub struct ConfigurableReporter {
    pub config: Config,
}

impl ConfigurableReporter {
    pub fn new(report_config: &Config) -> (r: Self)
        ensures
            r.config == *report_config,
    {
        Self { config: *report_config }
    }

    /// The message for one event, in the configured format.
    pub fn render(&self, report_event: &ReportEvent) -> (r: Option<String>)
        ensures
            self.config.format == Format::Human ==> opt_view(r) == human_message(
                self.config,
                *report_event,
            ),
            self.config.format == Format::Json ==> json_message_ok(
                self.config,
                *report_event,
                opt_view(r),
            ),
    {
        match self.config.format {
            Format::Human => HumanReporter::new(self.config).render(report_event),
            Format::Json => JsonReporter::new(self.config).render(report_event),
        }
    }
}

impl Reporter for ConfigurableReporter {
    open spec fn message_ok(&self, e: ReportEvent, m: Option<Seq<char>>) -> bool {
        match self.config.format {
            Format::Human => m == human_message(self.config, e),
            Format::Json => json_message_ok(self.config, e, m),
        }
    }

    fn on(&self, report_event: &ReportEvent) -> Option<String> {
        self.render(report_event)
    }
}

/// A file that completed with no failed check, the one kind of event that
/// `hide_succeeded` governs.
pub open spec fn is_succeeded_event(e: ReportEvent) -> bool {
    e matches ReportEvent::TestFileCompleted(r) && succeeded(r)
}

pub open spec fn is_failed_event(e: ReportEvent) -> bool {
    e matches ReportEvent::TestFileCompleted(r) && failed(r)
}

pub open spec fn is_errored_event(e: ReportEvent) -> bool {
    e matches ReportEvent::TestFileCompleted(r) && (errored(r) || timed_out(r))
}

/// Each hide flag suppresses exactly its own kind of file outcome and leaves
/// every other message as it was; the suite summary is printed under every
/// setting.
pub proof fn lemma_hide_flags_in_human_reports(config: Config, e: ReportEvent)
    ensures
        human_message(Config { hide_succeeded: true, ..config }, e) == if is_succeeded_event(e) {
            None
        } else {
            human_message(Config { hide_succeeded: false, ..config }, e)
        },
        human_message(Config { hide_failed: true, ..config }, e) == if is_failed_event(e) {
            None
        } else {
            human_message(Config { hide_failed: false, ..config }, e)
        },
        human_message(Config { hide_errored: true, ..config }, e) == if is_errored_event(e) {
            None
        } else {
            human_message(Config { hide_errored: false, ..config }, e)
        },
        e is TestSuiteCompleted ==> human_message(config, e) is Some,
{
}

/// The same law for the machine-readable reporter: each hide flag suppresses
/// exactly its own kind of file outcome, and skipped paths and the summary
/// are never printed in this form, whatever the flags.
pub proof fn lemma_hide_flags_in_json_reports(config: Config, e: ReportEvent)
    ensures
        !(e is TestFileCompleted) ==> !json_shown(config, e),
        json_shown(Config { hide_succeeded: true, ..config }, e) == (!is_succeeded_event(e)
            && json_shown(Config { hide_succeeded: false, ..config }, e)),
        json_shown(Config { hide_failed: true, ..config }, e) == (!is_failed_event(e) && json_shown(
            Config { hide_failed: false, ..config },
            e,
        )),
        json_shown(Config { hide_errored: true, ..config }, e) == (!is_errored_event(e)
            && json_shown(Config { hide_errored: false, ..config }, e)),
{
}

} // verus!

//! Running the files of a suite: which evaluation starts when, and what an
//! evaluation's result means.
use vstd::prelude::*;

use crate::files::TestFile;
use crate::json::{json_of_bytes, parse_json, JsonValue};
use crate::reports::codec::{decode_tests, tests_of_json};
use crate::reports::{
    opt_view, Reporter, tests_view, FileModel, ReportEvent, TestFileCompletedReport, TestFileErroredReport,
    TestFileReport, TestFileTimedOutReport, TestSuiteReport,
};

pub mod config;

verus! {

/// The valid paths among `files`, in order.
pub open spec fn valid_paths(files: Seq<TestFile>) -> Seq<String>
    decreases files.len(),
{
    if files.len() == 0 {
        Seq::empty()
    } else {
        valid_paths(files.drop_last()) + match files.last() {
            TestFile::Valid(p) => seq![p],
            _ => Seq::empty(),
        }
    }
}

/// The warnings for the skipped paths among `files`, in order.
pub open spec fn skip_events(files: Seq<TestFile>) -> Seq<ReportEvent>
    decreases files.len(),
{
    if files.len() == 0 {
        Seq::empty()
    } else {
        skip_events(files.drop_last()) + match files.last() {
            TestFile::NotFound(p) => seq![ReportEvent::TestFileNotFound(p)],
            TestFile::Invalid(p) => seq![ReportEvent::TestFileInvalid(p)],
            TestFile::Valid(_) => Seq::empty(),
        }
    }
}

/// The schedule of one run: the valid files wait in classification order,
/// at most `limit` evaluations run at once, and the outcomes are kept in the
/// order they arrive.
pub struct SuiteSchedule {
    pub queue: Vec<String>,
    /// How many queued files have been dispatched.
    pub next: usize,
    /// How many dispatched evaluations have not completed.
    pub in_flight: usize,
    pub limit: usize,
    pub reports: Vec<TestFileReport>,
}

impl SuiteSchedule {
    /// Every dispatched file is either running or completed, and no more
    /// than `limit` run at once.
    pub open spec fn wf(&self) -> bool {
        &&& 1 <= self.limit
        &&& self.next <= self.queue@.len()
        &&& self.in_flight <= self.limit
        &&& self.reports@.len() + self.in_flight == self.next
    }

    /// Splits `files` into the warnings for skipped paths, emitted at once,
    /// and the schedule of the valid ones.
    pub fn new(files: &Vec<TestFile>, limit: usize) -> (r: (Self, Vec<ReportEvent>))
        requires
            limit >= 1,
        ensures
            r.0.wf(),
            r.0.queue@ == valid_paths(files@),
            r.0.next == 0,
            r.0.in_flight == 0,
            r.0.limit == limit,
            r.0.reports@.len() == 0,
            r.1@ == skip_events(files@),
    {
        let mut queue: Vec<String> = Vec::new();
        let mut skipped: Vec<ReportEvent> = Vec::new();
        let mut i: usize = 0;
        while i < files.len()
            invariant
                i <= files.len(),
                queue@ == valid_paths(files@.take(i as int)),
                skipped@ == skip_events(files@.take(i as int)),
            decreases files.len() - i,
        {
            assert(files@.take(i + 1).drop_last() =~= files@.take(i as int));
            match &files[i] {
                TestFile::Valid(p) => queue.push(p.clone()),
                TestFile::NotFound(p) => skipped.push(ReportEvent::TestFileNotFound(p.clone())),
                TestFile::Invalid(p) => skipped.push(ReportEvent::TestFileInvalid(p.clone())),
            }
            assert(queue@ =~= valid_paths(files@.take(i + 1)));
            assert(skipped@ =~= skip_events(files@.take(i + 1)));
            i = i + 1;
        }
        assert(files@.take(i as int) =~= files@);
        (SuiteSchedule { queue, next: 0, in_flight: 0, limit, reports: Vec::new() }, skipped)
    }

    /// The next file to evaluate, if one waits and a slot is free.
    pub fn dispatch(&mut self) -> (r: Option<String>)
        requires
            old(self).wf(),
        ensures
            final(self).wf(),
            final(self).queue == old(self).queue,
            final(self).limit == old(self).limit,
            final(self).reports == old(self).reports,
            r is Some <==> (old(self).in_flight < old(self).limit && old(self).next
                < old(self).queue@.len()),
            match r {
                Some(p) => p == old(self).queue@[old(self).next as int] && final(self).next
                    == old(self).next + 1 && final(self).in_flight == old(self).in_flight + 1,
                None => final(self).next == old(self).next && final(self).in_flight == old(
                    self,
                ).in_flight,
            },
    {
        if self.in_flight < self.limit && self.next < self.queue.len() {
            let p = self.queue[self.next].clone();
            self.next = self.next + 1;
            self.in_flight = self.in_flight + 1;
            Some(p)
        } else {
            None
        }
    }

    /// Records the outcome of a running evaluation.
    pub fn complete(&mut self, report: TestFileReport)
        requires
            old(self).wf(),
            old(self).in_flight > 0,
        ensures
            final(self).wf(),
            final(self).queue == old(self).queue,
            final(self).limit == old(self).limit,
            final(self).next == old(self).next,
            final(self).in_flight == old(self).in_flight - 1,
            final(self).reports@ == old(self).reports@.push(report),
    {
        self.reports.push(report);
        self.in_flight = self.in_flight - 1;
    }

    /// Whether every file has been dispatched and has completed.
    pub fn is_done(&self) -> (r: bool)
        ensures
            r == (self.next == self.queue@.len() && self.in_flight == 0),
    {
        self.next == self.queue.len() && self.in_flight == 0
    }

    /// The suite report, once every evaluation has completed.
    pub fn finish(self, elapsed: u128) -> (r: TestSuiteReport)
        requires
            self.wf(),
            self.next == self.queue@.len(),
            self.in_flight == 0,
        ensures
            r.reports@ == self.reports@,
            r.reports@.len() == self.queue@.len(),
            r.elapsed == elapsed,
    {
        TestSuiteReport::new(self.reports, elapsed)
    }
}

/// Every step of a schedule keeps the number of running evaluations within
/// the bound, and a schedule that is done has one outcome per valid file.
pub proof fn lemma_schedule_bound(s: SuiteSchedule)
    requires
        s.wf(),
    ensures
        s.in_flight <= s.limit,
        s.next == s.queue@.len() && s.in_flight == 0 ==> s.reports@.len() == s.queue@.len(),
{
}

/// What became of one evaluation process.
pub enum EvalOutcome {
    /// The process could not be started; the system's message.
    LaunchFailed(String),
    /// The deadline passed and the process was stopped.
    TimedOut,
    /// The process exited; whether with success, and what it printed.
    Exited { success: bool, stdout: Vec<u8>, stderr: String },
}

/// Runs one test file through `nix-instantiate`.
#[derive(Clone)]
pub struct NixTestRunner {
    pub nix_tests_path: String,
    pub timeout: u64,
}

pub open spec fn deserialize_error_prefix() -> Seq<char> {
    "Failed to deserialize test report: "@
}

pub open spec fn launch_error_prefix() -> Seq<char> {
    "Failed to execute nix-instantiate: "@
}

/// The report of a file whose evaluation exited with success, given what
/// the JSON parser made of its output: the tests when the output is a
/// well-formed payload, else an error that says the payload could not be
/// read.
pub open spec fn payload_report_ok(
    file: Seq<char>,
    elapsed: u128,
    parsed: Option<JsonValue>,
    r: TestFileReport,
) -> bool {
    match parsed {
        Some(v) if tests_of_json(v) is Some => r@ == FileModel::Completed {
            tests: tests_of_json(v)->0,
            file,
            elapsed,
        },
        _ => r matches TestFileReport::Errored(e) && e.file@ == file && e.elapsed == elapsed
            && deserialize_error_prefix().is_prefix_of(e.error@),
    }
}

pub open spec fn result_value(parsed: Result<JsonValue, String>) -> Option<JsonValue> {
    match parsed {
        Ok(v) => Some(v),
        Err(_) => None,
    }
}

fn prefixed(prefix: &str, rest: &str) -> (r: String)
    ensures
        r@ == prefix@ + rest@,
{
    let mut s = prefix.to_owned();
    s.append(rest);
    s
}

/// The report of a file whose evaluation exited with success, from the
/// parsed output.
pub fn report_from_payload(file: String, elapsed: u128, parsed: Result<JsonValue, String>) -> (r:
    TestFileReport)
    ensures
        payload_report_ok(file@, elapsed, result_value(parsed), r),
        match parsed {
            Ok(v) => tests_of_json(v) is None ==> r@ == FileModel::Errored {
                file: file@,
                error: deserialize_error_prefix() + "expected an array of tests"@,
                elapsed,
            },
            Err(m) => r@ == FileModel::Errored {
                file: file@,
                error: deserialize_error_prefix() + m@,
                elapsed,
            },
        },
{
    proof {
        reveal_strlit("Failed to deserialize test report: ");
    }
    match parsed {
        Ok(v) => match decode_tests(&v) {
            Some(tests) => TestFileReport::Completed(TestFileCompletedReport { tests, file, elapsed }),
            None => TestFileReport::Errored(
                TestFileErroredReport {
                    file,
                    error: prefixed(
                        "Failed to deserialize test report: ",
                        "expected an array of tests",
                    ),
                    elapsed,
                },
            ),
        },
        Err(message) => TestFileReport::Errored(
            TestFileErroredReport {
                file,
                error: prefixed("Failed to deserialize test report: ", message.as_str()),
                elapsed,
            },
        ),
    }
}

impl NixTestRunner {
    pub fn new(nix_tests_path: String, timeout: u64) -> (r: Self)
        ensures
            r.nix_tests_path == nix_tests_path,
            r.timeout == timeout,
    {
        Self { nix_tests_path, timeout }
    }

    /// The arguments of `nix-instantiate` that evaluate the tests of
    /// `test_file` against the test library.
    pub fn command_args(&self, test_file: &str) -> (r: Vec<String>)
        ensures
            r@.map_values(|s: String| s@) == seq![
                "--eval"@,
                "--strict"@,
                "--json"@,
                test_file@,
                "--arg"@,
                "nix-tests"@,
                "import "@ + self.nix_tests_path@ + " {}"@,
                "-A"@,
                "tests"@,
            ],
    {
        let mut import = "import ".to_owned();
        import.append(self.nix_tests_path.as_str());
        import.append(" {}");
        let mut args: Vec<String> = Vec::new();
        args.push("--eval".to_owned());
        args.push("--strict".to_owned());
        args.push("--json".to_owned());
        args.push(test_file.to_owned());
        args.push("--arg".to_owned());
        args.push("nix-tests".to_owned());
        args.push(import);
        args.push("-A".to_owned());
        args.push("tests".to_owned());
        assert(args@.map_values(|s: String| s@) =~= seq![
            "--eval"@,
            "--strict"@,
            "--json"@,
            test_file@,
            "--arg"@,
            "nix-tests"@,
            "import "@ + self.nix_tests_path@ + " {}"@,
            "-A"@,
            "tests"@,
        ]);
        args
    }

    /// The report of `file` from what became of its evaluation, `elapsed`
    /// milliseconds after it was dispatched: a launch failure or a non-zero
    /// exit is an error, a stopped process timed out, and a successful exit
    /// reads the payload from its output. A process is stopped only under a
    /// deadline, and only once the deadline has passed.
    pub fn report_for(&self, file: String, elapsed: u128, outcome: EvalOutcome) -> (r:
        TestFileReport)
        requires
            outcome is TimedOut ==> self.timeout > 0 && elapsed >= self.timeout as u128,
        ensures
            match outcome {
                EvalOutcome::LaunchFailed(m) => r@ == FileModel::Errored {
                    file: file@,
                    error: launch_error_prefix() + m@,
                    elapsed,
                },
                EvalOutcome::TimedOut => r@ == FileModel::TimedOut {
                    file: file@,
                    timeout: self.timeout,
                    elapsed,
                },
                EvalOutcome::Exited { success, stdout, stderr } => if success {
                    payload_report_ok(file@, elapsed, json_of_bytes(stdout@), r)
                } else {
                    r@ == FileModel::Errored { file: file@, error: stderr@, elapsed }
                },
            },
    {
        proof {
            reveal_strlit("Failed to execute nix-instantiate: ");
        }
        match outcome {
            EvalOutcome::LaunchFailed(m) => TestFileReport::Errored(
                TestFileErroredReport {
                    file,
                    error: prefixed("Failed to execute nix-instantiate: ", m.as_str()),
                    elapsed,
                },
            ),
            EvalOutcome::TimedOut => TestFileReport::TimedOut(
                TestFileTimedOutReport { file, timeout: self.timeout, elapsed },
            ),
            EvalOutcome::Exited { success, stdout, stderr } => {
                if success {
                    let parsed = parse_json(stdout.as_slice());
                    report_from_payload(file, elapsed, parsed)
                } else {
                    TestFileReport::Errored(TestFileErroredReport { file, error: stderr, elapsed })
                }
            },
        }
    }
}

/// Runs a suite: the evaluations go to `test_runner`, the events of the run
/// to `reporter`, under the run settings `config`.
pub struct TestSuiteRunner<TR, R: Reporter> {
    pub test_runner: std::sync::Arc<TR>,
    pub reporter: R,
    pub config: config::Config,
}

impl<TR, R: Reporter> TestSuiteRunner<TR, R> {
    pub fn new(test_runner: std::sync::Arc<TR>, reporter: R, run_config: config::Config) -> (r:
        Self)
        ensures
            r.test_runner == test_runner,
            r.reporter == reporter,
            r.config == run_config,
    {
        Self { test_runner, reporter, config: run_config }
    }

    /// The message to print for `event`, if any.
    pub fn message(&self, event: &ReportEvent) -> (r: Option<String>)
        ensures
            self.reporter.message_ok(*event, opt_view(r)),
    {
        self.reporter.on(event)
    }
}

} // verus!

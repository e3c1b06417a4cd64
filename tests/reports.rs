use nix_tests::reports::config::{Config, Format};
use nix_tests::reports::{
    CheckReport, ConfigurableReporter, HumanReporter, JsonReporter, ReportEvent, Reporter, TestFileCompletedReport,
    TestFileErroredReport, TestFileReport, TestFileTimedOutReport, TestReport, TestSuiteReport,
};

fn failed_check_report_with_message(name: &str, failure: &str) -> CheckReport {
    CheckReport {
        name: name.to_string(),
        success: false,
        failure: Some(failure.to_string()),
        location: "my_test.nix:30".to_string(),
    }
}

fn failed_check_report(name: &str) -> CheckReport {
    CheckReport {
        name: name.to_string(),
        success: false,
        failure: None,
        location: "my_test.nix:30".to_string(),
    }
}

fn passing_check_report(name: &str) -> CheckReport {
    CheckReport {
        name: name.to_string(),
        success: true,
        failure: None,
        location: "my_test.nix:30".to_string(),
    }
}

fn failed_test_report(path: Vec<&str>, location: &str, checks: Vec<CheckReport>) -> TestReport {
    TestReport {
        success: false,
        path: path.iter().map(|s| s.to_string()).collect(),
        location: location.to_string(),
        checks,
    }
}

fn completed_test_file(file: &str, elapsed: u128, tests: Vec<TestReport>) -> TestFileReport {
    TestFileReport::Completed(TestFileCompletedReport {
        file: file.to_string(),
        elapsed,
        tests,
    })
}

fn errored_test_file(file: &str, error: &str, elapsed: u128) -> TestFileReport {
    TestFileReport::Errored(TestFileErroredReport {
        file: file.to_string(),
        error: error.to_string(),
        elapsed,
    })
}

fn timed_out_test_file(file: &str, timeout: u64, elapsed: u128) -> TestFileReport {
    TestFileReport::TimedOut(TestFileTimedOutReport {
        file: file.to_string(),
        timeout,
        elapsed,
    })
}

fn test_suite_report(files: Vec<TestFileReport>, elapsed: u128) -> TestSuiteReport {
    TestSuiteReport::new(files, elapsed)
}

fn human_default() -> HumanReporter {
    HumanReporter::new(Config::default())
}

#[test]
fn it_counts_files() {
    let report = test_suite_report(
        vec![
            completed_test_file("file1.nix", 0, vec![]),
            completed_test_file("file2.nix", 0, vec![]),
            errored_test_file("file3.nix", "error", 0),
            errored_test_file("file4.nix", "error", 0),
            errored_test_file("file5.nix", "error", 0),
            completed_test_file(
                "file6.nix",
                0,
                vec![failed_test_report(
                    vec!["test"],
                    "file:1",
                    vec![failed_check_report_with_message("check", "failed")],
                )],
            ),
        ],
        0,
    );

    assert!(report.processed_files() == 6);
    assert!(report.succeeded_files() == 2);
    assert!(report.failed_files() == 1);
    assert!(report.errored_files() == 3);
}

#[test]
fn it_handles_empty_report() {
    let report = test_suite_report(vec![], 0);

    assert!(report.processed_files() == 0);
    assert!(report.succeeded_files() == 0);
    assert!(report.failed_files() == 0);
    assert!(report.errored_files() == 0);
    assert!(report.has_issues() == false);
}

#[test]
fn it_has_no_issues_when_all_tests_pass() {
    let report = test_suite_report(
        vec![
            completed_test_file("file1.nix", 0, vec![]),
            completed_test_file("file2.nix", 0, vec![]),
        ],
        0,
    );

    assert!(report.has_issues() == false);
}

#[test]
fn it_has_issues_when_at_least_one_file_failed() {
    let report = test_suite_report(
        vec![
            completed_test_file("file1.nix", 0, vec![]),
            completed_test_file(
                "file2.nix",
                0,
                vec![failed_test_report(
                    vec!["test"],
                    "file:1",
                    vec![failed_check_report_with_message("check", "failed")],
                )],
            ),
        ],
        0,
    );

    assert!(report.has_issues());
}

#[test]
fn it_has_issues_when_at_least_one_file_errored() {
    let report = test_suite_report(
        vec![
            completed_test_file("file1.nix", 0, vec![]),
            errored_test_file("file2.nix", "error", 0),
        ],
        0,
    );

    assert!(report.has_issues());
}

#[test]
fn has_issues_when_a_file_timed_out() {
    let report = test_suite_report(
        vec![
            completed_test_file("file1.nix", 0, vec![]),
            timed_out_test_file("slow.nix", 50, 51),
        ],
        0,
    );

    assert!(report.has_issues());
    assert_eq!(report.timed_out_files(), 1);
    assert_eq!(report.succeeded_files(), 1);
}

#[test]
fn completed_file_with_only_passing_checks_has_no_issues() {
    let report = test_suite_report(
        vec![completed_test_file(
            "file1.nix",
            0,
            vec![TestReport {
                success: true,
                path: vec!["t".to_string()],
                location: "file1.nix:1".to_string(),
                checks: vec![passing_check_report("a"), passing_check_report("b")],
            }],
        )],
        0,
    );

    assert!(!report.has_issues());
    assert_eq!(report.succeeded_files(), 1);
}

#[test]
fn counts_failed_checks_over_all_tests() {
    let report = TestFileCompletedReport {
        file: "f.nix".to_string(),
        elapsed: 0,
        tests: vec![
            failed_test_report(vec!["a"], "f.nix:1", vec![failed_check_report("x"), passing_check_report("y")]),
            failed_test_report(vec!["b"], "f.nix:2", vec![failed_check_report("z"), failed_check_report("w")]),
        ],
    };

    assert_eq!(report.failed_count(), 3);
}

#[test]
fn it_reports_errored_test_file() {
    let reporter = human_default();
    let event = ReportEvent::TestFileCompleted(errored_test_file(
        "broken.nix",
        "Syntax error at line 5\n",
        50,
    ));

    assert!(
        reporter.on(&event).unwrap()
            == "\
File: broken.nix (50ms)
ERROR: Syntax error at line 5

"
    );
}

#[test]
fn it_reports_test_file_invalid() {
    let reporter = human_default();
    let event = ReportEvent::TestFileInvalid("invalid.nix".to_string());

    assert!(reporter.on(&event).unwrap() == "Warning: 'invalid.nix' is not a test file, skipping.\n");
}

#[test]
fn reports_test_file_not_found() {
    let reporter = human_default();
    let event = ReportEvent::TestFileNotFound("missing.nix".to_string());

    assert_eq!(
        reporter.on(&event).unwrap(),
        "Warning: 'missing.nix' is not found, skipping.\n"
    );
}

#[test]
fn it_reports_completed_test_with_failures() {
    let reporter = human_default();
    let event = ReportEvent::TestFileCompleted(completed_test_file(
        "test.nix",
        150,
        vec![failed_test_report(
            vec!["suite", "test1"],
            "test.nix:20",
            vec![failed_check_report_with_message(
                "should fail",
                "Expected true but got false",
            )],
        )],
    ));

    assert!(
        reporter.on(&event).unwrap()
            == "\
File: test.nix (150ms)
✗ suite -> test1 -> should fail
    Failure:
      Expected true but got false
      at my_test.nix:30
FAILED (1 failed)

"
    );
}

#[test]
fn it_reports_completed_test_with_failure_without_message() {
    let reporter = human_default();
    let event = ReportEvent::TestFileCompleted(completed_test_file(
        "test.nix",
        75,
        vec![failed_test_report(
            vec!["test2"],
            "test.nix:30",
            vec![failed_check_report("check")],
        )],
    ));

    assert!(
        reporter.on(&event).unwrap()
            == "\
File: test.nix (75ms)
✗ test2 -> check
    Failed at my_test.nix:30
FAILED (1 failed)

"
    );
}

#[test]
fn reports_passing_checks_and_multi_line_failures() {
    let reporter = human_default();
    let event = ReportEvent::TestFileCompleted(completed_test_file(
        "t.nix",
        7,
        vec![failed_test_report(
            vec!["g", "t"],
            "t.nix:1",
            vec![
                passing_check_report("ok"),
                failed_check_report_with_message("bad", "Expected: true\r\nGot: false\n"),
            ],
        )],
    ));

    assert_eq!(
        reporter.on(&event).unwrap(),
        "File: t.nix (7ms)\n✓ g -> t -> ok\n✗ g -> t -> bad\n    Failure:\n      Expected: true\n      Got: false\n      at my_test.nix:30\nFAILED (1 failed)\n\n"
    );
}

#[test]
fn reports_timed_out_test_file() {
    let reporter = human_default();
    let event = ReportEvent::TestFileCompleted(timed_out_test_file("slow.nix", 50, 1234567));

    assert_eq!(
        reporter.on(&event).unwrap(),
        "File: slow.nix (1234567ms)\nTIMEOUT: Exceeded 50ms limit\n\n"
    );
}

#[test]
fn it_reports_test_suite_completed_with_no_files() {
    let reporter = human_default();
    let event = ReportEvent::TestSuiteCompleted(test_suite_report(vec![], 0));

    assert!(
        reporter.on(&event).unwrap()
            == "\
No test files found
"
    );
}

#[test]
fn it_reports_test_suite_completed_all_passing() {
    let reporter = human_default();
    let event = ReportEvent::TestSuiteCompleted(test_suite_report(
        vec![completed_test_file("test1.nix", 50, vec![])],
        100,
    ));

    assert!(
        reporter.on(&event).unwrap()
            == "\
All tests passed (100ms)
"
    );
}

#[test]
fn it_reports_test_suite_completed_with_failures() {
    let reporter = human_default();
    let event = ReportEvent::TestSuiteCompleted(test_suite_report(
        vec![
            completed_test_file("test1.nix", 50, vec![]),
            completed_test_file(
                "test2.nix",
                75,
                vec![failed_test_report(
                    vec!["test"],
                    "test2.nix:1",
                    vec![failed_check_report("check")],
                )],
            ),
        ],
        200,
    ));

    assert!(
        reporter.on(&event).unwrap()
            == "\
1 file(s) succeeded
1 file(s) failed
Total time: 200ms
"
    );
}

#[test]
fn it_reports_test_suite_completed_with_errors() {
    let reporter = human_default();
    let event = ReportEvent::TestSuiteCompleted(test_suite_report(
        vec![
            completed_test_file("test1.nix", 50, vec![]),
            errored_test_file("broken.nix", "error", 25),
        ],
        150,
    ));

    assert!(
        reporter.on(&event).unwrap()
            == "\
1 file(s) succeeded
1 file(s) had errors
Total time: 150ms
"
    );
}

#[test]
fn it_reports_test_suite_completed_with_mixed_results() {
    let reporter = human_default();
    let event = ReportEvent::TestSuiteCompleted(test_suite_report(
        vec![
            completed_test_file("passing.nix", 30, vec![]),
            completed_test_file(
                "failing.nix",
                40,
                vec![failed_test_report(
                    vec!["test"],
                    "failing.nix:1",
                    vec![failed_check_report("check")],
                )],
            ),
            errored_test_file("broken.nix", "syntax error", 20),
        ],
        250,
    ));

    assert!(
        reporter.on(&event).unwrap()
            == "\
1 file(s) succeeded
1 file(s) had errors
1 file(s) failed
Total time: 250ms
"
    );
}

#[test]
fn reports_test_suite_completed_with_timeouts() {
    let reporter = human_default();
    let event = ReportEvent::TestSuiteCompleted(test_suite_report(
        vec![timed_out_test_file("slow.nix", 50, 60)],
        70,
    ));

    assert_eq!(
        reporter.on(&event).unwrap(),
        "0 file(s) succeeded\n1 file(s) timed out\nTotal time: 70ms\n"
    );
}

#[test]
fn it_hides_succeeded_test_files_when_flag_is_set() {
    let config = Config {
        format: Format::Human,
        hide_succeeded: true,
        hide_failed: false,
        hide_errored: false,
    };
    let reporter = HumanReporter::new(config);
    let event = ReportEvent::TestFileCompleted(completed_test_file("test.nix", 50, vec![]));

    assert!(reporter.on(&event).is_none());
}

#[test]
fn it_hides_failed_test_files_when_flag_is_set() {
    let config = Config {
        format: Format::Human,
        hide_succeeded: false,
        hide_failed: true,
        hide_errored: false,
    };
    let reporter = HumanReporter::new(config);
    let event = ReportEvent::TestFileCompleted(completed_test_file(
        "test.nix",
        75,
        vec![failed_test_report(
            vec!["test"],
            "test.nix:1",
            vec![failed_check_report("check")],
        )],
    ));

    assert!(reporter.on(&event).is_none());
}

#[test]
fn it_hides_errored_test_files_when_flag_is_set() {
    let config = Config {
        format: Format::Human,
        hide_succeeded: false,
        hide_failed: false,
        hide_errored: true,
    };
    let reporter = HumanReporter::new(config);
    let event = ReportEvent::TestFileCompleted(errored_test_file("broken.nix", "error", 25));

    assert!(reporter.on(&event).is_none());
}

#[test]
fn hide_succeeded_leaves_failed_and_errored_files_shown() {
    let config = Config {
        format: Format::Human,
        hide_succeeded: true,
        hide_failed: false,
        hide_errored: false,
    };
    let reporter = HumanReporter::new(config);
    let failed = ReportEvent::TestFileCompleted(completed_test_file(
        "test.nix",
        75,
        vec![failed_test_report(vec!["test"], "test.nix:1", vec![failed_check_report("check")])],
    ));
    let errored = ReportEvent::TestFileCompleted(errored_test_file("broken.nix", "error", 25));
    let timed_out = ReportEvent::TestFileCompleted(timed_out_test_file("slow.nix", 5, 6));

    assert!(reporter.on(&failed).is_some());
    assert!(reporter.on(&errored).is_some());
    assert!(reporter.on(&timed_out).is_some());
}

#[test]
fn hide_errored_also_hides_timed_out_files() {
    let config = Config {
        format: Format::Human,
        hide_succeeded: false,
        hide_failed: false,
        hide_errored: true,
    };
    let reporter = HumanReporter::new(config);
    let event = ReportEvent::TestFileCompleted(timed_out_test_file("slow.nix", 5, 6));

    assert!(reporter.on(&event).is_none());
}

#[test]
fn it_always_shows_test_suite_summary_regardless_of_hide_flags() {
    let config = Config {
        format: Format::Human,
        hide_succeeded: true,
        hide_failed: true,
        hide_errored: true,
    };
    let reporter = HumanReporter::new(config);
    let event = ReportEvent::TestSuiteCompleted(test_suite_report(
        vec![
            completed_test_file("passing.nix", 30, vec![]),
            completed_test_file(
                "failing.nix",
                40,
                vec![failed_test_report(
                    vec!["test"],
                    "failing.nix:1",
                    vec![failed_check_report("check")],
                )],
            ),
            errored_test_file("broken.nix", "error", 20),
        ],
        250,
    ));

    let output = reporter.on(&event).unwrap();
    assert!(output.contains("1 file(s) succeeded"));
    assert!(output.contains("1 file(s) had errors"));
    assert!(output.contains("1 file(s) failed"));
    assert!(output.contains("Total time: 250ms"));
}

#[test]
fn it_returns_json_for_completed_test_file() {
    let reporter = JsonReporter::new(Config::default());
    let report = completed_test_file("test.nix", 50, vec![]);
    let event = ReportEvent::TestFileCompleted(report.clone());

    let output = reporter.on(&event).unwrap();
    assert!(serde_json::from_str::<serde_json::Value>(&output).is_ok());
    assert!(output.contains("\"file\":\"test.nix\""));
}

#[test]
fn it_returns_none_for_non_test_file_completed_events() {
    let reporter = JsonReporter::new(Config::default());
    let event = ReportEvent::TestFileNotFound("test.nix".to_string());

    assert!(reporter.on(&event).is_none());
}

#[test]
fn json_reporter_prints_nothing_for_the_summary() {
    let reporter = JsonReporter::new(Config::default());
    let event = ReportEvent::TestSuiteCompleted(test_suite_report(vec![], 5));

    assert!(reporter.on(&event).is_none());
}

#[test]
fn reports_it_hides_succeeded_test_files_when_flag_is_set() {
    let config = Config {
        format: Format::Json,
        hide_succeeded: true,
        hide_failed: false,
        hide_errored: false,
    };
    let reporter = JsonReporter::new(config);
    let event = ReportEvent::TestFileCompleted(completed_test_file("test.nix", 50, vec![]));

    assert!(reporter.on(&event).is_none());
}

#[test]
fn reports_it_hides_failed_test_files_when_flag_is_set() {
    let config = Config {
        format: Format::Json,
        hide_succeeded: false,
        hide_failed: true,
        hide_errored: false,
    };
    let reporter = JsonReporter::new(config);
    let event = ReportEvent::TestFileCompleted(completed_test_file(
        "test.nix",
        75,
        vec![failed_test_report(
            vec!["test"],
            "test.nix:1",
            vec![failed_check_report("check")],
        )],
    ));

    assert!(reporter.on(&event).is_none());
}

#[test]
fn reports_it_hides_errored_test_files_when_flag_is_set() {
    let config = Config {
        format: Format::Json,
        hide_succeeded: false,
        hide_failed: false,
        hide_errored: true,
    };
    let reporter = JsonReporter::new(config);
    let event = ReportEvent::TestFileCompleted(errored_test_file("broken.nix", "error", 25));

    assert!(reporter.on(&event).is_none());
}

#[test]
fn it_shows_succeeded_test_files_when_hide_flag_is_false() {
    let config = Config {
        format: Format::Json,
        hide_succeeded: false,
        hide_failed: true,
        hide_errored: true,
    };
    let reporter = JsonReporter::new(config);
    let event = ReportEvent::TestFileCompleted(completed_test_file("test.nix", 50, vec![]));

    assert!(reporter.on(&event).is_some());
}

#[test]
fn json_record_of_a_completed_file_has_the_tagged_shape() {
    let reporter = JsonReporter::new(Config::default());
    let event = ReportEvent::TestFileCompleted(completed_test_file(
        "test.nix",
        75,
        vec![failed_test_report(vec!["a", "b"], "test.nix:1", vec![failed_check_report("c")])],
    ));

    let output = reporter.on(&event).unwrap();
    assert_eq!(
        output,
        "{\"status\":\"completed\",\"tests\":[{\"success\":false,\"path\":[\"a\",\"b\"],\"location\":\"test.nix:1\",\"checks\":[{\"name\":\"c\",\"success\":false,\"location\":\"my_test.nix:30\"}]}],\"file\":\"test.nix\",\"elapsed\":75}"
    );
}

#[test]
fn json_record_of_errored_and_timed_out_files() {
    let reporter = JsonReporter::new(Config::default());
    let errored = ReportEvent::TestFileCompleted(errored_test_file("b.nix", "bad \"quote\"", 3));
    let timed_out = ReportEvent::TestFileCompleted(timed_out_test_file("s.nix", 50, 52));

    assert_eq!(
        reporter.on(&errored).unwrap(),
        "{\"status\":\"errored\",\"file\":\"b.nix\",\"error\":\"bad \\\"quote\\\"\",\"elapsed\":3}"
    );
    assert_eq!(
        reporter.on(&timed_out).unwrap(),
        "{\"status\":\"timed_out\",\"file\":\"s.nix\",\"timeout\":50,\"elapsed\":52}"
    );
}

#[test]
fn configurable_reporter_follows_its_format() {
    let human_config = Config { format: Format::Human, ..Config::default() };
    let json_config = Config { format: Format::Json, ..Config::default() };
    let events = vec![
        ReportEvent::TestFileNotFound("missing.nix".to_string()),
        ReportEvent::TestFileInvalid("flake.nix".to_string()),
        ReportEvent::TestFileCompleted(errored_test_file("broken.nix", "line one\nline two", 3)),
        ReportEvent::TestSuiteCompleted(test_suite_report(vec![], 0)),
    ];
    for event in &events {
        assert_eq!(
            ConfigurableReporter::new(&human_config).on(event),
            HumanReporter::new(human_config).on(event)
        );
        assert_eq!(
            ConfigurableReporter::new(&json_config).on(event),
            JsonReporter::new(json_config).on(event)
        );
    }
    let line = JsonReporter::new(json_config).on(&events[2]).unwrap();
    assert!(!line.contains('\n'));
    assert!(JsonReporter::new(json_config).on(&events[0]).is_none());
    assert!(JsonReporter::new(json_config).on(&events[3]).is_none());
}

use nix_tests::cli::{ConfigArgs, Format, ReportArgs, RunnerArgs};
use nix_tests::config::{search_step, Config, SearchStep};
use nix_tests::reports::config as report_config;
use nix_tests::runners::config as runner_config;

#[test]
fn it_applies_cli_args_to_config() {
    let file_config = Config {
        runner: runner_config::Config {
            num_threads: runner_config::NumThreads::new(8),
            timeout: 0,
        },
        report: report_config::Config {
            format: report_config::Format::Human,
            hide_succeeded: false,
            hide_failed: false,
            hide_errored: false,
        },
    };

    let args = ConfigArgs {
        runner: RunnerArgs {
            num_threads: Some(4),
            timeout: None,
        },
        ..Default::default()
    };

    let merged = args.apply_to(file_config);
    assert!(
        merged
            == Config {
                runner: runner_config::Config {
                    num_threads: runner_config::NumThreads::new(4),
                    timeout: 0,
                },
                report: report_config::Config {
                    format: report_config::Format::Human,
                    hide_succeeded: false,
                    hide_failed: false,
                    hide_errored: false,
                }
            }
    );
}

#[test]
fn it_preserves_config_when_no_cli_args() {
    let file_config = Config {
        runner: runner_config::Config {
            num_threads: runner_config::NumThreads::new(8),
            timeout: 0,
        },
        report: report_config::Config {
            format: report_config::Format::Json,
            hide_succeeded: false,
            hide_failed: false,
            hide_errored: false,
        },
    };

    let args = ConfigArgs::default();

    let merged = args.apply_to(file_config.clone());
    assert!(merged == file_config);
}

#[test]
fn it_overrides_all_fields_when_all_cli_args_present() {
    let file_config = Config {
        runner: runner_config::Config {
            num_threads: runner_config::NumThreads::new(8),
            timeout: 0,
        },
        report: report_config::Config {
            format: report_config::Format::Human,
            hide_succeeded: false,
            hide_failed: false,
            hide_errored: false,
        },
    };

    let args = ConfigArgs {
        runner: RunnerArgs {
            num_threads: Some(12),
            timeout: None,
        },
        report: ReportArgs {
            format: Some(Format::Json),
            hide_succeeded: Some(true),
            hide_failed: Some(false),
            hide_errored: Some(true),
        },
    };

    let merged = args.apply_to(file_config);
    assert!(
        merged
            == Config {
                runner: runner_config::Config {
                    num_threads: runner_config::NumThreads::new(12),
                    timeout: 0,
                },
                report: report_config::Config {
                    format: report_config::Format::Json,
                    hide_succeeded: true,
                    hide_failed: false,
                    hide_errored: true,
                }
            }
    );
}

#[test]
fn overrides_the_timeout() {
    let args = ConfigArgs {
        runner: RunnerArgs { num_threads: None, timeout: Some(500) },
        ..Default::default()
    };
    let merged = args.apply_to(Config::default());

    assert_eq!(merged.runner.timeout, 500);
    assert_eq!(merged.runner.num_threads, Config::default().runner.num_threads);
}

#[test]
fn default_config_uses_every_cpu_and_no_deadline() {
    let config = Config::default();

    assert!(config.runner.num_threads.get() >= 1);
    assert_eq!(config.runner.timeout, 0);
    assert_eq!(config.report, report_config::Config::default());
    assert_eq!(config.report.format, report_config::Format::Human);
}

#[test]
fn converts_thread_counts_and_formats() {
    assert_eq!(runner_config::NumThreads::from(3), runner_config::NumThreads::new(3));
    assert_eq!(runner_config::NumThreads::new(3).get(), 3);
    assert_eq!(report_config::Format::from(Format::Json), report_config::Format::Json);
    assert_eq!(report_config::Format::from(Format::Human), report_config::Format::Human);
}

#[test]
fn searches_for_the_config_file_upwards() {
    assert_eq!(search_step(true, true, true), SearchStep::Load);
    assert_eq!(search_step(false, true, true), SearchStep::Stop);
    assert_eq!(search_step(false, false, false), SearchStep::Stop);
    assert_eq!(search_step(false, false, true), SearchStep::Parent);
}

//! Settings given on the command line, which override the configuration
//! file field by field.
use vstd::prelude::*;

use crate::config::Config;
use crate::reports::config as report_config;
use crate::runners::config as runner_config;

verus! {

/// Output format as the command line names it.
#[derive(Debug, Clone, Copy, PartialEq, Eq)]
pub enum Format {
    Json,
    Human,
}

impl From<Format> for report_config::Format {
    fn from(value: Format) -> (r: Self) {
        match value {
            Format::Json => report_config::Format::Json,
            Format::Human => report_config::Format::Human,
        }
    }
}

impl vstd::std_specs::convert::FromSpecImpl<Format> for report_config::Format {
    open spec fn obeys_from_spec() -> bool {
        true
    }

    open spec fn from_spec(v: Format) -> Self {
        match v {
            Format::Json => report_config::Format::Json,
            Format::Human => report_config::Format::Human,
        }
    }
}

#[derive(Debug, Clone, Copy, PartialEq, Eq, Default)]
pub struct RunnerArgs {
    pub num_threads: Option<usize>,
    pub timeout: Option<u64>,
}

#[derive(Debug, Clone, Copy, PartialEq, Eq, Default)]
pub struct ReportArgs {
    pub format: Option<Format>,
    pub hide_succeeded: Option<bool>,
    pub hide_failed: Option<bool>,
    pub hide_errored: Option<bool>,
}

#[derive(Debug, Clone, Copy, PartialEq, Eq, Default)]
pub struct ConfigArgs {
    pub runner: RunnerArgs,
    pub report: ReportArgs,
}

/// The given value, else the base one.
pub open spec fn or_base<T>(given: Option<T>, base: T) -> T {
    match given {
        Some(v) => v,
        None => base,
    }
}

pub open spec fn format_of(f: Format) -> report_config::Format {
    match f {
        Format::Json => report_config::Format::Json,
        Format::Human => report_config::Format::Human,
    }
}

impl ConfigArgs {
    /// `base` with every field that was given on the command line replaced.
    pub fn apply_to(&self, base: Config) -> (r: Config)
        ensures
            r.runner.num_threads.0 == or_base(self.runner.num_threads, base.runner.num_threads.0),
            r.runner.timeout == or_base(self.runner.timeout, base.runner.timeout),
            r.report.format == match self.report.format {
                Some(f) => format_of(f),
                None => base.report.format,
            },
            r.report.hide_succeeded == or_base(
                self.report.hide_succeeded,
                base.report.hide_succeeded,
            ),
            r.report.hide_failed == or_base(self.report.hide_failed, base.report.hide_failed),
            r.report.hide_errored == or_base(self.report.hide_errored, base.report.hide_errored),
    {
        Config {
            runner: runner_config::Config {
                num_threads: match self.runner.num_threads {
                    Some(n) => runner_config::NumThreads::from(n),
                    None => base.runner.num_threads,
                },
                timeout: match self.runner.timeout {
                    Some(t) => t,
                    None => base.runner.timeout,
                },
            },
            report: report_config::Config {
                format: match self.report.format {
                    Some(f) => report_config::Format::from(f),
                    None => base.report.format,
                },
                hide_succeeded: match self.report.hide_succeeded {
                    Some(b) => b,
                    None => base.report.hide_succeeded,
                },
                hide_failed: match self.report.hide_failed {
                    Some(b) => b,
                    None => base.report.hide_failed,
                },
                hide_errored: match self.report.hide_errored {
                    Some(b) => b,
                    None => base.report.hide_errored,
                },
            },
        }
    }
}

} // verus!

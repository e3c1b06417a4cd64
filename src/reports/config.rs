//! How the reporters render a run.
use vstd::prelude::*;

use crate::reports::{failed_in_tests, TestFileReport};

verus! {

/// Which rendering the reporters produce.
#[derive(Debug, Clone, Copy, PartialEq, Eq)]
pub enum Format {
    Human,
    Json,
}

/// The resolved report settings of a run.
#[derive(Debug, Clone, Copy, PartialEq, Eq)]
pub struct Config {
    pub format: Format,
    pub hide_succeeded: bool,
    pub hide_failed: bool,
    pub hide_errored: bool,
}

/// Whether `config` suppresses the per-file report of `report`. Timed-out
/// files share the visibility of errored ones.
pub open spec fn hides(config: Config, report: TestFileReport) -> bool {
    match report {
        TestFileReport::Completed(c) => if failed_in_tests(c.tests@) == 0 {
            config.hide_succeeded
        } else {
            config.hide_failed
        },
        TestFileReport::Errored(_) => config.hide_errored,
        TestFileReport::TimedOut(_) => config.hide_errored,
    }
}

impl Default for Format {
    fn default() -> (r: Self)
        ensures
            r == Format::Human,
    {
        Format::Human
    }
}

impl Default for Config {
    fn default() -> (r: Self)
        ensures
            r == (Config {
                format: Format::Human,
                hide_succeeded: false,
                hide_failed: false,
                hide_errored: false,
            }),
    {
        Config { format: Format::Human, hide_succeeded: false, hide_failed: false, hide_errored: false }
    }
}

impl Config {
    pub fn should_hide_test_report(&self, report: &TestFileReport) -> (r: bool)
        ensures
            r == hides(*self, *report),
    {
        match report {
            TestFileReport::Completed(c) => if c.failed_count() == 0 {
                self.hide_succeeded
            } else {
                self.hide_failed
            },
            TestFileReport::Errored(_) => self.hide_errored,
            TestFileReport::TimedOut(_) => self.hide_errored,
        }
    }
}

} // verus!

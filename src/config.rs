//! The whole configuration of a run, and where its file is looked for.
use vstd::prelude::*;

use crate::reports::config as report_config;
use crate::runners::config as runner_config;

verus! {

/// Run settings and report settings.
#[derive(Debug, Clone, Copy, PartialEq, Eq)]
pub struct Config {
    pub runner: runner_config::Config,
    pub report: report_config::Config,
}

impl Default for Config {
    fn default() -> (r: Self)
        ensures
            r.runner.num_threads.0 >= 1,
            r.runner.timeout == 0,
            r.report == (report_config::Config {
                format: report_config::Format::Human,
                hide_succeeded: false,
                hide_failed: false,
                hide_errored: false,
            }),
    {
        Config { runner: runner_config::Config::default(), report: report_config::Config::default() }
    }
}

/// What to do at one directory while looking for the configuration file.
#[derive(Debug, Clone, Copy, PartialEq, Eq)]
pub enum SearchStep {
    /// Read the configuration file found here.
    Load,
    /// This directory is the root of a project: there is no configuration.
    Stop,
    /// Look in the parent directory.
    Parent,
}

/// The configuration file of a directory wins; a `flake.lock` or `.git`
/// marks the project root, where the search ends; else it goes on upwards
/// while there is a parent.
pub fn search_step(has_config_file: bool, has_root_marker: bool, has_parent: bool) -> (r:
    SearchStep)
    ensures
        r == (if has_config_file {
            SearchStep::Load
        } else if has_root_marker || !has_parent {
            SearchStep::Stop
        } else {
            SearchStep::Parent
        }),
{
    if has_config_file {
        SearchStep::Load
    } else if has_root_marker || !has_parent {
        SearchStep::Stop
    } else {
        SearchStep::Parent
    }
}

} // verus!

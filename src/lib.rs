//! Running a suite of Nix test files: classifying the paths given on the
//! command line, scheduling the evaluations under a concurrency bound, and
//! turning their outcomes into a suite report.

pub mod files;
pub mod json;
pub mod text;
pub mod reports;
pub mod runners;
pub mod config;
pub mod cli;

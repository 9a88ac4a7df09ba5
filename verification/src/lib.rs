//! Decision core of a stress-test harness for Elm compilers.
//!
//! The harness compiles small self-contained Elm programs (suites) with one
//! or more compilers and optimization levels, runs what was built under node
//! and checks that each step succeeded or failed as the suite declares. This
//! crate holds every rule of that process as verified code over plain
//! values. Whatever touches the disk or starts a process is handed in by
//! the caller as a function, and the contracts hold for everything such a
//! function may return.
//!
//! - `condition`: the trees by which a suite declares expected failures.
//! - `config`, `cli`: settings, and what the command line asked for.
//! - `suite`: suites, compilers and the errors of each step.
//! - `compile`, `run`: the two steps of a unit of work.
//! - `compile_and_run`: one unit of work from start to finish, exit codes.
//! - `schedule`: the work list, fail-fast and the reports.
//! - `out_dir`: the life of the directory that built files go to.
//! - `formatting`: messages.

pub mod cli;
pub mod compile;
pub mod compile_and_run;
pub mod condition;
pub mod config;
pub mod find_suites;
pub mod formatting;
pub mod out_dir;
pub mod process;
pub mod run;
pub mod schedule;
pub mod suite;

//! What the command line asked for.

use crate::config::Config;
use vstd::prelude::*;

verus! {

/// The one thing a harness run does.
#[derive(Debug, PartialEq, Eq)]
pub enum Task {
    /// Write the merged configuration to the named file.
    DumpConfig(String),
    /// Test one suite, with built files placed in `out_dir` if given.
    RunSuite { suite: String, out_dir: Option<String> },
    /// Test every suite found under the named directory.
    RunSuites(String),
}

/// A task with the settings it runs under.
#[derive(Debug)]
pub struct Instructions {
    pub config: Config,
    pub fail_fast: bool,
    pub task: Task,
}

/// The command-line options after parsing, before any decision.
#[derive(Debug)]
pub struct Opts {
    pub config_from_file: Option<Config>,
    pub config: Config,
    pub suite: Option<String>,
    pub suites: Option<String>,
    pub out_dir: Option<String>,
    pub show_config: Option<String>,
    pub fail_fast: bool,
}

impl Opts {
    /// One of the suite options is present, as the command line demands.
    pub open spec fn names_a_suite(self) -> bool {
        self.suite.is_some() || self.suites.is_some()
    }

    /// The task the options select: dumping the configuration comes first,
    /// then a directory of suites, then a single suite.
    pub open spec fn spec_task(self) -> Task {
        match self.show_config {
            Some(file) => Task::DumpConfig(file),
            None => match self.suites {
                Some(dir) => Task::RunSuites(dir),
                None => Task::RunSuite { suite: self.suite.unwrap(), out_dir: self.out_dir },
            },
        }
    }
}

/// Turns parsed options into instructions. Settings given on the command
/// line are laid over those of the configuration file.
pub fn get_cli_task(opts: Opts) -> (r: Instructions)
    requires
        opts.show_config.is_some() || opts.names_a_suite(),
    ensures
        r.fail_fast == opts.fail_fast,
        r.task == opts.spec_task(),
        match opts.config_from_file {
            Some(file) => {
                &&& r.config.elm_compilers == crate::config::spec_or(
                    file.elm_compilers,
                    opts.config.elm_compilers,
                )
                &&& r.config.node == crate::config::spec_or(file.node, opts.config.node)
                &&& r.config.opt_levels == crate::config::spec_or(
                    file.opt_levels,
                    opts.config.opt_levels,
                )
                &&& r.config.compiler_max_retries == crate::config::spec_or(
                    file.compiler_max_retries,
                    opts.config.compiler_max_retries,
                )
                &&& r.config.run_timeout == crate::config::spec_or(
                    file.run_timeout,
                    opts.config.run_timeout,
                )
                &&& r.config.out_dir == crate::config::spec_or(file.out_dir, opts.config.out_dir)
            },
            None => r.config == opts.config,
        },
{
    let Opts { config_from_file, config: config_from_cli, suite, suites, out_dir, show_config, fail_fast } = opts;
    let config = match config_from_file {
        Some(c) => c.overwrite_with(config_from_cli),
        None => config_from_cli,
    };
    let task = match show_config {
        Some(file) => Task::DumpConfig(file),
        None => match suites {
            Some(dir) => Task::RunSuites(dir),
            None => Task::RunSuite { suite: suite.unwrap(), out_dir },
        },
    };
    Instructions { config, fail_fast, task }
}

} // verus!

//! Running what was compiled: the scripts, the command line, the verdict.

use crate::config::{texts, OptimizationLevel, TimeSpan};
use crate::process::{same_bytes, Output};
use crate::suite::RunError;
use vstd::prelude::*;
use vstd::string::*;

verus! {

/// What was seen of one run of a compiled suite.
#[derive(Debug, PartialEq, Eq)]
pub enum RunObservation {
    /// The time allowed ran out and the program was killed; this is what
    /// it had written by then.
    TimedOut { stdout: Vec<u8>, stderr: Vec<u8> },
    /// The program exited by itself.
    Exited(Output),
}

/// The notice that code compiled at the `dev` level prints when loaded.
pub open spec fn dev_notice() -> Seq<u8> {
    "Compiled in DEV mode. Follow the advice at https://elm-lang.org/0.19.1/optimize for better performance and smaller assets.\n".spec_bytes()
}

/// The notice that code compiled at the `debug` level prints when loaded.
pub open spec fn debug_notice() -> Seq<u8> {
    "Compiled in DEBUG mode. Follow the advice at https://elm-lang.org/0.19.1/optimize for better performance and smaller assets.\n".spec_bytes()
}

/// The only things a successful run may write to standard error: nothing,
/// or exactly one of the two notices.
pub open spec fn tolerated_stderr(stderr: Seq<u8>) -> bool {
    stderr.len() == 0 || stderr == dev_notice() || stderr == debug_notice()
}

/// Whether a successful run may have written `stderr` to standard error.
pub fn is_tolerated_stderr(stderr: &[u8]) -> (r: bool)
    ensures
        r == tolerated_stderr(stderr@),
{
    stderr.len() == 0 || same_bytes(
        stderr,
        "Compiled in DEV mode. Follow the advice at https://elm-lang.org/0.19.1/optimize for better performance and smaller assets.\n".as_bytes(),
    ) || same_bytes(
        stderr,
        "Compiled in DEBUG mode. Follow the advice at https://elm-lang.org/0.19.1/optimize for better performance and smaller assets.\n".as_bytes(),
    )
}

impl RunObservation {
    /// The verdict on a run that was allowed `timeout`. A run passes when
    /// the program exits by itself with code zero, writes nothing to
    /// standard output and nothing but a known notice to standard error.
    pub open spec fn spec_verdict(self, timeout: TimeSpan) -> Result<(), RunError> {
        match self {
            RunObservation::TimedOut { stdout, stderr } => Err(
                RunError::Timeout { after: timeout, stdout, stderr },
            ),
            RunObservation::Exited(output) => if !output.status.spec_success() {
                Err(RunError::Runtime(output))
            } else if output.stdout@.len() != 0 {
                Err(RunError::OutputProduced(output))
            } else if !tolerated_stderr(output.stderr@) {
                Err(RunError::OutputProduced(output))
            } else {
                Ok(())
            },
        }
    }

    pub fn verdict(self, timeout: TimeSpan) -> (r: Result<(), RunError>)
        ensures
            r == self.spec_verdict(timeout),
    {
        match self {
            RunObservation::TimedOut { stdout, stderr } => Err(
                RunError::Timeout { after: timeout, stdout, stderr },
            ),
            RunObservation::Exited(output) => if !output.status.success() {
                Err(RunError::Runtime(output))
            } else if output.stdout.len() != 0 {
                Err(RunError::OutputProduced(output))
            } else if !is_tolerated_stderr(output.stderr.as_slice()) {
                Err(RunError::OutputProduced(output))
            } else {
                Ok(())
            },
        }
    }
}

/// The verdict on a run after the attempt to make it: a run that could
/// not be made fails with the reason given, any other is judged by what
/// was seen of it.
pub open spec fn spec_run(timeout: TimeSpan, launched: Result<RunObservation, RunError>) -> Result<
    (),
    RunError,
> {
    match launched {
        Ok(seen) => seen.spec_verdict(timeout),
        Err(e) => Err(e),
    }
}

/// `verdict` is what running through `launch` can come to. A path that
/// holds no `elm.json` is not run.
pub open spec fn run_may_return<F: Fn() -> Result<RunObservation, RunError>>(
    has_elm_json: bool,
    timeout: TimeSpan,
    launch: F,
    verdict: Result<(), RunError>,
) -> bool {
    if !has_elm_json {
        verdict == Err::<(), RunError>(RunError::SuiteDoesNotExist)
    } else {
        exists|launched: Result<RunObservation, RunError>| #[trigger]
            launch.ensures((), launched) && verdict == spec_run(timeout, launched)
    }
}

/// Runs a compiled suite through `launch`, which writes the scripts,
/// starts the runtime and waits for at most `timeout`, and judges what
/// `launch` reports.
pub fn run<F: Fn() -> Result<RunObservation, RunError>>(
    has_elm_json: bool,
    timeout: TimeSpan,
    launch: F,
) -> (r: Result<(), RunError>)
    requires
        launch.requires(()),
    ensures
        run_may_return(has_elm_json, timeout, launch, r),
{
    if !has_elm_json {
        return Err(RunError::SuiteDoesNotExist);
    }
    let launched = launch();
    let verdict = match launched {
        Ok(seen) => seen.verdict(timeout),
        Err(e) => Err(e),
    };
    verdict
}

/// The entry script for a suite compiled at `opt_level`: it loads the
/// harness, the compiled program and the expected output, and hands the
/// latter two to the harness.
pub open spec fn spec_main_script(opt_level: OptimizationLevel) -> Seq<char> {
    "\nconst harness = require('./harness.js');\nconst generated = require('./elm-"@
        + opt_level.spec_id()
        + ".js');\nconst expectedOutput = require('./output.json');\n\nharness(generated, expectedOutput);\n"@
}

/// The text of the entry script.
pub fn main_script(opt_level: OptimizationLevel) -> (r: String)
    ensures
        r@ == spec_main_script(opt_level),
{
    String::from_str(
        "\nconst harness = require('./harness.js');\nconst generated = require('./elm-",
    ).concat(opt_level.id()).concat(
        ".js');\nconst expectedOutput = require('./output.json');\n\nharness(generated, expectedOutput);\n",
    )
}

/// The file the harness script is written to, inside the output directory.
pub fn harness_file_name() -> (r: &'static str)
    ensures
        r@ == "harness.js"@,
{
    "harness.js"
}

/// The file the suite's declaration is written to, inside the output
/// directory.
pub fn output_file_name() -> (r: &'static str)
    ensures
        r@ == "output.json"@,
{
    "output.json"
}

/// The file the entry script is written to, inside the output directory.
pub fn main_file_name() -> (r: &'static str)
    ensures
        r@ == "main.js"@,
{
    "main.js"
}

/// The arguments to start the runtime with: unhandled promise rejections
/// are made fatal, then comes the entry script.
pub fn node_args(main_file: &str) -> (r: Vec<String>)
    ensures
        texts(r@) == seq!["--unhandled-rejections=strict"@, main_file@],
{
    let mut args: Vec<String> = Vec::new();
    args.push(String::from_str("--unhandled-rejections=strict"));
    args.push(String::from_str(main_file));
    args
}

} // verus!

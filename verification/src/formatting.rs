//! Messages for the people who run the harness.

use crate::config::TimeSpan;
use crate::find_suites;
use crate::process::Output;
use crate::suite::{CompileAndRunError, CompileError, GetSuiteConfigError, RunError};
use vstd::prelude::*;
use vstd::string::*;

verus! {

/// The text that `bytes` stand for when read as UTF-8, with each invalid
/// stretch replaced by the replacement character.
pub uninterp spec fn utf8_lossy(bytes: Seq<u8>) -> Seq<char>;

/// A span of time as people write it, such as `2h 37m` or `50ms`.
pub uninterp spec fn formatted_duration(secs: u64, nanos: u32) -> Seq<char>;

/// `s` with four spaces put before the first character of every line that
/// has one, given whether `s` begins at the start of a line.
pub open spec fn indent_from(s: Seq<char>, at_line_start: bool) -> Seq<char>
    decreases s.len(),
{
    if s.len() == 0 {
        Seq::empty()
    } else if s[0] == '\n' {
        seq!['\n'] + indent_from(s.skip(1), true)
    } else if at_line_start {
        "    "@ + seq![s[0]] + indent_from(s.skip(1), false)
    } else {
        seq![s[0]] + indent_from(s.skip(1), false)
    }
}

/// `s` with every line that is not empty moved four spaces to the right.
pub open spec fn indent_text(s: Seq<char>) -> Seq<char> {
    indent_from(s, true)
}

/// Calls `String::from_utf8_lossy`, which reads bytes as UTF-8 and puts
/// the replacement character where they are not. The result is only
/// named, as `utf8_lossy`.
#[verifier::external_body]
fn lossy_text(bytes: &[u8]) -> (r: String)
    ensures
        r@ == utf8_lossy(bytes@),
{
    String::from_utf8_lossy(bytes).into_owned()
}

/// Calls `humantime::format_duration` and collects what it displays. The
/// result is only named, as `formatted_duration`.
#[verifier::external_body]
fn format_duration(span: TimeSpan) -> (r: String)
    requires
        span.wf(),
    ensures
        r@ == formatted_duration(span.secs, span.nanos),
{
    format!("{}", humantime::format_duration(core::time::Duration::new(span.secs, span.nanos)))
}

/// Calls `indented::indented` and collects what it displays: the text with
/// four spaces written before the first character of each line, where a
/// line that holds nothing gets none.
#[verifier::external_body]
fn indent(text: &str) -> (r: String)
    ensures
        r@ == indent_text(text@),
{
    format!("{}", indented::indented(text))
}

/// The text that `func` builds.
pub fn easy_format<F: Fn() -> String>(func: F) -> (r: String)
    requires
        func.requires(()),
    ensures
        func.ensures((), r),
{
    func()
}

/// `text` under the heading for standard output.
pub fn std_out_section(text: &str) -> (r: String)
    ensures
        r@ == " = Std Out =\n"@ + text@,
{
    String::from_str(" = Std Out =\n").concat(text)
}

/// `text` under the heading for standard error.
pub fn std_err_section(text: &str) -> (r: String)
    ensures
        r@ == " = Std Err =\n"@ + text@,
{
    String::from_str(" = Std Err =\n").concat(text)
}

pub open spec fn spec_process_stdout(stdout: Seq<u8>) -> Seq<char> {
    " = Std Out =\n"@ + utf8_lossy(stdout)
}

pub open spec fn spec_process_stderr(stderr: Seq<u8>) -> Seq<char> {
    " = Std Err =\n"@ + utf8_lossy(stderr)
}

/// What a process wrote to standard output, under its heading.
pub fn process_stdout(stdout: &[u8]) -> (r: String)
    ensures
        r@ == spec_process_stdout(stdout@),
{
    let text = lossy_text(stdout);
    std_out_section(text.as_str())
}

/// What a process wrote to standard error, under its heading.
pub fn process_stderr(stderr: &[u8]) -> (r: String)
    ensures
        r@ == spec_process_stderr(stderr@),
{
    let text = lossy_text(stderr);
    std_err_section(text.as_str())
}

/// How a process ended and what it wrote, from the three texts.
pub fn output_report(status: &str, stdout_section: &str, stderr_section: &str) -> (r: String)
    ensures
        r@ == "\n = Exit code: "@ + status@ + " =\n"@ + stdout_section@ + "\n"@ + stderr_section@,
{
    String::from_str("\n = Exit code: ").concat(status).concat(" =\n").concat(
        stdout_section,
    ).concat("\n").concat(stderr_section)
}

pub open spec fn spec_process_output(output: Output) -> Seq<char> {
    "\n = Exit code: "@ + output.status.text@ + " =\n"@ + spec_process_stdout(output.stdout@)
        + "\n"@ + spec_process_stderr(output.stderr@)
}

/// How a process ended and what it wrote.
pub fn process_output(output: &Output) -> (r: String)
    ensures
        r@ == spec_process_output(*output),
{
    let out = process_stdout(output.stdout.as_slice());
    let err = process_stderr(output.stderr.as_slice());
    output_report(output.status.text.as_str(), out.as_str(), err.as_str())
}

/// The failures to compile that have a message. The others show that the
/// harness itself went wrong and are no news about a suite.
pub open spec fn compile_error_has_message(err: CompileError) -> bool {
    !(err is Process) && !(err is SuiteDoesNotExist)
}

pub open spec fn spec_compiler_error(err: CompileError, suite: Seq<char>) -> Seq<char> {
    match err {
        CompileError::ReadingTargets(e) => "targets.txt found in suite "@ + suite
            + " but could not be read!. Details:\n"@ + e@,
        CompileError::DeletingElmStuff(e) => "elm-stuff found in suite "@ + suite
            + " but could not be deleted!. Details:\n"@ + e@,
        CompileError::Compiler(output) | CompileError::CompilerStdErrNotEmpty(output) =>
            "Compilation failed!\n"@ + spec_process_output(output),
        _ => Seq::empty(),
    }
}

/// Says why `suite` did not compile.
pub fn compiler_error(err: &CompileError, suite: &str) -> (r: String)
    requires
        compile_error_has_message(*err),
    ensures
        r@ == spec_compiler_error(*err, suite@),
{
    match err {
        CompileError::ReadingTargets(e) => String::from_str("targets.txt found in suite ").concat(
            suite,
        ).concat(" but could not be read!. Details:\n").concat(e.as_str()),
        CompileError::DeletingElmStuff(e) => String::from_str("elm-stuff found in suite ").concat(
            suite,
        ).concat(" but could not be deleted!. Details:\n").concat(e.as_str()),
        CompileError::Compiler(output) | CompileError::CompilerStdErrNotEmpty(output) => {
            let report = process_output(output);
            String::from_str("Compilation failed!\n").concat(report.as_str())
        },
        _ => String::new(),
    }
}

/// The failures at run time that have a message.
pub open spec fn run_error_has_message(err: RunError) -> bool {
    match err {
        RunError::NodeNotFound(_) | RunError::Runtime(_) | RunError::OutputProduced(_) => true,
        RunError::Timeout { after, .. } => after.wf(),
        _ => false,
    }
}

/// What is said of the output of a run that was stopped.
pub open spec fn spec_timeout_detail(stdout: Seq<u8>, stderr: Seq<u8>) -> Seq<char> {
    if stdout.len() != 0 || stderr.len() != 0 {
        " Before it stopped the process procuduced the following output:\n"@
            + spec_process_stdout(stdout) + "\n"@ + spec_process_stderr(stderr)
    } else {
        "(The process prouduced no output)"@
    }
}

fn timeout_detail(stdout: &[u8], stderr: &[u8]) -> (r: String)
    ensures
        r@ == spec_timeout_detail(stdout@, stderr@),
{
    if stdout.len() != 0 || stderr.len() != 0 {
        let out = process_stdout(stdout);
        let err = process_stderr(stderr);
        String::from_str(
            " Before it stopped the process procuduced the following output:\n",
        ).concat(out.as_str()).concat("\n").concat(err.as_str())
    } else {
        String::from_str("(The process prouduced no output)")
    }
}

/// The message for a run stopped after `after`, written out, of which
/// `detail` tells the output, with the built files in `out_dir`.
pub fn timeout_message(after: &str, detail: &str, out_dir: &str) -> (r: String)
    ensures
        r@ == "Running of the suite was stopped after "@ + after@ + "."@ + detail@
            + "\n\nTo inspect the built files that caused this error see: "@ + out_dir@,
{
    String::from_str("Running of the suite was stopped after ").concat(after).concat(".").concat(
        detail,
    ).concat("\n\nTo inspect the built files that caused this error see: ").concat(out_dir)
}

pub open spec fn spec_run_error(err: RunError, out_dir: Seq<char>) -> Seq<char> {
    match err {
        RunError::NodeNotFound(e) =>
            "Could not find node executable to run generated Javascript. Details:\n"@ + e@,
        RunError::Runtime(output) => spec_process_output(output)
            + "\n\nTo inspect the built files that caused this error see:\n  "@ + out_dir,
        RunError::OutputProduced(output) =>
            "The suite ran without error but produced the following output!:\n"@
                + spec_process_output(output),
        RunError::Timeout { after, stdout, stderr } => "Running of the suite was stopped after "@
            + formatted_duration(after.secs, after.nanos) + "."@ + spec_timeout_detail(
            stdout@,
            stderr@,
        ) + "\n\nTo inspect the built files that caused this error see: "@ + out_dir,
        _ => Seq::empty(),
    }
}

/// Says why a suite failed at run time, and where its built files are.
pub fn run_error(err: &RunError, out_dir: &str) -> (r: String)
    requires
        run_error_has_message(*err),
    ensures
        r@ == spec_run_error(*err, out_dir@),
{
    match err {
        RunError::NodeNotFound(e) => String::from_str(
            "Could not find node executable to run generated Javascript. Details:\n",
        ).concat(e.as_str()),
        RunError::Runtime(output) => process_output(output).concat(
            "\n\nTo inspect the built files that caused this error see:\n  ",
        ).concat(out_dir),
        RunError::OutputProduced(output) => {
            let report = process_output(output);
            String::from_str(
                "The suite ran without error but produced the following output!:\n",
            ).concat(report.as_str())
        },
        RunError::Timeout { after, stdout, stderr } => {
            let span = format_duration(*after);
            let detail = timeout_detail(stdout.as_slice(), stderr.as_slice());
            timeout_message(span.as_str(), detail.as_str(), out_dir)
        },
        _ => String::new(),
    }
}

/// The errors of a unit of work that have a message.
pub open spec fn error_has_message(err: CompileAndRunError) -> bool {
    match err {
        CompileAndRunError::CompileFailure { reason, .. } => compile_error_has_message(reason),
        CompileAndRunError::RunFailure { reason, .. } => run_error_has_message(reason),
        _ => true,
    }
}

/// The closing words on a failure, which say whether it was expected.
pub open spec fn spec_allowance(allowed: bool) -> Seq<char> {
    if allowed {
        "Failure allowed, continuing..."@
    } else {
        Seq::empty()
    }
}

pub open spec fn spec_config_error(err: GetSuiteConfigError) -> Seq<char> {
    match err {
        GetSuiteConfigError::CannotRead(e) => "could not be read. Details:\n"@ + e@,
        GetSuiteConfigError::Parse(e) => "could not be parsed. Details:\n"@ + e@,
    }
}

pub open spec fn spec_compile_and_run_error(
    err: CompileAndRunError,
    suite: Seq<char>,
    out_dir: Seq<char>,
) -> Seq<char> {
    match err {
        CompileAndRunError::SuiteNotExist => "The provided path to a suite: \""@ + suite
            + "\"  does not exist"@,
        CompileAndRunError::SuiteNotDir => "The provided path to a suite: \""@ + suite
            + "\" exists but is not a directory"@,
        CompileAndRunError::SuiteNotElm => "The suite directory: \""@ + suite
            + "\" is not an Elm application or package"@,
        CompileAndRunError::OutDirIsNotDir => out_dir
            + " must either be a directory or a path where elm-torture can create one!"@,
        CompileAndRunError::CannotGetSuiteConfig(e) => "The output.json of suite "@ + suite + " "@
            + spec_config_error(e),
        CompileAndRunError::CompileFailure { allowed, reason } => "Failed to compile suite "@
            + suite + ".\n"@ + indent_text(spec_compiler_error(reason, suite)) + "\n"@
            + spec_allowance(allowed),
        CompileAndRunError::RunFailure { allowed, reason } => "Suite "@ + suite
            + " failed at run time.\n"@ + indent_text(spec_run_error(reason, out_dir)) + "\n"@
            + spec_allowance(allowed),
        CompileAndRunError::ExpectedCompileFailure | CompileAndRunError::ExpectedRunFailure =>
            "Suite "@ + suite + " was expected to fail but did not!"@,
    }
}

fn allowance(allowed: bool) -> (r: &'static str)
    ensures
        r@ == spec_allowance(allowed),
{
    if allowed {
        "Failure allowed, continuing..."
    } else {
        proof {
            reveal_strlit("");
        }
        ""
    }
}

/// The message for a failure of `suite`: an opening line, the details
/// moved to the right, and the closing words.
pub fn failure_message(opening: &str, details: &str, allowed: bool) -> (r: String)
    ensures
        r@ == opening@ + indent_text(details@) + "\n"@ + spec_allowance(allowed),
{
    let moved = indent(details);
    String::from_str(opening).concat(moved.as_str()).concat("\n").concat(allowance(allowed))
}

/// Says how a unit of work on `suite` went wrong, with built files in
/// `out_dir`.
pub fn compile_and_run_error(err: &CompileAndRunError, suite: &str, out_dir: &str) -> (r: String)
    requires
        error_has_message(*err),
    ensures
        r@ == spec_compile_and_run_error(*err, suite@, out_dir@),
{
    match err {
        CompileAndRunError::SuiteNotExist => String::from_str(
            "The provided path to a suite: \"",
        ).concat(suite).concat("\"  does not exist"),
        CompileAndRunError::SuiteNotDir => String::from_str(
            "The provided path to a suite: \"",
        ).concat(suite).concat("\" exists but is not a directory"),
        CompileAndRunError::SuiteNotElm => String::from_str("The suite directory: \"").concat(
            suite,
        ).concat("\" is not an Elm application or package"),
        CompileAndRunError::OutDirIsNotDir => String::from_str(out_dir).concat(
            " must either be a directory or a path where elm-torture can create one!",
        ),
        CompileAndRunError::CannotGetSuiteConfig(e) => {
            let head = String::from_str("The output.json of suite ").concat(suite).concat(" ");
            match e {
                GetSuiteConfigError::CannotRead(e) => head.concat(
                    "could not be read. Details:\n",
                ).concat(e.as_str()),
                GetSuiteConfigError::Parse(e) => head.concat(
                    "could not be parsed. Details:\n",
                ).concat(e.as_str()),
            }
        },
        CompileAndRunError::CompileFailure { allowed, reason } => {
            let opening = String::from_str("Failed to compile suite ").concat(suite).concat(".\n");
            let details = compiler_error(reason, suite);
            let message = failure_message(opening.as_str(), details.as_str(), *allowed);
            message
        },
        CompileAndRunError::RunFailure { allowed, reason } => {
            let opening = String::from_str("Suite ").concat(suite).concat(" failed at run time.\n");
            let details = run_error(reason, out_dir);
            let message = failure_message(opening.as_str(), details.as_str(), *allowed);
            message
        },
        CompileAndRunError::ExpectedCompileFailure | CompileAndRunError::ExpectedRunFailure =>
            String::from_str("Suite ").concat(suite).concat(" was expected to fail but did not!"),
    }
}

pub open spec fn spec_find_suite_error(err: find_suites::Error, suite_dir: Seq<char>) -> Seq<char> {
    match err {
        find_suites::Error::ProvidedPathIsNotDir => "elm-torture cannot run suites in "@ + suite_dir
            + " as it is not a directory!\n    Please check the path and try again.\n    "@,
        find_suites::Error::ProvidedPathIsSuiteItself => "elm-torture cannot run suites in "@
            + suite_dir + " as it is a suite itself!\nTo run this suite individually try `--suite "@
            + suite_dir + "` (note `suite` rather than `--suites`).\n    "@,
        find_suites::Error::ReadingDir(_) => Seq::empty(),
    }
}

/// Says why no suites were found in `suite_dir`.
pub fn find_suite_error(err: &find_suites::Error, suite_dir: &str) -> (r: String)
    requires
        !(*err is ReadingDir),
    ensures
        r@ == spec_find_suite_error(*err, suite_dir@),
{
    match err {
        find_suites::Error::ProvidedPathIsNotDir => String::from_str(
            "elm-torture cannot run suites in ",
        ).concat(suite_dir).concat(
            " as it is not a directory!\n    Please check the path and try again.\n    ",
        ),
        find_suites::Error::ProvidedPathIsSuiteItself => String::from_str(
            "elm-torture cannot run suites in ",
        ).concat(suite_dir).concat(
            " as it is a suite itself!\nTo run this suite individually try `--suite ",
        ).concat(suite_dir).concat("` (note `suite` rather than `--suites`).\n    "),
        find_suites::Error::ReadingDir(_) => String::new(),
    }
}

/// Says that the configuration file at `path` could not be opened.
pub fn config_file_not_found(path: &str, details: &str) -> (r: String)
    ensures
        r@ == "Config file "@ + path@ + " not found: "@ + details@,
{
    String::from_str("Config file ").concat(path).concat(" not found: ").concat(details)
}

/// Says that the configuration file at `path` holds no configuration.
pub fn config_file_not_json(path: &str, details: &str) -> (r: String)
    ensures
        r@ == "Could not parse file "@ + path@ + " as json config: "@ + details@,
{
    String::from_str("Could not parse file ").concat(path).concat(" as json config: ").concat(
        details,
    )
}

/// The ending that makes a plural of `SSCCE` where `count` is not one.
pub fn plural(count: usize) -> (r: &'static str)
    ensures
        r@ == (if count == 1 {
            Seq::<char>::empty()
        } else {
            "s"@
        }),
{
    if count == 1 {
        proof {
            reveal_strlit("");
        }
        ""
    } else {
        "s"
    }
}

/// The first `n` of `lines`, each followed by a line feed.
pub open spec fn spec_listing(lines: Seq<Seq<char>>, n: int) -> Seq<char>
    decreases n,
{
    if n <= 0 {
        Seq::empty()
    } else {
        spec_listing(lines, n - 1) + lines[n - 1] + "\n"@
    }
}

/// The paths of the suites, one to a line and moved to the right.
pub fn suites_listing(suites: &Vec<String>) -> (r: String)
    ensures
        r@ == indent_text(spec_listing(crate::config::texts(suites@), suites@.len() as int)),
{
    let mut listing = String::new();
    let mut i: usize = 0;
    while i < suites.len()
        invariant
            i <= suites.len(),
            listing@ == spec_listing(crate::config::texts(suites@), i as int),
        decreases suites.len() - i,
    {
        listing = listing.concat(suites[i].as_str()).concat("\n");
        i = i + 1;
    }
    indent(listing.as_str())
}

/// How an outcome is painted in the summary.
#[derive(Debug, PartialEq, Eq, Structural, Clone, Copy)]
pub enum Tone {
    Green,
    Yellow,
    Red,
}

/// The words for an outcome in the summary.
pub open spec fn spec_outcome_label(outcome: Option<CompileAndRunError>) -> Seq<char> {
    match outcome {
        None => "success"@,
        Some(CompileAndRunError::RunFailure { allowed: true, .. }) => "allowed run failure"@,
        Some(CompileAndRunError::CompileFailure { allowed: true, .. }) =>
            "allowed compile failure"@,
        Some(CompileAndRunError::ExpectedCompileFailure) =>
            "success when elm-torture expected a compile time failure"@,
        Some(CompileAndRunError::ExpectedRunFailure) =>
            "success when elm-torture expected a run time failure"@,
        Some(_) => "failure"@,
    }
}

/// The colour for an outcome in the summary: green for a pass, yellow for
/// a failure that was expected, red for anything else.
pub open spec fn spec_outcome_tone(outcome: Option<CompileAndRunError>) -> Tone {
    match outcome {
        None => Tone::Green,
        Some(CompileAndRunError::RunFailure { allowed: true, .. }) => Tone::Yellow,
        Some(CompileAndRunError::CompileFailure { allowed: true, .. }) => Tone::Yellow,
        Some(_) => Tone::Red,
    }
}

/// The words and the colour for an outcome in the summary.
pub fn outcome_label(outcome: &Option<CompileAndRunError>) -> (r: (&'static str, Tone))
    ensures
        r.0@ == spec_outcome_label(*outcome),
        r.1 == spec_outcome_tone(*outcome),
{
    match outcome {
        None => ("success", Tone::Green),
        Some(CompileAndRunError::RunFailure { allowed: true, .. }) => (
            "allowed run failure",
            Tone::Yellow,
        ),
        Some(CompileAndRunError::CompileFailure { allowed: true, .. }) => (
            "allowed compile failure",
            Tone::Yellow,
        ),
        Some(CompileAndRunError::ExpectedCompileFailure) => (
            "success when elm-torture expected a compile time failure",
            Tone::Red,
        ),
        Some(CompileAndRunError::ExpectedRunFailure) => (
            "success when elm-torture expected a run time failure",
            Tone::Red,
        ),
        Some(_) => ("failure", Tone::Red),
    }
}

} // verus!

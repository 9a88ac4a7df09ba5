use elm_torture::config::TimeSpan;
use elm_torture::find_suites;
use elm_torture::formatting::{
    compile_and_run_error, compiler_error, easy_format, failure_message, find_suite_error,
    outcome_label, output_report, process_output, process_stderr, process_stdout, run_error,
    std_err_section, std_out_section, timeout_message, Tone,
};
use elm_torture::process::{ExitStatus, Output};
use elm_torture::suite::{CompileAndRunError, CompileError, GetSuiteConfigError, RunError};

fn output() -> Output {
    Output {
        status: ExitStatus { code: Some(1), text: "exit status: 1".to_string() },
        stdout: b"out".to_vec(),
        stderr: b"line one\n\nline three".to_vec(),
    }
}

const REPORT: &str =
    "\n = Exit code: exit status: 1 =\n = Std Out =\nout\n = Std Err =\nline one\n\nline three";

#[test]
fn easy_format_returns_what_the_function_builds() {
    assert_eq!(easy_format(|| "built".to_string()), "built");
}

#[test]
fn sections_have_headings() {
    assert_eq!(std_out_section("x"), " = Std Out =\nx");
    assert_eq!(std_err_section(""), " = Std Err =\n");
    assert_eq!(process_stdout(b"hello\n"), " = Std Out =\nhello\n");
    assert_eq!(process_stderr(b"oops"), " = Std Err =\noops");
}

#[test]
fn invalid_utf8_is_replaced() {
    assert_eq!(process_stdout(b"a\xffb"), " = Std Out =\na\u{fffd}b");
    assert_eq!(process_stderr("é".as_bytes()), " = Std Err =\né");
}

#[test]
fn process_output_shows_status_and_both_streams() {
    assert_eq!(process_output(&output()), REPORT);
    assert_eq!(output_report("0", "a", "b"), "\n = Exit code: 0 =\na\nb");
}

#[test]
fn compiler_error_messages() {
    assert_eq!(
        compiler_error(&CompileError::ReadingTargets("denied".to_string()), "suites/a"),
        "targets.txt found in suite suites/a but could not be read!. Details:\ndenied"
    );
    assert_eq!(
        compiler_error(&CompileError::DeletingElmStuff("denied".to_string()), "suites/a"),
        "elm-stuff found in suite suites/a but could not be deleted!. Details:\ndenied"
    );
    let expected = format!("Compilation failed!\n{}", REPORT);
    assert_eq!(compiler_error(&CompileError::Compiler(output()), "s"), expected);
    assert_eq!(compiler_error(&CompileError::CompilerStdErrNotEmpty(output()), "s"), expected);
}

#[test]
fn run_error_messages() {
    assert_eq!(
        run_error(&RunError::NodeNotFound("cannot find binary path".to_string()), "/tmp/o"),
        "Could not find node executable to run generated Javascript. Details:\ncannot find binary path"
    );
    assert_eq!(
        run_error(&RunError::Runtime(output()), "/tmp/o"),
        format!(
            "{}\n\nTo inspect the built files that caused this error see:\n  /tmp/o",
            REPORT
        )
    );
    assert_eq!(
        run_error(&RunError::OutputProduced(output()), "/tmp/o"),
        format!("The suite ran without error but produced the following output!:\n{}", REPORT)
    );
}

#[test]
fn timeout_messages() {
    let silent = RunError::Timeout {
        after: TimeSpan::from_millis(50),
        stdout: vec![],
        stderr: vec![],
    };
    assert_eq!(
        run_error(&silent, "/tmp/o"),
        "Running of the suite was stopped after 50ms.(The process prouduced no output)\n\nTo inspect the built files that caused this error see: /tmp/o"
    );
    let noisy = RunError::Timeout {
        after: TimeSpan { secs: 9420, nanos: 0 },
        stdout: vec![],
        stderr: b"tick".to_vec(),
    };
    assert_eq!(
        run_error(&noisy, "/tmp/o"),
        "Running of the suite was stopped after 2h 37m. Before it stopped the process procuduced the following output:\n = Std Out =\n\n = Std Err =\ntick\n\nTo inspect the built files that caused this error see: /tmp/o"
    );
    assert_eq!(
        timeout_message("1s", "(nothing)", "d"),
        "Running of the suite was stopped after 1s.(nothing)\n\nTo inspect the built files that caused this error see: d"
    );
}

#[test]
fn failure_message_indents_the_details() {
    assert_eq!(failure_message("Open\n", "a\n\n b\n", true), "Open\n    a\n\n     b\n\nFailure allowed, continuing...");
    assert_eq!(failure_message("Open\n", "", false), "Open\n\n");
    assert_eq!(failure_message("", "\nx", false), "\n    x\n");
}

#[test]
fn structural_error_messages() {
    assert_eq!(
        compile_and_run_error(&CompileAndRunError::SuiteNotExist, "suites/a", "/tmp/o"),
        "The provided path to a suite: \"suites/a\"  does not exist"
    );
    assert_eq!(
        compile_and_run_error(&CompileAndRunError::SuiteNotDir, "suites/a", "/tmp/o"),
        "The provided path to a suite: \"suites/a\" exists but is not a directory"
    );
    assert_eq!(
        compile_and_run_error(&CompileAndRunError::SuiteNotElm, "suites/a", "/tmp/o"),
        "The suite directory: \"suites/a\" is not an Elm application or package"
    );
    assert_eq!(
        compile_and_run_error(&CompileAndRunError::OutDirIsNotDir, "suites/a", "/tmp/o"),
        "/tmp/o must either be a directory or a path where elm-torture can create one!"
    );
    assert_eq!(
        compile_and_run_error(
            &CompileAndRunError::CannotGetSuiteConfig(GetSuiteConfigError::Parse(
                "unknown field".to_string()
            )),
            "suites/a",
            "/tmp/o"
        ),
        "The output.json of suite suites/a could not be parsed. Details:\nunknown field"
    );
    assert_eq!(
        compile_and_run_error(
            &CompileAndRunError::CannotGetSuiteConfig(GetSuiteConfigError::CannotRead(
                "denied".to_string()
            )),
            "suites/a",
            "/tmp/o"
        ),
        "The output.json of suite suites/a could not be read. Details:\ndenied"
    );
    for err in [CompileAndRunError::ExpectedCompileFailure, CompileAndRunError::ExpectedRunFailure] {
        assert_eq!(
            compile_and_run_error(&err, "suites/a", "/tmp/o"),
            "Suite suites/a was expected to fail but did not!"
        );
    }
}

#[test]
fn compile_failure_message() {
    let err = CompileAndRunError::CompileFailure {
        allowed: false,
        reason: CompileError::Compiler(output()),
    };
    assert_eq!(
        compile_and_run_error(&err, "suites/a", "/tmp/o"),
        "Failed to compile suite suites/a.\n    Compilation failed!\n\n     = Exit code: exit status: 1 =\n     = Std Out =\n    out\n     = Std Err =\n    line one\n\n    line three\n"
    );
    let err = CompileAndRunError::CompileFailure {
        allowed: true,
        reason: CompileError::ReadingTargets("denied".to_string()),
    };
    assert_eq!(
        compile_and_run_error(&err, "a", "/tmp/o"),
        "Failed to compile suite a.\n    targets.txt found in suite a but could not be read!. Details:\n    denied\nFailure allowed, continuing..."
    );
}

#[test]
fn run_failure_message() {
    let err = CompileAndRunError::RunFailure {
        allowed: true,
        reason: RunError::Timeout {
            after: TimeSpan { secs: 10, nanos: 0 },
            stdout: vec![],
            stderr: vec![],
        },
    };
    assert_eq!(
        compile_and_run_error(&err, "a", "/tmp/o"),
        "Suite a failed at run time.\n    Running of the suite was stopped after 10s.(The process prouduced no output)\n\n    To inspect the built files that caused this error see: /tmp/o\nFailure allowed, continuing..."
    );
}

#[test]
fn find_suite_error_messages() {
    assert_eq!(
        find_suite_error(&find_suites::Error::ProvidedPathIsNotDir, "suites"),
        "elm-torture cannot run suites in suites as it is not a directory!\n    Please check the path and try again.\n    "
    );
    assert_eq!(
        find_suite_error(&find_suites::Error::ProvidedPathIsSuiteItself, "suites/a"),
        "elm-torture cannot run suites in suites/a as it is a suite itself!\nTo run this suite individually try `--suite suites/a` (note `suite` rather than `--suites`).\n    "
    );
}

#[test]
fn outcome_labels() {
    let run = |allowed| {
        Some(CompileAndRunError::RunFailure { allowed, reason: RunError::SuiteDoesNotExist })
    };
    let compile = |allowed| {
        Some(CompileAndRunError::CompileFailure {
            allowed,
            reason: CompileError::SuiteDoesNotExist,
        })
    };
    assert_eq!(outcome_label(&None), ("success", Tone::Green));
    assert_eq!(outcome_label(&run(true)), ("allowed run failure", Tone::Yellow));
    assert_eq!(outcome_label(&compile(true)), ("allowed compile failure", Tone::Yellow));
    assert_eq!(outcome_label(&run(false)), ("failure", Tone::Red));
    assert_eq!(outcome_label(&compile(false)), ("failure", Tone::Red));
    assert_eq!(
        outcome_label(&Some(CompileAndRunError::ExpectedCompileFailure)),
        ("success when elm-torture expected a compile time failure", Tone::Red)
    );
    assert_eq!(
        outcome_label(&Some(CompileAndRunError::ExpectedRunFailure)),
        ("success when elm-torture expected a run time failure", Tone::Red)
    );
    assert_eq!(outcome_label(&Some(CompileAndRunError::SuiteNotElm)), ("failure", Tone::Red));
}

#[test]
fn config_file_messages() {
    assert_eq!(
        elm_torture::formatting::config_file_not_found("c.json", "No such file or directory"),
        "Config file c.json not found: No such file or directory"
    );
    assert_eq!(
        elm_torture::formatting::config_file_not_json("c.json", "expected value at line 1"),
        "Could not parse file c.json as json config: expected value at line 1"
    );
}

#[test]
fn plural_and_listing() {
    assert_eq!(elm_torture::formatting::plural(1), "");
    assert_eq!(elm_torture::formatting::plural(0), "s");
    assert_eq!(elm_torture::formatting::plural(2), "s");
    let suites = vec!["suites/a".to_string(), "suites/b".to_string()];
    assert_eq!(elm_torture::formatting::suites_listing(&suites), "    suites/a\n    suites/b\n");
    assert_eq!(elm_torture::formatting::suites_listing(&vec![]), "");
}

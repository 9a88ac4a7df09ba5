use elm_torture::compile::{
    artifact_name, compile, compiler_args, root_files, run_until_success, Attempt, Retry,
    RetryStep,
};
use elm_torture::compile_and_run::{
    after_compile, after_run, check_suite, compile_and_run, get_exit_code, suite_config,
    unit_failed, SuiteCheck, UnitFacts,
};
use elm_torture::condition::{
    CompileFailsIfAll, ConditionCollection, ConditionCollectionHelper, Platform, RunFailsIfAll,
    StdlibVariant,
};
use elm_torture::config::{OptimizationLevel, TimeSpan};
use elm_torture::process::{same_bytes, starts_with, ExitStatus, Output};
use elm_torture::run::{
    harness_file_name, is_tolerated_stderr, main_file_name, main_script, node_args,
    output_file_name, run, RunObservation,
};
use elm_torture::suite::{
    detect_stdlib_variant, variant_of_probe, CompileAndRunError, CompileError, Config,
    DetectStdlibError, ElmCompilerPath, GetSuiteConfigError, RunError, SuitesError,
};
use std::cell::Cell;

const DEV_NOTICE: &str = "Compiled in DEV mode. Follow the advice at https://elm-lang.org/0.19.1/optimize for better performance and smaller assets.\n";
const DEBUG_NOTICE: &str = "Compiled in DEBUG mode. Follow the advice at https://elm-lang.org/0.19.1/optimize for better performance and smaller assets.\n";

fn exited(code: i32, stdout: &str, stderr: &str) -> Output {
    Output {
        status: ExitStatus { code: Some(code), text: format!("exit status: {}", code) },
        stdout: stdout.as_bytes().to_vec(),
        stderr: stderr.as_bytes().to_vec(),
    }
}

fn killed() -> Output {
    Output {
        status: ExitStatus { code: None, text: "signal: 9 (SIGKILL)".to_string() },
        stdout: vec![],
        stderr: vec![],
    }
}

fn facts(opt_level: OptimizationLevel) -> UnitFacts {
    UnitFacts {
        opt_level,
        stdlib_variant: StdlibVariant::Official,
        platform: Platform::Linux,
        max_retries: 1,
        run_timeout: TimeSpan { secs: 10, nanos: 0 },
    }
}

fn no_args() -> Vec<String> {
    vec![]
}

fn no_targets() -> Result<Option<String>, String> {
    Ok(None)
}

fn run_one<V, D, C, R>(
    facts: &UnitFacts,
    check: V,
    read_config: D,
    compile_once: C,
    launch: R,
) -> Result<(), CompileAndRunError>
where
    V: Fn() -> SuiteCheck,
    D: Fn() -> Option<Result<Config, GetSuiteConfigError>>,
    C: Fn() -> Attempt,
    R: Fn(&Config) -> Result<RunObservation, RunError>,
{
    compile_and_run(
        facts,
        "/out/elm.js",
        check,
        read_config,
        no_targets,
        |_| compile_once(),
        launch,
    )
}

fn a_suite() -> SuiteCheck {
    SuiteCheck { exists: true, is_dir: true, has_elm_json: true }
}

fn run_fails_at_debug() -> Config {
    Config {
        ports: None,
        logs: None,
        compile_fails_if: None,
        run_fails_if: Some(ConditionCollection::Cond(RunFailsIfAll {
            stdlib_variant: None,
            opt_level: Some(vec![OptimizationLevel::Debug]),
            platform: None,
        })),
    }
}

fn compile_fails_at_optimize() -> Config {
    Config {
        ports: None,
        logs: None,
        compile_fails_if: Some(ConditionCollection::Collection(ConditionCollectionHelper::Any(
            vec![ConditionCollection::Cond(CompileFailsIfAll {
                opt_level: Some(vec![OptimizationLevel::Optimize]),
                platform: None,
            })],
        ))),
        run_fails_if: None,
    }
}

#[test]
fn exit_status_success_is_code_zero() {
    assert!(exited(0, "", "").status.success());
    assert!(!exited(1, "", "").status.success());
    assert!(!exited(-1, "", "").status.success());
    assert!(!killed().status.success());
}

#[test]
fn starts_with_and_same_bytes() {
    assert!(starts_with(b"another-elm 1", b"another-elm"));
    assert!(starts_with(b"abc", b""));
    assert!(starts_with(b"abc", b"abc"));
    assert!(!starts_with(b"ab", b"abc"));
    assert!(!starts_with(b"abd", b"abc"));
    assert!(same_bytes(b"", b""));
    assert!(same_bytes(b"xyz", b"xyz"));
    assert!(!same_bytes(b"xyz", b"xy"));
    assert!(!same_bytes(b"xy", b"xyz"));
    assert!(!same_bytes(b"xyz", b"xyw"));
}

#[test]
fn probe_that_fails_means_official() {
    assert_eq!(detect_stdlib_variant(false, b"whatever".to_vec()), Ok(StdlibVariant::Official));
    assert_eq!(detect_stdlib_variant(false, b"another-elm".to_vec()), Ok(StdlibVariant::Official));
    assert_eq!(detect_stdlib_variant(false, vec![]), Ok(StdlibVariant::Official));
}

#[test]
fn probe_that_answers_with_the_marker_means_another() {
    assert_eq!(detect_stdlib_variant(true, b"another-elm".to_vec()), Ok(StdlibVariant::Another));
    assert_eq!(
        detect_stdlib_variant(true, b"another-elm-0.19.1\n".to_vec()),
        Ok(StdlibVariant::Another)
    );
}

#[test]
fn probe_output_is_trimmed_before_matching() {
    assert_eq!(
        detect_stdlib_variant(true, b" \t\r\n another-elm\n".to_vec()),
        Ok(StdlibVariant::Another)
    );
    assert_eq!(
        detect_stdlib_variant(true, "\u{2003}another-elm".as_bytes().to_vec()),
        Ok(StdlibVariant::Another)
    );
}

#[test]
fn probe_with_unknown_answer_is_a_parse_error() {
    assert_eq!(
        detect_stdlib_variant(true, b" elm 0.19.1\n".to_vec()),
        Err(DetectStdlibError::Parsing(b" elm 0.19.1\n".to_vec()))
    );
    assert_eq!(detect_stdlib_variant(true, vec![]), Err(DetectStdlibError::Parsing(vec![])));
    assert_eq!(
        detect_stdlib_variant(true, b"x another-elm".to_vec()),
        Err(DetectStdlibError::Parsing(b"x another-elm".to_vec()))
    );
}

#[test]
fn variant_of_probe_on_trimmed_output() {
    assert_eq!(variant_of_probe(false, b""), Some(StdlibVariant::Official));
    assert_eq!(variant_of_probe(true, b"another-elm"), Some(StdlibVariant::Another));
    assert_eq!(variant_of_probe(true, b" another-elm"), None);
    assert_eq!(variant_of_probe(true, b"another-el"), None);
}

#[test]
fn from_probe_keeps_name_and_path() {
    let resolved = ElmCompilerPath::from_probe(
        "elm".to_string(),
        "/usr/local/bin/elm".to_string(),
        exited(1, "", "unknown flag"),
    );
    let expected = ElmCompilerPath {
        unresolved: "elm".to_string(),
        path: "/usr/local/bin/elm".to_string(),
        stdlib_variant: StdlibVariant::Official,
    };
    assert_eq!(resolved, Ok(expected));
    let resolved = ElmCompilerPath::from_probe(
        "another".to_string(),
        "/opt/another".to_string(),
        exited(0, "another-elm\n", ""),
    )
    .unwrap();
    assert_eq!(resolved.stdlib_variant, StdlibVariant::Another);
    assert_eq!(resolved.name(), "another");
    assert_eq!(resolved.command(), "/opt/another");
    assert_eq!(resolved.duplicate(), resolved);
}

#[test]
fn from_probe_refuses_an_unknown_answer() {
    let resolved = ElmCompilerPath::from_probe(
        "gcc".to_string(),
        "/usr/bin/gcc".to_string(),
        exited(0, "gcc 12", ""),
    );
    assert_eq!(resolved, Err(DetectStdlibError::Parsing(b"gcc 12".to_vec())));
}

#[test]
fn compile_retries_until_success() {
    let calls = Cell::new(0);
    let result = run_until_success(3, &no_args(), |_| {
        calls.set(calls.get() + 1);
        if calls.get() < 3 {
            Attempt::Exited(exited(1, "", "error"))
        } else {
            Attempt::Exited(exited(0, "", ""))
        }
    });
    assert_eq!(result, Ok(()));
    assert_eq!(calls.get(), 3);
}

#[test]
fn compile_returns_the_last_error() {
    let calls = Cell::new(0);
    let result = run_until_success(2, &no_args(), |_| {
        calls.set(calls.get() + 1);
        Attempt::Exited(exited(calls.get(), "", "failed"))
    });
    assert_eq!(result, Err(CompileError::Compiler(exited(2, "", "failed"))));
    assert_eq!(calls.get(), 2);
}

#[test]
fn compile_stops_at_the_first_success() {
    let calls = Cell::new(0);
    let result = run_until_success(5, &no_args(), |_| {
        calls.set(calls.get() + 1);
        Attempt::Exited(exited(0, "Success!", ""))
    });
    assert_eq!(result, Ok(()));
    assert_eq!(calls.get(), 1);
}

#[test]
fn compile_with_no_retries_tries_once() {
    let calls = Cell::new(0);
    let result = run_until_success(0, &no_args(), |_| {
        calls.set(calls.get() + 1);
        Attempt::Process("no such file".to_string())
    });
    assert_eq!(result, Err(CompileError::Process("no such file".to_string())));
    assert_eq!(calls.get(), 1);
}

#[test]
fn compile_with_stderr_fails_without_retry() {
    let calls = Cell::new(0);
    let result = run_until_success(3, &no_args(), |_| {
        calls.set(calls.get() + 1);
        Attempt::Exited(exited(0, "", "warning"))
    });
    assert_eq!(result, Err(CompileError::CompilerStdErrNotEmpty(exited(0, "", "warning"))));
    assert_eq!(calls.get(), 1);
}

#[test]
fn compile_retries_after_a_cache_error() {
    let calls = Cell::new(0);
    let result = run_until_success(2, &no_args(), |_| {
        calls.set(calls.get() + 1);
        if calls.get() == 1 {
            Attempt::DeletingElmStuff("permission denied".to_string())
        } else {
            Attempt::Exited(exited(0, "", ""))
        }
    });
    assert_eq!(result, Ok(()));
    assert_eq!(calls.get(), 2);
    let result = run_until_success(1, &no_args(), |_| Attempt::DeletingElmStuff("permission denied".to_string()));
    assert_eq!(result, Err(CompileError::DeletingElmStuff("permission denied".to_string())));
}

#[test]
fn retry_steps_one_by_one() {
    let retry = Retry::new(2);
    assert_eq!(retry, Retry { max_retries: 2, made: 0 });
    let next = match retry.after(Attempt::Exited(exited(1, "", ""))) {
        RetryStep::Again(next) => next,
        RetryStep::Done(_) => panic!("one attempt is left"),
    };
    assert_eq!(next, Retry { max_retries: 2, made: 1 });
    assert_eq!(
        next.after(Attempt::Exited(exited(3, "", ""))),
        RetryStep::Done(Err(CompileError::Compiler(exited(3, "", ""))))
    );
    assert_eq!(next.after(Attempt::Exited(exited(0, "", ""))), RetryStep::Done(Ok(())));
    let spent = Retry { max_retries: usize::MAX, made: usize::MAX };
    assert_eq!(
        spent.after(Attempt::Process("x".to_string())),
        RetryStep::Done(Err(CompileError::Process("x".to_string())))
    );
}

#[test]
fn attempt_verdicts() {
    assert!(Attempt::Exited(exited(0, "", "warn")).succeeded());
    assert!(!Attempt::Exited(killed()).succeeded());
    assert!(!Attempt::Process("x".to_string()).succeeded());
    assert_eq!(Attempt::Exited(exited(0, "built", "")).verdict(), Ok(()));
    assert_eq!(
        Attempt::Exited(killed()).verdict(),
        Err(CompileError::Compiler(killed()))
    );
    assert_eq!(
        Attempt::Exited(exited(1, "", "warn")).verdict(),
        Err(CompileError::Compiler(exited(1, "", "warn")))
    );
}

#[test]
fn root_files_default_to_main() {
    assert_eq!(root_files(None), vec!["Main.elm".to_string()]);
}

#[test]
fn root_files_are_the_lines_of_targets() {
    assert_eq!(
        root_files(Some("A.elm\nsrc/B.elm")),
        vec!["A.elm".to_string(), "src/B.elm".to_string()]
    );
    assert_eq!(root_files(Some("A.elm\n")), vec!["A.elm".to_string(), String::new()]);
    assert_eq!(root_files(Some("")), vec![String::new()]);
    assert_eq!(
        root_files(Some("\n\nÉ.elm")),
        vec![String::new(), String::new(), "É.elm".to_string()]
    );
    let text = "One.elm\nTwo.elm\n\nThree.elm\n";
    let expected: Vec<String> = text.split('\n').map(String::from).collect();
    assert_eq!(root_files(Some(text)), expected);
}

#[test]
fn compiler_args_in_order() {
    let roots = vec!["A.elm".to_string(), "B.elm".to_string()];
    assert_eq!(
        compiler_args(&roots, OptimizationLevel::Debug, "/out/elm-debug.js"),
        vec!["make", "A.elm", "B.elm", "--debug", "--output", "/out/elm-debug.js"]
    );
    assert_eq!(
        compiler_args(&roots, OptimizationLevel::Dev, "o.js"),
        vec!["make", "A.elm", "B.elm", "--output", "o.js"]
    );
    assert_eq!(
        compiler_args(&vec![], OptimizationLevel::Optimize, "o.js"),
        vec!["make", "--optimize", "--output", "o.js"]
    );
}

#[test]
fn artifact_names_differ_by_level() {
    assert_eq!(artifact_name(OptimizationLevel::Debug), "elm-debug.js");
    assert_eq!(artifact_name(OptimizationLevel::Dev), "elm-dev.js");
    assert_eq!(artifact_name(OptimizationLevel::Optimize), "elm-optimize.js");
}

#[test]
fn run_times_out() {
    let timeout = TimeSpan::from_millis(50);
    let result = run(true, timeout, || {
        Ok(RunObservation::TimedOut { stdout: b"partial".to_vec(), stderr: vec![] })
    });
    assert_eq!(
        result,
        Err(RunError::Timeout {
            after: TimeSpan { secs: 0, nanos: 50_000_000 },
            stdout: b"partial".to_vec(),
            stderr: vec![],
        })
    );
}

#[test]
fn run_passes_on_a_silent_clean_exit() {
    let timeout = TimeSpan { secs: 10, nanos: 0 };
    assert_eq!(run(true, timeout, || Ok(RunObservation::Exited(exited(0, "", "")))), Ok(()));
    assert_eq!(RunObservation::Exited(exited(0, "", DEV_NOTICE)).verdict(timeout), Ok(()));
    assert_eq!(RunObservation::Exited(exited(0, "", DEBUG_NOTICE)).verdict(timeout), Ok(()));
}

#[test]
fn run_fails_on_a_crash() {
    let timeout = TimeSpan { secs: 10, nanos: 0 };
    assert_eq!(
        RunObservation::Exited(exited(1, "", "boom")).verdict(timeout),
        Err(RunError::Runtime(exited(1, "", "boom")))
    );
    assert_eq!(
        RunObservation::Exited(killed()).verdict(timeout),
        Err(RunError::Runtime(killed()))
    );
    assert_eq!(
        RunObservation::Exited(exited(2, "out", "")).verdict(timeout),
        Err(RunError::Runtime(exited(2, "out", "")))
    );
}

#[test]
fn run_fails_on_output() {
    let timeout = TimeSpan { secs: 10, nanos: 0 };
    assert_eq!(
        RunObservation::Exited(exited(0, "hello", "")).verdict(timeout),
        Err(RunError::OutputProduced(exited(0, "hello", "")))
    );
    assert_eq!(
        RunObservation::Exited(exited(0, "hello", DEV_NOTICE)).verdict(timeout),
        Err(RunError::OutputProduced(exited(0, "hello", DEV_NOTICE)))
    );
    assert_eq!(
        RunObservation::Exited(exited(0, "", "warning")).verdict(timeout),
        Err(RunError::OutputProduced(exited(0, "", "warning")))
    );
    let twice = format!("{}{}", DEV_NOTICE, DEV_NOTICE);
    assert_eq!(
        RunObservation::Exited(exited(0, "", &twice)).verdict(timeout),
        Err(RunError::OutputProduced(exited(0, "", &twice)))
    );
}

#[test]
fn tolerated_stderr_is_exact() {
    assert!(is_tolerated_stderr(b""));
    assert!(is_tolerated_stderr(DEV_NOTICE.as_bytes()));
    assert!(is_tolerated_stderr(DEBUG_NOTICE.as_bytes()));
    assert!(!is_tolerated_stderr(DEV_NOTICE.trim_end().as_bytes()));
    assert!(!is_tolerated_stderr(DEV_NOTICE.replace("DEV", "OPTIMIZE").as_bytes()));
    assert!(!is_tolerated_stderr(b"\n"));
}

#[test]
fn run_hands_on_what_could_not_be_launched() {
    let timeout = TimeSpan { secs: 10, nanos: 0 };
    assert_eq!(
        run(true, timeout, || Err(RunError::NodeNotFound("cannot find binary path".to_string()))),
        Err(RunError::NodeNotFound("cannot find binary path".to_string()))
    );
    assert_eq!(
        run(true, timeout, || Err(RunError::WritingHarness("disk full".to_string()))),
        Err(RunError::WritingHarness("disk full".to_string()))
    );
}

#[test]
fn main_script_names_the_artifact() {
    assert_eq!(
        main_script(OptimizationLevel::Dev),
        "\nconst harness = require('./harness.js');\nconst generated = require('./elm-dev.js');\nconst expectedOutput = require('./output.json');\n\nharness(generated, expectedOutput);\n"
    );
    assert!(main_script(OptimizationLevel::Optimize).contains("require('./elm-optimize.js')"));
}

#[test]
fn file_names_and_node_args() {
    assert_eq!(harness_file_name(), "harness.js");
    assert_eq!(output_file_name(), "output.json");
    assert_eq!(main_file_name(), "main.js");
    assert_eq!(node_args("/out/main.js"), vec!["--unhandled-rejections=strict", "/out/main.js"]);
}

#[test]
fn check_suite_names_the_first_problem() {
    let check = |exists, is_dir, has_elm_json| check_suite(SuiteCheck { exists, is_dir, has_elm_json });
    assert_eq!(check(false, false, false), Err(CompileAndRunError::SuiteNotExist));
    assert_eq!(check(false, true, true), Err(CompileAndRunError::SuiteNotExist));
    assert_eq!(check(true, false, true), Err(CompileAndRunError::SuiteNotDir));
    assert_eq!(check(true, true, false), Err(CompileAndRunError::SuiteNotElm));
    assert_eq!(check(true, true, true), Ok(()));
}

#[test]
fn suite_without_declaration_declares_nothing() {
    let config = suite_config(None).unwrap();
    assert!(config.ports.is_none());
    assert!(config.logs.is_none());
    assert!(config.compile_fails_if.is_none());
    assert!(config.run_fails_if.is_none());
    let config = Config::default();
    assert!(config.compile_fails_if.is_none() && config.run_fails_if.is_none());
    let err = suite_config(Some(Err(GetSuiteConfigError::Parse("eof".to_string())))).unwrap_err();
    assert_eq!(
        err,
        CompileAndRunError::CannotGetSuiteConfig(GetSuiteConfigError::Parse("eof".to_string()))
    );
    assert!(suite_config(Some(Ok(run_fails_at_debug()))).unwrap().run_fails_if.is_some());
}

#[test]
fn after_compile_and_after_run() {
    assert_eq!(after_compile(true, Ok(())), Ok(()));
    assert_eq!(after_compile(false, Ok(())), Ok(()));
    assert_eq!(
        after_compile(true, Err(CompileError::SuiteDoesNotExist)),
        Err(CompileAndRunError::CompileFailure {
            allowed: true,
            reason: CompileError::SuiteDoesNotExist
        })
    );
    assert_eq!(after_run(false, Ok(())), Ok(()));
    assert_eq!(after_run(true, Ok(())), Err(CompileAndRunError::ExpectedRunFailure));
    assert_eq!(
        after_run(false, Err(RunError::SuiteDoesNotExist)),
        Err(CompileAndRunError::RunFailure { allowed: false, reason: RunError::SuiteDoesNotExist })
    );
}

#[test]
fn allowed_run_failure_counts_as_pass() {
    let outcome = run_one(
        &facts(OptimizationLevel::Debug),
        a_suite,
        || Some(Ok(run_fails_at_debug())),
        || Attempt::Exited(exited(0, "", "")),
        |_| Ok(RunObservation::Exited(exited(1, "", "crash"))),
    );
    assert_eq!(
        outcome,
        Err(CompileAndRunError::RunFailure {
            allowed: true,
            reason: RunError::Runtime(exited(1, "", "crash")),
        })
    );
    assert_eq!(get_exit_code(&outcome.unwrap_err()), 0);
}

#[test]
fn unmatched_run_failure_is_a_failure() {
    let outcome = run_one(
        &facts(OptimizationLevel::Optimize),
        a_suite,
        || Some(Ok(run_fails_at_debug())),
        || Attempt::Exited(exited(0, "", "")),
        |_| Ok(RunObservation::Exited(exited(1, "", "crash"))),
    );
    assert_eq!(
        outcome,
        Err(CompileAndRunError::RunFailure {
            allowed: false,
            reason: RunError::Runtime(exited(1, "", "crash")),
        })
    );
    assert_eq!(get_exit_code(&outcome.unwrap_err()), 0x22);
}

#[test]
fn compile_failure_without_declaration() {
    let launched = Cell::new(false);
    let outcome = run_one(
        &facts(OptimizationLevel::Dev),
        a_suite,
        || None,
        || Attempt::Exited(exited(1, "", "type error")),
        |_| {
            launched.set(true);
            Ok(RunObservation::Exited(exited(0, "", "")))
        },
    );
    assert_eq!(
        outcome,
        Err(CompileAndRunError::CompileFailure {
            allowed: false,
            reason: CompileError::Compiler(exited(1, "", "type error")),
        })
    );
    assert_eq!(get_exit_code(&outcome.unwrap_err()), 0x21);
    assert!(!launched.get());
}

#[test]
fn allowed_compile_failure_ends_the_unit() {
    let launched = Cell::new(false);
    let outcome = run_one(
        &facts(OptimizationLevel::Optimize),
        a_suite,
        || Some(Ok(compile_fails_at_optimize())),
        || Attempt::Exited(exited(1, "", "type error")),
        |_| {
            launched.set(true);
            Ok(RunObservation::Exited(exited(0, "", "")))
        },
    );
    assert_eq!(
        outcome,
        Err(CompileAndRunError::CompileFailure {
            allowed: true,
            reason: CompileError::Compiler(exited(1, "", "type error")),
        })
    );
    assert_eq!(get_exit_code(&outcome.unwrap_err()), 0);
    assert!(!launched.get());
}

#[test]
fn compile_success_against_declaration_is_silent() {
    let outcome = run_one(
        &facts(OptimizationLevel::Optimize),
        a_suite,
        || Some(Ok(compile_fails_at_optimize())),
        || Attempt::Exited(exited(0, "", "")),
        |_| Ok(RunObservation::Exited(exited(0, "", ""))),
    );
    assert_eq!(outcome, Ok(()));
}

#[test]
fn run_success_against_declaration_is_an_error() {
    let outcome = run_one(
        &facts(OptimizationLevel::Debug),
        a_suite,
        || Some(Ok(run_fails_at_debug())),
        || Attempt::Exited(exited(0, "", "")),
        |_| Ok(RunObservation::Exited(exited(0, "", DEBUG_NOTICE))),
    );
    assert_eq!(outcome, Err(CompileAndRunError::ExpectedRunFailure));
    assert_eq!(get_exit_code(&outcome.unwrap_err()), 0x24);
}

#[test]
fn unit_passes() {
    let seen_config = Cell::new(false);
    let outcome = run_one(
        &facts(OptimizationLevel::Optimize),
        a_suite,
        || Some(Ok(run_fails_at_debug())),
        || Attempt::Exited(exited(0, "", "")),
        |config: &Config| {
            seen_config.set(config.run_fails_if.is_some());
            Ok(RunObservation::Exited(exited(0, "", "")))
        },
    );
    assert_eq!(outcome, Ok(()));
    assert!(seen_config.get());
}

#[test]
fn invalid_suite_stops_before_anything_is_read() {
    let touched = Cell::new(0);
    let outcome = run_one(
        &facts(OptimizationLevel::Dev),
        || SuiteCheck { exists: true, is_dir: false, has_elm_json: false },
        || {
            touched.set(touched.get() + 1);
            None
        },
        || {
            touched.set(touched.get() + 1);
            Attempt::Exited(exited(0, "", ""))
        },
        |_| {
            touched.set(touched.get() + 1);
            Ok(RunObservation::Exited(exited(0, "", "")))
        },
    );
    assert_eq!(outcome, Err(CompileAndRunError::SuiteNotDir));
    assert_eq!(get_exit_code(&outcome.unwrap_err()), 0x28);
    assert_eq!(touched.get(), 0);
}

#[test]
fn unreadable_declaration_stops_before_compiling() {
    let compiled = Cell::new(false);
    let outcome = run_one(
        &facts(OptimizationLevel::Dev),
        a_suite,
        || Some(Err(GetSuiteConfigError::CannotRead("permission denied".to_string()))),
        || {
            compiled.set(true);
            Attempt::Exited(exited(0, "", ""))
        },
        |_| Ok(RunObservation::Exited(exited(0, "", ""))),
    );
    assert_eq!(
        outcome,
        Err(CompileAndRunError::CannotGetSuiteConfig(GetSuiteConfigError::CannotRead(
            "permission denied".to_string()
        )))
    );
    assert_eq!(get_exit_code(&outcome.unwrap_err()), 0x28);
    assert!(!compiled.get());
}

#[test]
fn unit_retries_compilation() {
    let calls = Cell::new(0);
    let mut unit = facts(OptimizationLevel::Dev);
    unit.max_retries = 3;
    let outcome = run_one(
        &unit,
        a_suite,
        || None,
        || {
            calls.set(calls.get() + 1);
            Attempt::Exited(exited(if calls.get() < 3 { 1 } else { 0 }, "", ""))
        },
        |_| Ok(RunObservation::TimedOut { stdout: vec![], stderr: b"late".to_vec() }),
    );
    assert_eq!(calls.get(), 3);
    assert_eq!(
        outcome,
        Err(CompileAndRunError::RunFailure {
            allowed: false,
            reason: RunError::Timeout {
                after: TimeSpan { secs: 10, nanos: 0 },
                stdout: vec![],
                stderr: b"late".to_vec(),
            },
        })
    );
}

#[test]
fn run_facts_carry_the_compiler_variant() {
    let declares = || Config {
        ports: None,
        logs: None,
        compile_fails_if: None,
        run_fails_if: Some(ConditionCollection::Cond(RunFailsIfAll {
            stdlib_variant: Some(vec![StdlibVariant::Another]),
            opt_level: None,
            platform: Some(vec![Platform::Linux]),
        })),
    };
    let crash = |unit: UnitFacts| {
        run_one(
            &unit,
            a_suite,
            || Some(Ok(declares())),
            || Attempt::Exited(exited(0, "", "")),
            |_| Ok(RunObservation::Exited(exited(1, "", ""))),
        )
    };
    let mut unit = facts(OptimizationLevel::Dev);
    assert!(matches!(crash(unit), Err(CompileAndRunError::RunFailure { allowed: false, .. })));
    unit.stdlib_variant = StdlibVariant::Another;
    assert!(matches!(crash(unit), Err(CompileAndRunError::RunFailure { allowed: true, .. })));
    unit.platform = Platform::Windows;
    assert!(matches!(crash(unit), Err(CompileAndRunError::RunFailure { allowed: false, .. })));
    assert_eq!(unit.run_facts().stdlib_variant, StdlibVariant::Another);
    assert_eq!(unit.compile_facts().platform, Platform::Windows);
}

#[test]
fn exit_code_of_every_error() {
    let compile = |allowed| CompileAndRunError::CompileFailure {
        allowed,
        reason: CompileError::ReadingTargets("x".to_string()),
    };
    let run = |allowed| CompileAndRunError::RunFailure {
        allowed,
        reason: RunError::NodeProcess("x".to_string()),
    };
    assert_eq!(get_exit_code(&CompileAndRunError::SuiteNotExist), 0x28);
    assert_eq!(get_exit_code(&CompileAndRunError::SuiteNotDir), 0x28);
    assert_eq!(get_exit_code(&CompileAndRunError::SuiteNotElm), 0x28);
    assert_eq!(get_exit_code(&CompileAndRunError::OutDirIsNotDir), 0x28);
    assert_eq!(
        get_exit_code(&CompileAndRunError::CannotGetSuiteConfig(GetSuiteConfigError::Parse(
            "x".to_string()
        ))),
        0x28
    );
    assert_eq!(get_exit_code(&compile(true)), 0);
    assert_eq!(get_exit_code(&compile(false)), 0x21);
    assert_eq!(get_exit_code(&run(true)), 0);
    assert_eq!(get_exit_code(&run(false)), 0x22);
    assert_eq!(get_exit_code(&CompileAndRunError::ExpectedCompileFailure), 0x24);
    assert_eq!(get_exit_code(&CompileAndRunError::ExpectedRunFailure), 0x24);
    let unresolved = SuitesError::ResolvingCompiler(DetectStdlibError::LocatingCompiler(
        "cannot find binary path".to_string(),
    ));
    assert_eq!(unresolved.exit_code(), 0x28);
    let unresolved = SuitesError::ResolvingCompiler(DetectStdlibError::Io("x".to_string()));
    assert_eq!(unresolved.exit_code(), 0x28);
}

#[test]
fn unit_failed_follows_the_exit_code() {
    let outcomes = vec![
        Ok(()),
        Err(CompileAndRunError::SuiteNotExist),
        Err(CompileAndRunError::OutDirIsNotDir),
        Err(CompileAndRunError::ExpectedCompileFailure),
        Err(CompileAndRunError::ExpectedRunFailure),
        Err(CompileAndRunError::CompileFailure {
            allowed: true,
            reason: CompileError::SuiteDoesNotExist,
        }),
        Err(CompileAndRunError::CompileFailure {
            allowed: false,
            reason: CompileError::SuiteDoesNotExist,
        }),
        Err(CompileAndRunError::RunFailure { allowed: true, reason: RunError::SuiteDoesNotExist }),
        Err(CompileAndRunError::RunFailure { allowed: false, reason: RunError::SuiteDoesNotExist }),
    ];
    let expected = [false, true, true, true, true, false, true, false, true];
    for (outcome, failed) in outcomes.iter().zip(expected) {
        assert_eq!(unit_failed(outcome), failed);
        let code = outcome.as_ref().err().map_or(0, get_exit_code);
        assert_eq!(code != 0, failed);
    }
}

#[test]
fn compile_hands_the_arguments_to_each_attempt() {
    let seen = std::cell::RefCell::new(Vec::new());
    let result = compile(
        true,
        Ok(Some("A.elm\nB.elm".to_string())),
        OptimizationLevel::Optimize,
        "/out/elm-optimize.js",
        2,
        |args| {
            seen.borrow_mut().push(args.clone());
            Attempt::Exited(exited(1, "", ""))
        },
    );
    assert_eq!(result, Err(CompileError::Compiler(exited(1, "", ""))));
    let expected: Vec<String> =
        ["make", "A.elm", "B.elm", "--optimize", "--output", "/out/elm-optimize.js"]
            .iter()
            .map(|s| s.to_string())
            .collect();
    assert_eq!(*seen.borrow(), vec![expected.clone(), expected]);
}

#[test]
fn compile_without_targets_builds_main() {
    let seen = std::cell::RefCell::new(Vec::new());
    let result = compile(true, Ok(None), OptimizationLevel::Dev, "o.js", 1, |args| {
        seen.borrow_mut().push(args.clone());
        Attempt::Exited(exited(0, "", ""))
    });
    assert_eq!(result, Ok(()));
    assert_eq!(*seen.borrow(), vec![vec!["make", "Main.elm", "--output", "o.js"]]);
}

#[test]
fn compile_fails_on_unreadable_targets() {
    let calls = Cell::new(0);
    let result = compile(
        true,
        Err("stream did not contain valid UTF-8".to_string()),
        OptimizationLevel::Dev,
        "o.js",
        3,
        |_| {
            calls.set(calls.get() + 1);
            Attempt::Exited(exited(0, "", ""))
        },
    );
    assert_eq!(
        result,
        Err(CompileError::ReadingTargets("stream did not contain valid UTF-8".to_string()))
    );
    assert_eq!(calls.get(), 0);
}

#[test]
fn compile_refuses_a_path_that_is_no_suite() {
    let calls = Cell::new(0);
    let result = compile(false, Ok(None), OptimizationLevel::Dev, "o.js", 3, |_| {
        calls.set(calls.get() + 1);
        Attempt::Exited(exited(0, "", ""))
    });
    assert_eq!(result, Err(CompileError::SuiteDoesNotExist));
    assert_eq!(calls.get(), 0);
}

#[test]
fn run_refuses_a_path_that_is_no_suite() {
    let launched = Cell::new(false);
    let result = run(false, TimeSpan { secs: 1, nanos: 0 }, || {
        launched.set(true);
        Ok(RunObservation::Exited(exited(0, "", "")))
    });
    assert_eq!(result, Err(RunError::SuiteDoesNotExist));
    assert!(!launched.get());
}

#[test]
fn unit_compiles_to_the_output_file_with_the_targets() {
    let seen = std::cell::RefCell::new(Vec::new());
    let outcome = compile_and_run(
        &facts(OptimizationLevel::Debug),
        "/tmp/out/elm-debug.js",
        a_suite,
        || None,
        || Ok(Some("Main.elm\nWorker.elm".to_string())),
        |args| {
            seen.borrow_mut().push(args.clone());
            Attempt::Exited(exited(0, "", ""))
        },
        |_| Ok(RunObservation::Exited(exited(0, "", ""))),
    );
    assert_eq!(outcome, Ok(()));
    assert_eq!(
        *seen.borrow(),
        vec![vec!["make", "Main.elm", "Worker.elm", "--debug", "--output", "/tmp/out/elm-debug.js"]]
    );
}

#[test]
fn unit_with_unreadable_targets_fails_to_compile() {
    let outcome = compile_and_run(
        &facts(OptimizationLevel::Debug),
        "o.js",
        a_suite,
        || None,
        || Err("denied".to_string()),
        |_| Attempt::Exited(exited(0, "", "")),
        |_| Ok(RunObservation::Exited(exited(0, "", ""))),
    );
    assert_eq!(
        outcome,
        Err(CompileAndRunError::CompileFailure {
            allowed: false,
            reason: CompileError::ReadingTargets("denied".to_string()),
        })
    );
}

#[test]
fn new_resolved_locates_then_probes() {
    let probed = std::cell::RefCell::new(Vec::new());
    let resolved = ElmCompilerPath::new_resolved(
        "another".to_string(),
        |name| Ok(format!("/opt/bin/{}", name)),
        |path| {
            probed.borrow_mut().push(path.clone());
            Ok(exited(0, "another-elm\n", ""))
        },
    );
    assert_eq!(
        resolved,
        Ok(ElmCompilerPath {
            unresolved: "another".to_string(),
            path: "/opt/bin/another".to_string(),
            stdlib_variant: StdlibVariant::Another,
        })
    );
    assert_eq!(*probed.borrow(), vec!["/opt/bin/another"]);
}

#[test]
fn new_resolved_does_not_probe_what_it_cannot_find() {
    let probed = Cell::new(false);
    let resolved = ElmCompilerPath::new_resolved(
        "elm".to_string(),
        |_| Err("cannot find binary path".to_string()),
        |_| {
            probed.set(true);
            Ok(exited(1, "", ""))
        },
    );
    assert_eq!(
        resolved,
        Err(DetectStdlibError::LocatingCompiler("cannot find binary path".to_string()))
    );
    assert!(!probed.get());
}

#[test]
fn new_resolved_reports_a_probe_that_cannot_start() {
    let resolved = ElmCompilerPath::new_resolved(
        "elm".to_string(),
        |name| Ok(name.clone()),
        |_| Err("permission denied".to_string()),
    );
    assert_eq!(resolved, Err(DetectStdlibError::Io("permission denied".to_string())));
    let resolved = ElmCompilerPath::new_resolved(
        "elm".to_string(),
        |name| Ok(name.clone()),
        |_| Ok(exited(0, "0.19.1", "")),
    );
    assert_eq!(resolved, Err(DetectStdlibError::Parsing(b"0.19.1".to_vec())));
}

#[test]
fn compile_that_fails_twice_then_succeeds_is_started_three_times() {
    let calls = Cell::new(0);
    let result = compile(true, Ok(None), OptimizationLevel::Dev, "/out/elm-dev.js", 3, |_| {
        calls.set(calls.get() + 1);
        if calls.get() <= 2 {
            Attempt::Exited(exited(1, "", "could not build"))
        } else {
            Attempt::Exited(exited(0, "", ""))
        }
    });
    assert_eq!(result, Ok(()));
    assert_eq!(calls.get(), 3);
}

#[test]
fn compile_that_always_fails_returns_the_second_error_of_two() {
    let calls = Cell::new(0);
    let result = compile(true, Ok(None), OptimizationLevel::Dev, "/out/elm-dev.js", 2, |_| {
        calls.set(calls.get() + 1);
        Attempt::Exited(exited(1, "", &format!("failure number {}", calls.get())))
    });
    assert_eq!(result, Err(CompileError::Compiler(exited(1, "", "failure number 2"))));
    assert_eq!(calls.get(), 2);
}

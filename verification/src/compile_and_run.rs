//! One unit of work from start to finish, and how units add up.
//!
//! A unit of work is one suite under one compiler at one optimization
//! level. It is checked, compiled and run, in this order, and what the
//! suite declares decides whether a failure on the way was expected.

use crate::compile::{compile, compile_may_return, Attempt};
use crate::condition::{
    CompileFailsIfAllFacts, Condition, Platform, RunFailsIfAllFacts, StdlibVariant,
};
use crate::config::{OptimizationLevel, TimeSpan};
use crate::run::{spec_run, RunObservation};
use crate::suite::{
    CompileAndRunError, CompileError, Config, GetSuiteConfigError, RunError, SuitesError,
};
use vstd::prelude::*;

verus! {

/// What a look at the suite's path found.
#[derive(Debug, PartialEq, Eq, Structural, Clone, Copy)]
pub struct SuiteCheck {
    pub exists: bool,
    pub is_dir: bool,
    pub has_elm_json: bool,
}

/// The configuration a unit of work runs under.
#[derive(Debug, PartialEq, Eq, Structural, Clone, Copy)]
pub struct UnitFacts {
    pub opt_level: OptimizationLevel,
    pub stdlib_variant: StdlibVariant,
    pub platform: Platform,
    pub max_retries: usize,
    pub run_timeout: TimeSpan,
}

impl UnitFacts {
    /// What compile-time conditions are matched against.
    pub open spec fn spec_compile_facts(self) -> CompileFailsIfAllFacts {
        CompileFailsIfAllFacts { opt_level: self.opt_level, platform: self.platform }
    }

    /// What run-time conditions are matched against: the compiler's
    /// flavour counts here too.
    pub open spec fn spec_run_facts(self) -> RunFailsIfAllFacts {
        RunFailsIfAllFacts {
            opt_level: self.opt_level,
            stdlib_variant: self.stdlib_variant,
            platform: self.platform,
        }
    }

    pub fn compile_facts(&self) -> (r: CompileFailsIfAllFacts)
        ensures
            r == self.spec_compile_facts(),
    {
        CompileFailsIfAllFacts { opt_level: self.opt_level, platform: self.platform }
    }

    pub fn run_facts(&self) -> (r: RunFailsIfAllFacts)
        ensures
            r == self.spec_run_facts(),
    {
        RunFailsIfAllFacts {
            opt_level: self.opt_level,
            stdlib_variant: self.stdlib_variant,
            platform: self.platform,
        }
    }
}

/// A suite is a directory that holds an `elm.json`. The first of these
/// that is not so names the error.
pub open spec fn spec_check_suite(seen: SuiteCheck) -> Result<(), CompileAndRunError> {
    if !seen.exists {
        Err(CompileAndRunError::SuiteNotExist)
    } else if !seen.is_dir {
        Err(CompileAndRunError::SuiteNotDir)
    } else if !seen.has_elm_json {
        Err(CompileAndRunError::SuiteNotElm)
    } else {
        Ok(())
    }
}

/// Decides whether the path of a suite leads to one.
pub fn check_suite(seen: SuiteCheck) -> (r: Result<(), CompileAndRunError>)
    ensures
        r == spec_check_suite(seen),
{
    if !seen.exists {
        Err(CompileAndRunError::SuiteNotExist)
    } else if !seen.is_dir {
        Err(CompileAndRunError::SuiteNotDir)
    } else if !seen.has_elm_json {
        Err(CompileAndRunError::SuiteNotElm)
    } else {
        Ok(())
    }
}

/// A suite that declares nothing.
pub open spec fn silent_config() -> Config {
    Config { ports: None, logs: None, compile_fails_if: None, run_fails_if: None }
}

/// What a suite declares, from the attempt to read its declaration: a
/// suite without one declares nothing, a declaration that cannot be read
/// or understood is an error.
pub open spec fn spec_suite_config(declared: Option<Result<Config, GetSuiteConfigError>>) -> Result<
    Config,
    CompileAndRunError,
> {
    match declared {
        None => Ok(silent_config()),
        Some(Ok(config)) => Ok(config),
        Some(Err(e)) => Err(CompileAndRunError::CannotGetSuiteConfig(e)),
    }
}

pub fn suite_config(declared: Option<Result<Config, GetSuiteConfigError>>) -> (r: Result<
    Config,
    CompileAndRunError,
>)
    ensures
        r == spec_suite_config(declared),
{
    match declared {
        None => Ok(Config { ports: None, logs: None, compile_fails_if: None, run_fails_if: None }),
        Some(Ok(config)) => Ok(config),
        Some(Err(e)) => Err(CompileAndRunError::CannotGetSuiteConfig(e)),
    }
}

/// How a compilation counts: a failure ends the unit and carries whether
/// the suite expected it. A success is never held against the suite, even
/// one that declared it would not compile.
pub open spec fn spec_after_compile(allowed: bool, compiled: Result<(), CompileError>) -> Result<
    (),
    CompileAndRunError,
> {
    match compiled {
        Ok(()) => Ok(()),
        Err(reason) => Err(CompileAndRunError::CompileFailure { allowed, reason }),
    }
}

pub fn after_compile(allowed: bool, compiled: Result<(), CompileError>) -> (r: Result<
    (),
    CompileAndRunError,
>)
    ensures
        r == spec_after_compile(allowed, compiled),
{
    match compiled {
        Ok(()) => Ok(()),
        Err(reason) => Err(CompileAndRunError::CompileFailure { allowed, reason }),
    }
}

/// How a run counts: a failure carries whether the suite expected it, and
/// a success that the suite declared impossible is an error of its own.
pub open spec fn spec_after_run(allowed: bool, ran: Result<(), RunError>) -> Result<
    (),
    CompileAndRunError,
> {
    match ran {
        Err(reason) => Err(CompileAndRunError::RunFailure { allowed, reason }),
        Ok(()) => if allowed {
            Err(CompileAndRunError::ExpectedRunFailure)
        } else {
            Ok(())
        },
    }
}

pub fn after_run(allowed: bool, ran: Result<(), RunError>) -> (r: Result<(), CompileAndRunError>)
    ensures
        r == spec_after_run(allowed, ran),
{
    match ran {
        Err(reason) => Err(CompileAndRunError::RunFailure { allowed, reason }),
        Ok(()) => if allowed {
            Err(CompileAndRunError::ExpectedRunFailure)
        } else {
            Ok(())
        },
    }
}

/// How a unit of work ends, given what each of its steps came to. A step
/// counts only if every step before it let the unit go on: the suite is
/// checked, its declaration read, the suite compiled, then run.
pub open spec fn spec_unit_outcome(
    facts: UnitFacts,
    seen: SuiteCheck,
    declared: Option<Result<Config, GetSuiteConfigError>>,
    compiled: Result<(), CompileError>,
    launched: Result<RunObservation, RunError>,
) -> Result<(), CompileAndRunError> {
    match spec_check_suite(seen) {
        Err(e) => Err(e),
        Ok(()) => match spec_suite_config(declared) {
            Err(e) => Err(e),
            Ok(config) => match spec_after_compile(
                config.compile_fails_if.holds(&facts.spec_compile_facts()),
                compiled,
            ) {
                Err(e) => Err(e),
                Ok(()) => spec_after_run(
                    config.run_fails_if.holds(&facts.spec_run_facts()),
                    spec_run(facts.run_timeout, launched),
                ),
            },
        },
    }
}

/// `seen`, `declared`, `targets`, `compiled` and `launched` are what the
/// steps can come to, as far as the unit gets.
pub open spec fn steps_can_yield<V, D, T, C, R>(
    facts: UnitFacts,
    out_file: Seq<char>,
    check: V,
    read_config: D,
    read_targets: T,
    compile_once: C,
    launch: R,
    seen: SuiteCheck,
    declared: Option<Result<Config, GetSuiteConfigError>>,
    targets: Result<Option<String>, String>,
    compiled: Result<(), CompileError>,
    launched: Result<RunObservation, RunError>,
) -> bool where
    V: Fn() -> SuiteCheck,
    D: Fn() -> Option<Result<Config, GetSuiteConfigError>>,
    T: Fn() -> Result<Option<String>, String>,
    C: Fn(&Vec<String>) -> Attempt,
    R: Fn(&Config) -> Result<RunObservation, RunError>,
 {
    &&& check.ensures((), seen)
    &&& spec_check_suite(seen) is Ok ==> {
        &&& read_config.ensures((), declared)
        &&& spec_suite_config(declared) matches Ok(config) ==> {
            &&& read_targets.ensures((), targets)
            &&& compile_may_return(
                true,
                targets,
                facts.opt_level,
                out_file,
                facts.max_retries,
                compile_once,
                compiled,
            )
            &&& compiled is Ok ==> launch.ensures((&config,), launched)
        }
    }
}

/// Takes one unit of work from start to finish, compiling to `out_file`.
/// The steps are made through the callers' functions, each at most once
/// but for `compile_once`, which the retry policy calls; a step is only
/// made if the unit got that far. The outcome is the one the rules give
/// for what the steps came to.
pub fn compile_and_run<V, D, T, C, R>(
    facts: &UnitFacts,
    out_file: &str,
    check: V,
    read_config: D,
    read_targets: T,
    compile_once: C,
    launch: R,
) -> (r: Result<(), CompileAndRunError>) where
    V: Fn() -> SuiteCheck,
    D: Fn() -> Option<Result<Config, GetSuiteConfigError>>,
    T: Fn() -> Result<Option<String>, String>,
    C: Fn(&Vec<String>) -> Attempt,
    R: Fn(&Config) -> Result<RunObservation, RunError>,

    requires
        check.requires(()),
        read_config.requires(()),
        read_targets.requires(()),
        forall|args: &Vec<String>| compile_once.requires((args,)),
        forall|config: &Config| launch.requires((config,)),
    ensures
        exists|
            seen: SuiteCheck,
            declared: Option<Result<Config, GetSuiteConfigError>>,
            targets: Result<Option<String>, String>,
            compiled: Result<(), CompileError>,
            launched: Result<RunObservation, RunError>,
        |
            #[trigger] steps_can_yield(
                *facts,
                out_file@,
                check,
                read_config,
                read_targets,
                compile_once,
                launch,
                seen,
                declared,
                targets,
                compiled,
                launched,
            ) && r == spec_unit_outcome(*facts, seen, declared, compiled, launched),
        !(r matches Err(CompileAndRunError::ExpectedCompileFailure)),
        !(r matches Err(CompileAndRunError::OutDirIsNotDir)),
{
    let seen = check();
    let ghost any_declared: Option<Result<Config, GetSuiteConfigError>> = None;
    let ghost any_targets: Result<Option<String>, String> = Ok(None);
    let ghost any_compiled: Result<(), CompileError> = Ok(());
    let ghost any_launched: Result<RunObservation, RunError> = Err(RunError::SuiteDoesNotExist);
    match check_suite(seen) {
        Err(e) => {
            assert(steps_can_yield(
                *facts,
                out_file@,
                check,
                read_config,
                read_targets,
                compile_once,
                launch,
                seen,
                any_declared,
                any_targets,
                any_compiled,
                any_launched,
            ));
            return Err(e);
        },
        Ok(()) => {},
    }
    let declared = read_config();
    let ghost declared_seen = declared;
    let config = match suite_config(declared) {
        Err(e) => {
            assert(steps_can_yield(
                *facts,
                out_file@,
                check,
                read_config,
                read_targets,
                compile_once,
                launch,
                seen,
                declared_seen,
                any_targets,
                any_compiled,
                any_launched,
            ));
            return Err(e);
        },
        Ok(config) => config,
    };
    let compile_failure_allowed = config.compile_fails_if.is_met(&facts.compile_facts());
    let targets = read_targets();
    let ghost targets_seen = targets;
    let compiled = compile(
        true,
        targets,
        facts.opt_level,
        out_file,
        facts.max_retries,
        compile_once,
    );
    let ghost compiled_seen = compiled;
    match after_compile(compile_failure_allowed, compiled) {
        Err(e) => {
            assert(steps_can_yield(
                *facts,
                out_file@,
                check,
                read_config,
                read_targets,
                compile_once,
                launch,
                seen,
                declared_seen,
                targets_seen,
                compiled_seen,
                any_launched,
            ));
            return Err(e);
        },
        Ok(()) => {},
    }
    let run_failure_allowed = config.run_fails_if.is_met(&facts.run_facts());
    let launched = launch(&config);
    let ghost launched_seen = launched;
    let ran = match launched {
        Ok(observed) => observed.verdict(facts.run_timeout),
        Err(e) => Err(e),
    };
    assert(steps_can_yield(
        *facts,
        out_file@,
        check,
        read_config,
        read_targets,
        compile_once,
        launch,
        seen,
        declared_seen,
        targets_seen,
        compiled_seen,
        launched_seen,
    ));
    after_run(run_failure_allowed, ran)
}

/// The exit code that stands for an error: 0 for a failure the suite
/// expected, `0x21` for any other failure to compile, `0x22` for any other
/// failure at run time, `0x24` for an expected failure that did not
/// happen, `0x28` where the suite or its declaration is unusable.
pub open spec fn spec_exit_code(err: CompileAndRunError) -> i32 {
    match err {
        CompileAndRunError::SuiteNotExist
        | CompileAndRunError::SuiteNotDir
        | CompileAndRunError::SuiteNotElm
        | CompileAndRunError::OutDirIsNotDir
        | CompileAndRunError::CannotGetSuiteConfig(_) => 0x28,
        CompileAndRunError::CompileFailure { allowed, .. } => if allowed {
            0
        } else {
            0x21
        },
        CompileAndRunError::RunFailure { allowed, .. } => if allowed {
            0
        } else {
            0x22
        },
        CompileAndRunError::ExpectedCompileFailure | CompileAndRunError::ExpectedRunFailure => 0x24,
    }
}

pub fn get_exit_code(err: &CompileAndRunError) -> (r: i32)
    ensures
        r == spec_exit_code(*err),
{
    match err {
        CompileAndRunError::SuiteNotExist
        | CompileAndRunError::SuiteNotDir
        | CompileAndRunError::SuiteNotElm
        | CompileAndRunError::OutDirIsNotDir
        | CompileAndRunError::CannotGetSuiteConfig(_) => 0x28,
        CompileAndRunError::CompileFailure { allowed, .. } => if *allowed {
            0
        } else {
            0x21
        },
        CompileAndRunError::RunFailure { allowed, .. } => if *allowed {
            0
        } else {
            0x22
        },
        CompileAndRunError::ExpectedCompileFailure | CompileAndRunError::ExpectedRunFailure => 0x24,
    }
}

/// The exit code of a unit of work: 0 for one that passed.
pub open spec fn spec_outcome_code(outcome: Option<CompileAndRunError>) -> i32 {
    match outcome {
        None => 0,
        Some(err) => spec_exit_code(err),
    }
}

impl SuitesError {
    /// The exit code of a harness that could not classify a compiler.
    pub fn exit_code(&self) -> (r: i32)
        ensures
            r == 0x28,
    {
        0x28
    }
}

/// Whether a unit of work counts as failed: every error does, but a
/// failure that the suite expected.
pub open spec fn spec_unit_failed(outcome: Result<(), CompileAndRunError>) -> bool {
    match outcome {
        Ok(()) => false,
        Err(CompileAndRunError::CompileFailure { allowed, .. }) => !allowed,
        Err(CompileAndRunError::RunFailure { allowed, .. }) => !allowed,
        Err(_) => true,
    }
}

pub fn unit_failed(outcome: &Result<(), CompileAndRunError>) -> (r: bool)
    ensures
        r == spec_unit_failed(*outcome),
{
    match outcome {
        Ok(()) => false,
        Err(CompileAndRunError::CompileFailure { allowed, .. }) => !*allowed,
        Err(CompileAndRunError::RunFailure { allowed, .. }) => !*allowed,
        Err(_) => true,
    }
}

/// A unit of work counts as failed exactly when its exit code is not 0.
pub proof fn lemma_failed_iff_nonzero_exit(outcome: Result<(), CompileAndRunError>)
    ensures
        spec_unit_failed(outcome) == (spec_outcome_code(
            match outcome {
                Ok(()) => None,
                Err(e) => Some(e),
            },
        ) != 0),
{
}

/// Errors that no declaration excuses: an unusable suite or declaration
/// and an expected failure that did not happen always count as failed and
/// always show in the exit code, whatever the suite allows.
pub proof fn lemma_structural_errors_and_anomalies_fail(err: CompileAndRunError)
    requires
        !(err is CompileFailure),
        !(err is RunFailure),
    ensures
        spec_unit_failed(Err(err)),
        spec_exit_code(err) == 0x28 || spec_exit_code(err) == 0x24,
        spec_after_run(true, Ok(())) == Err::<(), CompileAndRunError>(
            CompileAndRunError::ExpectedRunFailure,
        ),
{
}

/// A run-time failure that the suite's declaration matches is an allowed
/// failure and exits with 0; one that it does not match exits with `0x22`.
pub proof fn lemma_run_failure_outcome(
    facts: UnitFacts,
    seen: SuiteCheck,
    declared: Option<Result<Config, GetSuiteConfigError>>,
    launched: Result<RunObservation, RunError>,
)
    requires
        spec_check_suite(seen) is Ok,
        spec_suite_config(declared) is Ok,
        spec_run(facts.run_timeout, launched) is Err,
    ensures
        ({
            let allowed = spec_suite_config(declared)->Ok_0.run_fails_if.holds(
                &facts.spec_run_facts(),
            );
            let outcome = spec_unit_outcome(facts, seen, declared, Ok(()), launched);
            &&& outcome == Err::<(), CompileAndRunError>(
                CompileAndRunError::RunFailure {
                    allowed,
                    reason: spec_run(facts.run_timeout, launched)->Err_0,
                },
            )
            &&& spec_exit_code(outcome->Err_0) == if allowed {
                0i32
            } else {
                0x22i32
            }
        }),
{
}

/// A suite without a declaration that does not compile exits with `0x21`.
pub proof fn lemma_undeclared_compile_failure(
    facts: UnitFacts,
    seen: SuiteCheck,
    reason: CompileError,
    launched: Result<RunObservation, RunError>,
)
    requires
        spec_check_suite(seen) is Ok,
    ensures
        ({
            let outcome = spec_unit_outcome(facts, seen, None, Err(reason), launched);
            &&& outcome == Err::<(), CompileAndRunError>(
                CompileAndRunError::CompileFailure { allowed: false, reason },
            )
            &&& spec_exit_code(outcome->Err_0) == 0x21
        }),
{
}

/// No unit of work ends as an expected compile failure that did not
/// happen: a suite that compiles against its declaration goes on to run.
pub proof fn lemma_compile_success_is_silent(
    facts: UnitFacts,
    seen: SuiteCheck,
    declared: Option<Result<Config, GetSuiteConfigError>>,
    compiled: Result<(), CompileError>,
    launched: Result<RunObservation, RunError>,
)
    ensures
        !(spec_unit_outcome(facts, seen, declared, compiled, launched) matches Err(
            CompileAndRunError::ExpectedCompileFailure,
        )),
{
}

} // verus!

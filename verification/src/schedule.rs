//! Running many units of work: the work list, fail-fast, and the report.

use crate::compile_and_run::{get_exit_code, spec_outcome_code, spec_unit_failed, unit_failed};
use crate::config::OptimizationLevel;
use crate::suite::{CompileAndRunError, ElmCompilerPath, SscceRunType};
use vstd::prelude::*;

verus! {

/// What became of one suite: where its files were built, and the outcome
/// under each configuration that was tried. `None` stands for a unit of
/// work that passed.
#[derive(Debug)]
pub struct CompileAndRunResults {
    pub suite: String,
    pub sscce_out_dir: String,
    pub errors: Vec<(SscceRunType, Option<CompileAndRunError>)>,
}

/// What tells one configuration from another: the compiler's name, its
/// place and its flavour, and the level.
pub open spec fn run_type_key(run_type: SscceRunType) -> (
    Seq<char>,
    Seq<char>,
    crate::condition::StdlibVariant,
    OptimizationLevel,
) {
    (run_type.0.unresolved@, run_type.0.path@, run_type.0.stdlib_variant, run_type.1)
}

/// No configuration occurs twice.
pub open spec fn distinct_run_types(run_types: Seq<SscceRunType>) -> bool {
    forall|i: int, j: int|
        0 <= i < j < run_types.len() ==> run_type_key(#[trigger] run_types[i]) != run_type_key(
            #[trigger] run_types[j],
        )
}

impl CompileAndRunResults {
    /// The configurations that outcomes are filed under, in order.
    pub open spec fn run_types(self) -> Seq<SscceRunType> {
        self.errors@.map_values(|entry: (SscceRunType, Option<CompileAndRunError>)| entry.0)
    }

    /// The report holds one outcome for a configuration at most.
    pub open spec fn wf(self) -> bool {
        distinct_run_types(self.run_types())
    }
}

/// The place of the pair of row `i` and column `j` in a table with rows
/// of `width` entries, laid out row after row.
pub open spec fn cell(i: int, j: int, width: int) -> int {
    i * width + j
}

proof fn lemma_cell_bounds(i: int, j: int, rows: int, width: int)
    requires
        0 <= i < rows,
        0 <= j < width,
    ensures
        0 <= cell(i, j, width) < rows * width,
        cell(i, j, width) < cell(i + 1, 0, width),
        cell(i + 1, 0, width) <= rows * width,
{
    assert(0 <= i * width) by (nonlinear_arith)
        requires
            0 <= i,
            0 <= width,
    ;
    assert((i + 1) * width == i * width + width) by (nonlinear_arith);
    assert((i + 1) * width <= rows * width) by (nonlinear_arith)
        requires
            i + 1 <= rows,
            0 <= width,
    ;
}

/// Every configuration to try: each compiler with each level, compiler
/// after compiler.
pub fn iter_pairs(compilers: &[ElmCompilerPath], levels: &[OptimizationLevel]) -> (r: Vec<
    SscceRunType,
>)
    ensures
        r@.len() == compilers@.len() * levels@.len(),
        forall|i: int, j: int|
            0 <= i < compilers@.len() && 0 <= j < levels@.len() ==> r@[#[trigger] cell(
                i,
                j,
                levels@.len() as int,
            )] == (compilers@[i], levels@[j]),
{
    let mut pairs: Vec<SscceRunType> = Vec::new();
    let ghost width = levels@.len() as int;
    let mut i: usize = 0;
    while i < compilers.len()
        invariant
            i <= compilers.len(),
            width == levels@.len(),
            pairs@.len() == i * width,
            forall|a: int, b: int|
                0 <= a < i && 0 <= b < width ==> pairs@[#[trigger] cell(a, b, width)] == (
                    compilers@[a],
                    levels@[b],
                ),
        decreases compilers.len() - i,
    {
        let mut j: usize = 0;
        while j < levels.len()
            invariant
                i < compilers.len(),
                j <= levels.len(),
                width == levels@.len(),
                pairs@.len() == cell(i as int, j as int, width),
                forall|a: int, b: int|
                    0 <= a < i && 0 <= b < width ==> pairs@[#[trigger] cell(a, b, width)] == (
                        compilers@[a],
                        levels@[b],
                    ),
                forall|b: int|
                    0 <= b < j ==> pairs@[#[trigger] cell(i as int, b, width)] == (
                        compilers@[i as int],
                        levels@[b],
                    ),
            decreases levels.len() - j,
        {
            pairs.push((compilers[i].duplicate(), levels[j]));
            assert forall|a: int, b: int| 0 <= a < i && 0 <= b < width implies pairs@[#[trigger] cell(
                a,
                b,
                width,
            )] == (compilers@[a], levels@[b]) by {
                lemma_cell_bounds(a, b, i as int, width);
                lemma_cell_bounds(i as int, j as int, compilers@.len() as int, width);
            }
            j = j + 1;
        }
        assert(cell(i as int, width, width) == (i + 1) * width) by (nonlinear_arith);
        i = i + 1;
    }
    pairs
}

/// What tells one compiler from another.
pub open spec fn compiler_key(compiler: ElmCompilerPath) -> (
    Seq<char>,
    Seq<char>,
    crate::condition::StdlibVariant,
) {
    (compiler.unresolved@, compiler.path@, compiler.stdlib_variant)
}

/// The pairs of compilers that differ from one another with levels that
/// differ from one another are configurations that differ from one
/// another: the work list holds nothing twice.
pub proof fn lemma_pairs_are_distinct(
    compilers: Seq<ElmCompilerPath>,
    levels: Seq<OptimizationLevel>,
    pairs: Seq<SscceRunType>,
)
    requires
        pairs.len() == compilers.len() * levels.len(),
        forall|i: int, j: int|
            0 <= i < compilers.len() && 0 <= j < levels.len() ==> pairs[#[trigger] cell(
                i,
                j,
                levels.len() as int,
            )] == (compilers[i], levels[j]),
        forall|a: int, b: int|
            0 <= a < b < compilers.len() ==> compiler_key(#[trigger] compilers[a]) != compiler_key(
                #[trigger] compilers[b],
            ),
        forall|a: int, b: int|
            0 <= a < b < levels.len() ==> #[trigger] levels[a] != #[trigger] levels[b],
    ensures
        distinct_run_types(pairs),
{
    let width = levels.len() as int;
    let rows = compilers.len() as int;
    assert forall|p: int, q: int| 0 <= p < q < pairs.len() implies run_type_key(
        #[trigger] pairs[p],
    ) != run_type_key(#[trigger] pairs[q]) by {
        assert(width > 0) by (nonlinear_arith)
            requires
                0 <= p < rows * width,
                0 <= width,
        ;
        lemma_place_in_table(p, rows, width);
        lemma_place_in_table(q, rows, width);
        let (pi, pj) = (p / width, p % width);
        let (qi, qj) = (q / width, q % width);
        if pi == qi {
        } else {
            vstd::arithmetic::div_mod::lemma_div_is_ordered(p, q, width);
        }
    }
}

proof fn lemma_place_in_table(p: int, rows: int, width: int)
    requires
        0 <= p < rows * width,
        0 < width,
    ensures
        0 <= p / width < rows,
        0 <= p % width < width,
        cell(p / width, p % width, width) == p,
{
    vstd::arithmetic::div_mod::lemma_fundamental_div_mod(p, width);
    vstd::arithmetic::div_mod::lemma_mod_pos_bound(p, width);
    vstd::arithmetic::div_mod::lemma_div_pos_is_pos(p, width);
    assert(p < width * rows) by (nonlinear_arith)
        requires
            p < rows * width,
    ;
    vstd::arithmetic::div_mod::lemma_multiply_divide_lt(p, width, rows);
    assert((p / width) * width == width * (p / width)) by (nonlinear_arith);
}

/// What the workers share to stop early: whether the harness is to stop
/// at the first failure, and whether a unit of work has failed yet.
#[derive(Debug, PartialEq, Eq, Structural, Clone, Copy)]
pub struct Scheduler {
    pub fail_fast: bool,
    pub prev_runs_failed: bool,
}

impl Scheduler {
    pub fn new(fail_fast: bool) -> (r: Scheduler)
        ensures
            r == (Scheduler { fail_fast, prev_runs_failed: false }),
    {
        Scheduler { fail_fast, prev_runs_failed: false }
    }

    /// A new suite may be started unless the harness stops at the first
    /// failure and there has been one.
    pub open spec fn spec_may_start(self) -> bool {
        !(self.fail_fast && self.prev_runs_failed)
    }

    /// The shared state after a unit of work came to `outcome`: a failure
    /// is remembered and never forgotten.
    pub open spec fn spec_recorded(self, outcome: Result<(), CompileAndRunError>) -> Scheduler {
        Scheduler {
            fail_fast: self.fail_fast,
            prev_runs_failed: self.prev_runs_failed || spec_unit_failed(outcome),
        }
    }

    /// The shared state at the start of a harness run.
    pub open spec fn spec_new(fail_fast: bool) -> Scheduler {
        Scheduler { fail_fast, prev_runs_failed: false }
    }

    /// Remembers a failure, if `failed` says there was one.
    pub fn note(&mut self, failed: bool)
        ensures
            *final(self) == (Scheduler {
                fail_fast: old(self).fail_fast,
                prev_runs_failed: old(self).prev_runs_failed || failed,
            }),
    {
        self.prev_runs_failed = self.prev_runs_failed || failed;
    }

    pub fn may_start(&self) -> (r: bool)
        ensures
            r == self.spec_may_start(),
    {
        !(self.fail_fast && self.prev_runs_failed)
    }

    /// Takes in the outcome of a unit of work that has finished.
    pub fn record(&mut self, outcome: &Result<(), CompileAndRunError>)
        ensures
            *final(self) == old(self).spec_recorded(*outcome),
    {
        let failed = unit_failed(outcome);
        self.prev_runs_failed = self.prev_runs_failed || failed;
    }
}

/// Under fail-fast, once a unit of work has failed no suite is started any
/// more, whatever else finishes later. Without fail-fast a suite may always
/// be started.
pub proof fn lemma_fail_fast_is_final(
    scheduler: Scheduler,
    failure: Result<(), CompileAndRunError>,
    later: Seq<Result<(), CompileAndRunError>>,
)
    requires
        spec_unit_failed(failure),
    ensures
        scheduler.fail_fast ==> !recorded_all(scheduler.spec_recorded(failure), later).spec_may_start(),
        !scheduler.fail_fast ==> recorded_all(scheduler.spec_recorded(failure), later).spec_may_start(),
        recorded_all(scheduler.spec_recorded(failure), later).prev_runs_failed,
    decreases later.len(),
{
    if later.len() > 0 {
        lemma_fail_fast_is_final(scheduler, failure, later.drop_last());
    }
}

/// The shared state after each of `outcomes` was recorded, in order.
pub open spec fn recorded_all(
    scheduler: Scheduler,
    outcomes: Seq<Result<(), CompileAndRunError>>,
) -> Scheduler
    decreases outcomes.len(),
{
    if outcomes.len() == 0 {
        scheduler
    } else {
        recorded_all(scheduler, outcomes.drop_last()).spec_recorded(outcomes.last())
    }
}

/// Units of work that pass, or fail as their suite expected, leave the
/// shared state as it was: they stop nothing.
pub proof fn lemma_passing_units_stop_nothing(
    scheduler: Scheduler,
    outcomes: Seq<Result<(), CompileAndRunError>>,
)
    requires
        forall|i: int| 0 <= i < outcomes.len() ==> !spec_unit_failed(#[trigger] outcomes[i]),
    ensures
        recorded_all(scheduler, outcomes) == scheduler,
    decreases outcomes.len(),
{
    if outcomes.len() > 0 {
        lemma_passing_units_stop_nothing(scheduler, outcomes.drop_last());
    }
}

/// The exit codes of the first `n` outcomes of a suite, joined bit by bit.
pub open spec fn spec_suite_code(
    errors: Seq<(SscceRunType, Option<CompileAndRunError>)>,
    n: int,
) -> i32
    decreases n,
{
    if n <= 0 {
        0
    } else {
        spec_suite_code(errors, n - 1) | spec_outcome_code(errors[n - 1].1)
    }
}

/// The exit codes of the first `n` suites, joined bit by bit.
pub open spec fn spec_total_code(results: Seq<CompileAndRunResults>, n: int) -> i32
    decreases n,
{
    if n <= 0 {
        0
    } else {
        spec_total_code(results, n - 1) | spec_suite_code(
            results[n - 1].errors@,
            results[n - 1].errors@.len() as int,
        )
    }
}

impl CompileAndRunResults {
    /// The report on a suite whose output directory is no directory. The
    /// error is filed under the first configuration; no unit of work of
    /// the suite was started.
    pub fn out_dir_is_not_dir(suite: String, sscce_out_dir: String, first: SscceRunType) -> (r:
        CompileAndRunResults)
        ensures
            r.suite == suite,
            r.sscce_out_dir == sscce_out_dir,
            r.errors@ == seq![(first, Some(CompileAndRunError::OutDirIsNotDir))],
            r.wf(),
    {
        let mut errors: Vec<(SscceRunType, Option<CompileAndRunError>)> = Vec::new();
        errors.push((first, Some(CompileAndRunError::OutDirIsNotDir)));
        CompileAndRunResults { suite, sscce_out_dir, errors }
    }

    /// A report on a suite with no outcome in it yet.
    pub fn new(suite: String, sscce_out_dir: String) -> (r: CompileAndRunResults)
        ensures
            r.suite == suite,
            r.sscce_out_dir == sscce_out_dir,
            r.errors@.len() == 0,
            r.wf(),
    {
        CompileAndRunResults { suite, sscce_out_dir, errors: Vec::new() }
    }

    /// Files the outcome of one unit of work, behind those filed before.
    pub fn record(&mut self, run_type: SscceRunType, outcome: Result<(), CompileAndRunError>)
        ensures
            final(self).suite == old(self).suite,
            final(self).sscce_out_dir == old(self).sscce_out_dir,
            final(self).errors@ == old(self).errors@.push((run_type, entry_of(outcome))),
            final(self).run_types() == old(self).run_types().push(run_type),
    {
        let error = match outcome {
            Ok(()) => None,
            Err(e) => Some(e),
        };
        self.errors.push((run_type, error));
    }

    /// The exit code of the suite: those of its units of work, joined bit
    /// by bit.
    pub fn exit_code(&self) -> (r: i32)
        ensures
            r == spec_suite_code(self.errors@, self.errors@.len() as int),
    {
        let mut code: i32 = 0;
        let mut i: usize = 0;
        while i < self.errors.len()
            invariant
                i <= self.errors.len(),
                code == spec_suite_code(self.errors@, i as int),
            decreases self.errors.len() - i,
        {
            let unit: i32 = match &self.errors[i].1 {
                None => 0,
                Some(e) => get_exit_code(e),
            };
            code = code | unit;
            i = i + 1;
        }
        code
    }
}

/// The exit code of the harness: those of all units of work of all
/// suites, joined bit by bit, so that no kind of failure hides another.
pub fn exit_code(results: &Vec<CompileAndRunResults>) -> (r: i32)
    ensures
        r == spec_total_code(results@, results@.len() as int),
{
    let mut code: i32 = 0;
    let mut i: usize = 0;
    while i < results.len()
        invariant
            i <= results.len(),
            code == spec_total_code(results@, i as int),
        decreases results.len() - i,
    {
        let suite: i32 = results[i].exit_code();
        code = code | suite;
        i = i + 1;
    }
    code
}

/// The entry of a report that stands for an outcome.
pub open spec fn entry_of(outcome: Result<(), CompileAndRunError>) -> Option<CompileAndRunError> {
    match outcome {
        Ok(_) => None,
        Err(e) => Some(e),
    }
}

/// An entry of a report as the outcome it stands for.
pub open spec fn as_outcome(entry: Option<CompileAndRunError>) -> Result<(), CompileAndRunError> {
    match entry {
        None => Ok(()),
        Some(e) => Err(e),
    }
}

/// The shared state after the first `n` outcomes of a suite were recorded.
pub open spec fn recorded_suite(
    scheduler: Scheduler,
    errors: Seq<(SscceRunType, Option<CompileAndRunError>)>,
    n: int,
) -> Scheduler
    decreases n,
{
    if n <= 0 {
        scheduler
    } else {
        recorded_suite(scheduler, errors, n - 1).spec_recorded(as_outcome(errors[n - 1].1))
    }
}

/// The shared state after every outcome of the first `n` reports was
/// recorded.
pub open spec fn recorded_reports(
    scheduler: Scheduler,
    reports: Seq<CompileAndRunResults>,
    n: int,
) -> Scheduler
    decreases n,
{
    if n <= 0 {
        scheduler
    } else {
        recorded_suite(
            recorded_reports(scheduler, reports, n - 1),
            reports[n - 1].errors@,
            reports[n - 1].errors@.len() as int,
        )
    }
}

/// The report on a suite whose output directory is no directory.
pub open spec fn is_out_dir_report(
    report: CompileAndRunResults,
    configurations: Seq<SscceRunType>,
) -> bool {
    report.errors@ == seq![(configurations[0], Some(CompileAndRunError::OutDirIsNotDir))]
}

/// The first `n` entries of the report are the outcomes that `run_unit`
/// can return for the first `n` configurations, each filed under its
/// configuration.
pub open spec fn files_outcomes<U: Fn(&SscceRunType) -> Result<(), CompileAndRunError>>(
    report: CompileAndRunResults,
    configurations: Seq<SscceRunType>,
    run_unit: U,
    n: int,
) -> bool {
    &&& n <= report.errors@.len()
    &&& n <= configurations.len()
    &&& forall|i: int|
        0 <= i < n ==> (#[trigger] report.errors@[i]).0 == configurations[i] && run_unit.ensures(
            (&configurations[i],),
            as_outcome(report.errors@[i].1),
        )
}

/// Tries one suite under the configurations given, one after the other,
/// through `run_unit`, and files each outcome under its configuration.
/// Before every unit of work `may_start` is asked whether to go on: the
/// first refusal ends the suite, and a suite refused at once has no
/// report. A suite whose output directory is no directory is not tried at
/// all: the error is filed under the first configuration.
pub fn compile_and_run_suite<M, U>(
    suite: String,
    sscce_out_dir: String,
    out_dir_is_dir: bool,
    configurations: &Vec<SscceRunType>,
    may_start: M,
    run_unit: U,
) -> (r: Option<CompileAndRunResults>) where
    M: Fn() -> bool,
    U: Fn(&SscceRunType) -> Result<(), CompileAndRunError>,

    requires
        may_start.requires(()),
        forall|c: &SscceRunType| run_unit.requires((c,)),
        !out_dir_is_dir ==> configurations@.len() > 0,
    ensures
        match r {
            None => may_start.ensures((), false),
            Some(report) => {
                &&& may_start.ensures((), true)
                &&& report.suite == suite
                &&& report.sscce_out_dir == sscce_out_dir
                &&& !out_dir_is_dir ==> is_out_dir_report(report, configurations@)
                &&& out_dir_is_dir ==> {
                    &&& report.errors@.len() <= configurations@.len()
                    &&& files_outcomes(
                        report,
                        configurations@,
                        run_unit,
                        report.errors@.len() as int,
                    )
                    &&& configurations@.len() > 0 ==> report.errors@.len() > 0
                    &&& report.errors@.len() < configurations@.len() ==> may_start.ensures(
                        (),
                        false,
                    )
                }
                &&& distinct_run_types(configurations@) ==> report.wf()
            },
        },
{
    if !may_start() {
        return None;
    }
    if !out_dir_is_dir {
        let first = (configurations[0].0.duplicate(), configurations[0].1);
        return Some(CompileAndRunResults::out_dir_is_not_dir(suite, sscce_out_dir, first));
    }
    let mut report = CompileAndRunResults::new(suite, sscce_out_dir);
    let mut i: usize = 0;
    let mut going = true;
    while going && i < configurations.len()
        invariant
            i <= configurations.len(),
            may_start.requires(()),
            may_start.ensures((), true),
            forall|c: &SscceRunType| run_unit.requires((c,)),
            report.suite == suite,
            report.sscce_out_dir == sscce_out_dir,
            report.errors@.len() == i,
            report.run_types() == configurations@.take(i as int),
            files_outcomes(report, configurations@, run_unit, i as int),
            !going ==> may_start.ensures((), false) && 0 < i < configurations.len(),
        decreases configurations.len() - i + (if going { 1int } else { 0int }),
    {
        if i > 0 && !may_start() {
            going = false;
        } else {
            let outcome = run_unit(&configurations[i]);
            let ghost seen = outcome;
            let run_type = (configurations[i].0.duplicate(), configurations[i].1);
            report.record(run_type, outcome);
            proof {
                lemma_entry_round_trip(seen);
            }
            i = i + 1;
        }
    }
    Some(report)
}

/// An outcome is read back from its entry in a report.
pub proof fn lemma_entry_round_trip(outcome: Result<(), CompileAndRunError>)
    ensures
        as_outcome(entry_of(outcome)) == outcome,
{
    if outcome is Ok {
        assert(outcome->Ok_0 == ());
    }
}

/// The report on one suite is what a single worker that began the suite
/// in the state `start` can hand in: the suite was begun because nothing
/// forbade it, every unit of work in it was started only while nothing
/// forbade it, and the suite was left unfinished only because a failure
/// forbade the next unit.
pub open spec fn worker_report<P, U>(
    start: Scheduler,
    suite: String,
    configurations: Seq<SscceRunType>,
    prepare: P,
    run_unit: U,
    report: CompileAndRunResults,
) -> bool where
    P: Fn(&String) -> (String, bool),
    U: Fn(&String, &String, &SscceRunType) -> Result<(), CompileAndRunError>,
 {
    &&& start.spec_may_start()
    &&& report.suite == suite
    &&& exists|out_dir_is_dir: bool| #[trigger]
        prepare.ensures((&suite,), (report.sscce_out_dir, out_dir_is_dir)) && if out_dir_is_dir {
            &&& report.errors@.len() <= configurations.len()
            &&& forall|j: int|
                0 <= j < report.errors@.len() ==> {
                    &&& (#[trigger] report.errors@[j]).0 == configurations[j]
                    &&& run_unit.ensures(
                        (&suite, &report.sscce_out_dir, &configurations[j]),
                        as_outcome(report.errors@[j].1),
                    )
                    &&& recorded_suite(start, report.errors@, j).spec_may_start()
                }
            &&& report.errors@.len() < configurations.len() ==> !recorded_suite(
                start,
                report.errors@,
                report.errors@.len() as int,
            ).spec_may_start()
        } else {
            is_out_dir_report(report, configurations)
        }
}

/// Tries the suites in order on a single worker. `prepare` gives the
/// output directory of a suite and says whether it is a directory;
/// `run_unit` takes a suite, its output directory and a configuration
/// through one unit of work. Under fail-fast the worker stops for good at
/// the first unit of work that fails: no unit and no suite is started
/// after it. The reports are those of the suites that were begun, in
/// order. An output directory that is no directory is filed under the
/// first configuration, so there has to be one where `prepare` can find
/// such a directory.
pub fn compile_and_run_suites<P, U>(
    fail_fast: bool,
    suites: &Vec<String>,
    configurations: &Vec<SscceRunType>,
    prepare: P,
    run_unit: U,
) -> (r: Vec<CompileAndRunResults>) where
    P: Fn(&String) -> (String, bool),
    U: Fn(&String, &String, &SscceRunType) -> Result<(), CompileAndRunError>,

    requires
        configurations@.len() > 0 || forall|suite: &String, dir: String|
            !prepare.ensures((suite,), (dir, false)),
        forall|suite: &String| prepare.requires((suite,)),
        forall|suite: &String, dir: &String, c: &SscceRunType| run_unit.requires((suite, dir, c)),
    ensures
        r@.len() <= suites@.len(),
        forall|i: int|
            0 <= i < r@.len() ==> worker_report(
                #[trigger] recorded_reports(Scheduler::spec_new(fail_fast), r@, i),
                suites@[i],
                configurations@,
                prepare,
                run_unit,
                r@[i],
            ),
        r@.len() < suites@.len() ==> !recorded_reports(
            Scheduler::spec_new(fail_fast),
            r@,
            r@.len() as int,
        ).spec_may_start(),
{
    let mut scheduler = Scheduler::new(fail_fast);
    let mut reports: Vec<CompileAndRunResults> = Vec::new();
    let mut i: usize = 0;
    while i < suites.len() && scheduler.may_start()
        invariant
            i <= suites.len(),
            reports@.len() == i,
            configurations@.len() > 0 || forall|suite: &String, dir: String|
                !prepare.ensures((suite,), (dir, false)),
            forall|suite: &String| prepare.requires((suite,)),
            forall|suite: &String, dir: &String, c: &SscceRunType|
                run_unit.requires((suite, dir, c)),
            scheduler == recorded_reports(Scheduler::spec_new(fail_fast), reports@, i as int),
            forall|k: int|
                0 <= k < i ==> worker_report(
                    #[trigger] recorded_reports(Scheduler::spec_new(fail_fast), reports@, k),
                    suites@[k],
                    configurations@,
                    prepare,
                    run_unit,
                    reports@[k],
                ),
        decreases suites.len() - i,
    {
        let ghost start = scheduler;
        let ghost before = reports@;
        let (sscce_out_dir, out_dir_is_dir) = prepare(&suites[i]);
        let ghost dir = sscce_out_dir;
        let report = if !out_dir_is_dir {
            let first = (configurations[0].0.duplicate(), configurations[0].1);
            scheduler.note(true);
            let report = CompileAndRunResults::out_dir_is_not_dir(
                suites[i].clone(),
                sscce_out_dir,
                first,
            );
            proof {
                assert(recorded_suite(start, report.errors@, 0) == start);
            }
            report
        } else {
            let mut report = CompileAndRunResults::new(suites[i].clone(), sscce_out_dir);
            let mut j: usize = 0;
            while j < configurations.len() && scheduler.may_start()
                invariant
                    i < suites.len(),
                    j <= configurations.len(),
                    forall|suite: &String, dir: &String, c: &SscceRunType|
                        run_unit.requires((suite, dir, c)),
                    report.suite == suites@[i as int],
                    report.sscce_out_dir == dir,
                    report.errors@.len() == j,
                    scheduler == recorded_suite(start, report.errors@, j as int),
                    forall|k: int|
                        0 <= k < j ==> {
                            &&& (#[trigger] report.errors@[k]).0 == configurations@[k]
                            &&& run_unit.ensures(
                                (&suites@[i as int], &dir, &configurations@[k]),
                                as_outcome(report.errors@[k].1),
                            )
                            &&& recorded_suite(start, report.errors@, k).spec_may_start()
                        },
                decreases configurations.len() - j,
            {
                let outcome = run_unit(&suites[i], &report.sscce_out_dir, &configurations[j]);
                let ghost seen = outcome;
                let ghost entries = report.errors@;
                scheduler.record(&outcome);
                let run_type = (configurations[j].0.duplicate(), configurations[j].1);
                report.record(run_type, outcome);
                proof {
                    lemma_entry_round_trip(seen);
                    assert forall|k: int| 0 <= k <= j implies recorded_suite(
                        start,
                        report.errors@,
                        k,
                    ) == recorded_suite(start, entries, k) by {
                        lemma_recorded_suite_prefix(start, entries, report.errors@, k);
                    }
                }
                j = j + 1;
            }
            report
        };
        reports.push(report);
        proof {
            let first = Scheduler::spec_new(fail_fast);
            assert forall|k: int| 0 <= k <= i implies recorded_reports(first, reports@, k)
                == recorded_reports(first, before, k) by {
                lemma_recorded_reports_prefix(first, before, reports@, k);
            }
            assert(worker_report(
                start,
                suites@[i as int],
                configurations@,
                prepare,
                run_unit,
                report,
            ));
            assert forall|k: int| 0 <= k < i + 1 implies worker_report(
                #[trigger] recorded_reports(first, reports@, k),
                suites@[k],
                configurations@,
                prepare,
                run_unit,
                reports@[k],
            ) by {
                assert(recorded_reports(first, reports@, k) == recorded_reports(first, before, k));
            }
        }
        i = i + 1;
    }
    reports
}

/// What was recorded of the first `n` outcomes of a suite does not depend
/// on the outcomes behind them.
proof fn lemma_recorded_suite_prefix(
    scheduler: Scheduler,
    shorter: Seq<(SscceRunType, Option<CompileAndRunError>)>,
    longer: Seq<(SscceRunType, Option<CompileAndRunError>)>,
    n: int,
)
    requires
        0 <= n <= shorter.len() <= longer.len(),
        forall|k: int| 0 <= k < shorter.len() ==> shorter[k] == longer[k],
    ensures
        recorded_suite(scheduler, shorter, n) == recorded_suite(scheduler, longer, n),
    decreases n,
{
    if n > 0 {
        lemma_recorded_suite_prefix(scheduler, shorter, longer, n - 1);
    }
}

/// What was recorded of the first `n` reports does not depend on the
/// reports behind them.
proof fn lemma_recorded_reports_prefix(
    scheduler: Scheduler,
    shorter: Seq<CompileAndRunResults>,
    longer: Seq<CompileAndRunResults>,
    n: int,
)
    requires
        0 <= n <= shorter.len() <= longer.len(),
        forall|k: int| 0 <= k < shorter.len() ==> shorter[k] == longer[k],
    ensures
        recorded_reports(scheduler, shorter, n) == recorded_reports(scheduler, longer, n),
    decreases n,
{
    if n > 0 {
        lemma_recorded_reports_prefix(scheduler, shorter, longer, n - 1);
    }
}

/// A suite exits with 0 exactly when each of its units of work does:
/// every failure that was not expected, and every expected failure that
/// did not happen, shows in the exit code.
pub proof fn lemma_suite_code_zero_iff_no_failure(
    errors: Seq<(SscceRunType, Option<CompileAndRunError>)>,
    n: int,
)
    requires
        0 <= n <= errors.len(),
    ensures
        (spec_suite_code(errors, n) == 0) == (forall|i: int|
            0 <= i < n ==> spec_outcome_code((#[trigger] errors[i]).1) == 0),
    decreases n,
{
    if n > 0 {
        lemma_suite_code_zero_iff_no_failure(errors, n - 1);
        let head: i32 = spec_suite_code(errors, n - 1);
        let last: i32 = spec_outcome_code(errors[n - 1].1);
        assert((head | last) == 0 <==> (head == 0 && last == 0)) by (bit_vector);
        if spec_suite_code(errors, n) == 0 {
            assert forall|i: int| 0 <= i < n implies spec_outcome_code((#[trigger] errors[i]).1)
                == 0 by {}
        }
    }
}

/// No failure hides another: the exit code of every unit of work shows in
/// the exit code of its suite, bit for bit.
pub proof fn lemma_suite_code_covers_each_unit(
    errors: Seq<(SscceRunType, Option<CompileAndRunError>)>,
    n: int,
    i: int,
)
    requires
        0 <= i < n <= errors.len(),
    ensures
        spec_suite_code(errors, n) | spec_outcome_code(errors[i].1) == spec_suite_code(errors, n),
    decreases n,
{
    let head: i32 = spec_suite_code(errors, n - 1);
    let last: i32 = spec_outcome_code(errors[n - 1].1);
    if i == n - 1 {
        assert((head | last) | last == head | last) by (bit_vector);
    } else {
        lemma_suite_code_covers_each_unit(errors, n - 1, i);
        let unit: i32 = spec_outcome_code(errors[i].1);
        assert(head | unit == head ==> (head | last) | unit == head | last) by (bit_vector);
    }
}

/// The exit code of every suite shows in the exit code of the harness,
/// bit for bit, and a harness that exits with 0 had every suite exit
/// with 0.
pub proof fn lemma_total_code_covers_each_suite(results: Seq<CompileAndRunResults>, n: int, i: int)
    requires
        0 <= i < n <= results.len(),
    ensures
        spec_total_code(results, n) | spec_suite_code(
            results[i].errors@,
            results[i].errors@.len() as int,
        ) == spec_total_code(results, n),
        spec_total_code(results, n) == 0 ==> spec_suite_code(
            results[i].errors@,
            results[i].errors@.len() as int,
        ) == 0,
    decreases n,
{
    let head: i32 = spec_total_code(results, n - 1);
    let last: i32 = spec_suite_code(results[n - 1].errors@, results[n - 1].errors@.len() as int);
    assert((head | last) == 0 ==> head == 0 && last == 0) by (bit_vector);
    if i == n - 1 {
        assert((head | last) | last == head | last) by (bit_vector);
    } else {
        lemma_total_code_covers_each_suite(results, n - 1, i);
        let suite: i32 = spec_suite_code(results[i].errors@, results[i].errors@.len() as int);
        assert(head | suite == head ==> (head | last) | suite == head | last) by (bit_vector);
    }
}

} // verus!

//! Compiling a suite: the command line, the retry policy and the verdict.

use crate::config::{texts, OptimizationLevel};
use crate::process::Output;
use crate::suite::CompileError;
use vstd::prelude::*;
use vstd::string::*;

verus! {

/// What one attempt to compile came to. An attempt clears the compiler's
/// cache inside the suite and then starts the compiler.
#[derive(Debug, PartialEq, Eq)]
pub enum Attempt {
    /// The cache could not be cleared.
    DeletingElmStuff(String),
    /// The compiler could not be started.
    Process(String),
    /// The compiler ran and exited.
    Exited(Output),
}

impl Attempt {
    /// An attempt succeeded when the compiler exited with code zero.
    pub open spec fn spec_succeeded(self) -> bool {
        self matches Attempt::Exited(output) && output.status.spec_success()
    }

    pub fn succeeded(&self) -> (r: bool)
        ensures
            r == self.spec_succeeded(),
    {
        match self {
            Attempt::Exited(output) => output.status.success(),
            _ => false,
        }
    }

    /// The verdict on a compilation whose last attempt was `self`. Only a
    /// clean exit that left standard error empty counts as compiled.
    pub open spec fn spec_verdict(self) -> Result<(), CompileError> {
        match self {
            Attempt::DeletingElmStuff(e) => Err(CompileError::DeletingElmStuff(e)),
            Attempt::Process(e) => Err(CompileError::Process(e)),
            Attempt::Exited(output) => if !output.status.spec_success() {
                Err(CompileError::Compiler(output))
            } else if output.stderr@.len() != 0 {
                Err(CompileError::CompilerStdErrNotEmpty(output))
            } else {
                Ok(())
            },
        }
    }

    pub fn verdict(self) -> (r: Result<(), CompileError>)
        ensures
            r == self.spec_verdict(),
    {
        match self {
            Attempt::DeletingElmStuff(e) => Err(CompileError::DeletingElmStuff(e)),
            Attempt::Process(e) => Err(CompileError::Process(e)),
            Attempt::Exited(output) => if !output.status.success() {
                Err(CompileError::Compiler(output))
            } else if output.stderr.len() != 0 {
                Err(CompileError::CompilerStdErrNotEmpty(output))
            } else {
                Ok(())
            },
        }
    }
}

/// The retry policy in mid-run: how many attempts are granted and how
/// many have been made.
#[derive(Debug, PartialEq, Eq, Structural, Clone, Copy)]
pub struct Retry {
    pub max_retries: usize,
    pub made: usize,
}

/// What to do after an attempt.
#[derive(Debug, PartialEq, Eq)]
pub enum RetryStep {
    /// Attempt once more.
    Again(Retry),
    /// Stop: this is the verdict.
    Done(Result<(), CompileError>),
}

impl Retry {
    /// The number of attempts granted: `max_retries`, but never fewer
    /// than one.
    pub open spec fn limit(self) -> int {
        if self.max_retries == 0 {
            1
        } else {
            self.max_retries as int
        }
    }

    /// The policy before the first attempt.
    pub fn new(max_retries: usize) -> (r: Retry)
        ensures
            r == (Retry { max_retries, made: 0 }),
    {
        Retry { max_retries, made: 0 }
    }

    /// Whether `attempt` is the last one: it succeeded, or it used up what
    /// was granted.
    pub open spec fn stops_at(self, attempt: Attempt) -> bool {
        attempt.spec_succeeded() || self.made + 1 >= self.limit()
    }

    pub open spec fn spec_after(self, attempt: Attempt) -> RetryStep {
        if self.stops_at(attempt) {
            RetryStep::Done(attempt.spec_verdict())
        } else {
            RetryStep::Again(Retry { max_retries: self.max_retries, made: (self.made + 1) as usize })
        }
    }

    /// Takes in the outcome of one more attempt. The first success ends
    /// the compilation, and so does the last attempt granted; the verdict
    /// is on that attempt alone.
    pub fn after(self, attempt: Attempt) -> (r: RetryStep)
        ensures
            r == self.spec_after(attempt),
            r matches RetryStep::Again(next) ==> next.made == self.made + 1 && next.made
                < next.limit(),
    {
        let limit: usize = if self.max_retries == 0 {
            1
        } else {
            self.max_retries
        };
        if attempt.succeeded() || self.made >= limit - 1 {
            RetryStep::Done(attempt.verdict())
        } else {
            RetryStep::Again(Retry { max_retries: self.max_retries, made: self.made + 1 })
        }
    }

    /// The verdict after the attempts `attempts`, made in this order, if
    /// they reach one: the policy is fed one attempt after the other and
    /// looks at none beyond the one that ends the compilation.
    pub open spec fn verdict_after(self, attempts: Seq<Attempt>) -> Option<Result<(), CompileError>>
        decreases attempts.len(),
    {
        if attempts.len() == 0 {
            None
        } else {
            match self.spec_after(attempts[0]) {
                RetryStep::Done(verdict) => Some(verdict),
                RetryStep::Again(next) => next.verdict_after(attempts.skip(1)),
            }
        }
    }

    /// How many of `attempts` the policy asks for before it stops.
    pub open spec fn invocations(self, attempts: Seq<Attempt>) -> nat
        decreases attempts.len(),
    {
        if attempts.len() == 0 {
            0
        } else {
            match self.spec_after(attempts[0]) {
                RetryStep::Done(_) => 1,
                RetryStep::Again(next) => 1 + next.invocations(attempts.skip(1)),
            }
        }
    }
}

/// A fresh policy stops at the first successful attempt, or else at the
/// last attempt granted, and the verdict is the one on that attempt: with
/// `k` the place of the first success among the attempts granted, or of the
/// last attempt granted if none of them succeeds, the compiler is started
/// `k + 1` times and earlier failures leave no trace.
pub proof fn lemma_retry_stops_at_first_success(retry: Retry, attempts: Seq<Attempt>, k: int)
    requires
        0 <= k < attempts.len(),
        retry.made + k < retry.limit(),
        forall|i: int| 0 <= i < k ==> !(#[trigger] attempts[i]).spec_succeeded(),
        attempts[k].spec_succeeded() || retry.made + k + 1 == retry.limit(),
    ensures
        retry.verdict_after(attempts) == Some(attempts[k].spec_verdict()),
        retry.invocations(attempts) == k + 1,
    decreases k,
{
    if k > 0 {
        let next = Retry { max_retries: retry.max_retries, made: (retry.made + 1) as usize };
        lemma_retry_stops_at_first_success(next, attempts.skip(1), k - 1);
    }
}

/// `attempts` is a run of attempts that `invoke` can return on `args`,
/// the policy asks for every one of them, and it reaches `verdict` on them.
pub open spec fn reads_to_verdict<F: Fn(&Vec<String>) -> Attempt>(
    max_retries: usize,
    invoke: F,
    args: Vec<String>,
    attempts: Seq<Attempt>,
    verdict: Result<(), CompileError>,
) -> bool {
    &&& forall|i: int| 0 <= i < attempts.len() ==> invoke.ensures((&args,), #[trigger] attempts[i])
    &&& Retry::new_spec(max_retries).verdict_after(attempts) == Some(verdict)
    &&& Retry::new_spec(max_retries).invocations(attempts) == attempts.len()
}

/// `verdict` is what attempting through `invoke` on `args` can come to.
pub open spec fn retry_may_return<F: Fn(&Vec<String>) -> Attempt>(
    max_retries: usize,
    invoke: F,
    args: Vec<String>,
    verdict: Result<(), CompileError>,
) -> bool {
    exists|attempts: Seq<Attempt>| #[trigger]
        reads_to_verdict(max_retries, invoke, args, attempts, verdict)
}

/// Runs the retry policy over `invoke`, which makes one attempt per call
/// with the arguments `args`. The verdict is the one the policy reaches on
/// a run of attempts that `invoke` can return, and the policy asks for
/// every attempt of that run.
pub fn run_until_success<F: Fn(&Vec<String>) -> Attempt>(
    max_retries: usize,
    args: &Vec<String>,
    invoke: F,
) -> (r: Result<(), CompileError>)
    requires
        forall|a: &Vec<String>| invoke.requires((a,)),
    ensures
        retry_may_return(max_retries, invoke, *args, r),
{
    let mut retry = Retry::new(max_retries);
    let ghost mut made: Seq<Attempt> = Seq::empty();
    loop
        invariant
            forall|a: &Vec<String>| invoke.requires((a,)),
            retry.max_retries == max_retries,
            retry.made == made.len(),
            retry.made < retry.limit(),
            forall|i: int| 0 <= i < made.len() ==> invoke.ensures((args,), #[trigger] made[i]),
            forall|i: int| 0 <= i < made.len() ==> !(#[trigger] made[i]).spec_succeeded(),
        decreases retry.limit() - retry.made,
    {
        let attempt = invoke(args);
        let ghost all = made.push(attempt);
        match retry.after(attempt) {
            RetryStep::Done(verdict) => {
                proof {
                    lemma_retry_stops_at_first_success(
                        Retry::new_spec(max_retries),
                        all,
                        made.len() as int,
                    );
                    assert(reads_to_verdict(max_retries, invoke, *args, all, verdict));
                }
                return verdict;
            },
            RetryStep::Again(next) => {
                retry = next;
                proof {
                    made = all;
                }
            },
        }
    }
}

/// The contents of a list of targets as text.
pub open spec fn targets_text(targets: Option<String>) -> Option<Seq<char>> {
    match targets {
        Some(contents) => Some(contents@),
        None => None,
    }
}

/// `verdict` is what compiling through `invoke` can come to. A path that
/// holds no `elm.json` is not compiled, nor is a suite whose list of
/// targets cannot be read; any other suite is attempted with the
/// arguments that its targets, the level and the output file give.
pub open spec fn compile_may_return<F: Fn(&Vec<String>) -> Attempt>(
    has_elm_json: bool,
    targets: Result<Option<String>, String>,
    opt_level: OptimizationLevel,
    out_file: Seq<char>,
    max_retries: usize,
    invoke: F,
    verdict: Result<(), CompileError>,
) -> bool {
    if !has_elm_json {
        verdict == Err::<(), CompileError>(CompileError::SuiteDoesNotExist)
    } else {
        match targets {
            Err(e) => verdict == Err::<(), CompileError>(CompileError::ReadingTargets(e)),
            Ok(contents) => exists|args: Vec<String>| #[trigger]
                retry_may_return(max_retries, invoke, args, verdict) && texts(args@)
                    == spec_compiler_args(
                    spec_root_files(targets_text(contents)),
                    opt_level,
                    out_file,
                ),
        }
    }
}

/// Compiles a suite to `out_file`. `targets` is what reading the suite's
/// list of targets came to: `Ok(None)` for a suite without one. `invoke`
/// makes one attempt with the arguments it is given: it clears the
/// compiler's cache and starts the compiler.
pub fn compile<F: Fn(&Vec<String>) -> Attempt>(
    has_elm_json: bool,
    targets: Result<Option<String>, String>,
    opt_level: OptimizationLevel,
    out_file: &str,
    max_retries: usize,
    invoke: F,
) -> (r: Result<(), CompileError>)
    requires
        forall|a: &Vec<String>| invoke.requires((a,)),
    ensures
        compile_may_return(has_elm_json, targets, opt_level, out_file@, max_retries, invoke, r),
{
    if !has_elm_json {
        return Err(CompileError::SuiteDoesNotExist);
    }
    let contents = match targets {
        Err(e) => {
            return Err(CompileError::ReadingTargets(e));
        },
        Ok(contents) => contents,
    };
    let roots = match &contents {
        Some(text) => root_files(Some(text.as_str())),
        None => root_files(None),
    };
    let args = compiler_args(&roots, opt_level, out_file);
    let verdict = run_until_success(max_retries, &args, invoke);
    verdict
}

/// The pieces of `s` between its line feeds, given that `current` has been
/// read of the piece at hand.
pub open spec fn split_from(s: Seq<char>, current: Seq<char>) -> Seq<Seq<char>>
    decreases s.len(),
{
    if s.len() == 0 {
        seq![current]
    } else if s[0] == '\n' {
        seq![current] + split_from(s.skip(1), Seq::empty())
    } else {
        split_from(s.skip(1), current.push(s[0]))
    }
}

/// The pieces of `s` between its line feeds: one more piece than there are
/// line feeds, empty pieces included.
pub open spec fn split_lines(s: Seq<char>) -> Seq<Seq<char>> {
    split_from(s, Seq::empty())
}

/// The source files a suite is built from: the lines of its list of
/// targets, or `Main.elm` alone for a suite without such a list.
pub open spec fn spec_root_files(targets: Option<Seq<char>>) -> Seq<Seq<char>> {
    match targets {
        Some(contents) => split_lines(contents),
        None => seq!["Main.elm"@],
    }
}

/// The source files to hand to the compiler, from the contents of the
/// suite's list of targets if it has one.
pub fn root_files(targets: Option<&str>) -> (r: Vec<String>)
    ensures
        texts(r@) == spec_root_files(
            match targets {
                Some(contents) => Some(contents@),
                None => None,
            },
        ),
{
    let mut files: Vec<String> = Vec::new();
    match targets {
        None => {
            files.push(String::from_str("Main.elm"));
        },
        Some(contents) => {
            let n: usize = contents.unicode_len();
            let mut start: usize = 0;
            let mut i: usize = 0;
            assert(contents@.skip(0) =~= contents@);
            assert(contents@.subrange(0, 0) =~= Seq::<char>::empty());
            while i < n
                invariant
                    n == contents@.len(),
                    start <= i <= n,
                    split_lines(contents@) == texts(files@) + split_from(
                        contents@.skip(i as int),
                        contents@.subrange(start as int, i as int),
                    ),
                decreases n - i,
            {
                let ghost rest = contents@.skip(i as int);
                let ghost current = contents@.subrange(start as int, i as int);
                let ghost before = texts(files@);
                assert(rest.skip(1) =~= contents@.skip(i + 1));
                if contents.get_char(i) == '\n' {
                    files.push(String::from_str(contents.substring_char(start, i)));
                    start = i + 1;
                    assert(contents@.subrange(start as int, start as int) =~= Seq::<char>::empty());
                    assert(before + (seq![current] + split_from(rest.skip(1), Seq::empty()))
                        =~= before.push(current) + split_from(rest.skip(1), Seq::empty()));
                } else {
                    assert(contents@.subrange(start as int, i + 1) =~= current.push(rest[0]));
                }
                i = i + 1;
            }
            files.push(String::from_str(contents.substring_char(start, n)));
        },
    }
    files
}

/// The compiler's arguments: the build command, the source files, the
/// flags of the optimization level, and where to put the result.
pub open spec fn spec_compiler_args(
    root_files: Seq<Seq<char>>,
    opt_level: OptimizationLevel,
    out_file: Seq<char>,
) -> Seq<Seq<char>> {
    seq!["make"@] + root_files + opt_level.spec_args() + seq!["--output"@, out_file]
}

/// The arguments to start the compiler with.
pub fn compiler_args(root_files: &Vec<String>, opt_level: OptimizationLevel, out_file: &str) -> (r:
    Vec<String>)
    ensures
        texts(r@) == spec_compiler_args(texts(root_files@), opt_level, out_file@),
{
    let mut args: Vec<String> = Vec::new();
    args.push(String::from_str("make"));
    let mut i: usize = 0;
    while i < root_files.len()
        invariant
            i <= root_files.len(),
            texts(args@) == seq!["make"@] + texts(root_files@).take(i as int),
        decreases root_files.len() - i,
    {
        let ghost before = texts(args@);
        args.push(root_files[i].clone());
        assert(texts(args@) =~= before.push(root_files@[i as int]@));
        i = i + 1;
    }
    assert(texts(root_files@).take(i as int) =~= texts(root_files@));
    let flags = opt_level.args();
    let ghost head = texts(args@);
    let mut j: usize = 0;
    while j < flags.len()
        invariant
            j <= flags.len(),
            flags@.len() == opt_level.spec_args().len(),
            forall|k: int| 0 <= k < flags@.len() ==> (#[trigger] flags@[k])@ == opt_level.spec_args()[k],
            texts(args@) == head + opt_level.spec_args().take(j as int),
        decreases flags.len() - j,
    {
        args.push(String::from_str(flags[j]));
        j = j + 1;
    }
    assert(opt_level.spec_args().take(j as int) =~= opt_level.spec_args());
    args.push(String::from_str("--output"));
    args.push(String::from_str(out_file));
    args
}

/// The name of the file a suite is compiled to at a given level.
pub open spec fn spec_artifact_name(opt_level: OptimizationLevel) -> Seq<char> {
    "elm-"@ + opt_level.spec_id() + ".js"@
}

/// The name of the file to compile to. Levels differ in this name, so one
/// directory can hold what several of them built.
pub fn artifact_name(opt_level: OptimizationLevel) -> (r: String)
    ensures
        r@ == spec_artifact_name(opt_level),
{
    String::from_str("elm-").concat(opt_level.id()).concat(".js")
}

impl Retry {
    /// The policy before the first attempt.
    pub open spec fn new_spec(max_retries: usize) -> Retry {
        Retry { max_retries, made: 0 }
    }
}

} // verus!

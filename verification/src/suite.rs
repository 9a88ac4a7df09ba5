//! Suites, the compilers they are built with, and what can go wrong.

use crate::condition::{
    CompileFailsIfAll, ConditionCollection, RunFailsIfAll, StdlibVariant,
};
use crate::config::{OptimizationLevel, TimeSpan};
use crate::process::{is_prefix, starts_with, Output};
use vstd::prelude::*;
use vstd::string::*;

verus! {

/// `serde_json::Value`: a JSON value. Nothing is claimed of it; it is only
/// carried from a suite's declaration to the run-time harness.
#[verifier::external_type_specification]
#[verifier::external_body]
pub struct ExJsonValue(serde_json::Value);

/// One compiler binary: the name it was asked for by, where it was found,
/// and the standard library it turned out to ship.
#[derive(Clone, Debug, Hash, PartialEq, Eq)]
pub struct ElmCompilerPath {
    pub unresolved: String,
    pub path: String,
    pub stdlib_variant: StdlibVariant,
}

/// A configuration under test: a compiler and an optimization level.
pub type SscceRunType = (ElmCompilerPath, OptimizationLevel);

/// The direction of a port.
#[derive(Debug, PartialEq, Eq, Structural, Clone, Copy)]
pub enum PortType {
    Command,
    Subscription,
}

/// The name of a port.
#[derive(Debug)]
pub struct PortName(pub String);

/// The value sent through a port. The harness hands it on unread.
#[derive(Debug)]
pub struct PortArg(pub serde_json::Value);

/// What a suite declares about itself: the port traffic and logs that the
/// run-time harness checks, and when the suite is expected to fail.
#[derive(Debug)]
pub struct Config {
    pub ports: Option<Vec<(PortType, PortName, PortArg)>>,
    pub logs: Option<String>,
    pub compile_fails_if: Option<ConditionCollection<CompileFailsIfAll>>,
    pub run_fails_if: Option<ConditionCollection<RunFailsIfAll>>,
}

impl Default for Config {
    /// A suite that declares nothing: no ports, no logs, no expected
    /// failure.
    fn default() -> (r: Config)
        ensures
            r.ports.is_none(),
            r.logs.is_none(),
            r.compile_fails_if.is_none(),
            r.run_fails_if.is_none(),
    {
        Config { ports: None, logs: None, compile_fails_if: None, run_fails_if: None }
    }
}

/// Why a compilation failed.
#[derive(Debug, PartialEq, Eq)]
pub enum CompileError {
    /// The compiler could not be started.
    Process(String),
    /// The compiler exited with a failure.
    Compiler(Output),
    /// The compiler exited cleanly but wrote to standard error.
    CompilerStdErrNotEmpty(Output),
    /// The suite has a list of targets that could not be read.
    ReadingTargets(String),
    /// The compiler's cache inside the suite could not be cleared.
    DeletingElmStuff(String),
    SuiteDoesNotExist,
}

/// Why a compiler could not be classified.
#[derive(Debug, PartialEq, Eq)]
pub enum DetectStdlibError {
    /// The probe could not be started.
    Io(String),
    /// No executable of that name was found.
    LocatingCompiler(String),
    /// The probe succeeded with an answer the harness does not know.
    Parsing(Vec<u8>),
}

/// Why a suite's declaration could not be used.
#[derive(Debug, PartialEq, Eq)]
pub enum GetSuiteConfigError {
    CannotRead(String),
    Parse(String),
}

/// Why a run failed.
#[derive(Debug, PartialEq, Eq)]
pub enum RunError {
    NodeNotFound(String),
    SuiteDoesNotExist,
    NodeProcess(String),
    WritingHarness(String),
    CopyingExpectedOutput(String),
    /// The program exited with a failure.
    Runtime(Output),
    WritingExpectedOutput(String),
    ExpectedOutputNotUtf8(String),
    /// The program exited cleanly but was not silent.
    OutputProduced(Output),
    /// The program was killed for running too long.
    Timeout { after: TimeSpan, stdout: Vec<u8>, stderr: Vec<u8> },
}

/// How a unit of work ended, when it did not simply succeed.
#[derive(Debug, PartialEq, Eq)]
#[allow(inconsistent_fields)]
pub enum CompileAndRunError {
    SuiteNotExist,
    SuiteNotDir,
    SuiteNotElm,
    OutDirIsNotDir,
    CannotGetSuiteConfig(GetSuiteConfigError),
    CompileFailure { allowed: bool, reason: CompileError },
    RunFailure { allowed: bool, reason: RunError },
    ExpectedCompileFailure,
    ExpectedRunFailure,
}

/// Why the harness could not start on its suites.
#[derive(Debug, PartialEq, Eq)]
pub enum SuitesError {
    ResolvingCompiler(DetectStdlibError),
}

/// `bytes` without the whitespace at its two ends, where whitespace is
/// what Unicode calls `White_Space`.
pub uninterp spec fn trimmed(bytes: Seq<u8>) -> Seq<u8>;

/// Calls `bstr::ByteSlice::trim`, which cuts leading and trailing Unicode
/// whitespace off a byte string. The result is only named, as `trimmed`.
#[verifier::external_body]
fn trim(bytes: &[u8]) -> (r: &[u8])
    ensures
        r@ == trimmed(bytes@),
{
    bstr::ByteSlice::trim(bytes)
}

/// The bytes with which an alternative compiler answers the probe.
pub open spec fn another_marker() -> Seq<u8> {
    "another-elm".spec_bytes()
}

/// What a probe tells, given its trimmed output: a failed probe means the
/// official compiler, which does not know the probe flag; a successful one
/// must begin with the marker of the alternative.
pub open spec fn spec_variant_of_probe(success: bool, trimmed_stdout: Seq<u8>) -> Option<
    StdlibVariant,
> {
    if !success {
        Some(StdlibVariant::Official)
    } else if is_prefix(another_marker(), trimmed_stdout) {
        Some(StdlibVariant::Another)
    } else {
        None
    }
}

/// Classifies a compiler from whether its probe succeeded and from the
/// probe's output without surrounding whitespace. `None` stands for an
/// answer the harness does not know.
pub fn variant_of_probe(success: bool, trimmed_stdout: &[u8]) -> (r: Option<StdlibVariant>)
    ensures
        r == spec_variant_of_probe(success, trimmed_stdout@),
{
    if !success {
        Some(StdlibVariant::Official)
    } else if starts_with(trimmed_stdout, "another-elm".as_bytes()) {
        Some(StdlibVariant::Another)
    } else {
        None
    }
}

/// Classifies a compiler from the exit status and output of its probe. An
/// unknown answer comes back whole in the error.
pub fn detect_stdlib_variant(success: bool, stdout: Vec<u8>) -> (r: Result<
    StdlibVariant,
    DetectStdlibError,
>)
    ensures
        match spec_variant_of_probe(success, trimmed(stdout@)) {
            Some(variant) => r == Ok::<StdlibVariant, DetectStdlibError>(variant),
            None => r == Err::<StdlibVariant, DetectStdlibError>(
                DetectStdlibError::Parsing(stdout),
            ),
        },
{
    let known = variant_of_probe(success, trim(stdout.as_slice()));
    match known {
        Some(variant) => Ok(variant),
        None => Err(DetectStdlibError::Parsing(stdout)),
    }
}

impl ElmCompilerPath {
    /// What the probe of the compiler asked for as `binary_name` and found
    /// at `path` comes to.
    pub open spec fn spec_from_probe(binary_name: String, path: String, probe: Output) -> Result<
        ElmCompilerPath,
        DetectStdlibError,
    > {
        match spec_variant_of_probe(probe.status.spec_success(), trimmed(probe.stdout@)) {
            Some(stdlib_variant) => Ok(
                ElmCompilerPath { unresolved: binary_name, path, stdlib_variant },
            ),
            None => Err(DetectStdlibError::Parsing(probe.stdout)),
        }
    }

    /// The handle of the compiler asked for as `binary_name` and found at
    /// `path`, classified by the outcome of its probe.
    pub fn from_probe(binary_name: String, path: String, probe: Output) -> (r: Result<
        ElmCompilerPath,
        DetectStdlibError,
    >)
        ensures
            r == Self::spec_from_probe(binary_name, path, probe),
    {
        let success = probe.status.success();
        match detect_stdlib_variant(success, probe.stdout) {
            Ok(stdlib_variant) => Ok(ElmCompilerPath { unresolved: binary_name, path, stdlib_variant }),
            Err(e) => Err(e),
        }
    }

    /// What resolving `binary_name` comes to, given what looking for the
    /// executable and probing it came to. A compiler that is not found is
    /// not probed.
    pub open spec fn spec_resolved(
        binary_name: String,
        located: Result<String, String>,
        probed: Result<Output, String>,
    ) -> Result<ElmCompilerPath, DetectStdlibError> {
        match located {
            Err(e) => Err(DetectStdlibError::LocatingCompiler(e)),
            Ok(path) => match probed {
                Err(e) => Err(DetectStdlibError::Io(e)),
                Ok(probe) => Self::spec_from_probe(binary_name, path, probe),
            },
        }
    }

    /// `resolved` is what resolving `binary_name` through `locate` and
    /// `probe` can come to.
    pub open spec fn may_resolve_to<L, P>(
        binary_name: String,
        locate: L,
        probe: P,
        resolved: Result<ElmCompilerPath, DetectStdlibError>,
    ) -> bool where L: Fn(&String) -> Result<String, String>, P: Fn(&String) -> Result<Output, String> {
        exists|located: Result<String, String>, probed: Result<Output, String>|
            {
                &&& #[trigger] Self::spec_resolved(binary_name, located, probed) == resolved
                &&& locate.ensures((&binary_name,), located)
                &&& located matches Ok(path) ==> probe.ensures((&path,), probed)
            }
    }

    /// Resolves a compiler: `locate` finds the executable that a name
    /// stands for, `probe` starts that executable with the flag that asks
    /// for its flavour. The executable is located and probed once.
    pub fn new_resolved<L, P>(binary_name: String, locate: L, probe: P) -> (r: Result<
        ElmCompilerPath,
        DetectStdlibError,
    >) where L: Fn(&String) -> Result<String, String>, P: Fn(&String) -> Result<Output, String>
        requires
            forall|name: &String| locate.requires((name,)),
            forall|path: &String| probe.requires((path,)),
        ensures
            Self::may_resolve_to(binary_name, locate, probe, r),
    {
        let located = locate(&binary_name);
        let ghost located_seen = located;
        let path = match located {
            Err(e) => {
                let r = Err(DetectStdlibError::LocatingCompiler(e));
                let ghost unprobed: Result<Output, String> = arbitrary();
                assert(Self::spec_resolved(binary_name, located_seen, unprobed) == r);
                return r;
            },
            Ok(path) => path,
        };
        let probed = probe(&path);
        let ghost probed_seen = probed;
        let r = match probed {
            Err(e) => Err(DetectStdlibError::Io(e)),
            Ok(output) => Self::from_probe(binary_name, path, output),
        };
        assert(Self::spec_resolved(binary_name, located_seen, probed_seen) == r);
        r
    }

    /// The name the compiler was asked for by.
    pub fn name(&self) -> (r: &str)
        ensures
            r@ == self.unresolved@,
    {
        self.unresolved.as_str()
    }

    /// The executable to start.
    pub fn command(&self) -> (r: &str)
        ensures
            r@ == self.path@,
    {
        self.path.as_str()
    }

    /// A second handle of the same compiler.
    pub fn duplicate(&self) -> (r: ElmCompilerPath)
        ensures
            r == *self,
    {
        ElmCompilerPath {
            unresolved: self.unresolved.clone(),
            path: self.path.clone(),
            stdlib_variant: self.stdlib_variant,
        }
    }
}

/// `resolved` is what resolving the first `n` of `names` can come to, one
/// by one.
pub open spec fn resolved_each<L, P>(
    names: Seq<String>,
    locate: L,
    probe: P,
    resolved: Seq<ElmCompilerPath>,
    n: int,
) -> bool where L: Fn(&String) -> Result<String, String>, P: Fn(&String) -> Result<Output, String> {
    &&& resolved.len() == n
    &&& forall|i: int|
        0 <= i < n ==> ElmCompilerPath::may_resolve_to(
            names[i],
            locate,
            probe,
            Ok(#[trigger] resolved[i]),
        )
}

/// Resolves the compilers named, each once and in order. The first that
/// cannot be resolved ends the harness: none behind it is looked at.
pub fn resolve_compilers<L, P>(names: &Vec<String>, locate: L, probe: P) -> (r: Result<
    Vec<ElmCompilerPath>,
    SuitesError,
>) where L: Fn(&String) -> Result<String, String>, P: Fn(&String) -> Result<Output, String>
    requires
        forall|name: &String| locate.requires((name,)),
        forall|path: &String| probe.requires((path,)),
    ensures
        match r {
            Ok(compilers) => resolved_each(names@, locate, probe, compilers@, names@.len() as int),
            Err(SuitesError::ResolvingCompiler(e)) => exists|k: int, before: Seq<ElmCompilerPath>|
                0 <= k < names@.len() && #[trigger] resolved_each(names@, locate, probe, before, k)
                    && ElmCompilerPath::may_resolve_to(names@[k], locate, probe, Err(e)),
        },
{
    let mut compilers: Vec<ElmCompilerPath> = Vec::new();
    let mut i: usize = 0;
    while i < names.len()
        invariant
            i <= names.len(),
            forall|name: &String| locate.requires((name,)),
            forall|path: &String| probe.requires((path,)),
            resolved_each(names@, locate, probe, compilers@, i as int),
        decreases names.len() - i,
    {
        match ElmCompilerPath::new_resolved(names[i].clone(), &locate, &probe) {
            Ok(compiler) => {
                compilers.push(compiler);
            },
            Err(e) => {
                return Err(SuitesError::ResolvingCompiler(e));
            },
        }
        i = i + 1;
    }
    Ok(compilers)
}

} // verus!

//! Harness configuration: optimization levels and the merged settings.

use vstd::prelude::*;
use vstd::string::*;

verus! {

/// How hard the compiler is asked to optimize.
#[derive(Debug, PartialEq, Eq, Structural, Clone, Copy, Hash)]
pub enum OptimizationLevel {
    Debug,
    Dev,
    Optimize,
}

/// The text that could not be read as an optimization level.
#[derive(Debug, PartialEq, Eq)]
pub struct InvalidOptimizationLevel(pub String);

/// A span of time: whole seconds and the nanoseconds beyond them.
#[derive(Debug, PartialEq, Eq, Structural, Clone, Copy, Hash)]
pub struct TimeSpan {
    pub secs: u64,
    pub nanos: u32,
}

/// `a@ == b@`, decided at run time.
pub fn same_text(a: &str, b: &str) -> (r: bool)
    ensures
        r == (a@ == b@),
{
    let left = String::from_str(a);
    let right = String::from_str(b);
    left == right
}

impl TimeSpan {
    /// The nanoseconds stay below one second.
    pub open spec fn wf(self) -> bool {
        self.nanos < 1_000_000_000
    }

    /// The span of `secs` seconds and `nanos` nanoseconds; `None` where
    /// `nanos` would reach a full second.
    pub fn new(secs: u64, nanos: u32) -> (r: Option<TimeSpan>)
        ensures
            r == (if nanos < 1_000_000_000 {
                Some(TimeSpan { secs, nanos })
            } else {
                None
            }),
    {
        if nanos < 1_000_000_000 {
            Some(TimeSpan { secs, nanos })
        } else {
            None
        }
    }

    /// A whole number of milliseconds as a span.
    pub fn from_millis(millis: u64) -> (r: TimeSpan)
        ensures
            r.wf(),
            r.secs == millis / 1000,
            r.nanos == (millis % 1000) * 1_000_000,
    {
        let rest: u64 = millis % 1000;
        let nanos: u64 = rest * 1_000_000;
        TimeSpan { secs: millis / 1000, nanos: nanos as u32 }
    }
}

impl OptimizationLevel {
    /// The compiler flags that select this level.
    pub open spec fn spec_args(self) -> Seq<Seq<char>> {
        match self {
            OptimizationLevel::Debug => seq!["--debug"@],
            OptimizationLevel::Dev => seq![],
            OptimizationLevel::Optimize => seq!["--optimize"@],
        }
    }

    /// The short name used in file names and in suite descriptors.
    pub open spec fn spec_id(self) -> Seq<char> {
        match self {
            OptimizationLevel::Debug => "debug"@,
            OptimizationLevel::Dev => "dev"@,
            OptimizationLevel::Optimize => "optimize"@,
        }
    }

    /// The name shown to people.
    pub open spec fn spec_label(self) -> Seq<char> {
        match self {
            OptimizationLevel::Debug => "debug"@,
            OptimizationLevel::Dev => "dev (default)"@,
            OptimizationLevel::Optimize => "optimize"@,
        }
    }

    /// What a level name stands for, if anything.
    pub open spec fn spec_parse(s: Seq<char>) -> Option<OptimizationLevel> {
        if s == "debug"@ {
            Some(OptimizationLevel::Debug)
        } else if s == "dev"@ {
            Some(OptimizationLevel::Dev)
        } else if s == "optimize"@ {
            Some(OptimizationLevel::Optimize)
        } else {
            None
        }
    }

    pub fn args(self) -> (r: &'static [&'static str])
        ensures
            r@.len() == self.spec_args().len(),
            forall|i: int| 0 <= i < r@.len() ==> (#[trigger] r@[i])@ == self.spec_args()[i],
    {
        match self {
            OptimizationLevel::Debug => &["--debug"],
            OptimizationLevel::Dev => &[],
            OptimizationLevel::Optimize => &["--optimize"],
        }
    }

    pub fn id(self) -> (r: &'static str)
        ensures
            r@ == self.spec_id(),
    {
        match self {
            OptimizationLevel::Debug => "debug",
            OptimizationLevel::Dev => "dev",
            OptimizationLevel::Optimize => "optimize",
        }
    }

    /// The level as it is shown to people: the default level says so.
    pub fn label(self) -> (r: &'static str)
        ensures
            r@ == self.spec_label(),
    {
        match self {
            OptimizationLevel::Debug => "debug",
            OptimizationLevel::Dev => "dev (default)",
            OptimizationLevel::Optimize => "optimize",
        }
    }

    /// Reads a level from its short name. Any other text comes back in the
    /// error, unchanged.
    pub fn parse(s: &str) -> (r: Result<OptimizationLevel, InvalidOptimizationLevel>)
        ensures
            match r {
                Ok(level) => Self::spec_parse(s@) == Some(level),
                Err(e) => Self::spec_parse(s@).is_none() && e.0@ == s@,
            },
    {
        if same_text(s, "debug") {
            Ok(OptimizationLevel::Debug)
        } else if same_text(s, "dev") {
            Ok(OptimizationLevel::Dev)
        } else if same_text(s, "optimize") {
            Ok(OptimizationLevel::Optimize)
        } else {
            Err(InvalidOptimizationLevel(String::from_str(s)))
        }
    }
}

impl core::str::FromStr for OptimizationLevel {
    type Err = InvalidOptimizationLevel;

    /// Reads a level from its short name, as `parse` does: any other text
    /// comes back in the error, unchanged.
    fn from_str(s: &str) -> (r: Result<Self, Self::Err>)
        ensures
            match r {
                Ok(level) => OptimizationLevel::spec_parse(s@) == Some(level),
                Err(e) => OptimizationLevel::spec_parse(s@).is_none() && e.0@ == s@,
            },
    {
        OptimizationLevel::parse(s)
    }
}

impl InvalidOptimizationLevel {
    /// The message for the text that was refused.
    pub fn message(&self) -> (r: String)
        ensures
            r@ == "Invalid optimization level: "@ + self.0@,
    {
        String::from_str("Invalid optimization level: ").concat(self.0.as_str())
    }
}

/// The name parsing and the short names agree: every level is read back
/// from its own short name.
pub proof fn lemma_parse_reads_id(level: OptimizationLevel)
    ensures
        OptimizationLevel::spec_parse(level.spec_id()) == Some(level),
{
    reveal_strlit("debug");
    reveal_strlit("dev");
    reveal_strlit("optimize");
    assert("dev"@.len() == 3);
    assert("debug"@.len() == 5);
}

/// The settings of one harness run. Each field may be left open; the
/// getters fill in the defaults.
#[derive(Debug, Clone, PartialEq, Eq)]
pub struct Config {
    pub elm_compilers: Option<Vec<String>>,
    pub node: Option<String>,
    pub opt_levels: Option<Vec<OptimizationLevel>>,
    pub compiler_max_retries: Option<usize>,
    pub run_timeout: Option<TimeSpan>,
    pub out_dir: Option<String>,
}

impl Default for Config {
    /// A configuration with nothing set.
    fn default() -> (r: Config)
        ensures
            r.elm_compilers.is_none(),
            r.node.is_none(),
            r.opt_levels.is_none(),
            r.compiler_max_retries.is_none(),
            r.run_timeout.is_none(),
            r.out_dir.is_none(),
    {
        Config::empty()
    }
}

/// `second` where it is set, else `first`.
pub open spec fn spec_or<T>(first: Option<T>, second: Option<T>) -> Option<T> {
    if second.is_some() {
        second
    } else {
        first
    }
}

fn or_else<T>(first: Option<T>, second: Option<T>) -> (r: Option<T>)
    ensures
        r == spec_or(first, second),
{
    match second {
        Some(v) => Some(v),
        None => first,
    }
}

/// The texts of a list of strings.
pub open spec fn texts(v: Seq<String>) -> Seq<Seq<char>> {
    v.map_values(|s: String| s@)
}

impl Config {
    /// The compilers to test with when none is named.
    pub open spec fn default_compilers() -> Seq<Seq<char>> {
        seq!["elm"@]
    }

    pub open spec fn spec_elm_compilers(self) -> Seq<Seq<char>> {
        match self.elm_compilers {
            Some(v) => texts(v@),
            None => Self::default_compilers(),
        }
    }

    pub open spec fn spec_node(self) -> Seq<char> {
        match self.node {
            Some(s) => s@,
            None => "node"@,
        }
    }

    pub open spec fn spec_opt_levels(self) -> Seq<OptimizationLevel> {
        match self.opt_levels {
            Some(v) => v@,
            None => seq![OptimizationLevel::Dev],
        }
    }

    pub open spec fn spec_compiler_max_retries(self) -> usize {
        match self.compiler_max_retries {
            Some(n) => n,
            None => 1,
        }
    }

    pub open spec fn spec_run_timeout(self) -> TimeSpan {
        match self.run_timeout {
            Some(t) => t,
            None => TimeSpan { secs: 10, nanos: 0 },
        }
    }

    /// A configuration with nothing set.
    pub fn empty() -> (r: Config)
        ensures
            r.elm_compilers.is_none(),
            r.node.is_none(),
            r.opt_levels.is_none(),
            r.compiler_max_retries.is_none(),
            r.run_timeout.is_none(),
            r.out_dir.is_none(),
    {
        Config {
            elm_compilers: None,
            node: None,
            opt_levels: None,
            compiler_max_retries: None,
            run_timeout: None,
            out_dir: None,
        }
    }

    /// Lays `other` over `self`: a field that `other` sets wins, any other
    /// field keeps the value of `self`.
    pub fn overwrite_with(self, other: Config) -> (r: Config)
        ensures
            r.elm_compilers == spec_or(self.elm_compilers, other.elm_compilers),
            r.node == spec_or(self.node, other.node),
            r.opt_levels == spec_or(self.opt_levels, other.opt_levels),
            r.compiler_max_retries == spec_or(
                self.compiler_max_retries,
                other.compiler_max_retries,
            ),
            r.run_timeout == spec_or(self.run_timeout, other.run_timeout),
            r.out_dir == spec_or(self.out_dir, other.out_dir),
    {
        Config {
            elm_compilers: or_else(self.elm_compilers, other.elm_compilers),
            node: or_else(self.node, other.node),
            opt_levels: or_else(self.opt_levels, other.opt_levels),
            compiler_max_retries: or_else(self.compiler_max_retries, other.compiler_max_retries),
            run_timeout: or_else(self.run_timeout, other.run_timeout),
            out_dir: or_else(self.out_dir, other.out_dir),
        }
    }

    /// The compilers to test with: those named, or `elm` alone.
    pub fn elm_compilers(&self) -> (r: Vec<String>)
        ensures
            texts(r@) == self.spec_elm_compilers(),
    {
        let mut names: Vec<String> = Vec::new();
        match &self.elm_compilers {
            Some(given) => {
                let mut i: usize = 0;
                while i < given.len()
                    invariant
                        i <= given.len(),
                        names@.len() == i,
                        forall|k: int| 0 <= k < i ==> (#[trigger] names@[k])@ == given@[k]@,
                    decreases given.len() - i,
                {
                    names.push(given[i].clone());
                    i = i + 1;
                }
            },
            None => {
                names.push(String::from_str("elm"));
            },
        }
        names
    }

    /// The runtime to run built programs with: the one named, or `node`.
    pub fn node(&self) -> (r: &str)
        ensures
            r@ == self.spec_node(),
    {
        match &self.node {
            Some(s) => s.as_str(),
            None => "node",
        }
    }

    /// The levels to compile at: those named, or `Dev` alone.
    pub fn opt_levels(&self) -> (r: &[OptimizationLevel])
        ensures
            r@ == self.spec_opt_levels(),
    {
        match &self.opt_levels {
            Some(levels) => levels.as_slice(),
            None => {
                let dev: &'static [OptimizationLevel] = &[OptimizationLevel::Dev];
                dev
            },
        }
    }

    /// How often a failing compilation is attempted: 1 unless set.
    pub fn compiler_max_retries(&self) -> (r: usize)
        ensures
            r == self.spec_compiler_max_retries(),
    {
        match self.compiler_max_retries {
            Some(n) => n,
            None => 1,
        }
    }

    /// How long a built program may run: ten seconds unless set.
    pub fn run_timeout(&self) -> (r: TimeSpan)
        ensures
            r == self.spec_run_timeout(),
    {
        match self.run_timeout {
            Some(t) => t,
            None => TimeSpan { secs: 10, nanos: 0 },
        }
    }
}

} // verus!

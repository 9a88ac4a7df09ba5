//! What the harness keeps of a finished child process.

use vstd::prelude::*;

verus! {

/// How a child process ended: its exit code, if it had one, and the
/// platform's description of the ending.
#[derive(Debug, Clone, PartialEq, Eq)]
pub struct ExitStatus {
    pub code: Option<i32>,
    pub text: String,
}

/// Everything a child process left behind.
#[derive(Debug, Clone, PartialEq, Eq)]
pub struct Output {
    pub status: ExitStatus,
    pub stdout: Vec<u8>,
    pub stderr: Vec<u8>,
}

impl ExitStatus {
    /// A process succeeded when it exited with code zero.
    pub open spec fn spec_success(self) -> bool {
        self.code == Some(0i32)
    }

    pub fn success(&self) -> (r: bool)
        ensures
            r == self.spec_success(),
    {
        match self.code {
            Some(code) => code == 0,
            None => false,
        }
    }
}

/// `prefix` stands at the start of `bytes`.
pub open spec fn is_prefix(prefix: Seq<u8>, bytes: Seq<u8>) -> bool {
    prefix.len() <= bytes.len() && bytes.take(prefix.len() as int) == prefix
}

/// Whether `bytes` begins with `prefix`.
pub fn starts_with(bytes: &[u8], prefix: &[u8]) -> (r: bool)
    ensures
        r == is_prefix(prefix@, bytes@),
{
    if prefix.len() > bytes.len() {
        return false;
    }
    let mut i: usize = 0;
    while i < prefix.len()
        invariant
            i <= prefix.len() <= bytes.len(),
            bytes@.take(i as int) == prefix@.take(i as int),
        decreases prefix.len() - i,
    {
        if bytes[i] != prefix[i] {
            return false;
        }
        i = i + 1;
    }
    assert(prefix@.take(prefix@.len() as int) =~= prefix@);
    true
}

/// Whether two byte strings are the same.
pub fn same_bytes(a: &[u8], b: &[u8]) -> (r: bool)
    ensures
        r == (a@ == b@),
{
    if a.len() != b.len() {
        return false;
    }
    let found = starts_with(a, b);
    assert(a@.take(a@.len() as int) =~= a@);
    found
}

} // verus!

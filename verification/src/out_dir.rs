//! The directory that holds what a unit of work builds.

use crate::suite::CompileAndRunError;
use vstd::prelude::*;

verus! {

/// Where built files go, and who cleans up. A directory that the caller
/// provided is the caller's. A temporary one is removed when the work is
/// over, unless it was made persistent on the way so that the files in it
/// can be looked at.
#[derive(Debug, PartialEq, Eq)]
pub enum OutDir {
    Provided(String),
    Tempory(String),
    Persistent(String),
}

/// What to do with the directory when the work is over.
#[derive(Debug, PartialEq, Eq, Structural, Clone, Copy)]
pub enum Disposal {
    /// Leave the directory alone.
    Keep,
    /// Remove the directory and all that is in it.
    Remove,
}

/// Calls `replace_with::replace_with`, which moves the value out from
/// behind the reference, applies a function to it and puts the result
/// back. The function applied is `OutDir::into_persistent`.
#[verifier::external_body]
fn replace_with_persistent(dir: &mut OutDir)
    ensures
        *final(dir) == old(dir).persisted(),
{
    replace_with::replace_with(dir, OutDir::nowhere, OutDir::into_persistent)
}

impl OutDir {
    pub open spec fn spec_path(self) -> Seq<char> {
        match self {
            OutDir::Provided(p) => p@,
            OutDir::Tempory(p) => p@,
            OutDir::Persistent(p) => p@,
        }
    }

    /// The directory after it was made persistent: a temporary one turns
    /// persistent at the same path, any other stays what it is.
    pub open spec fn persisted(self) -> OutDir {
        match self {
            OutDir::Tempory(p) => OutDir::Persistent(p),
            other => other,
        }
    }

    /// Whether the outcome of a unit of work is a failure at run time that
    /// the suite did not expect. Only then are the built files worth a
    /// look: a failure that was expected counts as a pass.
    pub open spec fn worth_keeping(outcome: Result<(), CompileAndRunError>) -> bool {
        outcome matches Err(CompileAndRunError::RunFailure { allowed, .. }) && !allowed
    }

    /// The directory after a unit of work that came to `outcome`: an
    /// unexpected failure at run time makes it persistent.
    pub open spec fn spec_settled(self, outcome: Result<(), CompileAndRunError>) -> OutDir {
        if Self::worth_keeping(outcome) {
            self.persisted()
        } else {
            self
        }
    }

    /// What becomes of the directory once the work is over: only one that
    /// is still temporary is removed.
    pub open spec fn spec_disposal(self) -> Disposal {
        match self {
            OutDir::Tempory(_) => Disposal::Remove,
            _ => Disposal::Keep,
        }
    }

    /// The directory to build into: the one the caller provides, or else
    /// a temporary one that `make_temporary` creates.
    pub fn acquire<F: Fn() -> String>(provided: Option<String>, make_temporary: F) -> (r: OutDir)
        requires
            make_temporary.requires(()),
        ensures
            match provided {
                Some(path) => r == OutDir::Provided(path),
                None => r matches OutDir::Tempory(path) && make_temporary.ensures((), path),
            },
    {
        match provided {
            Some(path) => OutDir::Provided(path),
            None => OutDir::Tempory(make_temporary()),
        }
    }

    pub fn path(&self) -> (r: &str)
        ensures
            r@ == self.spec_path(),
    {
        match self {
            OutDir::Provided(p) => p.as_str(),
            OutDir::Tempory(p) => p.as_str(),
            OutDir::Persistent(p) => p.as_str(),
        }
    }

    /// Whether the harness made the directory itself.
    pub fn is_tempory(&self) -> (r: bool)
        ensures
            r == !(self is Provided),
    {
        match self {
            OutDir::Provided(_) => false,
            OutDir::Tempory(_) | OutDir::Persistent(_) => true,
        }
    }

    /// A persistent directory without a path.
    pub fn nowhere() -> (r: OutDir)
        ensures
            r is Persistent,
            r.spec_path() == Seq::<char>::empty(),
    {
        OutDir::Persistent(String::new())
    }

    pub fn into_persistent(self) -> (r: OutDir)
        ensures
            r == self.persisted(),
    {
        match self {
            OutDir::Tempory(p) => OutDir::Persistent(p),
            other => other,
        }
    }

    /// Makes a temporary directory persistent, for good: nothing turns it
    /// temporary again.
    pub fn persist(&mut self)
        ensures
            *final(self) == old(self).persisted(),
            final(self).spec_path() == old(self).spec_path(),
            final(self).spec_disposal() == Disposal::Keep,
    {
        replace_with_persistent(self);
    }

    /// Takes in the outcome of a unit of work that used the directory.
    pub fn settle(&mut self, outcome: &Result<(), CompileAndRunError>)
        ensures
            *final(self) == old(self).spec_settled(*outcome),
    {
        match outcome {
            Err(CompileAndRunError::RunFailure { allowed: false, .. }) => self.persist(),
            _ => {},
        }
    }

    /// Says what to do with the directory now that the work is over.
    pub fn disposal(&self) -> (r: Disposal)
        ensures
            r == self.spec_disposal(),
    {
        match self {
            OutDir::Tempory(_) => Disposal::Remove,
            _ => Disposal::Keep,
        }
    }
}

/// After a unit of work that failed at run time against what its suite
/// expected, the directory is never removed, whatever comes later; after
/// any other outcome a directory that is temporary is removed.
pub proof fn lemma_run_failure_keeps_directory(
    dir: OutDir,
    outcome: Result<(), CompileAndRunError>,
    later: Result<(), CompileAndRunError>,
)
    ensures
        OutDir::worth_keeping(outcome) ==> {
            &&& !(dir.spec_settled(outcome) is Tempory)
            &&& dir.spec_settled(outcome).spec_disposal() == Disposal::Keep
            &&& dir.spec_settled(outcome).spec_settled(later).spec_disposal() == Disposal::Keep
            &&& dir is Tempory ==> dir.spec_settled(outcome) is Persistent
        },
        !OutDir::worth_keeping(outcome) && dir is Tempory ==> dir.spec_settled(
            outcome,
        ).spec_disposal() == Disposal::Remove,
        dir is Provided ==> dir.spec_settled(outcome) == dir && dir.spec_disposal()
            == Disposal::Keep,
{
}

/// Making a directory persistent is one-way and changes nothing when done
/// again.
pub proof fn lemma_persist_is_idempotent(dir: OutDir)
    ensures
        dir.persisted().persisted() == dir.persisted(),
        !(dir.persisted() is Tempory),
        dir.persisted().spec_path() == dir.spec_path(),
{
}

} // verus!

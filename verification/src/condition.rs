//! Condition trees: when is a failure one that the suite expects?
//!
//! A suite may declare that it fails to compile, or fails when run, under
//! some configurations. Such a declaration is a tree: leaves constrain the
//! facts of the current run, inner nodes join their children with "all" or
//! "any".

use crate::config::OptimizationLevel;
use vstd::prelude::*;

verus! {

/// Which standard library the compiler ships.
#[derive(Debug, PartialEq, Eq, Structural, Clone, Copy, Hash)]
pub enum StdlibVariant {
    Official,
    Another,
}

/// The operating system the harness runs on.
#[derive(Debug, PartialEq, Eq, Structural, Clone, Copy, Hash)]
pub enum Platform {
    Linux,
    MacOs,
    Windows,
}

/// A leaf for failures at run time. Every field that is set must match.
#[derive(Debug)]
pub struct RunFailsIfAll {
    pub stdlib_variant: Option<Vec<StdlibVariant>>,
    pub opt_level: Option<Vec<OptimizationLevel>>,
    pub platform: Option<Vec<Platform>>,
}

/// A leaf for failures at compile time. Every field that is set must match.
#[derive(Debug)]
pub struct CompileFailsIfAll {
    pub opt_level: Option<Vec<OptimizationLevel>>,
    pub platform: Option<Vec<Platform>>,
}

/// A condition tree over leaves of type `C`.
#[derive(Debug)]
pub enum ConditionCollection<C> {
    Collection(ConditionCollectionHelper<C>),
    Cond(C),
}

/// The inner nodes of a condition tree.
#[derive(Debug)]
pub enum ConditionCollectionHelper<C> {
    All(Vec<ConditionCollection<C>>),
    Any(Vec<ConditionCollection<C>>),
}

/// What a run-time leaf is matched against.
#[derive(Debug, PartialEq, Eq, Structural, Clone, Copy)]
pub struct RunFailsIfAllFacts {
    pub opt_level: OptimizationLevel,
    pub stdlib_variant: StdlibVariant,
    pub platform: Platform,
}

/// What a compile-time leaf is matched against.
#[derive(Debug, PartialEq, Eq, Structural, Clone, Copy)]
pub struct CompileFailsIfAllFacts {
    pub opt_level: OptimizationLevel,
    pub platform: Platform,
}

/// Something that holds or does not hold of a set of facts.
pub trait Condition {
    type Facts;

    /// Whether the condition holds of `f`.
    spec fn holds(&self, f: &Self::Facts) -> bool;

    fn is_met(&self, f: &Self::Facts) -> (r: bool)
        ensures
            r == self.holds(f),
    ;
}

/// "Any one of a list, or no constraint": an absent list matches every
/// value, a present one matches exactly the values it holds.
pub open spec fn any_one_of<T>(list: Option<Vec<T>>, value: T) -> bool {
    match list {
        None => true,
        Some(allowed) => allowed@.contains(value),
    }
}

fn opt_level_is_any_of(list: &Option<Vec<OptimizationLevel>>, value: OptimizationLevel) -> (r: bool)
    ensures
        r == any_one_of(*list, value),
{
    match list {
        None => true,
        Some(allowed) => {
            let mut i: usize = 0;
            while i < allowed.len()
                invariant
                    i <= allowed.len(),
                    *list == Some(*allowed),
                    forall|k: int| 0 <= k < i ==> allowed@[k] != value,
                decreases allowed.len() - i,
            {
                if allowed[i] == value {
                    return true;
                }
                i = i + 1;
            }
            false
        },
    }
}

fn stdlib_variant_is_any_of(list: &Option<Vec<StdlibVariant>>, value: StdlibVariant) -> (r: bool)
    ensures
        r == any_one_of(*list, value),
{
    match list {
        None => true,
        Some(allowed) => {
            let mut i: usize = 0;
            while i < allowed.len()
                invariant
                    i <= allowed.len(),
                    *list == Some(*allowed),
                    forall|k: int| 0 <= k < i ==> allowed@[k] != value,
                decreases allowed.len() - i,
            {
                if allowed[i] == value {
                    return true;
                }
                i = i + 1;
            }
            false
        },
    }
}

fn platform_is_any_of(list: &Option<Vec<Platform>>, value: Platform) -> (r: bool)
    ensures
        r == any_one_of(*list, value),
{
    match list {
        None => true,
        Some(allowed) => {
            let mut i: usize = 0;
            while i < allowed.len()
                invariant
                    i <= allowed.len(),
                    *list == Some(*allowed),
                    forall|k: int| 0 <= k < i ==> allowed@[k] != value,
                decreases allowed.len() - i,
            {
                if allowed[i] == value {
                    return true;
                }
                i = i + 1;
            }
            false
        },
    }
}

impl Condition for RunFailsIfAll {
    type Facts = RunFailsIfAllFacts;

    open spec fn holds(&self, f: &RunFailsIfAllFacts) -> bool {
        &&& any_one_of(self.opt_level, f.opt_level)
        &&& any_one_of(self.stdlib_variant, f.stdlib_variant)
        &&& any_one_of(self.platform, f.platform)
    }

    fn is_met(&self, f: &RunFailsIfAllFacts) -> (r: bool) {
        opt_level_is_any_of(&self.opt_level, f.opt_level) && stdlib_variant_is_any_of(
            &self.stdlib_variant,
            f.stdlib_variant,
        ) && platform_is_any_of(&self.platform, f.platform)
    }
}

impl Condition for CompileFailsIfAll {
    type Facts = CompileFailsIfAllFacts;

    open spec fn holds(&self, f: &CompileFailsIfAllFacts) -> bool {
        &&& any_one_of(self.opt_level, f.opt_level)
        &&& any_one_of(self.platform, f.platform)
    }

    fn is_met(&self, f: &CompileFailsIfAllFacts) -> (r: bool) {
        opt_level_is_any_of(&self.opt_level, f.opt_level) && platform_is_any_of(
            &self.platform,
            f.platform,
        )
    }
}

impl<C: Condition> Condition for ConditionCollection<C> {
    type Facts = C::Facts;

    /// `All` holds when every child holds, `Any` when some child does, a
    /// leaf when the leaf does.
    open spec fn holds(&self, f: &C::Facts) -> bool
        decreases self,
    {
        match self {
            ConditionCollection::Collection(ConditionCollectionHelper::All(cs)) => forall|i: int|
                0 <= i < cs@.len() ==> (#[trigger] cs@[i]).holds(f),
            ConditionCollection::Collection(ConditionCollectionHelper::Any(cs)) => exists|i: int|
                0 <= i < cs@.len() && (#[trigger] cs@[i]).holds(f),
            ConditionCollection::Cond(c) => c.holds(f),
        }
    }

    fn is_met(&self, f: &C::Facts) -> (r: bool)
        decreases self,
    {
        match self {
            ConditionCollection::Collection(ConditionCollectionHelper::All(cs)) => {
                let mut i: usize = 0;
                while i < cs.len()
                    invariant
                        i <= cs.len(),
                        *self == ConditionCollection::Collection(ConditionCollectionHelper::All(*cs)),
                        forall|k: int| 0 <= k < i ==> (#[trigger] cs@[k]).holds(f),
                    decreases cs.len() - i,
                {
                    assert(decreases_to!(self->Collection_0 => self->Collection_0->All_0));
                    if !cs[i].is_met(f) {
                        return false;
                    }
                    i = i + 1;
                }
                true
            },
            ConditionCollection::Collection(ConditionCollectionHelper::Any(cs)) => {
                let mut i: usize = 0;
                while i < cs.len()
                    invariant
                        i <= cs.len(),
                        *self == ConditionCollection::Collection(ConditionCollectionHelper::Any(*cs)),
                        forall|k: int| 0 <= k < i ==> !(#[trigger] cs@[k]).holds(f),
                    decreases cs.len() - i,
                {
                    assert(decreases_to!(self->Collection_0 => self->Collection_0->Any_0));
                    if cs[i].is_met(f) {
                        return true;
                    }
                    i = i + 1;
                }
                false
            },
            ConditionCollection::Cond(c) => c.is_met(f),
        }
    }
}

impl<C: Condition> Condition for Option<C> {
    type Facts = C::Facts;

    /// An absent condition never holds.
    open spec fn holds(&self, f: &C::Facts) -> bool {
        match self {
            None => false,
            Some(c) => c.holds(f),
        }
    }

    fn is_met(&self, f: &C::Facts) -> (r: bool) {
        match self {
            None => false,
            Some(c) => c.is_met(f),
        }
    }
}

/// An `All` without children holds of every set of facts.
pub proof fn lemma_empty_all_holds<C: Condition>(tree: ConditionCollection<C>, f: &C::Facts)
    requires
        tree matches ConditionCollection::Collection(ConditionCollectionHelper::All(cs))
            && cs@.len() == 0,
    ensures
        tree.holds(f),
{
}

/// An `Any` without children holds of no set of facts.
pub proof fn lemma_empty_any_fails<C: Condition>(tree: ConditionCollection<C>, f: &C::Facts)
    requires
        tree matches ConditionCollection::Collection(ConditionCollectionHelper::Any(cs))
            && cs@.len() == 0,
    ensures
        !tree.holds(f),
{
}

/// A tree `All([Any([c1, c2]), c3])` holds exactly when `c3` holds and one
/// of `c1` and `c2` does.
pub proof fn lemma_all_of_any_and_one<C: Condition>(
    tree: ConditionCollection<C>,
    f: &C::Facts,
)
    requires
        tree matches ConditionCollection::Collection(ConditionCollectionHelper::All(outer))
            && outer@.len() == 2
            && (outer@[0] matches ConditionCollection::Collection(
            ConditionCollectionHelper::Any(inner),
        ) && inner@.len() == 2),
    ensures
        tree.holds(f) == ((first_of_any(tree).holds(f) || second_of_any(tree).holds(f))
            && last_of_all(tree).holds(f)),
{
    let outer = tree->Collection_0->All_0;
    let inner = outer@[0]->Collection_0->Any_0;
    if outer@[0].holds(f) {
        let i = choose|i: int| 0 <= i < inner@.len() && (#[trigger] inner@[i]).holds(f);
        assert(i == 0 || i == 1);
    }
}

/// In a tree `All([Any([c1, c2]), c3])`: `c1`.
pub open spec fn first_of_any<C>(tree: ConditionCollection<C>) -> ConditionCollection<C> {
    tree->Collection_0->All_0@[0]->Collection_0->Any_0@[0]
}

/// In a tree `All([Any([c1, c2]), c3])`: `c2`.
pub open spec fn second_of_any<C>(tree: ConditionCollection<C>) -> ConditionCollection<C> {
    tree->Collection_0->All_0@[0]->Collection_0->Any_0@[1]
}

/// In a tree `All([Any([c1, c2]), c3])`: `c3`.
pub open spec fn last_of_all<C>(tree: ConditionCollection<C>) -> ConditionCollection<C> {
    tree->Collection_0->All_0@[1]
}

} // verus!

use elm_torture::condition::{
    CompileFailsIfAll, CompileFailsIfAllFacts, Condition, ConditionCollection,
    ConditionCollectionHelper, Platform, RunFailsIfAll, RunFailsIfAllFacts, StdlibVariant,
};
use elm_torture::config::OptimizationLevel;

fn run_facts() -> Vec<RunFailsIfAllFacts> {
    let mut all = Vec::new();
    for opt_level in [OptimizationLevel::Debug, OptimizationLevel::Dev, OptimizationLevel::Optimize] {
        for stdlib_variant in [StdlibVariant::Official, StdlibVariant::Another] {
            for platform in [Platform::Linux, Platform::MacOs, Platform::Windows] {
                all.push(RunFailsIfAllFacts { opt_level, stdlib_variant, platform });
            }
        }
    }
    all
}

fn compile_facts() -> Vec<CompileFailsIfAllFacts> {
    let mut all = Vec::new();
    for opt_level in [OptimizationLevel::Debug, OptimizationLevel::Dev, OptimizationLevel::Optimize] {
        for platform in [Platform::Linux, Platform::MacOs, Platform::Windows] {
            all.push(CompileFailsIfAllFacts { opt_level, platform });
        }
    }
    all
}

/// A leaf that holds of every fact, or of none.
fn constant(holds: bool) -> ConditionCollection<RunFailsIfAll> {
    ConditionCollection::Cond(RunFailsIfAll {
        stdlib_variant: None,
        opt_level: if holds { None } else { Some(vec![]) },
        platform: None,
    })
}

fn all(cs: Vec<ConditionCollection<RunFailsIfAll>>) -> ConditionCollection<RunFailsIfAll> {
    ConditionCollection::Collection(ConditionCollectionHelper::All(cs))
}

fn any(cs: Vec<ConditionCollection<RunFailsIfAll>>) -> ConditionCollection<RunFailsIfAll> {
    ConditionCollection::Collection(ConditionCollectionHelper::Any(cs))
}

#[test]
fn empty_all_holds_of_every_fact() {
    for f in run_facts() {
        assert!(all(vec![]).is_met(&f));
    }
    let tree: ConditionCollection<CompileFailsIfAll> =
        ConditionCollection::Collection(ConditionCollectionHelper::All(vec![]));
    for f in compile_facts() {
        assert!(tree.is_met(&f));
    }
}

#[test]
fn empty_any_holds_of_no_fact() {
    for f in run_facts() {
        assert!(!any(vec![]).is_met(&f));
    }
    let tree: ConditionCollection<CompileFailsIfAll> =
        ConditionCollection::Collection(ConditionCollectionHelper::Any(vec![]));
    for f in compile_facts() {
        assert!(!tree.is_met(&f));
    }
}

#[test]
fn all_of_any_and_one() {
    let f = run_facts()[0];
    for c1 in [false, true] {
        for c2 in [false, true] {
            for c3 in [false, true] {
                let tree = all(vec![any(vec![constant(c1), constant(c2)]), constant(c3)]);
                assert_eq!(tree.is_met(&f), (c1 || c2) && c3);
            }
        }
    }
}

#[test]
fn all_of_any_and_one_with_real_leaves() {
    let debug_only = || {
        ConditionCollection::Cond(RunFailsIfAll {
            stdlib_variant: None,
            opt_level: Some(vec![OptimizationLevel::Debug]),
            platform: None,
        })
    };
    let another_only = || {
        ConditionCollection::Cond(RunFailsIfAll {
            stdlib_variant: Some(vec![StdlibVariant::Another]),
            opt_level: None,
            platform: None,
        })
    };
    let not_windows = || {
        ConditionCollection::Cond(RunFailsIfAll {
            stdlib_variant: None,
            opt_level: None,
            platform: Some(vec![Platform::Linux, Platform::MacOs]),
        })
    };
    for f in run_facts() {
        let tree = all(vec![any(vec![debug_only(), another_only()]), not_windows()]);
        let expected = (f.opt_level == OptimizationLevel::Debug
            || f.stdlib_variant == StdlibVariant::Another)
            && f.platform != Platform::Windows;
        assert_eq!(tree.is_met(&f), expected);
    }
}

#[test]
fn absent_tree_never_holds() {
    let none: Option<ConditionCollection<RunFailsIfAll>> = None;
    for f in run_facts() {
        assert!(!none.is_met(&f));
    }
    let some = Some(constant(true));
    assert!(some.is_met(&run_facts()[0]));
    let some = Some(constant(false));
    assert!(!some.is_met(&run_facts()[0]));
}

#[test]
fn leaf_without_constraints_matches_everything() {
    let leaf = RunFailsIfAll { stdlib_variant: None, opt_level: None, platform: None };
    for f in run_facts() {
        assert!(leaf.is_met(&f));
    }
    let leaf = CompileFailsIfAll { opt_level: None, platform: None };
    for f in compile_facts() {
        assert!(leaf.is_met(&f));
    }
}

#[test]
fn leaf_with_empty_list_matches_nothing() {
    let leaf = RunFailsIfAll { stdlib_variant: Some(vec![]), opt_level: None, platform: None };
    for f in run_facts() {
        assert!(!leaf.is_met(&f));
    }
    let leaf = CompileFailsIfAll { opt_level: None, platform: Some(vec![]) };
    for f in compile_facts() {
        assert!(!leaf.is_met(&f));
    }
}

#[test]
fn run_leaf_needs_every_field_to_match() {
    let leaf = RunFailsIfAll {
        stdlib_variant: Some(vec![StdlibVariant::Another]),
        opt_level: Some(vec![OptimizationLevel::Dev, OptimizationLevel::Optimize]),
        platform: Some(vec![Platform::Windows]),
    };
    for f in run_facts() {
        let expected = f.stdlib_variant == StdlibVariant::Another
            && f.opt_level != OptimizationLevel::Debug
            && f.platform == Platform::Windows;
        assert_eq!(leaf.is_met(&f), expected);
    }
}

#[test]
fn compile_leaf_needs_every_field_to_match() {
    let leaf = CompileFailsIfAll {
        opt_level: Some(vec![OptimizationLevel::Optimize]),
        platform: Some(vec![Platform::Linux, Platform::Windows]),
    };
    for f in compile_facts() {
        let expected =
            f.opt_level == OptimizationLevel::Optimize && f.platform != Platform::MacOs;
        assert_eq!(leaf.is_met(&f), expected);
    }
}

#[test]
fn deep_trees_are_evaluated_to_the_leaves() {
    let f = run_facts()[0];
    let mut tree = constant(true);
    for depth in 0..200 {
        tree = if depth % 2 == 0 { all(vec![tree]) } else { any(vec![tree]) };
    }
    assert!(tree.is_met(&f));
    let mut tree = constant(false);
    for depth in 0..200 {
        tree = if depth % 2 == 0 { any(vec![constant(false), tree]) } else { all(vec![tree]) };
    }
    assert!(!tree.is_met(&f));
}

#[test]
fn any_holds_when_only_the_last_child_does() {
    let f = run_facts()[0];
    assert!(any(vec![constant(false), constant(false), constant(true)]).is_met(&f));
    assert!(!all(vec![constant(true), constant(true), constant(false)]).is_met(&f));
}

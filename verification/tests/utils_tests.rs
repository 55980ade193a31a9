use std::rc::Rc;

use oxc::syntax::scope::ScopeId;
use tree_shaker::analyzer::Analyzer;
use tree_shaker::entity::entity::{Entity, EntityValue};
use tree_shaker::entity::literal::LiteralEntity;
use tree_shaker::entity::unknown::UnknownEntityKind;
use tree_shaker::entity::utils::{
    boolean_from_test_result, collect_effect_and_value, is_assignment_indeterminate,
};
use tree_shaker::scope::{CfScope, ScopeContext, VariableScope};

fn union_values(e: &Entity) -> Vec<Entity> {
    match &**e {
        EntityValue::Union(u) => u.values.clone(),
        _ => panic!("not a union"),
    }
}

#[test]
fn collect_effect_and_value_any_effect() {
    let a = LiteralEntity::new_boolean(true);
    let b = LiteralEntity::new_string("b");
    let (effect, value) = collect_effect_and_value(vec![(false, a.clone()), (true, b.clone())]);
    assert!(effect);
    let values = union_values(&value);
    assert_eq!(values.len(), 2);
    assert!(Rc::ptr_eq(&values[0], &a));
    assert!(Rc::ptr_eq(&values[1], &b));

    let (effect, value) = collect_effect_and_value(vec![(false, a.clone()), (false, b)]);
    assert!(!effect);
    assert_eq!(union_values(&value).len(), 2);
}

#[test]
fn collect_effect_and_value_of_nothing() {
    let (effect, value) = collect_effect_and_value(Vec::new());
    assert!(!effect);
    assert!(union_values(&value).is_empty());
}

#[test]
fn boolean_from_decided_test() {
    let e = boolean_from_test_result(Some(false), || panic!("not consulted"));
    match &*e {
        EntityValue::Literal(LiteralEntity::Boolean(b)) => assert!(!*b),
        _ => panic!("not a literal boolean"),
    }
}

#[test]
fn boolean_from_undecided_test() {
    let dep = LiteralEntity::new_string("d");
    let d2 = dep.clone();
    let e = boolean_from_test_result(None, move || vec![d2]);
    match &*e {
        EntityValue::Unknown(u) => {
            assert_eq!(u.kind, UnknownEntityKind::Boolean);
            assert_eq!(u.deps.len(), 1);
            assert!(Rc::ptr_eq(&u.deps[0], &dep));
        }
        _ => panic!("not an unknown boolean"),
    }
}

fn analyzer_with(scopes: &[(u32, usize)], cf: &[bool]) -> Analyzer {
    let mut ctx = ScopeContext::new();
    for (id, cf_scope_index) in scopes {
        ctx.variable_scopes.push(VariableScope { id: ScopeId::new(*id), cf_scope_index: *cf_scope_index });
    }
    for indeterminate in cf {
        ctx.cf_scopes.push(CfScope { indeterminate: *indeterminate });
    }
    Analyzer::new(ctx)
}

fn path(ids: &[u32]) -> Vec<ScopeId> {
    ids.iter().map(|id| ScopeId::new(*id)).collect()
}

#[test]
fn assignment_in_determinate_scopes() {
    let analyzer = analyzer_with(&[(0, 0), (1, 1), (2, 2)], &[false, false, false]);
    assert!(!is_assignment_indeterminate(&path(&[0, 1, 2]), &analyzer));
    assert!(!is_assignment_indeterminate(&path(&[5]), &analyzer));
}

#[test]
fn assignment_declared_outside_indeterminate_scope() {
    // Control flow at index 1 is indeterminate; a variable of scope 0 is
    // assigned from inside it, one of scope 2 is not.
    let analyzer = analyzer_with(&[(0, 0), (1, 1), (2, 2)], &[false, true, false]);
    assert!(is_assignment_indeterminate(&path(&[0]), &analyzer));
    assert!(is_assignment_indeterminate(&path(&[0, 9]), &analyzer));
    assert!(!is_assignment_indeterminate(&path(&[0, 1, 2]), &analyzer));
    assert!(is_assignment_indeterminate(&path(&[0, 1]), &analyzer));
}

#[test]
fn assignment_with_unmatched_path_uses_outermost_scope() {
    let analyzer = analyzer_with(&[(4, 1), (5, 2)], &[true, false, false]);
    assert!(!is_assignment_indeterminate(&path(&[7, 5]), &analyzer));
    let analyzer = analyzer_with(&[(4, 0), (5, 2)], &[true, false, false]);
    assert!(is_assignment_indeterminate(&path(&[]), &analyzer));
}

#[test]
fn assignment_uses_innermost_scope_with_that_id() {
    // Scope 3 is active twice (a recursive call); the innermost one counts.
    let analyzer = analyzer_with(&[(3, 0), (3, 2)], &[true, false, false]);
    assert!(!is_assignment_indeterminate(&path(&[3]), &analyzer));
}

#[test]
fn scope_lookup_and_relative_indeterminate() {
    let analyzer = analyzer_with(&[(3, 0), (6, 1), (3, 2)], &[true, false, false]);
    assert_eq!(analyzer.get_variable_scope_by_id(&ScopeId::new(3)).cf_scope_index, 2);
    assert_eq!(analyzer.get_variable_scope_by_id(&ScopeId::new(6)).cf_scope_index, 1);
    assert!(analyzer.is_relative_indeterminate(0));
    assert!(!analyzer.is_relative_indeterminate(1));
    assert!(!analyzer.is_relative_indeterminate(3));
}

#[test]
fn relative_indeterminate_past_the_end() {
    let analyzer = analyzer_with(&[(0, 0)], &[true]);
    assert!(analyzer.is_relative_indeterminate(0));
    assert!(!analyzer.is_relative_indeterminate(1));
    assert!(!analyzer.is_relative_indeterminate(9));
}

#[test]
fn assignment_attributed_past_the_control_flow_stack() {
    let analyzer = analyzer_with(&[(0, 5)], &[true]);
    assert!(!is_assignment_indeterminate(&path(&[0]), &analyzer));
}

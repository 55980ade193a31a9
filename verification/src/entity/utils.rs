use vstd::prelude::*;

use oxc::syntax::scope::ScopeId;

use crate::analyzer::Analyzer;
use crate::entity::entity::{Entity, EntityValue};
use crate::entity::literal::LiteralEntity;
use crate::entity::union::UnionEntity;
use crate::entity::unknown::{is_unknown, UnknownEntity, UnknownEntityKind};
use crate::scope::{assignment_scope_index, lemma_last_index_with_id, matched_from, scope_id_eq};

verus! {

/// Whether any of the evaluations had an effect.
pub open spec fn any_effect(values: Seq<(bool, Entity)>) -> bool {
    exists|i: int| 0 <= i < values.len() && #[trigger] values[i].0
}

/// Folds evaluations, each an effect flag and a value, into one: an effect
/// when any had one, and the union of the values in order.
pub fn collect_effect_and_value(values: Vec<(bool, Entity)>) -> (r: (bool, Entity))
    ensures
        r.0 == any_effect(values@),
        (*r.1) matches EntityValue::Union(u) && u.values@ == values@.map_values(
            |p: (bool, Entity)| p.1,
        ),
{
    let mut has_effect = false;
    let mut result: Vec<Entity> = Vec::new();
    let n = values.len();
    let mut i: usize = 0;
    while i < n
        invariant
            n == values@.len(),
            i <= n,
            has_effect == any_effect(values@.take(i as int)),
            result@ == values@.take(i as int).map_values(|p: (bool, Entity)| p.1),
        decreases n - i,
    {
        let (effect, value) = (values[i].0, values[i].1.clone());
        proof {
            let t = values@.take(i + 1);
            assert(t == values@.take(i as int).push(values@[i as int]));
            if any_effect(t) && !any_effect(values@.take(i as int)) {
                let j = choose|j: int| 0 <= j < t.len() && #[trigger] t[j].0;
                assert(j == i);
            }
            if any_effect(values@.take(i as int)) {
                let j = choose|j: int|
                    0 <= j < values@.take(i as int).len() && #[trigger] values@.take(
                        i as int,
                    )[j].0;
                assert(t[j].0);
            }
            if effect {
                assert(t[i as int].0);
            }
        }
        has_effect = has_effect || effect;
        result.push(value);
        assert(result@ =~= values@.take(i + 1).map_values(|p: (bool, Entity)| p.1));
        i += 1;
    }
    assert(values@.take(n as int) == values@);
    (has_effect, UnionEntity::new(result))
}

/// The boolean value a test produced: the known boolean when the test
/// decided, else an unknown boolean derived from what `deps` gives.
pub fn boolean_from_test_result<F: FnOnce() -> Vec<Entity>>(result: Option<bool>, deps: F) -> (r:
    Entity)
    requires
        result is None ==> deps.requires(()),
    ensures
        result matches Some(value) ==> *r == EntityValue::Literal(LiteralEntity::Boolean(value)),
        result is None ==> exists|d: Vec<Entity>|
            deps.ensures((), d) && is_unknown(*r, UnknownEntityKind::Boolean, d@),
{
    match result {
        Some(value) => LiteralEntity::new_boolean(value),
        None => {
            let d = deps();
            let r = UnknownEntity::new_with_deps(UnknownEntityKind::Boolean, d);
            assert(is_unknown(*r, UnknownEntityKind::Boolean, d@));
            r
        },
    }
}

/// Whether an assignment to a variable declared along `scope_path` (the
/// syntactic scopes from the outermost in) may or may not happen: the
/// declaring scope is the innermost active variable scope that lies on
/// `scope_path`, and the assignment is indeterminate when some control-flow
/// scope entered since that scope is indeterminate.
pub fn is_assignment_indeterminate(scope_path: &Vec<ScopeId>, analyzer: &Analyzer) -> (r: bool)
    requires
        analyzer.scope_context.variable_scopes@.len() > 0,
    ensures
        r == analyzer.scope_context.relative_indeterminate(
            analyzer.scope_context.declaring_cf_index(scope_path@),
        ),
{
    let scopes = &analyzer.scope_context.variable_scopes;
    let n = scopes.len();
    let mut i: usize = 0;
    while i < n && i < scope_path.len() && scope_id_eq(&scope_path[i], &scopes[i].id)
        invariant
            n == scopes@.len(),
            i <= n,
            matched_from(scope_path@, scopes@, 0) == matched_from(scope_path@, scopes@, i as int),
        decreases n - i,
    {
        i += 1;
    }
    let var_scope_index: usize = if i == 0 { 0 } else { i - 1 };
    assert(var_scope_index == assignment_scope_index(scope_path@, scopes@));
    proof {
        lemma_last_index_with_id(scopes@, scopes@[var_scope_index as int].id, var_scope_index as int);
    }
    let target = analyzer.get_variable_scope_by_id(&scopes[var_scope_index].id).cf_scope_index;
    analyzer.is_relative_indeterminate(target)
}

} // verus!

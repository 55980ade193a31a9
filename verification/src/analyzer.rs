use vstd::prelude::*;

use crate::entity::dep::{EntityDepNode, ReferredNodes};
use oxc::syntax::scope::ScopeId;

use crate::scope::{last_index_with_id, scope_id_eq, ScopeContext, VariableScope};

verus! {

/// The state the analysis carries while it walks a program.
pub struct Analyzer {
    pub referred_nodes: ReferredNodes,
    pub scope_context: ScopeContext,
}

impl Analyzer {
    /// An analyzer with nothing referred and the given scope stacks.
    pub fn new(scope_context: ScopeContext) -> (r: Self)
        ensures
            r.referred_nodes@ == Set::<EntityDepNode>::empty(),
            r.scope_context == scope_context,
    {
        Analyzer { referred_nodes: ReferredNodes::new(), scope_context }
    }

    /// The innermost active variable scope of syntactic scope `id`.
    pub fn get_variable_scope_by_id(&self, id: &ScopeId) -> (r: &VariableScope)
        requires
            last_index_with_id(self.scope_context.variable_scopes@, *id) >= 0,
        ensures
            *r == self.scope_context.variable_scopes@[last_index_with_id(
                self.scope_context.variable_scopes@,
                *id,
            )],
    {
        let scopes = &self.scope_context.variable_scopes;
        let mut i: usize = scopes.len();
        assert(scopes@.take(i as int) == scopes@);
        while i > 0
            invariant
                i <= scopes@.len(),
                scopes == self.scope_context.variable_scopes,
                last_index_with_id(scopes@, *id) == last_index_with_id(scopes@.take(i as int), *id),
            decreases i,
        {
            assert(scopes@.take(i as int).drop_last() == scopes@.take(i - 1));
            assert(scopes@.take(i as int).last() == scopes@[i - 1]);
            if scope_id_eq(&scopes[i - 1].id, id) {
                return &scopes[i - 1];
            }
            i -= 1;
        }
        assert(scopes@.take(0) =~= Seq::<VariableScope>::empty());
        &scopes[0]
    }

    /// Whether some control-flow scope from index `target` inward is
    /// indeterminate (none is, when `target` lies past the innermost).
    pub fn is_relative_indeterminate(&self, target: usize) -> (r: bool)
        ensures
            r == self.scope_context.relative_indeterminate(target as int),
    {
        let cf_scopes = &self.scope_context.cf_scopes;
        let n = cf_scopes.len();
        let mut i: usize = target;
        while i < n
            invariant
                n == cf_scopes@.len(),
                cf_scopes == self.scope_context.cf_scopes,
                target <= i,
                i <= n || i == target,
                forall|j: int| target <= j < i ==> !(#[trigger] cf_scopes@[j]).indeterminate,
            decreases n - i,
        {
            if cf_scopes[i].indeterminate {
                assert(self.scope_context.cf_scopes@[i as int].indeterminate);
                assert(self.scope_context.relative_indeterminate(target as int));
                return true;
            }
            i += 1;
        }
        false
    }
}

} // verus!

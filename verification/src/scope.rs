use vstd::prelude::*;

use oxc::syntax::scope::ScopeId;

verus! {

#[verifier::external_type_specification]
#[verifier::external_body]
pub struct ExScopeId(ScopeId);

/// `ScopeId`'s `==`, which the type derives, so it holds exactly when the
/// two ids are the same id.
#[verifier::external_body]
pub(crate) fn scope_id_eq(a: &ScopeId, b: &ScopeId) -> (r: bool)
    ensures
        r == (*a == *b),
{
    *a == *b
}

/// A variable scope on the analyzer's stack: the syntactic scope it belongs
/// to, and the index of the control-flow scope that was innermost when it
/// was entered.
pub struct VariableScope {
    pub id: ScopeId,
    pub cf_scope_index: usize,
}

/// A control-flow scope: whether the analyzer can tell that execution leaves
/// it at a known point (`false`) or cannot (`true`).
pub struct CfScope {
    pub indeterminate: bool,
}

/// The analyzer's scope stacks, innermost last.
pub struct ScopeContext {
    pub variable_scopes: Vec<VariableScope>,
    pub cf_scopes: Vec<CfScope>,
}

/// How many scopes, counted from index `i` on, `path` and the ids of `stack`
/// agree on, plus `i`.
pub open spec fn matched_from(path: Seq<ScopeId>, stack: Seq<VariableScope>, i: int) -> int
    decreases stack.len() - i,
{
    if 0 <= i < stack.len() && i < path.len() && path[i] == stack[i].id {
        matched_from(path, stack, i + 1)
    } else {
        i
    }
}

/// The index of the innermost scope of `stack` that lies on `path`, or of
/// the outermost scope when none does.
pub open spec fn assignment_scope_index(path: Seq<ScopeId>, stack: Seq<VariableScope>) -> int {
    let k = matched_from(path, stack, 0);
    if k == 0 {
        0
    } else {
        k - 1
    }
}

/// The index of the innermost scope of `stack` whose id is `id`, or -1.
pub open spec fn last_index_with_id(stack: Seq<VariableScope>, id: ScopeId) -> int
    decreases stack.len(),
{
    if stack.len() == 0 {
        -1
    } else if stack.last().id == id {
        stack.len() - 1
    } else {
        last_index_with_id(stack.drop_last(), id)
    }
}

/// A scope whose id is `id` lies at or before the innermost one with that id.
pub proof fn lemma_last_index_with_id(stack: Seq<VariableScope>, id: ScopeId, j: int)
    requires
        0 <= j < stack.len(),
        stack[j].id == id,
    ensures
        j <= last_index_with_id(stack, id) < stack.len(),
        stack[last_index_with_id(stack, id)].id == id,
    decreases stack.len(),
{
    if stack.last().id != id {
        lemma_last_index_with_id(stack.drop_last(), id, j);
    }
}

impl ScopeContext {
    /// The control-flow scope index of the variable scope an assignment
    /// along `path` is attributed to.
    pub open spec fn declaring_cf_index(self, path: Seq<ScopeId>) -> int {
        let stack = self.variable_scopes@;
        stack[last_index_with_id(stack, stack[assignment_scope_index(path, stack)].id)].cf_scope_index
            as int
    }

    /// Some control-flow scope from index `target` inward is indeterminate.
    pub open spec fn relative_indeterminate(self, target: int) -> bool {
        exists|i: int| target <= i < self.cf_scopes@.len() && #[trigger] self.cf_scopes@[i].indeterminate
    }

    /// Both stacks empty.
    pub fn new() -> (r: Self)
        ensures
            r.variable_scopes@.len() == 0,
            r.cf_scopes@.len() == 0,
    {
        ScopeContext { variable_scopes: Vec::new(), cf_scopes: Vec::new() }
    }
}

} // verus!

use vstd::prelude::*;

use crate::analyzer::Analyzer;
use crate::ast::AstType2;
use crate::transformer::Transformer;

verus! {

/// What a piece of analysis depends on: the environment as a whole, a syntax
/// node identified by its encoded `AstKind` (a tag word and an address word),
/// or a node of a given type identified by its address.
#[derive(Clone, Copy, PartialEq, Eq, Structural, Hash)]
pub enum EntityDepNode {
    Environment,
    AstKind(usize, usize),
    Ptr(AstType2, usize),
}

/// A set of dependency nodes, kept as a sequence without repetitions.
pub struct ReferredNodes {
    nodes: Vec<EntityDepNode>,
}

impl View for ReferredNodes {
    type V = Set<EntityDepNode>;

    closed spec fn view(&self) -> Set<EntityDepNode> {
        self.nodes@.to_set()
    }
}

impl ReferredNodes {
    #[verifier::type_invariant]
    closed spec fn no_repetition(self) -> bool {
        self.nodes@.no_duplicates()
    }

    /// The empty set.
    pub fn new() -> (r: Self)
        ensures
            r@ == Set::<EntityDepNode>::empty(),
    {
        let r = ReferredNodes { nodes: Vec::new() };
        assert(r@ =~= Set::<EntityDepNode>::empty());
        r
    }

    /// Whether `node` is in the set.
    pub fn contains(&self, node: EntityDepNode) -> (r: bool)
        ensures
            r == self@.contains(node),
    {
        let n = self.nodes.len();
        let mut i: usize = 0;
        while i < n
            invariant
                n == self.nodes@.len(),
                i <= n,
                forall|j: int| 0 <= j < i ==> self.nodes@[j] != node,
            decreases n - i,
        {
            if self.nodes[i] == node {
                assert(self.nodes@.contains(node));
                return true;
            }
            i += 1;
        }
        proof {
            if self.nodes@.contains(node) {
                let j = choose|j: int| 0 <= j < self.nodes@.len() && self.nodes@[j] == node;
                assert(self.nodes@[j] == node);
            }
        }
        false
    }

    /// Adds `node`; returns whether it was not in the set before.
    pub fn insert(&mut self, node: EntityDepNode) -> (added: bool)
        ensures
            final(self)@ == old(self)@.insert(node),
            added == !old(self)@.contains(node),
    {
        proof {
            use_type_invariant(&*self);
        }
        if self.contains(node) {
            assert(self@.insert(node) =~= self@);
            return false;
        }
        let ghost before = self.nodes@;
        let mut nodes = Vec::new();
        std::mem::swap(&mut nodes, &mut self.nodes);
        nodes.push(node);
        proof {
            before.lemma_push_to_set_commute(node);
            assert(nodes@ == before.push(node));
            assert forall|a: int, b: int|
                0 <= a < nodes@.len() && 0 <= b < nodes@.len() && a != b
                implies nodes@[a] != nodes@[b] by {
                if a == before.len() as int {
                    assert(before.contains(nodes@[b]));
                } else if b == before.len() as int {
                    assert(before.contains(nodes@[a]));
                }
            }
        }
        self.nodes = nodes;
        true
    }

    /// The number of nodes in the set.
    pub fn len(&self) -> (r: usize)
        ensures
            r == self@.len(),
    {
        proof {
            use_type_invariant(self);
            self.nodes@.unique_seq_to_set();
        }
        self.nodes.len()
    }
}

/// Read after write on the transformer's record: after `refer_dep(dep)`
/// takes `before` to `after`, `is_referred(dep)` reports `true`, every other
/// node is reported as before, and a second `refer_dep(dep)` leaves the
/// record as it is.
pub proof fn law_refer_then_referred(
    before: Transformer,
    after: Transformer,
    dep: EntityDepNode,
    other: EntityDepNode,
)
    requires
        after@ == before@.insert(dep),
    ensures
        after@.contains(dep),
        other != dep ==> (after@.contains(other) == before@.contains(other)),
        after@.insert(dep) == after@,
{
    assert(after@.insert(dep) =~= after@);
}

impl Analyzer {
    /// Records `dep` as referred: the analysis found the node it stands for
    /// observable. Nothing else of the analyzer changes.
    pub fn refer_dep(&mut self, dep: EntityDepNode)
        ensures
            final(self).referred_nodes@ == old(self).referred_nodes@.insert(dep),
            final(self).scope_context == old(self).scope_context,
    {
        self.referred_nodes.insert(dep);
    }
}

impl Transformer {
    /// Records `dep` as referred during the transformation.
    pub fn refer_dep(&mut self, dep: EntityDepNode)
        ensures
            final(self)@ == old(self)@.insert(dep),
    {
        self.referred_nodes.insert(dep);
    }

    /// Whether `dep` has been recorded as referred.
    pub fn is_referred(&self, dep: EntityDepNode) -> (r: bool)
        ensures
            r == self@.contains(dep),
    {
        self.referred_nodes.contains(dep)
    }
}

} // verus!

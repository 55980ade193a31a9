use vstd::prelude::*;

use std::rc::Rc;

use crate::analyzer::Analyzer;
use crate::entity::dep::EntityDepNode;
use crate::entity::function::FunctionEntity;
use crate::entity::literal::LiteralEntity;
use crate::entity::union::UnionEntity;
use crate::entity::unknown::UnknownEntity;

verus! {

/// An abstract value of the analysis.
pub enum EntityValue {
    Literal(LiteralEntity),
    Unknown(UnknownEntity),
    Union(UnionEntity),
    Function(FunctionEntity),
}

/// A shared abstract value.
pub type Entity = Rc<EntityValue>;

/// The dependency nodes that consuming `e` itself refers: a function refers
/// its own node; an unknown value or a union refers what its parts refer; a
/// literal refers nothing.
pub open spec fn self_deps(e: EntityValue) -> Set<EntityDepNode>
    decreases e,
{
    match e {
        EntityValue::Literal(_) => Set::empty(),
        EntityValue::Unknown(u) => seq_self_deps(u.deps@),
        EntityValue::Union(u) => seq_self_deps(u.values@),
        EntityValue::Function(f) => set![f.source.dep_node()],
    }
}

/// The union of `self_deps` over the entities of `s`.
pub open spec fn seq_self_deps(s: Seq<Entity>) -> Set<EntityDepNode>
    decreases s,
{
    if s.len() == 0 {
        Set::empty()
    } else {
        seq_self_deps(s.drop_last()) + self_deps(*s.last())
    }
}

/// Consuming a value never forgets what was referred, leaves every node the
/// value depends on referred, and consuming it a second time refers nothing
/// new. `before` is what was referred before the first call.
pub proof fn law_consume_self_idempotent(before: Set<EntityDepNode>, e: EntityValue)
    ensures
        before.subset_of(before + self_deps(e)),
        self_deps(e).subset_of(before + self_deps(e)),
        (before + self_deps(e)) + self_deps(e) == before + self_deps(e),
{
    assert((before + self_deps(e)) + self_deps(e) =~= before + self_deps(e));
}

/// What a sequence of values refers is exactly what its values refer, each
/// in full.
pub proof fn lemma_seq_self_deps(s: Seq<Entity>)
    ensures
        forall|i: int| 0 <= i < s.len() ==> self_deps(*#[trigger] s[i]).subset_of(seq_self_deps(s)),
        forall|d: EntityDepNode|
            #[trigger] seq_self_deps(s).contains(d) ==> exists|i: int|
                0 <= i < s.len() && self_deps(*#[trigger] s[i]).contains(d),
    decreases s.len(),
{
    if s.len() > 0 {
        let init = s.drop_last();
        lemma_seq_self_deps(init);
        assert forall|i: int| 0 <= i < s.len() implies self_deps(*#[trigger] s[i]).subset_of(
            seq_self_deps(s),
        ) by {
            if i < s.len() - 1 {
                assert(s[i] == init[i]);
            }
        }
        assert forall|d: EntityDepNode| #[trigger] seq_self_deps(s).contains(d) implies exists|i: int|
            0 <= i < s.len() && self_deps(*#[trigger] s[i]).contains(d) by {
            if seq_self_deps(init).contains(d) {
                let i = choose|i: int| 0 <= i < init.len() && self_deps(*#[trigger] init[i]).contains(d);
                assert(s[i] == init[i]);
            } else {
                assert(self_deps(*s[s.len() - 1]).contains(d));
            }
        }
    }
}

/// Consuming an unknown value refers exactly what consuming the values it
/// derives from refers, whatever its kind: everything each of them refers
/// (in particular the node of every function among them), and nothing else.
/// An unknown value refers the same as a union of the same values.
pub proof fn law_unknown_refers_its_deps(u: UnknownEntity)
    ensures
        forall|i: int|
            0 <= i < u.deps@.len() ==> self_deps(*#[trigger] u.deps@[i]).subset_of(
                self_deps(EntityValue::Unknown(u)),
            ),
        forall|i: int|
            0 <= i < u.deps@.len() ==> ((*#[trigger] u.deps@[i]) matches EntityValue::Function(f)
                ==> self_deps(EntityValue::Unknown(u)).contains(f.source.dep_node())),
        forall|d: EntityDepNode|
            #[trigger] self_deps(EntityValue::Unknown(u)).contains(d) ==> exists|i: int|
                0 <= i < u.deps@.len() && self_deps(*#[trigger] u.deps@[i]).contains(d),
        forall|v: UnknownEntity|
            v.deps@ == u.deps@ ==> self_deps(EntityValue::Unknown(v)) == self_deps(
                EntityValue::Unknown(u),
            ),
        forall|w: UnionEntity|
            w.values@ == u.deps@ ==> self_deps(EntityValue::Union(w)) == self_deps(
                EntityValue::Unknown(u),
            ),
{
    lemma_seq_self_deps(u.deps@);
    assert forall|i: int|
        0 <= i < u.deps@.len() implies ((*#[trigger] u.deps@[i]) matches EntityValue::Function(f)
        ==> self_deps(EntityValue::Unknown(u)).contains(f.source.dep_node())) by {
        if let EntityValue::Function(f) = *u.deps@[i] {
            assert(self_deps(*u.deps@[i]).contains(f.source.dep_node()));
        }
    }
}

/// A vector holding the same shared values as `v`.
pub fn clone_entities(v: &Vec<Entity>) -> (r: Vec<Entity>)
    ensures
        r@ == v@,
{
    let mut r: Vec<Entity> = Vec::new();
    let n = v.len();
    let mut i: usize = 0;
    while i < n
        invariant
            n == v@.len(),
            i <= n,
            r@ == v@.take(i as int),
        decreases n - i,
    {
        r.push(v[i].clone());
        assert(v@.take(i + 1) == v@.take(i as int).push(v@[i as int]));
        i += 1;
    }
    assert(v@.take(n as int) == v@);
    r
}

/// Consumes each entity of `deps` in turn.
pub fn consume_all(deps: &Vec<Entity>, analyzer: &mut Analyzer)
    ensures
        final(analyzer).referred_nodes@ == old(analyzer).referred_nodes@ + seq_self_deps(deps@),
        final(analyzer).scope_context == old(analyzer).scope_context,
    decreases deps@, 0nat,
{
    let n = deps.len();
    let mut i: usize = 0;
    while i < n
        invariant
            n == deps@.len(),
            i <= n,
            analyzer.referred_nodes@ == old(analyzer).referred_nodes@ + seq_self_deps(
                deps@.take(i as int),
            ),
            analyzer.scope_context == old(analyzer).scope_context,
        decreases n - i,
    {
        let ghost before = analyzer.referred_nodes@;
        deps[i].consume_self(analyzer);
        proof {
            let t = deps@.take(i + 1);
            assert(t.drop_last() == deps@.take(i as int));
            assert(t.last() == deps@[i as int]);
            assert(analyzer.referred_nodes@ =~= old(analyzer).referred_nodes@ + seq_self_deps(t));
        }
        i += 1;
    }
    assert(deps@.take(n as int) == deps@);
}

impl EntityValue {
    /// Marks as referred what this value itself depends on.
    pub fn consume_self(&self, analyzer: &mut Analyzer)
        ensures
            final(analyzer).referred_nodes@ == old(analyzer).referred_nodes@ + self_deps(*self),
            final(analyzer).scope_context == old(analyzer).scope_context,
        decreases *self, 1nat,
    {
        match self {
            EntityValue::Literal(_) => {
                assert(old(analyzer).referred_nodes@ + Set::empty() =~= analyzer.referred_nodes@);
            },
            EntityValue::Unknown(u) => {
                consume_all(&u.deps, analyzer);
            },
            EntityValue::Union(u) => {
                consume_all(&u.values, analyzer);
            },
            EntityValue::Function(f) => {
                f.consume_self(analyzer);
                assert(analyzer.referred_nodes@ =~= old(analyzer).referred_nodes@ + set![
                    f.source.dep_node(),
                ]);
            },
        }
    }
}

} // verus!

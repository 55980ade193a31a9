use vstd::prelude::*;

use std::rc::Rc;

use crate::analyzer::Analyzer;
use crate::entity::dep::EntityDepNode;
use crate::entity::entity::{Entity, EntityValue};
use crate::entity::literal::LiteralEntity;
use crate::entity::typeof_result::TypeofResult;
use crate::entity::unknown::{is_unknown, UnknownEntity, UnknownEntityKind};
use crate::scope::VariableScope;

verus! {

/// The syntax node a function value was created from, given by the two
/// words of its encoded `AstKind`.
#[derive(Clone, Copy, Debug, PartialEq, Eq, Structural)]
pub enum FunctionEntitySource {
    Function(usize, usize),
    ArrowFunctionExpression(usize, usize),
}

impl FunctionEntitySource {
    /// The dependency node of the function's syntax node.
    pub open spec fn dep_node(self) -> EntityDepNode {
        match self {
            FunctionEntitySource::Function(kind, addr) => EntityDepNode::AstKind(kind, addr),
            FunctionEntitySource::ArrowFunctionExpression(kind, addr) => EntityDepNode::AstKind(
                kind,
                addr,
            ),
        }
    }
}

/// A function value, with the variable scopes it closes over, and whether
/// it has been consumed as an unknown value (after which the analysis knows
/// nothing more of it).
pub struct FunctionEntity {
    pub consumed: bool,
    pub source: FunctionEntitySource,
    pub variable_scopes: Vec<VariableScope>,
}

impl FunctionEntity {
    /// The function value created from `source` in `variable_scopes`.
    pub fn new(source: FunctionEntitySource, variable_scopes: Vec<VariableScope>) -> (r: Entity)
        ensures
            (*r) matches EntityValue::Function(f) && !f.consumed && f.source == source
                && f.variable_scopes@ == variable_scopes@,
    {
        Rc::new(EntityValue::Function(FunctionEntity { consumed: false, source, variable_scopes }))
    }

    /// The dependency node of the function's syntax node.
    pub fn dep(&self) -> (r: EntityDepNode)
        ensures
            r == self.source.dep_node(),
    {
        match self.source {
            FunctionEntitySource::Function(kind, addr) => EntityDepNode::AstKind(kind, addr),
            FunctionEntitySource::ArrowFunctionExpression(kind, addr) => EntityDepNode::AstKind(
                kind,
                addr,
            ),
        }
    }

    /// Marks the function's syntax node as referred.
    pub fn consume_self(&self, analyzer: &mut Analyzer)
        ensures
            final(analyzer).referred_nodes@ == old(analyzer).referred_nodes@.insert(
                self.source.dep_node(),
            ),
            final(analyzer).scope_context == old(analyzer).scope_context,
    {
        analyzer.refer_dep(self.dep());
    }

    /// Consumes the function as an unknown value, once: the first time it is
    /// marked consumed and its syntax node referred; later calls change
    /// nothing. It does not run the function's body: running it, with
    /// unknown `this` and arguments and exhaustively, and consuming what it
    /// returns as unknown, needs the analyzer's call and exhaustive
    /// execution, which are not part of this library.
    pub fn consume_as_unknown(&mut self, analyzer: &mut Analyzer)
        ensures
            final(self).consumed,
            final(self).source == old(self).source,
            final(self).variable_scopes@ == old(self).variable_scopes@,
            final(analyzer).scope_context == old(analyzer).scope_context,
            old(self).consumed ==> final(analyzer).referred_nodes@ == old(
                analyzer,
            ).referred_nodes@,
            !old(self).consumed ==> final(analyzer).referred_nodes@ == old(
                analyzer,
            ).referred_nodes@.insert(old(self).source.dep_node()),
    {
        if self.consumed {
            return;
        }
        self.consumed = true;
        self.consume_self(analyzer);
    }

    /// Awaiting a function that was not consumed gives the function itself,
    /// with no effect.
    ///
    /// What a consumed function gives is decided by the handling of
    /// consumed values, which is not part of this library; hence the
    /// `requires`. The same holds for the four methods below.
    pub fn await_value(&self, rc: &Entity) -> (r: (bool, Entity))
        requires
            !self.consumed,
        ensures
            !r.0,
            r.1 == *rc,
    {
        (false, rc.clone())
    }

    /// Iterating a function that was not consumed may have an effect and
    /// gives an unknown value derived from the function.
    /// (Not for a consumed function: see `await_value`.)
    pub fn iterate(&self, rc: &Entity) -> (r: (bool, Option<Entity>))
        requires
            !self.consumed,
        ensures
            r.0,
            r.1 matches Some(e) && is_unknown(*e, UnknownEntityKind::Unknown, seq![*rc]),
    {
        let mut deps: Vec<Entity> = Vec::new();
        deps.push(rc.clone());
        (true, Some(UnknownEntity::new_unknown_with_deps(deps)))
    }

    /// Converting a function that was not consumed to a string gives an
    /// unknown string derived from the function.
    /// (Not for a consumed function: see `await_value`.)
    pub fn get_to_string(&self, rc: &Entity) -> (r: Entity)
        requires
            !self.consumed,
        ensures
            is_unknown(*r, UnknownEntityKind::String, seq![*rc]),
    {
        let mut deps: Vec<Entity> = Vec::new();
        deps.push(rc.clone());
        UnknownEntity::new_with_deps(UnknownEntityKind::String, deps)
    }

    /// Converting a function to a property key converts it to a string.
    /// (Not for a consumed function: see `await_value`.)
    pub fn get_to_property_key(&self, rc: &Entity) -> (r: Entity)
        requires
            !self.consumed,
        ensures
            is_unknown(*r, UnknownEntityKind::String, seq![*rc]),
    {
        self.get_to_string(rc)
    }

    /// Destructuring a function that was not consumed into `length`
    /// elements: see `UnknownEntity::new_unknown_to_array_result`, derived
    /// from the function.
    /// (Not for a consumed function: see `await_value`.)
    pub fn get_to_array(&self, rc: &Entity, length: usize) -> (r: (Vec<Entity>, Entity))
        requires
            !self.consumed,
        ensures
            r.0@.len() == length,
            forall|i: int| 0 <= i < length ==> r.0@[i] == r.1,
            is_unknown(*r.1, UnknownEntityKind::Unknown, seq![*rc]),
    {
        let mut deps: Vec<Entity> = Vec::new();
        deps.push(rc.clone());
        UnknownEntity::new_unknown_to_array_result(length, deps)
    }

    /// `typeof` of a function: the string "function".
    pub fn get_typeof(&self) -> (r: Entity)
        ensures
            (*r) matches EntityValue::Literal(LiteralEntity::String(t)) && t@ == "function"@,
    {
        LiteralEntity::new_string("function")
    }

    /// `typeof` of a function is known to be "function".
    pub fn test_typeof(&self) -> (r: TypeofResult)
        ensures
            r == TypeofResult::Function,
    {
        TypeofResult::Function
    }

    /// A function is always truthy.
    pub fn test_truthy(&self) -> (r: Option<bool>)
        ensures
            r == Some(true),
    {
        Some(true)
    }

    /// A function is never `null` or `undefined`.
    pub fn test_nullish(&self) -> (r: Option<bool>)
        ensures
            r == Some(false),
    {
        Some(false)
    }
}

} // verus!

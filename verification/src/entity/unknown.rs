use vstd::prelude::*;

use std::rc::Rc;

use crate::analyzer::Analyzer;
use crate::entity::entity::{clone_entities, consume_all, seq_self_deps, Entity, EntityValue};
use crate::entity::literal::LiteralEntity;
use crate::entity::typeof_result::TypeofResult;

verus! {

/// What is known of the type of a value the analysis cannot compute.
#[derive(Clone, Copy, Debug, PartialEq, Eq, Structural)]
pub enum UnknownEntityKind {
    String,
    Number,
    BigInt,
    Boolean,
    Symbol,
    Array,
    Function,
    Object,
    Unknown,
}

/// A value the analysis cannot compute, of a known kind, together with the
/// values it was derived from.
pub struct UnknownEntity {
    pub kind: UnknownEntityKind,
    pub deps: Vec<Entity>,
}

/// `e` is an unknown value of kind `kind` derived from `deps`.
pub open spec fn is_unknown(e: EntityValue, kind: UnknownEntityKind, deps: Seq<Entity>) -> bool {
    e matches EntityValue::Unknown(u) && u.kind == kind && u.deps@ == deps
}

/// `typeof` of an unknown value of kind `kind`.
pub open spec fn kind_typeof(kind: UnknownEntityKind) -> TypeofResult {
    match kind {
        UnknownEntityKind::String => TypeofResult::String,
        UnknownEntityKind::Number => TypeofResult::Number,
        UnknownEntityKind::BigInt => TypeofResult::BigInt,
        UnknownEntityKind::Boolean => TypeofResult::Boolean,
        UnknownEntityKind::Symbol => TypeofResult::Symbol,
        UnknownEntityKind::Array => TypeofResult::Object,
        UnknownEntityKind::Function => TypeofResult::Function,
        UnknownEntityKind::Object => TypeofResult::Object,
        UnknownEntityKind::Unknown => TypeofResult::_Unknown,
    }
}

/// Symbols, arrays, functions and objects are truthy; of the other kinds
/// truthiness is not known.
pub open spec fn kind_truthy(kind: UnknownEntityKind) -> Option<bool> {
    match kind {
        UnknownEntityKind::Symbol | UnknownEntityKind::Array | UnknownEntityKind::Function
        | UnknownEntityKind::Object => Some(true),
        _ => None,
    }
}

/// Only a value of unknown kind may be `null` or `undefined`.
pub open spec fn kind_nullish(kind: UnknownEntityKind) -> Option<bool> {
    match kind {
        UnknownEntityKind::Unknown => None,
        _ => Some(false),
    }
}

/// The tests on an unknown value agree: its `typeof` is unknown exactly when
/// it may be nullish, and a value known to be truthy is known not to be
/// nullish and has a known `typeof` other than a primitive's string, number,
/// bigint or boolean.
pub proof fn law_kind_tests_agree(kind: UnknownEntityKind)
    ensures
        (kind_typeof(kind) == TypeofResult::_Unknown) <==> kind_nullish(kind) is None,
        kind_typeof(kind).typeof_str() is None <==> kind_typeof(kind) == TypeofResult::_Unknown,
        kind_truthy(kind) is Some ==> {
            &&& kind_nullish(kind) == Some(false)
            &&& kind_truthy(kind) == Some(true)
            &&& (kind_typeof(kind) == TypeofResult::Object || kind_typeof(kind)
                == TypeofResult::Function || kind_typeof(kind) == TypeofResult::Symbol)
        },
{
}

impl UnknownEntity {
    /// An unknown value of kind `kind` derived from `deps`.
    pub fn new_with_deps(kind: UnknownEntityKind, deps: Vec<Entity>) -> (r: Entity)
        ensures
            is_unknown(*r, kind, deps@),
    {
        Rc::new(EntityValue::Unknown(UnknownEntity { kind, deps }))
    }

    /// An unknown value of kind `kind` derived from nothing.
    pub fn new(kind: UnknownEntityKind) -> (r: Entity)
        ensures
            is_unknown(*r, kind, Seq::empty()),
    {
        Self::new_with_deps(kind, Vec::new())
    }

    /// A value of which nothing is known.
    pub fn new_unknown() -> (r: Entity)
        ensures
            is_unknown(*r, UnknownEntityKind::Unknown, Seq::empty()),
    {
        Self::new(UnknownEntityKind::Unknown)
    }

    /// A value of which nothing is known, derived from `deps`.
    pub fn new_unknown_with_deps(deps: Vec<Entity>) -> (r: Entity)
        ensures
            is_unknown(*r, UnknownEntityKind::Unknown, deps@),
    {
        Self::new_with_deps(UnknownEntityKind::Unknown, deps)
    }

    /// The result of destructuring an unknown value derived from `deps` into
    /// `length` elements: that many copies of one unknown value, and the
    /// same value again for the rest.
    pub fn new_unknown_to_array_result(length: usize, deps: Vec<Entity>) -> (r: (
        Vec<Entity>,
        Entity,
    ))
        ensures
            r.0@.len() == length,
            forall|i: int| 0 <= i < length ==> r.0@[i] == r.1,
            is_unknown(*r.1, UnknownEntityKind::Unknown, deps@),
    {
        let mut result: Vec<Entity> = Vec::new();
        let unknown = UnknownEntity::new_unknown_with_deps(deps);
        let mut i: usize = 0;
        while i < length
            invariant
                i <= length,
                result@.len() == i,
                forall|j: int| 0 <= j < i ==> result@[j] == unknown,
            decreases length - i,
        {
            result.push(unknown.clone());
            i += 1;
        }
        (result, unknown)
    }

    /// Marks as referred what the values this one derives from depend on.
    pub fn consume_self(&self, analyzer: &mut Analyzer)
        ensures
            final(analyzer).referred_nodes@ == old(analyzer).referred_nodes@ + seq_self_deps(
                self.deps@,
            ),
            final(analyzer).scope_context == old(analyzer).scope_context,
    {
        consume_all(&self.deps, analyzer);
    }

    /// `typeof` of this value: the known string where the kind fixes it,
    /// else an unknown string derived from the same values.
    pub fn get_typeof(&self) -> (r: Entity)
        ensures
            kind_typeof(self.kind).typeof_str() matches Some(s) ==> ((*r) matches EntityValue::Literal(
                LiteralEntity::String(t),
            ) && t@ == s@),
            kind_typeof(self.kind).typeof_str() is None ==> is_unknown(
                *r,
                UnknownEntityKind::String,
                self.deps@,
            ),
    {
        if let Some(s) = self.test_typeof().to_string() {
            LiteralEntity::new_string(s)
        } else {
            UnknownEntity::new_with_deps(UnknownEntityKind::String, clone_entities(&self.deps))
        }
    }

    /// Converting to a string gives an unknown string derived from the same
    /// values.
    pub fn get_to_string(&self) -> (r: Entity)
        ensures
            is_unknown(*r, UnknownEntityKind::String, self.deps@),
    {
        UnknownEntity::new_with_deps(UnknownEntityKind::String, clone_entities(&self.deps))
    }

    /// Converting to a property key gives a value of unknown kind derived
    /// from the same values.
    pub fn get_to_property_key(&self) -> (r: Entity)
        ensures
            is_unknown(*r, UnknownEntityKind::Unknown, self.deps@),
    {
        UnknownEntity::new_with_deps(UnknownEntityKind::Unknown, clone_entities(&self.deps))
    }

    /// Reading property `key` gives a value of unknown kind derived from the
    /// same values and the key.
    pub fn get_property(&self, key: &Entity) -> (r: Entity)
        ensures
            is_unknown(*r, UnknownEntityKind::Unknown, self.deps@.push(*key)),
    {
        let mut deps = clone_entities(&self.deps);
        deps.push(key.clone());
        Rc::new(EntityValue::Unknown(UnknownEntity { kind: UnknownEntityKind::Unknown, deps }))
    }

    /// Destructuring into `length` elements: see
    /// `new_unknown_to_array_result`, over the same values.
    pub fn get_to_array(&self, length: usize) -> (r: (Vec<Entity>, Entity))
        ensures
            r.0@.len() == length,
            forall|i: int| 0 <= i < length ==> r.0@[i] == r.1,
            is_unknown(*r.1, UnknownEntityKind::Unknown, self.deps@),
    {
        UnknownEntity::new_unknown_to_array_result(length, clone_entities(&self.deps))
    }

    /// What `typeof` is known to give for this kind.
    pub fn test_typeof(&self) -> (r: TypeofResult)
        ensures
            r == kind_typeof(self.kind),
    {
        match &self.kind {
            UnknownEntityKind::String => TypeofResult::String,
            UnknownEntityKind::Number => TypeofResult::Number,
            UnknownEntityKind::BigInt => TypeofResult::BigInt,
            UnknownEntityKind::Boolean => TypeofResult::Boolean,
            UnknownEntityKind::Symbol => TypeofResult::Symbol,
            UnknownEntityKind::Array => TypeofResult::Object,
            UnknownEntityKind::Function => TypeofResult::Function,
            UnknownEntityKind::Object => TypeofResult::Object,
            UnknownEntityKind::Unknown => TypeofResult::_Unknown,
        }
    }

    /// Whether the value is known to be truthy.
    pub fn test_truthy(&self) -> (r: Option<bool>)
        ensures
            r == kind_truthy(self.kind),
    {
        match &self.kind {
            UnknownEntityKind::Symbol | UnknownEntityKind::Array | UnknownEntityKind::Function
            | UnknownEntityKind::Object => Some(true),
            _ => None,
        }
    }

    /// Whether the value is known to be `null` or `undefined`.
    pub fn test_nullish(&self) -> (r: Option<bool>)
        ensures
            r == kind_nullish(self.kind),
    {
        match &self.kind {
            UnknownEntityKind::Unknown => None,
            _ => Some(false),
        }
    }
}

} // verus!

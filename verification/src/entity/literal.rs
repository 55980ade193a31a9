use vstd::prelude::*;

use std::rc::Rc;

use crate::entity::entity::{Entity, EntityValue};

verus! {

/// A value the analysis knows exactly.
pub enum LiteralEntity {
    String(String),
    Boolean(bool),
}

impl LiteralEntity {
    /// The known string `s`.
    pub fn new_string(s: &str) -> (r: Entity)
        ensures
            (*r) matches EntityValue::Literal(LiteralEntity::String(t)) && t@ == s@,
    {
        Rc::new(EntityValue::Literal(LiteralEntity::String(s.to_owned())))
    }

    /// The known boolean `b`.
    pub fn new_boolean(b: bool) -> (r: Entity)
        ensures
            *r == EntityValue::Literal(LiteralEntity::Boolean(b)),
    {
        Rc::new(EntityValue::Literal(LiteralEntity::Boolean(b)))
    }
}

} // verus!

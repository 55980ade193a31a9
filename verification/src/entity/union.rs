use vstd::prelude::*;

use std::rc::Rc;

use crate::entity::entity::{Entity, EntityValue};

verus! {

/// A value that is one of several possible values.
pub struct UnionEntity {
    pub values: Vec<Entity>,
}

impl UnionEntity {
    /// The value that may be any of `values`.
    pub fn new(values: Vec<Entity>) -> (r: Entity)
        ensures
            (*r) matches EntityValue::Union(u) && u.values@ == values@,
    {
        Rc::new(EntityValue::Union(UnionEntity { values }))
    }
}

} // verus!

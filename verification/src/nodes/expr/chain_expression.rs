use vstd::prelude::*;

use crate::transformer::Transformer;

verus! {

/// The shape of the expression an optional chain's element transformed to.
#[derive(Clone, Copy, Debug, PartialEq, Eq, Structural)]
pub enum ExpressionShape {
    Call,
    Member,
    Other,
}

/// What becomes of an optional chain.
#[derive(Clone, Copy, Debug, PartialEq, Eq, Structural)]
pub enum ChainOutcome {
    /// Nothing of the chain is kept.
    Removed,
    /// The kept call is wrapped back into a chain.
    ChainedCall,
    /// The kept member access is wrapped back into a chain.
    ChainedMember,
    /// The kept expression stands alone, without a chain around it.
    Unwrapped,
}

/// What becomes of a chain whose element transformed to `transformed`.
pub open spec fn chain_outcome(transformed: Option<ExpressionShape>) -> ChainOutcome {
    match transformed {
        None => ChainOutcome::Removed,
        Some(ExpressionShape::Call) => ChainOutcome::ChainedCall,
        Some(ExpressionShape::Member) => ChainOutcome::ChainedMember,
        Some(ExpressionShape::Other) => ChainOutcome::Unwrapped,
    }
}

impl Transformer {
    /// Decides how an optional chain is rebuilt from what its element
    /// transformed to.
    pub fn transform_chain_expression(&self, transformed: Option<ExpressionShape>) -> (r:
        ChainOutcome)
        ensures
            r == chain_outcome(transformed),
    {
        match transformed {
            None => ChainOutcome::Removed,
            Some(ExpressionShape::Call) => ChainOutcome::ChainedCall,
            Some(ExpressionShape::Member) => ChainOutcome::ChainedMember,
            Some(ExpressionShape::Other) => ChainOutcome::Unwrapped,
        }
    }
}

} // verus!

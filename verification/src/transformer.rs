use vstd::prelude::*;

use crate::analyzer::Analyzer;
use crate::entity::dep::{EntityDepNode, ReferredNodes};

verus! {

/// The state the transformation carries: what the analysis referred.
pub struct Transformer {
    pub referred_nodes: ReferredNodes,
}

impl View for Transformer {
    type V = Set<EntityDepNode>;

    open spec fn view(&self) -> Set<EntityDepNode> {
        self.referred_nodes@
    }
}

impl Transformer {
    /// Takes over what `analyzer` referred.
    pub fn new(analyzer: Analyzer) -> (r: Self)
        ensures
            r@ == analyzer.referred_nodes@,
    {
        Transformer { referred_nodes: analyzer.referred_nodes }
    }
}

} // verus!

use vstd::prelude::*;

verus! {

/// The kinds of syntax node that dependency records and per-node analysis
/// data are keyed by, alongside the node's address.
#[derive(Clone, Copy, Debug, PartialEq, Eq, Structural, Hash)]
pub enum AstType2 {
    Statement,
    BindingRestElement,
}

} // verus!

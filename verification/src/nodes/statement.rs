use vstd::prelude::*;

use crate::analyzer::Analyzer;
use crate::transformer::Transformer;

verus! {

/// What the analysis records of a statement: nothing.
#[derive(Debug, Clone)]
pub struct Data {}

impl Default for Data {
    fn default() -> (r: Self)
        ensures
            r == (Data {}),
    {
        Data {}
    }
}

/// The kinds of statement the analysis handles, and all others.
#[derive(Clone, Copy, Debug, PartialEq, Eq, Structural)]
pub enum StatementKind {
    Declaration,
    ModuleDeclaration,
    Expression,
    Block,
    If,
    Other,
}

impl Analyzer {
    /// The flag executing a statement of kind `kind` yields, given the flag
    /// executing its declaration, expression or body yielded: a module
    /// declaration yields `false`, every other kind passes its part's flag on.
    pub fn exec_statement(&self, kind: StatementKind, inner: bool) -> (r: bool)
        requires
            kind != StatementKind::Other,
        ensures
            r == (kind != StatementKind::ModuleDeclaration && inner),
    {
        match kind {
            StatementKind::ModuleDeclaration => false,
            _ => inner,
        }
    }
}

impl Transformer {
    /// Whether a statement of kind `kind` is kept, given whether its
    /// declaration, expression or body was kept: a module declaration always
    /// is.
    pub fn transform_statement(&self, kind: StatementKind, inner_kept: bool) -> (r: bool)
        requires
            kind != StatementKind::Other,
        ensures
            r == (kind == StatementKind::ModuleDeclaration || inner_kept),
    {
        match kind {
            StatementKind::ModuleDeclaration => true,
            _ => inner_kept,
        }
    }
}

} // verus!

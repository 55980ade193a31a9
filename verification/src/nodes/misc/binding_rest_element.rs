use vstd::prelude::*;

use crate::transformer::Transformer;

verus! {

/// What the analysis records of a rest element `...rest` in an object
/// pattern: whether enumerating the properties it collects had an effect.
#[derive(Debug)]
pub struct Data {
    pub has_effect: bool,
}

impl Default for Data {
    fn default() -> (r: Self)
        ensures
            !r.has_effect,
    {
        Data { has_effect: false }
    }
}

impl Data {
    /// Folds in one more evaluation of the rest element: the element has had
    /// an effect once any evaluation had one.
    pub fn record_effect(&mut self, has_effect: bool)
        ensures
            final(self).has_effect == (old(self).has_effect || has_effect),
    {
        self.has_effect = self.has_effect || has_effect;
    }
}

/// What becomes of a rest element.
#[derive(Clone, Copy, Debug, PartialEq, Eq, Structural)]
pub enum RestElementOutcome {
    /// Kept with its transformed argument.
    Argument,
    /// Kept with an unused binding, for the effect of collecting it.
    UnusedArgument,
    /// Removed.
    Removed,
}

/// What becomes of a rest element whose argument survived when
/// `argument_kept` holds.
pub open spec fn rest_element_outcome(argument_kept: bool, has_effect: bool) -> RestElementOutcome {
    if argument_kept {
        RestElementOutcome::Argument
    } else if has_effect {
        RestElementOutcome::UnusedArgument
    } else {
        RestElementOutcome::Removed
    }
}

impl Transformer {
    /// Decides what of a rest element is kept.
    pub fn transform_binding_rest_element(&self, argument_kept: bool, data: &Data) -> (r:
        RestElementOutcome)
        ensures
            r == rest_element_outcome(argument_kept, data.has_effect),
    {
        if argument_kept {
            RestElementOutcome::Argument
        } else if data.has_effect {
            RestElementOutcome::UnusedArgument
        } else {
            RestElementOutcome::Removed
        }
    }
}

} // verus!

use vstd::prelude::*;

verus! {

/// What `typeof` is known to yield for a value; `_Unknown` when the analysis
/// cannot tell.
#[derive(Clone, Copy, Debug, PartialEq, Eq, Structural)]
#[allow(non_camel_case_types)]
pub enum TypeofResult {
    String,
    Number,
    BigInt,
    Boolean,
    Symbol,
    Undefined,
    Object,
    Function,
    _Unknown,
}

impl TypeofResult {
    /// The string `typeof` yields, when it is known.
    pub open spec fn typeof_str(self) -> Option<&'static str> {
        match self {
            TypeofResult::String => Some("string"),
            TypeofResult::Number => Some("number"),
            TypeofResult::BigInt => Some("bigint"),
            TypeofResult::Boolean => Some("boolean"),
            TypeofResult::Symbol => Some("symbol"),
            TypeofResult::Undefined => Some("undefined"),
            TypeofResult::Object => Some("object"),
            TypeofResult::Function => Some("function"),
            TypeofResult::_Unknown => None,
        }
    }

    /// The string `typeof` yields, or `None` when it is not known.
    pub fn to_string(&self) -> (r: Option<&'static str>)
        ensures
            r == self.typeof_str(),
    {
        match self {
            TypeofResult::String => Some("string"),
            TypeofResult::Number => Some("number"),
            TypeofResult::BigInt => Some("bigint"),
            TypeofResult::Boolean => Some("boolean"),
            TypeofResult::Symbol => Some("symbol"),
            TypeofResult::Undefined => Some("undefined"),
            TypeofResult::Object => Some("object"),
            TypeofResult::Function => Some("function"),
            TypeofResult::_Unknown => None,
        }
    }
}

} // verus!

pub mod chain_expression;
pub mod object_expression;

pub mod expr;
pub mod misc;
pub mod statement;

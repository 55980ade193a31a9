pub mod dep;
pub mod entity;
pub mod function;
pub mod literal;
pub mod typeof_result;
pub mod union;
pub mod unknown;
pub mod utils;

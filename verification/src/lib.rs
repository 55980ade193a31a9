//! Dependency bookkeeping and abstract values of a JavaScript tree shaker.
//!
//! The analyzer walks a program and evaluates it over abstract values
//! (entities); every syntax node whose effect or value turns out to be
//! observable is recorded as referred. The transformer later keeps exactly
//! the referred parts. This crate holds that bookkeeping, the abstract
//! values, and the keep-or-drop decisions the transformer makes per node.

pub mod analyzer;
pub mod ast;
pub mod entity;
pub mod nodes;
pub mod pipeline;
pub mod scope;
pub mod transformer;

use vstd::prelude::*;

use oxc::allocator::Allocator;
use oxc::codegen::{CodegenOptions, CodegenReturn};
use oxc::minifier::{MinifierOptions, MinifierReturn};
use oxc::span::SourceType;

use crate::pipeline::{generate_code, minify_program, parse_program};

verus! {

/// What to do with a piece of JavaScript.
pub struct TreeShakeOptions<'a> {
    pub allocator: &'a Allocator,
    pub source_type: SourceType,
    pub source_text: String,
    pub tree_shake: bool,
    pub minify: Option<MinifierOptions>,
    pub code_gen: CodegenOptions,
    pub eval_mode: bool,
}

/// What came of it: the minifier's report when minifying was asked for, and
/// the generated code.
pub struct TreeShakeReturn {
    pub minifier_return: Option<MinifierReturn>,
    pub codegen_return: CodegenReturn,
}

/// Parses `options.source_text`, minifies the program when `minify` is
/// given, and prints it with `code_gen`.
///
/// The `tree_shake` and `eval_mode` flags have no effect here: the walks
/// that analyse and rebuild the program node by node, and the encoding that
/// `eval_mode` asks for, are not part of this library (it holds the per-node
/// decisions in `nodes` and the referred-node bookkeeping in `entity::dep`).
/// So the printed program is the parsed one, minified when asked.
pub fn tree_shake<'a>(options: TreeShakeOptions<'a>) -> (r: TreeShakeReturn)
    ensures
        r.minifier_return.is_some() == options.minify.is_some(),
{
    let TreeShakeOptions {
        allocator,
        source_type,
        source_text,
        tree_shake: _,
        minify,
        code_gen,
        eval_mode: _,
    } = options;

    let mut program = parse_program(allocator, source_text.as_str(), source_type);

    let minifier_return = match minify {
        Some(minifier_options) => Some(minify_program(allocator, &mut program, minifier_options)),
        None => None,
    };

    let codegen_return = generate_code(&program, code_gen);

    TreeShakeReturn { minifier_return, codegen_return }
}

} // verus!

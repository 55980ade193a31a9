use vstd::prelude::*;

use oxc::allocator::Allocator;
use oxc::ast::ast::Program;
use oxc::codegen::{CodeGenerator, CodegenOptions, CodegenReturn};
use oxc::minifier::{Minifier, MinifierOptions, MinifierReturn};
use oxc::parser::Parser;
use oxc::span::SourceType;

verus! {

#[verifier::external_type_specification]
#[verifier::external_body]
pub struct ExAllocator(Allocator);

#[verifier::external_type_specification]
#[verifier::external_body]
pub struct ExSourceType(SourceType);

#[verifier::external_type_specification]
#[verifier::external_body]
pub struct ExProgram<'a>(Program<'a>);

#[verifier::external_type_specification]
#[verifier::external_body]
pub struct ExMinifierOptions(MinifierOptions);

#[verifier::external_type_specification]
#[verifier::external_body]
pub struct ExMinifierReturn(MinifierReturn);

#[verifier::external_type_specification]
#[verifier::external_body]
pub struct ExCodegenOptions(CodegenOptions);

#[verifier::external_type_specification]
#[verifier::external_body]
pub struct ExCodegenReturn(CodegenReturn);

/// `Parser::new(..).parse()`: the program parsed from `source_text`, or an
/// empty program when the text cannot be parsed. Nothing is stated of the
/// tree, which Verus cannot see into.
#[verifier::external_body]
pub(crate) fn parse_program<'a>(
    allocator: &'a Allocator,
    source_text: &'a str,
    source_type: SourceType,
) -> (r: Program<'a>) {
    Parser::new(allocator, source_text, source_type).parse().program
}

/// `Minifier::build`: compresses `program` in place, and mangles its names
/// when `options` asks for it. Nothing is stated of the change, which Verus
/// cannot see into.
#[verifier::external_body]
pub(crate) fn minify_program<'a>(
    allocator: &'a Allocator,
    program: &mut Program<'a>,
    options: MinifierOptions,
) -> (r: MinifierReturn) {
    Minifier::new(options).build(allocator, program)
}

/// `CodeGenerator::build`: the source text printed from `program`. Nothing
/// is stated of the text, since Verus cannot see into the program.
#[verifier::external_body]
pub(crate) fn generate_code(program: &Program<'_>, options: CodegenOptions) -> (r: CodegenReturn) {
    CodeGenerator::new().with_options(options).build(program)
}

} // verus!

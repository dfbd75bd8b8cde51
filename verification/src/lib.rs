//! Core of a small ahead-of-time compiler for a statically typed, C-like
//! language: typed-AST elaboration, a scoped symbol table shared by both
//! passes, and lowering of the typed AST to an SSA-style intermediate
//! representation modelled after LLVM IR.  Lexing, parsing and the final
//! hand-off to a native linker live outside this crate.

use vstd::prelude::*;

pub mod ast;
pub mod codegen;
pub mod type_checker;

verus! {

/// The view of a `Result`, both sides taken to their mathematical mirrors.
pub open spec fn res_view<T: View, E: View>(r: Result<T, E>) -> Result<T::V, E::V> {
    match r {
        Ok(t) => Ok(t.view()),
        Err(e) => Err(e.view()),
    }
}

/// Why a compilation failed: in elaboration, or in lowering.
#[derive(Debug, PartialEq)]
pub enum CompileError {
    TypeCheck(type_checker::error::TypeCheckerError),
    Codegen(codegen::error::CodegenError),
}

pub enum CompileErrorV {
    TypeCheck(type_checker::error::TypeCheckerErrorV),
    Codegen(codegen::error::CodegenError),
}

impl View for CompileError {
    type V = CompileErrorV;

    open spec fn view(&self) -> CompileErrorV {
        match self {
            CompileError::TypeCheck(e) => CompileErrorV::TypeCheck(e@),
            CompileError::Codegen(e) => CompileErrorV::Codegen(*e),
        }
    }
}

/// What compiling a parsed program yields: the module lowered from its
/// elaboration, or the first error of whichever pass rejected it.
pub open spec fn compile_s(p: ast::Program) -> Result<codegen::ir::ModuleV, CompileErrorV> {
    match type_checker::inference::elab_program(p) {
        Err(e) => Err(CompileErrorV::TypeCheck(e)),
        Ok(tp) => match codegen::impls::top_level::lower_top_list_s(
            codegen::context::init_ctx(),
            tp.0,
        ) {
            Err(e) => Err(CompileErrorV::Codegen(e)),
            Ok(c) => Ok(c.module),
        },
    }
}

/// Elaborate a parsed program and lower it to an IR module.
pub fn compile_to_module(program: ast::Program) -> (r: Result<codegen::ir::Module, CompileError>)
    ensures
        res_view(r) == compile_s(program),
{
    let typed = match type_checker::inference::infer_types_pass(program) {
        Ok(t) => t,
        Err(e) => {
            return Err(CompileError::TypeCheck(e));
        },
    };
    let mut ctx = codegen::context::CompilerContext::new();
    match typed.codegen(&mut ctx) {
        Ok(()) => Ok(ctx.into_module()),
        Err(e) => Err(CompileError::Codegen(e)),
    }
}

} // verus!

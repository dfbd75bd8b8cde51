//! Errors reported by code generation.
//!
//! Code generation expects a well-typed program; these are the failure modes
//! that remain.  Every error aborts the compilation of the program.

use vstd::prelude::*;

verus! {

#[derive(Debug, Clone, Copy, PartialEq, Eq, Structural)]
pub enum CodegenError {
    /// A pointer was requested for an expression that is not an lvalue.
    BadPtrGen,
    /// A class type was consulted before its definition was registered.
    UnknownClass,
    /// A class constructor named a field the class definition does not have.
    UnknownField,
    /// A cast between types that are not both integers.
    UnsupportedCast,
    /// A construct whose lowering is reserved (`str` values).
    Unsupported,
    /// The symbol table had no open scope to write to.
    EmptySymbolTable,
    /// An identifier had no binding in the symbol table.
    UnknownSymbol,
}

impl View for CodegenError {
    type V = CodegenError;

    open spec fn view(&self) -> CodegenError {
        *self
    }
}

} // verus!

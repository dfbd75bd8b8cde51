//! Errors reported by typed-AST elaboration.

use vstd::prelude::*;

verus! {

/// Why elaboration rejected a program.  Elaboration fails on the first
/// error it meets; nothing is produced for a rejected program.
#[derive(Debug, PartialEq)]
pub enum TypeCheckerError {
    /// An identifier was not found in any enclosing scope.
    Undeclared(String),
    /// An index expression was applied to a value whose type is not an array.
    BadIndex,
    /// An array constructor had zero items, so no element type can be inferred.
    EmptyArray,
    /// A dereference was applied to a value whose type is not a reference.
    DerefNonRef,
    /// A return expression's type differs from the declared return type.
    ReturnMismatch,
}

pub enum TypeCheckerErrorV {
    Undeclared(Seq<char>),
    BadIndex,
    EmptyArray,
    DerefNonRef,
    ReturnMismatch,
}

impl View for TypeCheckerError {
    type V = TypeCheckerErrorV;

    open spec fn view(&self) -> TypeCheckerErrorV {
        match self {
            TypeCheckerError::Undeclared(name) => TypeCheckerErrorV::Undeclared(name@),
            TypeCheckerError::BadIndex => TypeCheckerErrorV::BadIndex,
            TypeCheckerError::EmptyArray => TypeCheckerErrorV::EmptyArray,
            TypeCheckerError::DerefNonRef => TypeCheckerErrorV::DerefNonRef,
            TypeCheckerError::ReturnMismatch => TypeCheckerErrorV::ReturnMismatch,
        }
    }
}

} // verus!

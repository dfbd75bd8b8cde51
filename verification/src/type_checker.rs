//! Typed-AST elaboration: name resolution and type assignment.

pub mod error;
pub mod inference;
pub mod classes;
pub mod typed_ast;
pub mod validate;

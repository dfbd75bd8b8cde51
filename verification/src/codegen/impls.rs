//! Lowering of the typed AST to the IR model, item by item.

pub mod expr;
pub mod literal;
pub mod stmt;
pub mod top_level;
pub mod type_to_llvm;

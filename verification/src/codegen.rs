//! Code generation: lowering of the typed AST to the IR model.

pub mod context;
pub mod error;
pub mod impls;
pub mod ir;
pub mod symbol;

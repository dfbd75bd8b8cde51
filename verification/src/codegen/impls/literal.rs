//! Lowering of literals to IR constants.

use vstd::prelude::*;

use crate::codegen::context::{
    add_global_string_s, global_val_s, ready, CompilerContext, CtxV,
};
use crate::codegen::error::CodegenError;
use crate::codegen::impls::type_to_llvm::lower_type_s;
use crate::codegen::ir::{IrType, Value};
use crate::type_checker::typed_ast::{Literal, LiteralInnerV, LiteralV};

verus! {

/// What lowering a literal yields: an integer or boolean literal becomes an
/// exact integer constant of its type's width; a C-string literal adds a
/// NUL-terminated global to the module and yields a pointer to it; a `str`
/// literal is reserved and fails.  No literal touches the current block.
pub open spec fn lower_literal_s(c: CtxV, lit: LiteralV) -> Result<
    (CtxV, Value),
    CodegenError,
> {
    match lit.val {
        LiteralInnerV::Int(v) => match lower_type_s(c.classes, lit.ty) {
            Ok(ty) => Ok((c, Value::ConstInt(ty, v as i128))),
            Err(er) => Err(er),
        },
        LiteralInnerV::UInt(v) => Ok((c, Value::ConstInt(IrType::I32, v as i128))),
        LiteralInnerV::Int8(v) => Ok((c, Value::ConstInt(IrType::I8, v as i128))),
        LiteralInnerV::Int16(v) => Ok((c, Value::ConstInt(IrType::I16, v as i128))),
        LiteralInnerV::Int32(v) => Ok((c, Value::ConstInt(IrType::I32, v as i128))),
        LiteralInnerV::Int64(v) => Ok((c, Value::ConstInt(IrType::I64, v as i128))),
        LiteralInnerV::UInt8(v) => Ok((c, Value::ConstInt(IrType::I8, v as i128))),
        LiteralInnerV::UInt16(v) => Ok((c, Value::ConstInt(IrType::I16, v as i128))),
        LiteralInnerV::UInt32(v) => Ok((c, Value::ConstInt(IrType::I32, v as i128))),
        LiteralInnerV::UInt64(v) => Ok((c, Value::ConstInt(IrType::I64, v as i128))),
        LiteralInnerV::Bool(v) => Ok(
            (c, Value::ConstInt(IrType::I1, if v { 1 as i128 } else { 0 as i128 })),
        ),
        LiteralInnerV::CStr(s) => Ok((add_global_string_s(c, s), global_val_s(c))),
        LiteralInnerV::Str(_s) => Err(CodegenError::Unsupported),
    }
}

impl Literal {
    pub fn codegen(&self, ctx: &mut CompilerContext) -> (r: Result<Value, CodegenError>)
        ensures
            match r {
                Ok(v) => lower_literal_s(old(ctx)@, self@) == Ok::<
                    (CtxV, Value),
                    CodegenError,
                >((final(ctx)@, v)),
                Err(er) => lower_literal_s(old(ctx)@, self@) == Err::<
                    (CtxV, Value),
                    CodegenError,
                >(er),
            },
            r is Ok && ready(old(ctx)@) ==> ready(final(ctx)@),
    {
        match &self.val {
            crate::type_checker::typed_ast::LiteralInner::Int(v) => {
                match self.ty.as_llvm_type(ctx) {
                    Ok(ty) => Ok(Value::ConstInt(ty, *v as i128)),
                    Err(er) => Err(er),
                }
            },
            crate::type_checker::typed_ast::LiteralInner::UInt(v) => Ok(
                Value::ConstInt(IrType::I32, *v as i128),
            ),
            crate::type_checker::typed_ast::LiteralInner::Int8(v) => Ok(
                Value::ConstInt(IrType::I8, *v as i128),
            ),
            crate::type_checker::typed_ast::LiteralInner::Int16(v) => Ok(
                Value::ConstInt(IrType::I16, *v as i128),
            ),
            crate::type_checker::typed_ast::LiteralInner::Int32(v) => Ok(
                Value::ConstInt(IrType::I32, *v as i128),
            ),
            crate::type_checker::typed_ast::LiteralInner::Int64(v) => Ok(
                Value::ConstInt(IrType::I64, *v as i128),
            ),
            crate::type_checker::typed_ast::LiteralInner::UInt8(v) => Ok(
                Value::ConstInt(IrType::I8, *v as i128),
            ),
            crate::type_checker::typed_ast::LiteralInner::UInt16(v) => Ok(
                Value::ConstInt(IrType::I16, *v as i128),
            ),
            crate::type_checker::typed_ast::LiteralInner::UInt32(v) => Ok(
                Value::ConstInt(IrType::I32, *v as i128),
            ),
            crate::type_checker::typed_ast::LiteralInner::UInt64(v) => Ok(
                Value::ConstInt(IrType::I64, *v as i128),
            ),
            crate::type_checker::typed_ast::LiteralInner::Bool(v) => Ok(
                Value::ConstInt(IrType::I1, if *v { 1 } else { 0 }),
            ),
            crate::type_checker::typed_ast::LiteralInner::CStr(s) => {
                let v = ctx.add_global_string(s.clone());
                Ok(v)
            },
            crate::type_checker::typed_ast::LiteralInner::Str(_s) => Err(
                CodegenError::Unsupported,
            ),
        }
    }
}

} // verus!

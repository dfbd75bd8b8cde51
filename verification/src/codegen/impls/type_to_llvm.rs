//! Lowering of source types to IR types.

use vstd::prelude::*;

use crate::codegen::context::{class_lookup, CompilerContext};
use crate::codegen::error::CodegenError;
use crate::codegen::ir::IrType;
use crate::type_checker::typed_ast::{view_type, ClassDefV, Type, TypeV};

verus! {

/// The pure mapping from a source type to its IR type: every integer keeps
/// its width (`Int` and `UInt` are 32-bit), `Bool` is one bit, `Char` is a
/// byte, references and `cstr` become pointers, arrays keep their length, a
/// class becomes its registered struct handle, and a function without a
/// declared return yields `Void`.  `str` is reserved and has no lowering;
/// an unregistered class name is `UnknownClass`.
pub open spec fn lower_type_s(classes: Seq<(Seq<char>, usize, ClassDefV)>, t: TypeV) -> Result<
    IrType,
    CodegenError,
>
    decreases t,
{
    match t {
        TypeV::Class(name) => match class_lookup(classes, name) {
            Some((id, _def)) => Ok(IrType::Struct(id)),
            None => Err(CodegenError::UnknownClass),
        },
        TypeV::Array(inner, len) => match lower_type_s(classes, *inner) {
            Ok(e) => Ok(IrType::ArrayTy(Box::new(e), len as usize)),
            Err(er) => Err(er),
        },
        TypeV::Ref(inner) => match lower_type_s(classes, *inner) {
            Ok(e) => Ok(IrType::Ptr(Box::new(e))),
            Err(er) => Err(er),
        },
        TypeV::Int => Ok(IrType::I32),
        TypeV::UInt => Ok(IrType::I32),
        TypeV::Int32 => Ok(IrType::I32),
        TypeV::UInt32 => Ok(IrType::I32),
        TypeV::Int8 => Ok(IrType::I8),
        TypeV::UInt8 => Ok(IrType::I8),
        TypeV::Char => Ok(IrType::I8),
        TypeV::Int16 => Ok(IrType::I16),
        TypeV::UInt16 => Ok(IrType::I16),
        TypeV::Int64 => Ok(IrType::I64),
        TypeV::UInt64 => Ok(IrType::I64),
        TypeV::Bool => Ok(IrType::I1),
        TypeV::CStr => Ok(IrType::Ptr(Box::new(IrType::I8))),
        TypeV::Str => Err(CodegenError::Unsupported),
        TypeV::NoneType => Ok(IrType::Void),
    }
}

impl Type {
    /// Lower this type against the context's class registry.
    pub fn as_llvm_type(&self, ctx: &CompilerContext) -> (r: Result<IrType, CodegenError>)
        ensures
            r == lower_type_s(ctx@.classes, self@),
        decreases self,
    {
        match self {
            Type::Class(name) => match ctx.class(name.as_str()) {
                Some(entry) => Ok(IrType::Struct(entry.1)),
                None => Err(CodegenError::UnknownClass),
            },
            Type::Array(inner, len) => match inner.as_llvm_type(ctx) {
                Ok(e) => Ok(IrType::ArrayTy(Box::new(e), *len)),
                Err(er) => Err(er),
            },
            Type::Ref(inner) => match inner.as_llvm_type(ctx) {
                Ok(e) => Ok(IrType::Ptr(Box::new(e))),
                Err(er) => Err(er),
            },
            Type::Int => Ok(IrType::I32),
            Type::UInt => Ok(IrType::I32),
            Type::Int32 => Ok(IrType::I32),
            Type::UInt32 => Ok(IrType::I32),
            Type::Int8 => Ok(IrType::I8),
            Type::UInt8 => Ok(IrType::I8),
            Type::Char => Ok(IrType::I8),
            Type::Int16 => Ok(IrType::I16),
            Type::UInt16 => Ok(IrType::I16),
            Type::Int64 => Ok(IrType::I64),
            Type::UInt64 => Ok(IrType::I64),
            Type::Bool => Ok(IrType::I1),
            Type::CStr => Ok(IrType::Ptr(Box::new(IrType::I8))),
            Type::Str => Err(CodegenError::Unsupported),
            Type::NoneType => Ok(IrType::Void),
        }
    }
}

/// Whether an IR type is an integer type, the domain of arithmetic,
/// comparison and sign-extension.
pub open spec fn is_int_ir(t: IrType) -> bool {
    match t {
        IrType::I1 | IrType::I8 | IrType::I16 | IrType::I32 | IrType::I64 => true,
        _ => false,
    }
}

/// Decide `is_int_ir`.
pub fn ir_type_is_int(t: &IrType) -> (r: bool)
    ensures
        r == is_int_ir(*t),
{
    match t {
        IrType::I1 | IrType::I8 | IrType::I16 | IrType::I32 | IrType::I64 => true,
        _ => false,
    }
}

} // verus!

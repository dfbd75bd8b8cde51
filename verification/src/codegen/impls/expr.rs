//! Lowering of typed expressions to IR instructions.

use vstd::prelude::*;

use crate::codegen::context::{
    class_lookup, emit_s, emit_val_s, ready, CompilerContext, CtxV,
};
use crate::codegen::error::CodegenError;
use crate::codegen::impls::literal::lower_literal_s;
use crate::codegen::impls::type_to_llvm::{is_int_ir, lower_type_s};
use crate::codegen::ir::{Inst, InstV, IrType, Predicate, Value};
use crate::codegen::symbol::{lookup, SymbolType};
use crate::type_checker::typed_ast::{
    lemma_view_class_fields_index, lemma_view_expr_seq_props, view_expr, view_expr_fields,
    view_expr_seq, BinOp, ClassDefV, Expr, ExprInner, ExprInnerV, ExprV, TypeV, UnaryOp,
};

verus! {

/// The position of the first field of a class carrying a name, if any.
pub open spec fn field_index_from(
    fields: Seq<(Seq<char>, TypeV)>,
    name: Seq<char>,
    j: int,
) -> Option<int>
    decreases fields.len() - j,
{
    if j < 0 || j >= fields.len() {
        None
    } else if fields[j].0 == name {
        Some(j)
    } else {
        field_index_from(fields, name, j + 1)
    }
}

pub open spec fn field_index(fields: Seq<(Seq<char>, TypeV)>, name: Seq<char>) -> Option<int> {
    field_index_from(fields, name, 0)
}

/// What lowering an expression as an rvalue yields: the instructions
/// appended at the builder position and the value the expression denotes.
///
/// A class constructor allocates a slot of its struct type, stores every
/// constructor field through a field pointer found by name in the class's
/// registered field order, and loads the aggregate.  An array constructor
/// allocates a slot of the array type, stores each item at its index, and
/// loads the aggregate.  An index loads through an element pointer.  A call
/// lowers its callee, then its arguments left to right.  `+ - * /` lower to
/// `add sub mul sdiv`; `&& ||` to bitwise `and or` on `i1`; comparisons to
/// signed `icmp`; `=` stores the right-hand value through the left-hand
/// lvalue.  `& * - !` lower to the lvalue pointer, a load, `neg` and `not`.
/// A cast sign-extends between integer types and is refused otherwise.  An
/// identifier of `Const` or `Var` kind loads its stack slot; of `Func` kind
/// it denotes the function itself.
pub open spec fn lower_expr_s(c: CtxV, e: ExprV) -> Result<(CtxV, Value), CodegenError>
    decreases e,
{
    match e.val {
        ExprInnerV::Class(ce) => match class_lookup(c.classes, ce.class) {
            None => Err(CodegenError::UnknownClass),
            Some((sid, def)) => {
                let slot = emit_val_s(c);
                let c1 = emit_s(c, InstV::Alloca(IrType::Struct(sid)));
                match lower_class_fields_s(c1, def, slot, ce.fields) {
                    Err(er) => Err(er),
                    Ok(c2) => Ok((emit_s(c2, InstV::Load(slot)), emit_val_s(c2))),
                }
            },
        },
        ExprInnerV::Array(ae) => match lower_type_s(c.classes, e.ty) {
            Err(er) => Err(er),
            Ok(ty) => {
                let slot = emit_val_s(c);
                let c1 = emit_s(c, InstV::Alloca(ty));
                match lower_array_items_s(c1, slot, ae.items) {
                    Err(er) => Err(er),
                    Ok(c2) => Ok((emit_s(c2, InstV::Load(slot)), emit_val_s(c2))),
                }
            },
        },
        ExprInnerV::IndexExpr(ie) => match lower_expr_s(c, *ie.name) {
            Err(er) => Err(er),
            Ok((c1, data)) => match lower_expr_s(c1, *ie.index) {
                Err(er) => Err(er),
                Ok((c2, idx)) => {
                    let ptr = emit_val_s(c2);
                    let c3 = emit_s(c2, InstV::Gep(data, seq![idx]));
                    Ok((emit_s(c3, InstV::Load(ptr)), emit_val_s(c3)))
                },
            },
        },
        ExprInnerV::FunctionCall(fc) => match lower_expr_s(c, *fc.name) {
            Err(er) => Err(er),
            Ok((c1, f)) => match lower_expr_list_s(c1, fc.args) {
                Err(er) => Err(er),
                Ok((c2, args)) => Ok((emit_s(c2, InstV::Call(f, args)), emit_val_s(c2))),
            },
        },
        ExprInnerV::Binary(be) => match lower_expr_s(c, *be.lhs) {
            Err(er) => Err(er),
            Ok((c1, l)) => match lower_expr_s(c1, *be.rhs) {
                Err(er) => Err(er),
                Ok((c2, r)) => match be.op {
                    BinOp::Plus => Ok((emit_s(c2, InstV::Add(l, r)), emit_val_s(c2))),
                    BinOp::Minus => Ok((emit_s(c2, InstV::Sub(l, r)), emit_val_s(c2))),
                    BinOp::Times => Ok((emit_s(c2, InstV::Mul(l, r)), emit_val_s(c2))),
                    BinOp::Divide => Ok((emit_s(c2, InstV::SDiv(l, r)), emit_val_s(c2))),
                    BinOp::LogicalAnd => Ok((emit_s(c2, InstV::And(l, r)), emit_val_s(c2))),
                    BinOp::LogicalOr => Ok((emit_s(c2, InstV::Or(l, r)), emit_val_s(c2))),
                    BinOp::Equals => match lower_expr_ptr_s(c2, *be.lhs) {
                        Err(er) => Err(er),
                        Ok((c3, lp)) => Ok((emit_s(c3, InstV::Store(r, lp)), emit_val_s(c3))),
                    },
                    BinOp::Eq => Ok(
                        (emit_s(c2, InstV::ICmp(Predicate::IntEQ, l, r)), emit_val_s(c2)),
                    ),
                    BinOp::Ne => Ok(
                        (emit_s(c2, InstV::ICmp(Predicate::IntNE, l, r)), emit_val_s(c2)),
                    ),
                    BinOp::Gt => Ok(
                        (emit_s(c2, InstV::ICmp(Predicate::IntSGT, l, r)), emit_val_s(c2)),
                    ),
                    BinOp::Gte => Ok(
                        (emit_s(c2, InstV::ICmp(Predicate::IntSGE, l, r)), emit_val_s(c2)),
                    ),
                    BinOp::Lt => Ok(
                        (emit_s(c2, InstV::ICmp(Predicate::IntSLT, l, r)), emit_val_s(c2)),
                    ),
                    BinOp::Lte => Ok(
                        (emit_s(c2, InstV::ICmp(Predicate::IntSLE, l, r)), emit_val_s(c2)),
                    ),
                },
            },
        },
        ExprInnerV::Unary(ue) => match lower_expr_s(c, *ue.data) {
            Err(er) => Err(er),
            Ok((c1, dv)) => match ue.op {
                UnaryOp::Reference => lower_expr_ptr_s(c1, *ue.data),
                UnaryOp::Deref => Ok((emit_s(c1, InstV::Load(dv)), emit_val_s(c1))),
                UnaryOp::Minus => Ok((emit_s(c1, InstV::Neg(dv)), emit_val_s(c1))),
                UnaryOp::Not => Ok((emit_s(c1, InstV::Not(dv)), emit_val_s(c1))),
            },
        },
        ExprInnerV::Cast(ce) => match lower_expr_s(c, *ce.original) {
            Err(er) => Err(er),
            Ok((c1, ov)) => match lower_type_s(c1.classes, ce.original.ty) {
                Err(er) => Err(er),
                Ok(src) => match lower_type_s(c1.classes, ce.to_type) {
                    Err(er) => Err(er),
                    Ok(dst) => {
                        if is_int_ir(src) && is_int_ir(dst) {
                            Ok((emit_s(c1, InstV::SExt(ov, dst)), emit_val_s(c1)))
                        } else {
                            Err(CodegenError::UnsupportedCast)
                        }
                    },
                },
            },
        },
        ExprInnerV::Literal(lv) => lower_literal_s(c, lv),
        ExprInnerV::Ident(name) => match lookup(c.symbols, name) {
            None => Err(CodegenError::UnknownSymbol),
            Some(sym) => match sym.ty {
                SymbolType::Func => Ok((c, sym.value)),
                _ => Ok((emit_s(c, InstV::Load(sym.value)), emit_val_s(c))),
            },
        },
    }
}

/// What lowering an expression as an lvalue yields: a pointer to its
/// storage.  Defined for identifiers (their slot), index expressions (an
/// element pointer) and dereferences (`*e` gives back the pointer `e`
/// denotes); every other form is `BadPtrGen`.
pub open spec fn lower_expr_ptr_s(c: CtxV, e: ExprV) -> Result<(CtxV, Value), CodegenError>
    decreases e,
{
    match e.val {
        ExprInnerV::Ident(name) => match lookup(c.symbols, name) {
            None => Err(CodegenError::UnknownSymbol),
            Some(sym) => Ok((c, sym.value)),
        },
        ExprInnerV::IndexExpr(ie) => match lower_expr_s(c, *ie.name) {
            Err(er) => Err(er),
            Ok((c1, data)) => match lower_expr_s(c1, *ie.index) {
                Err(er) => Err(er),
                Ok((c2, idx)) => Ok((emit_s(c2, InstV::Gep(data, seq![idx])), emit_val_s(c2))),
            },
        },
        ExprInnerV::Unary(ue) => {
            if ue.op == UnaryOp::Deref {
                lower_expr_s(c, *ue.data)
            } else {
                Err(CodegenError::BadPtrGen)
            }
        },
        _ => Err(CodegenError::BadPtrGen),
    }
}

/// Lower a list of expressions left to right, collecting their values.
pub open spec fn lower_expr_list_s(c: CtxV, es: Seq<ExprV>) -> Result<
    (CtxV, Seq<Value>),
    CodegenError,
>
    decreases es,
{
    if es.len() == 0 {
        Ok((c, Seq::empty()))
    } else {
        match lower_expr_list_s(c, es.drop_last()) {
            Err(er) => Err(er),
            Ok((c1, vals)) => match lower_expr_s(c1, es.last()) {
                Err(er) => Err(er),
                Ok((c2, v)) => Ok((c2, vals.push(v))),
            },
        }
    }
}

/// Store each array item through an element pointer, in index order.
pub open spec fn lower_array_items_s(c: CtxV, slot: Value, items: Seq<ExprV>) -> Result<
    CtxV,
    CodegenError,
>
    decreases items,
{
    if items.len() == 0 {
        Ok(c)
    } else {
        match lower_array_items_s(c, slot, items.drop_last()) {
            Err(er) => Err(er),
            Ok(c1) => match lower_expr_s(c1, items.last()) {
                Err(er) => Err(er),
                Ok((c2, v)) => {
                    let ptr = emit_val_s(c2);
                    let c3 = emit_s(
                        c2,
                        InstV::Gep(
                            slot,
                            seq![
                                Value::ConstInt(IrType::I64, (items.len() - 1) as i128),
                                Value::ConstInt(IrType::I64, 0),
                            ],
                        ),
                    );
                    Ok(emit_s(c3, InstV::Store(v, ptr)))
                },
            },
        }
    }
}

/// Store each constructor field through a field pointer, in constructor
/// order; the field's position comes from the registered class definition.
pub open spec fn lower_class_fields_s(
    c: CtxV,
    def: ClassDefV,
    slot: Value,
    fields: Seq<(Seq<char>, ExprV)>,
) -> Result<CtxV, CodegenError>
    decreases fields,
{
    if fields.len() == 0 {
        Ok(c)
    } else {
        match lower_class_fields_s(c, def, slot, fields.drop_last()) {
            Err(er) => Err(er),
            Ok(c1) => match field_index(def.fields, fields.last().0) {
                None => Err(CodegenError::UnknownField),
                Some(i) => {
                    let ptr = emit_val_s(c1);
                    let c2 = emit_s(c1, InstV::StructGep(slot, i as usize));
                    match lower_expr_s(c2, fields.last().1) {
                        Err(er) => Err(er),
                        Ok((c3, v)) => Ok(emit_s(c3, InstV::Store(v, ptr))),
                    }
                },
            },
        }
    }
}

/// What expression lowering leaves untouched: the symbol table, the class
/// registry, the function stack, the builder position, and the block
/// structure of every function (expressions only append instructions to the
/// current block and string globals to the module).
pub open spec fn expr_frame(c: CtxV, c2: CtxV) -> bool {
    &&& c2.symbols == c.symbols
    &&& c2.classes == c.classes
    &&& c2.func_stack == c.func_stack
    &&& c2.pos == c.pos
    &&& c2.module.funcs.len() == c.module.funcs.len()
    &&& forall|fi: int|
        0 <= fi < c.module.funcs.len() ==> c2.module.funcs[fi].blocks.len()
            == c.module.funcs[fi].blocks.len()
    &&& forall|fi: int, bi: int|
        0 <= fi < c.module.funcs.len() && 0 <= bi < c.module.funcs[fi].blocks.len()
            ==> (#[trigger] c2.module.funcs[fi].blocks[bi]).term
            == c.module.funcs[fi].blocks[bi].term
}

proof fn lemma_emit_frame(c: CtxV, i: InstV)
    ensures
        expr_frame(c, emit_s(c, i)),
{
}

pub proof fn lemma_literal_frame(c: CtxV, lit: crate::type_checker::typed_ast::LiteralV)
    ensures
        lower_literal_s(c, lit) matches Ok(p) ==> expr_frame(c, p.0),
{
}

pub proof fn lemma_expr_frame(c: CtxV, e: ExprV)
    ensures
        lower_expr_s(c, e) matches Ok(p) ==> expr_frame(c, p.0),
    decreases e,
{
    match e.val {
        ExprInnerV::Class(ce) => match class_lookup(c.classes, ce.class) {
            None => {},
            Some((sid, def)) => {
                let c1 = emit_s(c, InstV::Alloca(IrType::Struct(sid)));
                lemma_class_fields_frame(c1, def, emit_val_s(c), ce.fields);
            },
        },
        ExprInnerV::Array(ae) => match lower_type_s(c.classes, e.ty) {
            Err(_er) => {},
            Ok(ty) => {
                let c1 = emit_s(c, InstV::Alloca(ty));
                lemma_array_items_frame(c1, emit_val_s(c), ae.items);
            },
        },
        ExprInnerV::IndexExpr(ie) => {
            lemma_expr_frame(c, *ie.name);
            match lower_expr_s(c, *ie.name) {
                Err(_er) => {},
                Ok(p1) => {
                    lemma_expr_frame(p1.0, *ie.index);
                },
            }
        },
        ExprInnerV::FunctionCall(fc) => {
            lemma_expr_frame(c, *fc.name);
            match lower_expr_s(c, *fc.name) {
                Err(_er) => {},
                Ok(p1) => {
                    lemma_expr_list_frame(p1.0, fc.args);
                },
            }
        },
        ExprInnerV::Binary(be) => {
            lemma_expr_frame(c, *be.lhs);
            match lower_expr_s(c, *be.lhs) {
                Err(_er) => {},
                Ok(p1) => {
                    lemma_expr_frame(p1.0, *be.rhs);
                    match lower_expr_s(p1.0, *be.rhs) {
                        Err(_er) => {},
                        Ok(p2) => {
                            lemma_expr_ptr_frame(p2.0, *be.lhs);
                        },
                    }
                },
            }
        },
        ExprInnerV::Unary(ue) => {
            lemma_expr_frame(c, *ue.data);
            match lower_expr_s(c, *ue.data) {
                Err(_er) => {},
                Ok(p1) => {
                    lemma_expr_ptr_frame(p1.0, *ue.data);
                },
            }
        },
        ExprInnerV::Cast(ce) => {
            lemma_expr_frame(c, *ce.original);
        },
        ExprInnerV::Literal(lv) => {
            lemma_literal_frame(c, lv);
        },
        ExprInnerV::Ident(_name) => {},
    }
}

pub proof fn lemma_expr_ptr_frame(c: CtxV, e: ExprV)
    ensures
        lower_expr_ptr_s(c, e) matches Ok(p) ==> expr_frame(c, p.0),
    decreases e,
{
    match e.val {
        ExprInnerV::IndexExpr(ie) => {
            lemma_expr_frame(c, *ie.name);
            match lower_expr_s(c, *ie.name) {
                Err(_er) => {},
                Ok(p1) => {
                    lemma_expr_frame(p1.0, *ie.index);
                },
            }
        },
        ExprInnerV::Unary(ue) => {
            if ue.op == UnaryOp::Deref {
                lemma_expr_frame(c, *ue.data);
            }
        },
        _ => {},
    }
}

pub proof fn lemma_expr_list_frame(c: CtxV, es: Seq<ExprV>)
    ensures
        lower_expr_list_s(c, es) matches Ok(p) ==> expr_frame(c, p.0),
    decreases es,
{
    if es.len() > 0 {
        lemma_expr_list_frame(c, es.drop_last());
        match lower_expr_list_s(c, es.drop_last()) {
            Err(_er) => {},
            Ok(p1) => {
                lemma_expr_frame(p1.0, es.last());
            },
        }
    }
}

pub proof fn lemma_array_items_frame(c: CtxV, slot: Value, items: Seq<ExprV>)
    ensures
        lower_array_items_s(c, slot, items) matches Ok(c2) ==> expr_frame(c, c2),
    decreases items,
{
    if items.len() > 0 {
        lemma_array_items_frame(c, slot, items.drop_last());
        match lower_array_items_s(c, slot, items.drop_last()) {
            Err(_er) => {},
            Ok(c1) => {
                lemma_expr_frame(c1, items.last());
            },
        }
    }
}

pub proof fn lemma_class_fields_frame(
    c: CtxV,
    def: ClassDefV,
    slot: Value,
    fields: Seq<(Seq<char>, ExprV)>,
)
    ensures
        lower_class_fields_s(c, def, slot, fields) matches Ok(c2) ==> expr_frame(c, c2),
    decreases fields,
{
    if fields.len() > 0 {
        lemma_class_fields_frame(c, def, slot, fields.drop_last());
        match lower_class_fields_s(c, def, slot, fields.drop_last()) {
            Err(_er) => {},
            Ok(c1) => {
                match field_index(def.fields, fields.last().0) {
                    None => {},
                    Some(i) => {
                        let c2 = emit_s(c1, InstV::StructGep(slot, i as usize));
                        lemma_expr_frame(c2, fields.last().1);
                    },
                }
            },
        }
    }
}

/// Names in `[j, ..)` skipped so far do not match, so the search result is
/// the search result from `j`.
proof fn lemma_field_index_skip(fields: Seq<(Seq<char>, TypeV)>, name: Seq<char>, j: int)
    requires
        0 <= j <= fields.len(),
        forall|k: int| 0 <= k < j ==> fields[k].0 != name,
    ensures
        field_index(fields, name) == field_index_from(fields, name, j),
    decreases j,
{
    if j > 0 {
        lemma_field_index_skip(fields, name, j - 1);
    }
}

/// Find the position of a field name in a class definition's field list.
fn find_field(fields: &Vec<(String, crate::type_checker::typed_ast::Type)>, name: &String) -> (r:
    Option<usize>)
    ensures
        match r {
            Some(i) => field_index(
                crate::type_checker::typed_ast::view_class_fields(fields@),
                name@,
            ) == Some(i as int) && i < fields@.len(),
            None => field_index(
                crate::type_checker::typed_ast::view_class_fields(fields@),
                name@,
            ) is None,
        },
{
    proof {
        lemma_view_class_fields_index(fields@);
    }
    let ghost fv = crate::type_checker::typed_ast::view_class_fields(fields@);
    let mut j: usize = 0;
    while j < fields.len()
        invariant
            j <= fields@.len(),
            fv == crate::type_checker::typed_ast::view_class_fields(fields@),
            fv.len() == fields@.len(),
            forall|i: int| 0 <= i < fields@.len() ==> fv[i].0 == fields@[i].0@,
            forall|k: int| 0 <= k < j ==> fv[k].0 != name@,
        decreases fields@.len() - j,
    {
        if fields[j].0.eq(name) {
            proof {
                lemma_field_index_skip(fv, name@, j as int);
            }
            return Some(j);
        }
        j = j + 1;
    }
    proof {
        lemma_field_index_skip(fv, name@, fields@.len() as int);
    }
    None
}

impl Expr {
    /// Emit the code of this expression at the builder position and yield
    /// its rvalue.
    #[verifier::rlimit(100)]
    pub fn codegen(&self, ctx: &mut CompilerContext) -> (r: Result<Value, CodegenError>)
        requires
            ready(old(ctx)@),
        ensures
            match r {
                Ok(v) => lower_expr_s(old(ctx)@, self@) == Ok::<(CtxV, Value), CodegenError>(
                    (final(ctx)@, v),
                ) && ready(final(ctx)@),
                Err(er) => lower_expr_s(old(ctx)@, self@) == Err::<
                    (CtxV, Value),
                    CodegenError,
                >(er),
            },
        decreases self,
    {
        match &self.val {
            ExprInner::Class(ce) => {
                let (sid, def) = match ctx.class(ce.class.as_str()) {
                    Some(entry) => (entry.1, entry.2.clone()),
                    None => {
                        return Err(CodegenError::UnknownClass);
                    },
                };
                let slot = ctx.emit(Inst::Alloca(IrType::Struct(sid)));
                let n = ce.fields.len();
                proof {
                    assert(ce.fields@.subrange(0, n as int) =~= ce.fields@);
                }
                match codegen_class_fields(ctx, &def, &slot, &ce.fields, n) {
                    Ok(()) => Ok(ctx.emit(Inst::Load(slot))),
                    Err(er) => Err(er),
                }
            },
            ExprInner::Array(ae) => {
                let ty = match self.ty.as_llvm_type(ctx) {
                    Ok(t) => t,
                    Err(er) => {
                        return Err(er);
                    },
                };
                let slot = ctx.emit(Inst::Alloca(ty));
                let n = ae.items.len();
                proof {
                    assert(ae.items@.subrange(0, n as int) =~= ae.items@);
                }
                match codegen_array_items(ctx, &slot, &ae.items, n) {
                    Ok(()) => Ok(ctx.emit(Inst::Load(slot))),
                    Err(er) => Err(er),
                }
            },
            ExprInner::IndexExpr(ie) => {
                let data = match (&*ie.name).codegen(ctx) {
                    Ok(v) => v,
                    Err(er) => {
                        return Err(er);
                    },
                };
                let idx = match (&*ie.index).codegen(ctx) {
                    Ok(v) => v,
                    Err(er) => {
                        return Err(er);
                    },
                };
                let ghost idx_v = idx;
                let mut idxs: Vec<Value> = Vec::new();
                idxs.push(idx);
                proof {
                    assert(idxs@ =~= seq![idx_v]);
                }
                let ptr = ctx.emit(Inst::Gep(data, idxs));
                Ok(ctx.emit(Inst::Load(ptr)))
            },
            ExprInner::FunctionCall(fc) => {
                let f = match (&*fc.name).codegen(ctx) {
                    Ok(v) => v,
                    Err(er) => {
                        return Err(er);
                    },
                };
                let n = fc.args.len();
                proof {
                    assert(fc.args@.subrange(0, n as int) =~= fc.args@);
                }
                let args = match codegen_args(ctx, &fc.args, n) {
                    Ok(v) => v,
                    Err(er) => {
                        return Err(er);
                    },
                };
                Ok(ctx.emit(Inst::Call(f, args)))
            },
            ExprInner::Binary(be) => {
                let l = match (&*be.lhs).codegen(ctx) {
                    Ok(v) => v,
                    Err(er) => {
                        return Err(er);
                    },
                };
                let r = match (&*be.rhs).codegen(ctx) {
                    Ok(v) => v,
                    Err(er) => {
                        return Err(er);
                    },
                };
                match be.op {
                    BinOp::Plus => Ok(ctx.emit(Inst::Add(l, r))),
                    BinOp::Minus => Ok(ctx.emit(Inst::Sub(l, r))),
                    BinOp::Times => Ok(ctx.emit(Inst::Mul(l, r))),
                    BinOp::Divide => Ok(ctx.emit(Inst::SDiv(l, r))),
                    BinOp::LogicalAnd => Ok(ctx.emit(Inst::And(l, r))),
                    BinOp::LogicalOr => Ok(ctx.emit(Inst::Or(l, r))),
                    BinOp::Equals => {
                        let lp = match (&*be.lhs).codegen_ptr(ctx) {
                            Ok(v) => v,
                            Err(er) => {
                                return Err(er);
                            },
                        };
                        Ok(ctx.emit(Inst::Store(r, lp)))
                    },
                    BinOp::Eq => Ok(ctx.emit(Inst::ICmp(Predicate::IntEQ, l, r))),
                    BinOp::Ne => Ok(ctx.emit(Inst::ICmp(Predicate::IntNE, l, r))),
                    BinOp::Gt => Ok(ctx.emit(Inst::ICmp(Predicate::IntSGT, l, r))),
                    BinOp::Gte => Ok(ctx.emit(Inst::ICmp(Predicate::IntSGE, l, r))),
                    BinOp::Lt => Ok(ctx.emit(Inst::ICmp(Predicate::IntSLT, l, r))),
                    BinOp::Lte => Ok(ctx.emit(Inst::ICmp(Predicate::IntSLE, l, r))),
                }
            },
            ExprInner::Unary(ue) => {
                let dv = match (&*ue.data).codegen(ctx) {
                    Ok(v) => v,
                    Err(er) => {
                        return Err(er);
                    },
                };
                match ue.op {
                    UnaryOp::Reference => (&*ue.data).codegen_ptr(ctx),
                    UnaryOp::Deref => Ok(ctx.emit(Inst::Load(dv))),
                    UnaryOp::Minus => Ok(ctx.emit(Inst::Neg(dv))),
                    UnaryOp::Not => Ok(ctx.emit(Inst::Not(dv))),
                }
            },
            ExprInner::Cast(cast) => {
                let ov = match (&*cast.original).codegen(ctx) {
                    Ok(v) => v,
                    Err(er) => {
                        return Err(er);
                    },
                };
                let src = match cast.original.ty.as_llvm_type(ctx) {
                    Ok(t) => t,
                    Err(er) => {
                        return Err(er);
                    },
                };
                let dst = match cast.to_type.as_llvm_type(ctx) {
                    Ok(t) => t,
                    Err(er) => {
                        return Err(er);
                    },
                };
                if crate::codegen::impls::type_to_llvm::ir_type_is_int(&src)
                    && crate::codegen::impls::type_to_llvm::ir_type_is_int(&dst) {
                    Ok(ctx.emit(Inst::SExt(ov, dst)))
                } else {
                    Err(CodegenError::UnsupportedCast)
                }
            },
            ExprInner::Literal(lit) => lit.codegen(ctx),
            ExprInner::Ident(name) => {
                let sym = match ctx.symbols.get_symbol(name.as_str()) {
                    Some(s) => s.clone(),
                    None => {
                        return Err(CodegenError::UnknownSymbol);
                    },
                };
                match sym.ty {
                    SymbolType::Func => Ok(sym.value),
                    _ => Ok(ctx.emit(Inst::Load(sym.value))),
                }
            },
        }
    }

    /// Emit the code of this expression as an lvalue and yield a pointer to
    /// its storage.
    pub fn codegen_ptr(&self, ctx: &mut CompilerContext) -> (r: Result<Value, CodegenError>)
        requires
            ready(old(ctx)@),
        ensures
            match r {
                Ok(v) => lower_expr_ptr_s(old(ctx)@, self@) == Ok::<
                    (CtxV, Value),
                    CodegenError,
                >((final(ctx)@, v)) && ready(final(ctx)@),
                Err(er) => lower_expr_ptr_s(old(ctx)@, self@) == Err::<
                    (CtxV, Value),
                    CodegenError,
                >(er),
            },
        decreases self,
    {
        match &self.val {
            ExprInner::Ident(name) => {
                match ctx.symbols.get_symbol(name.as_str()) {
                    Some(s) => Ok(s.value.clone()),
                    None => Err(CodegenError::UnknownSymbol),
                }
            },
            ExprInner::IndexExpr(ie) => {
                let data = match (&*ie.name).codegen(ctx) {
                    Ok(v) => v,
                    Err(er) => {
                        return Err(er);
                    },
                };
                let idx = match (&*ie.index).codegen(ctx) {
                    Ok(v) => v,
                    Err(er) => {
                        return Err(er);
                    },
                };
                let ghost idx_v = idx;
                let mut idxs: Vec<Value> = Vec::new();
                idxs.push(idx);
                proof {
                    assert(idxs@ =~= seq![idx_v]);
                }
                Ok(ctx.emit(Inst::Gep(data, idxs)))
            },
            ExprInner::Unary(ue) => {
                if matches!(ue.op, UnaryOp::Deref) {
                    (&*ue.data).codegen(ctx)
                } else {
                    Err(CodegenError::BadPtrGen)
                }
            },
            _ => Err(CodegenError::BadPtrGen),
        }
    }
}

/// Lower the first `n` arguments of a call, left to right.
fn codegen_args(ctx: &mut CompilerContext, es: &Vec<Expr>, n: usize) -> (r: Result<
    Vec<Value>,
    CodegenError,
>)
    requires
        ready(old(ctx)@),
        n <= es@.len(),
    ensures
        match r {
            Ok(vals) => lower_expr_list_s(old(ctx)@, view_expr_seq(es@.subrange(0, n as int)))
                == Ok::<(CtxV, Seq<Value>), CodegenError>((final(ctx)@, vals@)) && vals@.len()
                == n && ready(final(ctx)@),
            Err(er) => lower_expr_list_s(old(ctx)@, view_expr_seq(es@.subrange(0, n as int)))
                == Err::<(CtxV, Seq<Value>), CodegenError>(er),
        },
    decreases es@.subrange(0, n as int),
{
    if n == 0 {
        proof {
            assert(es@.subrange(0, 0) =~= Seq::<Expr>::empty());
        }
        Ok(Vec::new())
    } else {
        proof {
            let sub = es@.subrange(0, n as int);
            assert(sub.drop_last() =~= es@.subrange(0, n - 1));
            assert(sub.last() == es@[n - 1]);
            let subv = view_expr_seq(sub);
            assert(subv.drop_last() =~= view_expr_seq(es@.subrange(0, n - 1)));
            assert(subv.last() == view_expr(es@[n - 1]));
            assert(decreases_to!(es@.subrange(0, n as int) => es@.subrange(0, n - 1)));
            assert(decreases_to!(es@.subrange(0, n as int) => es@[n - 1]));
        }
        let mut vals = match codegen_args(ctx, es, n - 1) {
            Ok(v) => v,
            Err(er) => {
                return Err(er);
            },
        };
        let v = match es[n - 1].codegen(ctx) {
            Ok(v) => v,
            Err(er) => {
                return Err(er);
            },
        };
        let ghost pre = vals@;
        vals.push(v);
        proof {
            assert(vals@.drop_last() =~= pre);
        }
        Ok(vals)
    }
}

/// Store the first `n` array items at their element pointers.
fn codegen_array_items(ctx: &mut CompilerContext, slot: &Value, es: &Vec<Expr>, n: usize) -> (r:
    Result<(), CodegenError>)
    requires
        ready(old(ctx)@),
        n <= es@.len(),
    ensures
        match r {
            Ok(()) => lower_array_items_s(old(ctx)@, *slot, view_expr_seq(es@.subrange(0, n as int)))
                == Ok::<CtxV, CodegenError>(final(ctx)@) && ready(final(ctx)@),
            Err(er) => lower_array_items_s(
                old(ctx)@,
                *slot,
                view_expr_seq(es@.subrange(0, n as int)),
            ) == Err::<CtxV, CodegenError>(er),
        },
    decreases es@.subrange(0, n as int),
{
    if n == 0 {
        proof {
            assert(es@.subrange(0, 0) =~= Seq::<Expr>::empty());
        }
        Ok(())
    } else {
        proof {
            let sub = es@.subrange(0, n as int);
            assert(sub.drop_last() =~= es@.subrange(0, n - 1));
            assert(sub.last() == es@[n - 1]);
            let subv = view_expr_seq(sub);
            assert(subv.drop_last() =~= view_expr_seq(es@.subrange(0, n - 1)));
            assert(subv.last() == view_expr(es@[n - 1]));
            lemma_view_expr_seq_props(sub);
            assert(decreases_to!(es@.subrange(0, n as int) => es@.subrange(0, n - 1)));
            assert(decreases_to!(es@.subrange(0, n as int) => es@[n - 1]));
        }
        match codegen_array_items(ctx, slot, es, n - 1) {
            Ok(()) => {},
            Err(er) => {
                return Err(er);
            },
        }
        let v = match es[n - 1].codegen(ctx) {
            Ok(v) => v,
            Err(er) => {
                return Err(er);
            },
        };
        let idx_val = Value::ConstInt(IrType::I64, (n - 1) as i128);
        let zero = Value::ConstInt(IrType::I64, 0);
        let ghost gep_indices = seq![idx_val, zero];
        let mut idxs: Vec<Value> = Vec::new();
        idxs.push(idx_val);
        idxs.push(zero);
        proof {
            assert(idxs@ =~= gep_indices);
            assert(view_expr_seq(es@.subrange(0, n as int)).len() == n);
        }
        let ptr = ctx.emit(Inst::Gep(slot.clone(), idxs));
        ctx.emit(Inst::Store(v, ptr));
        Ok(())
    }
}

/// Store the first `n` constructor fields through their field pointers.
fn codegen_class_fields(
    ctx: &mut CompilerContext,
    def: &crate::type_checker::typed_ast::ClassDef,
    slot: &Value,
    fields: &Vec<(String, Box<Expr>)>,
    n: usize,
) -> (r: Result<(), CodegenError>)
    requires
        ready(old(ctx)@),
        n <= fields@.len(),
    ensures
        match r {
            Ok(()) => lower_class_fields_s(
                old(ctx)@,
                def@,
                *slot,
                view_expr_fields(fields@.subrange(0, n as int)),
            ) == Ok::<CtxV, CodegenError>(final(ctx)@) && ready(final(ctx)@),
            Err(er) => lower_class_fields_s(
                old(ctx)@,
                def@,
                *slot,
                view_expr_fields(fields@.subrange(0, n as int)),
            ) == Err::<CtxV, CodegenError>(er),
        },
    decreases fields@.subrange(0, n as int),
{
    if n == 0 {
        proof {
            assert(fields@.subrange(0, 0) =~= Seq::<(String, Box<Expr>)>::empty());
        }
        Ok(())
    } else {
        proof {
            let sub = fields@.subrange(0, n as int);
            assert(sub.drop_last() =~= fields@.subrange(0, n - 1));
            assert(sub.last() == fields@[n - 1]);
            let subv = view_expr_fields(sub);
            assert(subv.drop_last() =~= view_expr_fields(fields@.subrange(0, n - 1)));
            assert(subv.last() == (fields@[n - 1].0@, view_expr(*fields@[n - 1].1)));
            assert(decreases_to!(fields@.subrange(0, n as int) => fields@.subrange(0, n - 1)));
            assert(decreases_to!(fields@.subrange(0, n as int) => fields@[n - 1]));
        }
        match codegen_class_fields(ctx, def, slot, fields, n - 1) {
            Ok(()) => {},
            Err(er) => {
                return Err(er);
            },
        }
        let i = match find_field(&def.fields, &fields[n - 1].0) {
            Some(i) => i,
            None => {
                return Err(CodegenError::UnknownField);
            },
        };
        let ptr = ctx.emit(Inst::StructGep(slot.clone(), i));
        let v = match (&*fields[n - 1].1).codegen(ctx) {
            Ok(v) => v,
            Err(er) => {
                return Err(er);
            },
        };
        ctx.emit(Inst::Store(v, ptr));
        Ok(())
    }
}

} // verus!

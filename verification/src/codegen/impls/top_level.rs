//! Lowering of top-level items and whole programs.

use vstd::prelude::*;

use crate::codegen::context::{
    add_class_s, add_func_s, add_function_s, append_block_s, bind_symbol_s, emit_s, emit_val_s,
    idle, pop_func_s, pop_scope_s, position_s, push_scope_s, ready, terminate_s, CompilerContext,
    CtxV,
};
use crate::codegen::context::add_struct_s;
use crate::codegen::error::CodegenError;
use crate::codegen::impls::stmt::{
    codegen_stmts, lemma_stmt_list_frame, lower_stmt_list_s, stmt_frame,
};
use crate::codegen::impls::type_to_llvm::lower_type_s;
use crate::codegen::ir::{Inst, InstV, IrType, Terminator, Value};
use crate::codegen::symbol::{Symbol, SymbolType};
use crate::type_checker::typed_ast::{
    lemma_view_binding_seq_len, lemma_view_class_fields_index, view_binding_seq,
    view_class_fields, view_top_seq, ClassDef, ClassDefV, ExternDef, ExternDefV, FunctionDef,
    FunctionDefV, GlobalConstDef, Program, TopLevelStmt, TopLevelStmtV, TypeBindingV, TypeV,
};

verus! {

/// Lower the types of a class's fields, in declaration order.
pub open spec fn lower_field_types_s(
    classes: Seq<(Seq<char>, usize, ClassDefV)>,
    fields: Seq<(Seq<char>, TypeV)>,
) -> Result<Seq<IrType>, CodegenError>
    decreases fields,
{
    if fields.len() == 0 {
        Ok(Seq::empty())
    } else {
        match lower_field_types_s(classes, fields.drop_last()) {
            Err(er) => Err(er),
            Ok(tys) => match lower_type_s(classes, fields.last().1) {
                Err(er) => Err(er),
                Ok(ty) => Ok(tys.push(ty)),
            },
        }
    }
}

/// Lower the declared types of a parameter list.
pub open spec fn lower_param_types_s(
    classes: Seq<(Seq<char>, usize, ClassDefV)>,
    params: Seq<TypeBindingV>,
) -> Result<Seq<IrType>, CodegenError>
    decreases params,
{
    if params.len() == 0 {
        Ok(Seq::empty())
    } else {
        match lower_param_types_s(classes, params.drop_last()) {
            Err(er) => Err(er),
            Ok(tys) => match lower_type_s(classes, params.last().ty) {
                Err(er) => Err(er),
                Ok(ty) => Ok(tys.push(ty)),
            },
        }
    }
}

/// A class definition registers a named struct with its lowered field types
/// and records the definition for later field-order lookups.
pub open spec fn lower_class_def_s(c: CtxV, d: ClassDefV) -> Result<CtxV, CodegenError> {
    match lower_field_types_s(c.classes, d.fields) {
        Err(er) => Err(er),
        Ok(tys) => {
            let sid = c.module.structs.len() as usize;
            Ok(add_class_s(add_struct_s(c, d.name, tys), d.name, sid, d))
        },
    }
}

/// Bind each parameter: allocate a slot of its type, store the incoming
/// value, and record the slot under the parameter's name with kind `Const`.
pub open spec fn lower_params_bind_s(c: CtxV, params: Seq<TypeBindingV>) -> Result<
    CtxV,
    CodegenError,
>
    decreases params,
{
    if params.len() == 0 {
        Ok(c)
    } else {
        match lower_params_bind_s(c, params.drop_last()) {
            Err(er) => Err(er),
            Ok(c1) => match lower_type_s(c1.classes, params.last().ty) {
                Err(er) => Err(er),
                Ok(ty) => {
                    let slot = emit_val_s(c1);
                    let c2 = emit_s(c1, InstV::Alloca(ty));
                    let c3 = emit_s(
                        c2,
                        InstV::Store(Value::Param((params.len() - 1) as usize), slot),
                    );
                    Ok(
                        bind_symbol_s(
                            c3,
                            params.last().name,
                            Symbol { value: slot, ty: SymbolType::Const },
                        ),
                    )
                },
            },
        }
    }
}

/// A function definition adds a function with its lowered signature, opens
/// an entry block and a parameter scope, binds the parameters, lowers the
/// body, appends a void return when no return type was declared, closes the
/// scope and the function, and records the function under its name with
/// kind `Func`.
pub open spec fn lower_function_def_s(c: CtxV, f: FunctionDefV) -> Result<CtxV, CodegenError> {
    match lower_param_types_s(c.classes, f.params) {
        Err(er) => Err(er),
        Ok(ptys) => match lower_type_s(c.classes, f.return_type) {
            Err(er) => Err(er),
            Ok(rty) => {
                let fid = c.module.funcs.len() as usize;
                let c1 = add_function_s(c, f.name, ptys, rty);
                let entry = c1.module.funcs[fid as int].blocks.len() as usize;
                let c2 = append_block_s(c1, fid);
                let c3 = add_func_s(c2, fid);
                let c4 = position_s(c3, fid, entry);
                let c5 = push_scope_s(c4);
                match lower_params_bind_s(c5, f.params) {
                    Err(er) => Err(er),
                    Ok(c6) => match lower_stmt_list_s(c6, f.body.inners) {
                        Err(er) => Err(er),
                        Ok(c7) => {
                            let c8 = if f.return_type == TypeV::NoneType {
                                terminate_s(c7, Terminator::RetVoid)
                            } else {
                                c7
                            };
                            let c9 = pop_scope_s(c8);
                            let c10 = pop_func_s(c9);
                            Ok(
                                bind_symbol_s(
                                    c10,
                                    f.name,
                                    Symbol { value: Value::FuncRef(fid), ty: SymbolType::Func },
                                ),
                            )
                        },
                    },
                }
            },
        },
    }
}

/// An extern declaration adds a bodiless function with its lowered
/// signature and records it under its name with kind `Func`.
pub open spec fn lower_extern_def_s(c: CtxV, x: ExternDefV) -> Result<CtxV, CodegenError> {
    match lower_param_types_s(c.classes, x.params) {
        Err(er) => Err(er),
        Ok(ptys) => match lower_type_s(c.classes, x.return_type) {
            Err(er) => Err(er),
            Ok(rty) => {
                let fid = c.module.funcs.len() as usize;
                let c1 = add_function_s(c, x.name, ptys, rty);
                Ok(
                    bind_symbol_s(
                        c1,
                        x.name,
                        Symbol { value: Value::FuncRef(fid), ty: SymbolType::Func },
                    ),
                )
            },
        },
    }
}

pub open spec fn lower_top_s(c: CtxV, t: TopLevelStmtV) -> Result<CtxV, CodegenError> {
    match t {
        TopLevelStmtV::ClassDef(d) => lower_class_def_s(c, d),
        TopLevelStmtV::FunctionDef(f) => lower_function_def_s(c, f),
        TopLevelStmtV::ExternDef(x) => lower_extern_def_s(c, x),
        TopLevelStmtV::ConstDef(_g) => Err(CodegenError::Unsupported),
    }
}

pub open spec fn lower_top_list_s(c: CtxV, ts: Seq<TopLevelStmtV>) -> Result<CtxV, CodegenError>
    decreases ts,
{
    if ts.len() == 0 {
        Ok(c)
    } else {
        match lower_top_list_s(c, ts.drop_last()) {
            Err(er) => Err(er),
            Ok(c1) => lower_top_s(c1, ts.last()),
        }
    }
}

fn lower_field_types(ctx: &CompilerContext, fields: &Vec<(String, crate::type_checker::typed_ast::Type)>) -> (r: Result<
    Vec<IrType>,
    CodegenError,
>)
    ensures
        match r {
            Ok(tys) => lower_field_types_s(ctx@.classes, view_class_fields(fields@)) == Ok::<
                Seq<IrType>,
                CodegenError,
            >(tys@),
            Err(er) => lower_field_types_s(ctx@.classes, view_class_fields(fields@)) == Err::<
                Seq<IrType>,
                CodegenError,
            >(er),
        },
{
    let mut tys: Vec<IrType> = Vec::new();
    let mut i: usize = 0;
    proof {
        assert(fields@.subrange(0, 0) =~= Seq::<
            (String, crate::type_checker::typed_ast::Type),
        >::empty());
        assert(view_class_fields(fields@.subrange(0, 0)) =~= Seq::<(Seq<char>, TypeV)>::empty());
    }
    while i < fields.len()
        invariant
            i <= fields@.len(),
            tys@.len() == i,
            lower_field_types_s(ctx@.classes, view_class_fields(fields@.subrange(0, i as int)))
                == Ok::<Seq<IrType>, CodegenError>(tys@),
        decreases fields@.len() - i,
    {
        proof {
            let sub = fields@.subrange(0, i + 1);
            assert(sub.drop_last() =~= fields@.subrange(0, i as int));
            assert(sub.last() == fields@[i as int]);
            let subv = view_class_fields(sub);
            assert(subv.drop_last() =~= view_class_fields(fields@.subrange(0, i as int)));
            assert(subv.last() == (fields@[i as int].0@, crate::type_checker::typed_ast::view_type(
                fields@[i as int].1,
            )));
        }
        match fields[i].1.as_llvm_type(ctx) {
            Ok(ty) => {
                let ghost pre = tys@;
                tys.push(ty);
                proof {
                    assert(tys@.drop_last() =~= pre);
                }
            },
            Err(er) => {
                proof {
                    lemma_field_types_err(ctx@.classes, fields@, i as int, er);
                }
                return Err(er);
            },
        }
        i = i + 1;
    }
    proof {
        assert(fields@.subrange(0, fields@.len() as int) =~= fields@);
    }
    Ok(tys)
}

proof fn lemma_field_types_err(
    classes: Seq<(Seq<char>, usize, ClassDefV)>,
    fields: Seq<(String, crate::type_checker::typed_ast::Type)>,
    i: int,
    er: CodegenError,
)
    requires
        0 <= i < fields.len(),
        lower_field_types_s(classes, view_class_fields(fields.subrange(0, i))) is Ok,
        lower_type_s(classes, crate::type_checker::typed_ast::view_type(fields[i].1)) == Err::<
            IrType,
            CodegenError,
        >(er),
    ensures
        lower_field_types_s(classes, view_class_fields(fields)) == Err::<
            Seq<IrType>,
            CodegenError,
        >(er),
    decreases fields.len(),
{
    lemma_view_class_fields_index(fields);
    if i == fields.len() - 1 {
        assert(fields.drop_last() =~= fields.subrange(0, i));
        let fv = view_class_fields(fields);
        assert(fv.drop_last() =~= view_class_fields(fields.subrange(0, i)));
        assert(fv.last() == (fields[i].0@, crate::type_checker::typed_ast::view_type(
            fields[i].1,
        )));
    } else {
        assert(fields.drop_last().subrange(0, i) =~= fields.subrange(0, i));
        assert(fields.drop_last()[i] == fields[i]);
        lemma_field_types_err(classes, fields.drop_last(), i, er);
        let fv = view_class_fields(fields);
        assert(fv.drop_last() =~= view_class_fields(fields.drop_last()));
    }
}

fn lower_param_types(ctx: &CompilerContext, params: &Vec<crate::type_checker::typed_ast::TypeBinding>) -> (r:
    Result<Vec<IrType>, CodegenError>)
    ensures
        match r {
            Ok(tys) => lower_param_types_s(ctx@.classes, view_binding_seq(params@)) == Ok::<
                Seq<IrType>,
                CodegenError,
            >(tys@),
            Err(er) => lower_param_types_s(ctx@.classes, view_binding_seq(params@)) == Err::<
                Seq<IrType>,
                CodegenError,
            >(er),
        },
{
    let mut tys: Vec<IrType> = Vec::new();
    let mut i: usize = 0;
    proof {
        assert(params@.subrange(0, 0) =~= Seq::<
            crate::type_checker::typed_ast::TypeBinding,
        >::empty());
        assert(view_binding_seq(params@.subrange(0, 0)) =~= Seq::<TypeBindingV>::empty());
    }
    while i < params.len()
        invariant
            i <= params@.len(),
            tys@.len() == i,
            lower_param_types_s(ctx@.classes, view_binding_seq(params@.subrange(0, i as int)))
                == Ok::<Seq<IrType>, CodegenError>(tys@),
        decreases params@.len() - i,
    {
        proof {
            let sub = params@.subrange(0, i + 1);
            assert(sub.drop_last() =~= params@.subrange(0, i as int));
            assert(sub.last() == params@[i as int]);
            let subv = view_binding_seq(sub);
            assert(subv.drop_last() =~= view_binding_seq(params@.subrange(0, i as int)));
            assert(subv.last() == crate::type_checker::typed_ast::view_binding(
                params@[i as int],
            ));
        }
        match params[i].ty.as_llvm_type(ctx) {
            Ok(ty) => {
                let ghost pre = tys@;
                tys.push(ty);
                proof {
                    assert(tys@.drop_last() =~= pre);
                }
            },
            Err(er) => {
                proof {
                    lemma_param_types_err(ctx@.classes, params@, i as int, er);
                }
                return Err(er);
            },
        }
        i = i + 1;
    }
    proof {
        assert(params@.subrange(0, params@.len() as int) =~= params@);
    }
    Ok(tys)
}

proof fn lemma_param_types_err(
    classes: Seq<(Seq<char>, usize, ClassDefV)>,
    params: Seq<crate::type_checker::typed_ast::TypeBinding>,
    i: int,
    er: CodegenError,
)
    requires
        0 <= i < params.len(),
        lower_param_types_s(classes, view_binding_seq(params.subrange(0, i))) is Ok,
        lower_type_s(classes, crate::type_checker::typed_ast::view_type(params[i].ty)) == Err::<
            IrType,
            CodegenError,
        >(er),
    ensures
        lower_param_types_s(classes, view_binding_seq(params)) == Err::<
            Seq<IrType>,
            CodegenError,
        >(er),
    decreases params.len(),
{
    if i == params.len() - 1 {
        assert(params.drop_last() =~= params.subrange(0, i));
        let pv = view_binding_seq(params);
        assert(pv.drop_last() =~= view_binding_seq(params.subrange(0, i)));
        assert(pv.last() == crate::type_checker::typed_ast::view_binding(params[i]));
    } else {
        assert(params.drop_last().subrange(0, i) =~= params.subrange(0, i));
        assert(params.drop_last()[i] == params[i]);
        lemma_param_types_err(classes, params.drop_last(), i, er);
        let pv = view_binding_seq(params);
        assert(pv.drop_last() =~= view_binding_seq(params.drop_last()));
    }
}

impl ClassDef {
    /// Register this class: a named struct with its lowered field types,
    /// and the definition itself for field-order lookups.
    pub fn codegen(&self, ctx: &mut CompilerContext) -> (r: Result<(), CodegenError>)
        ensures
            match r {
                Ok(()) => lower_class_def_s(old(ctx)@, self@) == Ok::<CtxV, CodegenError>(
                    final(ctx)@,
                ) && (idle(old(ctx)@) ==> idle(final(ctx)@)),
                Err(er) => lower_class_def_s(old(ctx)@, self@) == Err::<CtxV, CodegenError>(er),
            },
    {
        let tys = match lower_field_types(ctx, &self.fields) {
            Ok(t) => t,
            Err(er) => {
                return Err(er);
            },
        };
        let sid = ctx.add_struct(self.name.clone(), tys);
        let _ = ctx.add_class(sid, self.clone());
        Ok(())
    }
}

impl ExternDef {
    /// Declare this extern: a bodiless function with its lowered signature.
    pub fn codegen(&self, ctx: &mut CompilerContext) -> (r: Result<(), CodegenError>)
        requires
            old(ctx)@.symbols.len() >= 1,
        ensures
            match r {
                Ok(()) => lower_extern_def_s(old(ctx)@, self@) == Ok::<CtxV, CodegenError>(
                    final(ctx)@,
                ) && (idle(old(ctx)@) ==> idle(final(ctx)@)),
                Err(er) => lower_extern_def_s(old(ctx)@, self@) == Err::<CtxV, CodegenError>(er),
            },
    {
        let ptys = match lower_param_types(ctx, &self.params) {
            Ok(t) => t,
            Err(er) => {
                return Err(er);
            },
        };
        let rty = match self.return_type.as_llvm_type(ctx) {
            Ok(t) => t,
            Err(er) => {
                return Err(er);
            },
        };
        let fid = ctx.add_function(self.name.clone(), ptys, rty);
        let _ = ctx.symbols.add_symbol(
            self.name.clone(),
            Symbol::new(Value::FuncRef(fid), SymbolType::Func),
        );
        Ok(())
    }
}

impl GlobalConstDef {
    /// Lowering of global constants is reserved.
    pub fn codegen(&self, _ctx: &mut CompilerContext) -> (r: Result<(), CodegenError>)
        ensures
            r == Err::<(), CodegenError>(CodegenError::Unsupported),
    {
        Err(CodegenError::Unsupported)
    }
}

/// Bind the first `n` parameters to fresh slots holding their incoming
/// values.
fn codegen_params(ctx: &mut CompilerContext, params: &Vec<crate::type_checker::typed_ast::TypeBinding>, n: usize) -> (r:
    Result<(), CodegenError>)
    requires
        ready(old(ctx)@),
        n <= params@.len(),
    ensures
        match r {
            Ok(()) => lower_params_bind_s(old(ctx)@, view_binding_seq(params@.subrange(0, n as int)))
                == Ok::<CtxV, CodegenError>(final(ctx)@) && ready(final(ctx)@),
            Err(er) => lower_params_bind_s(
                old(ctx)@,
                view_binding_seq(params@.subrange(0, n as int)),
            ) == Err::<CtxV, CodegenError>(er),
        },
    decreases params@.subrange(0, n as int),
{
    if n == 0 {
        proof {
            assert(params@.subrange(0, 0) =~= Seq::<
                crate::type_checker::typed_ast::TypeBinding,
            >::empty());
        }
        Ok(())
    } else {
        proof {
            let sub = params@.subrange(0, n as int);
            assert(sub.drop_last() =~= params@.subrange(0, n - 1));
            assert(sub.last() == params@[n - 1]);
            let subv = view_binding_seq(sub);
            assert(subv.drop_last() =~= view_binding_seq(params@.subrange(0, n - 1)));
            assert(subv.last() == crate::type_checker::typed_ast::view_binding(
                params@[n - 1],
            ));
            lemma_view_binding_seq_len(sub);
            assert(decreases_to!(params@.subrange(0, n as int) => params@.subrange(0, n - 1)));
        }
        match codegen_params(ctx, params, n - 1) {
            Ok(()) => {},
            Err(er) => {
                return Err(er);
            },
        }
        let ty = match params[n - 1].ty.as_llvm_type(ctx) {
            Ok(t) => t,
            Err(er) => {
                return Err(er);
            },
        };
        let slot = ctx.emit(Inst::Alloca(ty));
        ctx.emit(Inst::Store(Value::Param(n - 1), slot.clone()));
        let _ = ctx.symbols.add_symbol(
            params[n - 1].name.clone(),
            Symbol::new(slot, SymbolType::Const),
        );
        Ok(())
    }
}

impl FunctionDef {
    /// Lower this function: signature, entry block, parameter slots, body,
    /// and a trailing void return when no return type was declared.
    #[verifier::rlimit(100)]
    #[verifier::spinoff_prover]
    pub fn codegen(&self, ctx: &mut CompilerContext) -> (r: Result<(), CodegenError>)
        requires
            idle(old(ctx)@),
        ensures
            match r {
                Ok(()) => lower_function_def_s(old(ctx)@, self@) == Ok::<CtxV, CodegenError>(
                    final(ctx)@,
                ) && idle(final(ctx)@),
                Err(er) => lower_function_def_s(old(ctx)@, self@) == Err::<
                    CtxV,
                    CodegenError,
                >(er),
            },
    {
        let ghost c0 = old(ctx)@;
        let ptys = match lower_param_types(ctx, &self.params) {
            Ok(t) => t,
            Err(er) => {
                return Err(er);
            },
        };
        let rty = match self.return_type.as_llvm_type(ctx) {
            Ok(t) => t,
            Err(er) => {
                return Err(er);
            },
        };
        let fid = ctx.add_function(self.name.clone(), ptys, rty);
        let ghost sc1 = ctx@;
        let entry = ctx.append_block(fid);
        let ghost sc2 = ctx@;
        ctx.add_func(fid);
        let ghost sc3 = ctx@;
        ctx.position_at_end(fid, entry);
        let ghost sc4 = ctx@;
        ctx.symbols.push_scope();
        let ghost sc5 = ctx@;
        proof {
            assert(sc2 == append_block_s(sc1, fid));
            assert(sc3 == add_func_s(sc2, fid));
            assert(sc4 == position_s(sc3, fid, entry));
            assert(sc5 == push_scope_s(sc4));
            assert(ready(sc5));
        }
        let np = self.params.len();
        proof {
            assert(self.params@.subrange(0, np as int) =~= self.params@);
        }
        match codegen_params(ctx, &self.params, np) {
            Ok(()) => {},
            Err(er) => {
                return Err(er);
            },
        }
        let ghost sc6 = ctx@;
        proof {
            lemma_params_frame(sc5, self@.params);
        }
        let nb = self.body.inners.len();
        proof {
            assert(self.body.inners@.subrange(0, nb as int) =~= self.body.inners@);
        }
        match codegen_stmts(ctx, &self.body.inners, nb) {
            Ok(()) => {},
            Err(er) => {
                return Err(er);
            },
        }
        let ghost sc7 = ctx@;
        proof {
            lemma_stmt_list_frame(sc6, self@.body.inners);
        }
        if matches!(self.return_type, crate::type_checker::typed_ast::Type::NoneType) {
            ctx.terminate(Terminator::RetVoid);
        }
        let ghost sc8 = ctx@;
        let _ = ctx.symbols.pop_scope();
        let ghost sc9 = ctx@;
        ctx.pop_func();
        let ghost sc10 = ctx@;
        let _ = ctx.symbols.add_symbol(
            self.name.clone(),
            Symbol::new(Value::FuncRef(fid), SymbolType::Func),
        );
        proof {
            assert(sc9 == pop_scope_s(sc8));
            assert(sc10 == pop_func_s(sc9));
            assert(idle(ctx@));
        }
        Ok(())
    }
}

/// Binding parameters only appends instructions and top-scope bindings: the
/// stack, the position, the classes and the scope count are untouched.
proof fn lemma_params_frame(c: CtxV, params: Seq<TypeBindingV>)
    ensures
        lower_params_bind_s(c, params) matches Ok(c2) ==> c2.classes == c.classes
            && c2.func_stack == c.func_stack && c2.pos == c.pos && c2.symbols.len()
            == c.symbols.len() && c2.module.funcs.len() == c.module.funcs.len() && (forall|
            fi: int,
        |
            0 <= fi < c.module.funcs.len() ==> c2.module.funcs[fi].blocks.len()
                == c.module.funcs[fi].blocks.len()),
    decreases params,
{
    if params.len() > 0 {
        lemma_params_frame(c, params.drop_last());
    }
}

impl Program {
    /// Lower every top-level item of this program, in source order.
    pub fn codegen(&self, ctx: &mut CompilerContext) -> (r: Result<(), CodegenError>)
        requires
            idle(old(ctx)@),
        ensures
            match r {
                Ok(()) => lower_top_list_s(old(ctx)@, self@.0) == Ok::<CtxV, CodegenError>(
                    final(ctx)@,
                ) && idle(final(ctx)@),
                Err(er) => lower_top_list_s(old(ctx)@, self@.0) == Err::<CtxV, CodegenError>(er),
            },
    {
        let n = self.0.len();
        proof {
            assert(self.0@.subrange(0, n as int) =~= self.0@);
        }
        codegen_items(ctx, &self.0, n)
    }
}

/// Lower the first `n` top-level items.
fn codegen_items(ctx: &mut CompilerContext, items: &Vec<TopLevelStmt>, n: usize) -> (r: Result<
    (),
    CodegenError,
>)
    requires
        idle(old(ctx)@),
        n <= items@.len(),
    ensures
        match r {
            Ok(()) => lower_top_list_s(old(ctx)@, view_top_seq(items@.subrange(0, n as int)))
                == Ok::<CtxV, CodegenError>(final(ctx)@) && idle(final(ctx)@),
            Err(er) => lower_top_list_s(old(ctx)@, view_top_seq(items@.subrange(0, n as int)))
                == Err::<CtxV, CodegenError>(er),
        },
    decreases items@.subrange(0, n as int),
{
    if n == 0 {
        proof {
            assert(items@.subrange(0, 0) =~= Seq::<TopLevelStmt>::empty());
        }
        Ok(())
    } else {
        proof {
            let sub = items@.subrange(0, n as int);
            assert(sub.drop_last() =~= items@.subrange(0, n - 1));
            assert(sub.last() == items@[n - 1]);
            let subv = view_top_seq(sub);
            assert(subv.drop_last() =~= view_top_seq(items@.subrange(0, n - 1)));
            assert(subv.last() == crate::type_checker::typed_ast::view_top(items@[n - 1]));
            assert(decreases_to!(items@.subrange(0, n as int) => items@.subrange(0, n - 1)));
        }
        match codegen_items(ctx, items, n - 1) {
            Ok(()) => {},
            Err(er) => {
                return Err(er);
            },
        }
        match &items[n - 1] {
            TopLevelStmt::ClassDef(d) => match d.codegen(ctx) {
                Ok(()) => Ok(()),
                Err(er) => Err(er),
            },
            TopLevelStmt::FunctionDef(f) => match f.codegen(ctx) {
                Ok(()) => Ok(()),
                Err(er) => Err(er),
            },
            TopLevelStmt::ExternDef(x) => match x.codegen(ctx) {
                Ok(()) => Ok(()),
                Err(er) => Err(er),
            },
            TopLevelStmt::ConstDef(g) => match g.codegen(ctx) {
                Ok(()) => Ok(()),
                Err(er) => Err(er),
            },
        }
    }
}

/// Law: lowering a typed program is a function of the program alone; two
/// runs from fresh contexts build structurally identical modules.
pub proof fn lemma_lowering_deterministic(p: Seq<TopLevelStmtV>, c1: CtxV, c2: CtxV)
    requires
        c1 == crate::codegen::context::init_ctx(),
        c2 == crate::codegen::context::init_ctx(),
    ensures
        lower_top_list_s(c1, p) == lower_top_list_s(c2, p),
{
}

} // verus!

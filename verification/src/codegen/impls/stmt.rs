//! Lowering of typed statements to IR.

use vstd::prelude::*;

use crate::codegen::context::{
    append_block_s, bind_symbol_s, emit_s, emit_val_s, position_s, ready, terminate_s,
    CompilerContext, CtxV,
};
use crate::codegen::error::CodegenError;
use crate::codegen::impls::expr::{lemma_expr_frame, lower_expr_s};
use crate::codegen::ir::{Inst, InstV, Terminator};
use crate::codegen::symbol::{Symbol, SymbolType};
use crate::type_checker::typed_ast::{
    view_stmt, view_stmt_seq, BlockStmt, IfOrElseV, IfStmt, IfStmtV, Stmt, StmtV, WhileStmt,
    WhileStmtV,
};

verus! {

broadcast use crate::type_checker::typed_ast::lemma_view_if_unfold, crate::type_checker::typed_ast::lemma_view_block_unfold;

/// What lowering a statement yields.  A binding statement allocates a slot
/// of its declared type, lowers its right-hand side, stores it, and binds
/// the name to the slot in the innermost scope.  `return` lowers its
/// expression and terminates the current block with a return of it.  A
/// block statement lowers its statements in order; name resolution has
/// already happened, so no scope of its own is opened here.
pub open spec fn lower_stmt_s(c: CtxV, s: StmtV) -> Result<CtxV, CodegenError>
    decreases s,
{
    match s {
        StmtV::ExprStmt(e) => match lower_expr_s(c, e) {
            Err(er) => Err(er),
            Ok((c1, _v)) => Ok(c1),
        },
        StmtV::BlockStmt(b) => lower_stmt_list_s(c, b.inners),
        StmtV::IfStmt(i) => lower_if_s(c, i),
        StmtV::WhileStmt(w) => lower_while_s(c, w),
        StmtV::ConstDef(d) => match lower_type_s_of(c, d.binding.ty) {
            Err(er) => Err(er),
            Ok(ty) => {
                let slot = emit_val_s(c);
                let c1 = emit_s(c, InstV::Alloca(ty));
                match lower_expr_s(c1, d.value) {
                    Err(er) => Err(er),
                    Ok((c2, v)) => Ok(
                        bind_symbol_s(
                            emit_s(c2, InstV::Store(v, slot)),
                            d.binding.name,
                            Symbol { value: slot, ty: SymbolType::Const },
                        ),
                    ),
                }
            },
        },
        StmtV::VarDef(d) => match lower_type_s_of(c, d.binding.ty) {
            Err(er) => Err(er),
            Ok(ty) => {
                let slot = emit_val_s(c);
                let c1 = emit_s(c, InstV::Alloca(ty));
                match lower_expr_s(c1, d.value) {
                    Err(er) => Err(er),
                    Ok((c2, v)) => Ok(
                        bind_symbol_s(
                            emit_s(c2, InstV::Store(v, slot)),
                            d.binding.name,
                            Symbol { value: slot, ty: SymbolType::Var },
                        ),
                    ),
                }
            },
        },
        StmtV::ReturnStmt(e) => match lower_expr_s(c, e) {
            Err(er) => Err(er),
            Ok((c1, v)) => Ok(terminate_s(c1, Terminator::Ret(v))),
        },
    }
}

/// Shorthand for lowering a source type against a context's registry.
pub open spec fn lower_type_s_of(c: CtxV, t: crate::type_checker::typed_ast::TypeV) -> Result<
    crate::codegen::ir::IrType,
    CodegenError,
> {
    crate::codegen::impls::type_to_llvm::lower_type_s(c.classes, t)
}

pub open spec fn lower_stmt_list_s(c: CtxV, ss: Seq<StmtV>) -> Result<CtxV, CodegenError>
    decreases ss,
{
    if ss.len() == 0 {
        Ok(c)
    } else {
        match lower_stmt_list_s(c, ss.drop_last()) {
            Err(er) => Err(er),
            Ok(c1) => lower_stmt_s(c1, ss.last()),
        }
    }
}

/// Lowering of `if`: append `then`, `else` and `merge` blocks to the
/// current function; branch on the condition; fill `then` with the body and
/// branch to `merge`; fill `else` with the else-tail, if any, and branch to
/// `merge`; leave the builder at `merge`.
pub open spec fn lower_if_s(c: CtxV, i: IfStmtV) -> Result<CtxV, CodegenError>
    decreases i,
{
    match lower_expr_s(c, i.condition) {
        Err(er) => Err(er),
        Ok((c1, cond)) => {
            let f = c1.func_stack.last();
            let then_b = c1.module.funcs[f as int].blocks.len() as usize;
            let c2 = append_block_s(c1, f);
            let else_b = c2.module.funcs[f as int].blocks.len() as usize;
            let c3 = append_block_s(c2, f);
            let merge_b = c3.module.funcs[f as int].blocks.len() as usize;
            let c4 = append_block_s(c3, f);
            let c5 = terminate_s(c4, Terminator::CondBr(cond, then_b, else_b));
            let c6 = position_s(c5, f, then_b);
            match lower_stmt_list_s(c6, i.body.inners) {
                Err(er) => Err(er),
                Ok(c7) => {
                    let c8 = terminate_s(c7, Terminator::Br(merge_b));
                    let c9 = position_s(c8, f, else_b);
                    let after_else = match i.else_stmt {
                        None => Ok(c9),
                        Some(IfOrElseV::If(inner)) => lower_if_s(c9, *inner),
                        Some(IfOrElseV::Else(b)) => lower_stmt_list_s(c9, b.inners),
                    };
                    match after_else {
                        Err(er) => Err(er),
                        Ok(c10) => {
                            let c11 = terminate_s(c10, Terminator::Br(merge_b));
                            Ok(position_s(c11, f, merge_b))
                        },
                    }
                },
            }
        },
    }
}

/// Lowering of `while`: append `cond`, `body` and `exit` blocks; branch to
/// `cond`; fill `cond` with the condition and a conditional branch; fill
/// `body` with the body and a branch back to `cond`; leave the builder at
/// `exit`.
pub open spec fn lower_while_s(c: CtxV, w: WhileStmtV) -> Result<CtxV, CodegenError>
    decreases w,
{
    let f = c.func_stack.last();
    let cond_b = c.module.funcs[f as int].blocks.len() as usize;
    let c1 = append_block_s(c, f);
    let body_b = c1.module.funcs[f as int].blocks.len() as usize;
    let c2 = append_block_s(c1, f);
    let exit_b = c2.module.funcs[f as int].blocks.len() as usize;
    let c3 = append_block_s(c2, f);
    let c4 = terminate_s(c3, Terminator::Br(cond_b));
    let c5 = position_s(c4, f, cond_b);
    match lower_expr_s(c5, w.condition) {
        Err(er) => Err(er),
        Ok((c6, cond)) => {
            let c7 = terminate_s(c6, Terminator::CondBr(cond, body_b, exit_b));
            let c8 = position_s(c7, f, body_b);
            match lower_stmt_list_s(c8, w.body.inners) {
                Err(er) => Err(er),
                Ok(c9) => {
                    let c10 = terminate_s(c9, Terminator::Br(cond_b));
                    Ok(position_s(c10, f, exit_b))
                },
            }
        },
    }
}

/// What statement lowering leaves untouched: the class registry, the
/// function stack, the number of functions, and the number of scopes; block
/// counts only grow, so existing block names stay valid.
pub open spec fn stmt_frame(c: CtxV, c2: CtxV) -> bool {
    &&& c2.classes == c.classes
    &&& c2.func_stack == c.func_stack
    &&& c2.symbols.len() == c.symbols.len()
    &&& c2.module.funcs.len() == c.module.funcs.len()
    &&& forall|fi: int|
        0 <= fi < c.module.funcs.len() ==> c2.module.funcs[fi].blocks.len()
            >= c.module.funcs[fi].blocks.len()
}

/// A terminator, once set, is never changed: every block terminated in the
/// earlier state carries the same terminator in the later one.  Together
/// with a block's single optional terminator slot, this is what makes every
/// block terminated at most once.
pub open spec fn terms_monotone(c: CtxV, c2: CtxV) -> bool {
    forall|fi: int, bi: int|
        0 <= fi < c.module.funcs.len() && 0 <= bi < c.module.funcs[fi].blocks.len()
            && c.module.funcs[fi].blocks[bi].term is Some ==> (#[trigger] c2.module.funcs[
            fi
        ].blocks[bi]).term == c.module.funcs[fi].blocks[bi].term
}

pub proof fn lemma_stmt_terms_mono(c: CtxV, s: StmtV)
    ensures
        lower_stmt_s(c, s) matches Ok(c2) ==> terms_monotone(c, c2),
    decreases s,
{
    match s {
        StmtV::ExprStmt(e) => {
            lemma_expr_frame(c, e);
        },
        StmtV::BlockStmt(b) => {
            lemma_stmt_list_terms_mono(c, b.inners);
        },
        StmtV::IfStmt(i) => {
            lemma_if_terms_mono(c, i);
        },
        StmtV::WhileStmt(w) => {
            lemma_while_terms_mono(c, w);
        },
        StmtV::ConstDef(d) => {
            match lower_type_s_of(c, d.binding.ty) {
                Err(_er) => {},
                Ok(ty) => {
                    lemma_expr_frame(emit_s(c, InstV::Alloca(ty)), d.value);
                },
            }
        },
        StmtV::VarDef(d) => {
            match lower_type_s_of(c, d.binding.ty) {
                Err(_er) => {},
                Ok(ty) => {
                    lemma_expr_frame(emit_s(c, InstV::Alloca(ty)), d.value);
                },
            }
        },
        StmtV::ReturnStmt(e) => {
            lemma_expr_frame(c, e);
        },
    }
}

pub proof fn lemma_stmt_list_terms_mono(c: CtxV, ss: Seq<StmtV>)
    ensures
        lower_stmt_list_s(c, ss) matches Ok(c2) ==> terms_monotone(c, c2),
    decreases ss,
{
    if ss.len() > 0 {
        lemma_stmt_list_terms_mono(c, ss.drop_last());
        lemma_stmt_list_frame(c, ss.drop_last());
        match lower_stmt_list_s(c, ss.drop_last()) {
            Err(_er) => {},
            Ok(c1) => {
                lemma_stmt_terms_mono(c1, ss.last());
            },
        }
    }
}

/// Transitivity of terminator monotonicity, through a state with at least
/// as many blocks.
proof fn lemma_mono_trans(a: CtxV, b: CtxV, c2: CtxV)
    requires
        terms_monotone(a, b),
        terms_monotone(b, c2),
        b.module.funcs.len() == a.module.funcs.len(),
        forall|fi: int|
            0 <= fi < a.module.funcs.len() ==> b.module.funcs[fi].blocks.len()
                >= a.module.funcs[fi].blocks.len(),
    ensures
        terms_monotone(a, c2),
{
}

#[verifier::rlimit(100)]
#[verifier::spinoff_prover]
pub proof fn lemma_if_terms_mono(c: CtxV, i: IfStmtV)
    ensures
        lower_if_s(c, i) matches Ok(c2) ==> terms_monotone(c, c2),
    decreases i,
{
    lemma_expr_frame(c, i.condition);
    match lower_expr_s(c, i.condition) {
        Err(_er) => {},
        Ok((c1, cond)) => {
            let f = c1.func_stack.last();
            let then_b = c1.module.funcs[f as int].blocks.len() as usize;
            let c2 = append_block_s(c1, f);
            let else_b = c2.module.funcs[f as int].blocks.len() as usize;
            let c3 = append_block_s(c2, f);
            let merge_b = c3.module.funcs[f as int].blocks.len() as usize;
            let c4 = append_block_s(c3, f);
            let c5 = terminate_s(c4, Terminator::CondBr(cond, then_b, else_b));
            let c6 = position_s(c5, f, then_b);
            lemma_stmt_list_terms_mono(c6, i.body.inners);
            lemma_stmt_list_frame(c6, i.body.inners);
            assert(terms_monotone(c, c6));
            lemma_mono_trans(c, c6, c6);
            match lower_stmt_list_s(c6, i.body.inners) {
                Err(_er) => {},
                Ok(c7) => {
                    lemma_mono_trans(c, c6, c7);
                    let c8 = terminate_s(c7, Terminator::Br(merge_b));
                    let c9 = position_s(c8, f, else_b);
                    assert(terms_monotone(c7, c9));
                    lemma_mono_trans(c, c7, c9);
                    match i.else_stmt {
                        None => {},
                        Some(IfOrElseV::If(inner)) => {
                            lemma_if_terms_mono(c9, *inner);
                            lemma_if_frame(c9, *inner);
                            match lower_if_s(c9, *inner) {
                                Err(_er) => {},
                                Ok(c10) => {
                                    lemma_mono_trans(c, c9, c10);
                                    let c11 = terminate_s(c10, Terminator::Br(merge_b));
                                    assert(terms_monotone(c10, position_s(c11, f, merge_b)));
                                    lemma_mono_trans(c, c10, position_s(c11, f, merge_b));
                                },
                            }
                        },
                        Some(IfOrElseV::Else(b)) => {
                            lemma_stmt_list_terms_mono(c9, b.inners);
                            lemma_stmt_list_frame(c9, b.inners);
                            match lower_stmt_list_s(c9, b.inners) {
                                Err(_er) => {},
                                Ok(c10) => {
                                    lemma_mono_trans(c, c9, c10);
                                    let c11 = terminate_s(c10, Terminator::Br(merge_b));
                                    assert(terms_monotone(c10, position_s(c11, f, merge_b)));
                                    lemma_mono_trans(c, c10, position_s(c11, f, merge_b));
                                },
                            }
                        },
                    }
                },
            }
        },
    }
}

pub proof fn lemma_while_terms_mono(c: CtxV, w: WhileStmtV)
    ensures
        lower_while_s(c, w) matches Ok(c2) ==> terms_monotone(c, c2),
    decreases w,
{
    let f = c.func_stack.last();
    let cond_b = c.module.funcs[f as int].blocks.len() as usize;
    let c1 = append_block_s(c, f);
    let body_b = c1.module.funcs[f as int].blocks.len() as usize;
    let c2 = append_block_s(c1, f);
    let exit_b = c2.module.funcs[f as int].blocks.len() as usize;
    let c3 = append_block_s(c2, f);
    let c4 = terminate_s(c3, Terminator::Br(cond_b));
    let c5 = position_s(c4, f, cond_b);
    lemma_expr_frame(c5, w.condition);
    match lower_expr_s(c5, w.condition) {
        Err(_er) => {},
        Ok((c6, cond)) => {
            let c7 = terminate_s(c6, Terminator::CondBr(cond, body_b, exit_b));
            let c8 = position_s(c7, f, body_b);
            lemma_stmt_list_terms_mono(c8, w.body.inners);
            lemma_stmt_list_frame(c8, w.body.inners);
        },
    }
}

pub proof fn lemma_stmt_frame(c: CtxV, s: StmtV)
    ensures
        lower_stmt_s(c, s) matches Ok(c2) ==> stmt_frame(c, c2),
    decreases s,
{
    match s {
        StmtV::ExprStmt(e) => {
            lemma_expr_frame(c, e);
        },
        StmtV::BlockStmt(b) => {
            lemma_stmt_list_frame(c, b.inners);
        },
        StmtV::IfStmt(i) => {
            lemma_if_frame(c, i);
        },
        StmtV::WhileStmt(w) => {
            lemma_while_frame(c, w);
        },
        StmtV::ConstDef(d) => {
            match lower_type_s_of(c, d.binding.ty) {
                Err(_er) => {},
                Ok(ty) => {
                    lemma_expr_frame(emit_s(c, InstV::Alloca(ty)), d.value);
                },
            }
        },
        StmtV::VarDef(d) => {
            match lower_type_s_of(c, d.binding.ty) {
                Err(_er) => {},
                Ok(ty) => {
                    lemma_expr_frame(emit_s(c, InstV::Alloca(ty)), d.value);
                },
            }
        },
        StmtV::ReturnStmt(e) => {
            lemma_expr_frame(c, e);
        },
    }
}

pub proof fn lemma_stmt_list_frame(c: CtxV, ss: Seq<StmtV>)
    ensures
        lower_stmt_list_s(c, ss) matches Ok(c2) ==> stmt_frame(c, c2),
    decreases ss,
{
    if ss.len() > 0 {
        lemma_stmt_list_frame(c, ss.drop_last());
        match lower_stmt_list_s(c, ss.drop_last()) {
            Err(_er) => {},
            Ok(c1) => {
                lemma_stmt_frame(c1, ss.last());
            },
        }
    }
}

pub proof fn lemma_if_frame(c: CtxV, i: IfStmtV)
    ensures
        lower_if_s(c, i) matches Ok(c2) ==> stmt_frame(c, c2),
    decreases i,
{
    lemma_expr_frame(c, i.condition);
    match lower_expr_s(c, i.condition) {
        Err(_er) => {},
        Ok((c1, cond)) => {
            let f = c1.func_stack.last();
            let then_b = c1.module.funcs[f as int].blocks.len() as usize;
            let c2 = append_block_s(c1, f);
            let else_b = c2.module.funcs[f as int].blocks.len() as usize;
            let c3 = append_block_s(c2, f);
            let merge_b = c3.module.funcs[f as int].blocks.len() as usize;
            let c4 = append_block_s(c3, f);
            let c5 = terminate_s(c4, Terminator::CondBr(cond, then_b, else_b));
            let c6 = position_s(c5, f, then_b);
            lemma_stmt_list_frame(c6, i.body.inners);
            match lower_stmt_list_s(c6, i.body.inners) {
                Err(_er) => {},
                Ok(c7) => {
                    let c8 = terminate_s(c7, Terminator::Br(merge_b));
                    let c9 = position_s(c8, f, else_b);
                    match i.else_stmt {
                        None => {},
                        Some(IfOrElseV::If(inner)) => {
                            lemma_if_frame(c9, *inner);
                        },
                        Some(IfOrElseV::Else(b)) => {
                            lemma_stmt_list_frame(c9, b.inners);
                        },
                    }
                },
            }
        },
    }
}

pub proof fn lemma_while_frame(c: CtxV, w: WhileStmtV)
    ensures
        lower_while_s(c, w) matches Ok(c2) ==> stmt_frame(c, c2),
    decreases w,
{
    let f = c.func_stack.last();
    let cond_b = c.module.funcs[f as int].blocks.len() as usize;
    let c1 = append_block_s(c, f);
    let body_b = c1.module.funcs[f as int].blocks.len() as usize;
    let c2 = append_block_s(c1, f);
    let exit_b = c2.module.funcs[f as int].blocks.len() as usize;
    let c3 = append_block_s(c2, f);
    let c4 = terminate_s(c3, Terminator::Br(cond_b));
    let c5 = position_s(c4, f, cond_b);
    lemma_expr_frame(c5, w.condition);
    match lower_expr_s(c5, w.condition) {
        Err(_er) => {},
        Ok((c6, cond)) => {
            let c7 = terminate_s(c6, Terminator::CondBr(cond, body_b, exit_b));
            let c8 = position_s(c7, f, body_b);
            lemma_stmt_list_frame(c8, w.body.inners);
        },
    }
}

/// Every block of the function being built is terminated, except the block
/// the builder stands in and the blocks named by `ex` (the merge and exit
/// blocks an enclosing construct has yet to fill).
pub open spec fn closed_except(c: CtxV, ex: Set<int>) -> bool {
    match c.pos {
        Some(p) => forall|j: int|
            0 <= j < c.module.funcs[p.0 as int].blocks.len() && j != p.1 && !ex.contains(j)
                ==> (#[trigger] c.module.funcs[p.0 as int].blocks[j]).term is Some,
        None => true,
    }
}

/// Every function's block count fits a machine word; true of every module an
/// execution can build, and preserved backwards through lowering because
/// block counts only grow.
pub open spec fn lens_ok(c: CtxV) -> bool {
    forall|fi: int|
        0 <= fi < c.module.funcs.len() ==> (#[trigger] c.module.funcs[fi].blocks.len())
            <= usize::MAX
}

/// Law: statement lowering keeps the builder inside the same function and
/// leaves every block it has moved away from terminated.  Together with the
/// one optional terminator slot per block and `terms_monotone`, this is why
/// every block that the lowering of `if` and `while` appends and fills is
/// terminated exactly once, while their merge and exit blocks stay open for
/// what follows.
pub proof fn lemma_stmt_closed(c: CtxV, s: StmtV, ex: Set<int>)
    ensures
        (lower_stmt_s(c, s) matches Ok(c2) && lens_ok(c2) && ready(c) && closed_except(c, ex))
            ==> (lower_stmt_s(c, s) matches Ok(c2) && ready(c2) && c2.pos->Some_0.0
            == c.pos->Some_0.0 && closed_except(c2, ex)),
    decreases s,
{
    match s {
        StmtV::ExprStmt(e) => {
            lemma_expr_frame(c, e);
        },
        StmtV::BlockStmt(b) => {
            lemma_stmt_list_closed(c, b.inners, ex);
        },
        StmtV::IfStmt(i) => {
            lemma_if_closed(c, i, ex);
        },
        StmtV::WhileStmt(w) => {
            lemma_while_closed(c, w, ex);
        },
        StmtV::ConstDef(d) => {
            match lower_type_s_of(c, d.binding.ty) {
                Err(_er) => {},
                Ok(ty) => {
                    lemma_expr_frame(emit_s(c, InstV::Alloca(ty)), d.value);
                },
            }
        },
        StmtV::VarDef(d) => {
            match lower_type_s_of(c, d.binding.ty) {
                Err(_er) => {},
                Ok(ty) => {
                    lemma_expr_frame(emit_s(c, InstV::Alloca(ty)), d.value);
                },
            }
        },
        StmtV::ReturnStmt(e) => {
            lemma_expr_frame(c, e);
        },
    }
}

pub proof fn lemma_stmt_list_closed(c: CtxV, ss: Seq<StmtV>, ex: Set<int>)
    ensures
        (lower_stmt_list_s(c, ss) matches Ok(c2) && lens_ok(c2) && ready(c) && closed_except(
            c,
            ex,
        )) ==> (lower_stmt_list_s(c, ss) matches Ok(c2) && ready(c2) && c2.pos->Some_0.0
            == c.pos->Some_0.0 && closed_except(c2, ex)),
    decreases ss,
{
    if ss.len() > 0 {
        lemma_stmt_list_closed(c, ss.drop_last(), ex);
        match lower_stmt_list_s(c, ss.drop_last()) {
            Err(_er) => {},
            Ok(c1) => {
                lemma_stmt_closed(c1, ss.last(), ex);
                lemma_stmt_frame(c1, ss.last());
            },
        }
    }
}

#[verifier::rlimit(100)]
#[verifier::spinoff_prover]
pub proof fn lemma_if_closed(c: CtxV, i: IfStmtV, ex: Set<int>)
    ensures
        (lower_if_s(c, i) matches Ok(c2) && lens_ok(c2) && ready(c) && closed_except(c, ex))
            ==> (lower_if_s(c, i) matches Ok(c2) && ready(c2) && c2.pos->Some_0.0
            == c.pos->Some_0.0 && closed_except(c2, ex)),
    decreases i,
{
    lemma_expr_frame(c, i.condition);
    match lower_expr_s(c, i.condition) {
        Err(_er) => {},
        Ok((c1, cond)) => {
            let f = c1.func_stack.last();
            let then_b = c1.module.funcs[f as int].blocks.len() as usize;
            let c2 = append_block_s(c1, f);
            let else_b = c2.module.funcs[f as int].blocks.len() as usize;
            let c3 = append_block_s(c2, f);
            let merge_b = c3.module.funcs[f as int].blocks.len() as usize;
            let c4 = append_block_s(c3, f);
            let c5 = terminate_s(c4, Terminator::CondBr(cond, then_b, else_b));
            let c6 = position_s(c5, f, then_b);
            let ex2 = ex.insert(else_b as int).insert(merge_b as int);
            let ex3 = ex.insert(merge_b as int);
            lemma_stmt_list_closed(c6, i.body.inners, ex2);
            lemma_stmt_list_frame(c6, i.body.inners);
            match lower_stmt_list_s(c6, i.body.inners) {
                Err(_er) => {},
                Ok(c7) => {
                    let c8 = terminate_s(c7, Terminator::Br(merge_b));
                    let c9 = position_s(c8, f, else_b);
                    let after_else = match i.else_stmt {
                        None => Ok(c9),
                        Some(IfOrElseV::If(inner)) => lower_if_s(c9, *inner),
                        Some(IfOrElseV::Else(b)) => lower_stmt_list_s(c9, b.inners),
                    };
                    match i.else_stmt {
                        None => {},
                        Some(IfOrElseV::If(inner)) => {
                            lemma_if_closed(c9, *inner, ex3);
                            lemma_if_frame(c9, *inner);
                        },
                        Some(IfOrElseV::Else(b)) => {
                            lemma_stmt_list_closed(c9, b.inners, ex3);
                            lemma_stmt_list_frame(c9, b.inners);
                        },
                    }
                    match after_else {
                        Err(_er) => {},
                        Ok(c10) => {
                            let c11 = terminate_s(c10, Terminator::Br(merge_b));
                            let cf = position_s(c11, f, merge_b);
                            if lens_ok(cf) && ready(c) && closed_except(c, ex) {
                                let p1 = c.pos->Some_0.1 as int;
                                let bl = c1.module.funcs[f as int].blocks.len() as int;
                                assert(f < c1.module.funcs.len());
                                assert(c7.module.funcs[f as int].blocks.len() >= bl + 3);
                                assert(cf.module.funcs[f as int].blocks.len()
                                    == c10.module.funcs[f as int].blocks.len());
                                assert(bl + 3 <= usize::MAX);
                                assert(then_b == bl && else_b == bl + 1 && merge_b == bl + 2);
                                assert(c5.module.funcs[f as int].blocks[p1].term is Some);
                                assert(ready(c6));
                                assert forall|j: int|
                                    0 <= j < c6.module.funcs[f as int].blocks.len() && j != bl
                                        && !ex2.contains(j) implies (#[trigger] c6.module.funcs[
                                    f as int
                                ].blocks[j]).term is Some by {
                                    if j < bl {
                                        if j != p1 {
                                            assert(c.module.funcs[f as int].blocks[j].term
                                                is Some);
                                        }
                                    } else {
                                        assert(j == bl + 1 || j == bl + 2);
                                    }
                                };
                                assert(closed_except(c6, ex2));
                                assert forall|fi: int|
                                    0 <= fi < c10.module.funcs.len() implies (
                                #[trigger] cf.module.funcs[fi].blocks.len())
                                    == c10.module.funcs[fi].blocks.len() by {}
                                assert(lens_ok(c10));
                                assert forall|fi: int|
                                    0 <= fi < c7.module.funcs.len() implies (
                                #[trigger] c9.module.funcs[fi].blocks.len())
                                    == c7.module.funcs[fi].blocks.len() by {}
                                assert(lens_ok(c7));
                                // The body's own law now applies.
                                assert(ready(c7) && c7.pos->Some_0.0 == f && closed_except(
                                    c7,
                                    ex2,
                                ));
                                let p7 = c7.pos->Some_0.1 as int;
                                assert(c8.module.funcs[f as int].blocks[p7].term is Some);
                                assert(ready(c9));
                                assert forall|j: int|
                                    0 <= j < c9.module.funcs[f as int].blocks.len() && j != bl + 1
                                        && !ex3.contains(j) implies (#[trigger] c9.module.funcs[
                                    f as int
                                ].blocks[j]).term is Some by {
                                    if j != p7 {
                                        assert(c7.module.funcs[f as int].blocks[j].term is Some);
                                    }
                                };
                                assert(closed_except(c9, ex3));
                                assert(ready(c10) && c10.pos->Some_0.0 == f && closed_except(
                                    c10,
                                    ex3,
                                ));
                                let p10 = c10.pos->Some_0.1 as int;
                                assert(c11.module.funcs[f as int].blocks[p10].term is Some);
                                assert(ready(cf));
                                assert forall|j: int|
                                    0 <= j < cf.module.funcs[f as int].blocks.len() && j != bl + 2
                                        && !ex.contains(j) implies (#[trigger] cf.module.funcs[
                                    f as int
                                ].blocks[j]).term is Some by {
                                    if j != p10 {
                                        assert(c10.module.funcs[f as int].blocks[j].term
                                            is Some);
                                    }
                                };
                                assert(closed_except(cf, ex));
                            }
                        },
                    }
                },
            }
        },
    }
}

#[verifier::rlimit(100)]
#[verifier::spinoff_prover]
pub proof fn lemma_while_closed(c: CtxV, w: WhileStmtV, ex: Set<int>)
    ensures
        (lower_while_s(c, w) matches Ok(c2) && lens_ok(c2) && ready(c) && closed_except(c, ex))
            ==> (lower_while_s(c, w) matches Ok(c2) && ready(c2) && c2.pos->Some_0.0
            == c.pos->Some_0.0 && closed_except(c2, ex)),
    decreases w,
{
    let f = c.func_stack.last();
    let cond_b = c.module.funcs[f as int].blocks.len() as usize;
    let c1 = append_block_s(c, f);
    let body_b = c1.module.funcs[f as int].blocks.len() as usize;
    let c2 = append_block_s(c1, f);
    let exit_b = c2.module.funcs[f as int].blocks.len() as usize;
    let c3 = append_block_s(c2, f);
    let c4 = terminate_s(c3, Terminator::Br(cond_b));
    let c5 = position_s(c4, f, cond_b);
    let ex2 = ex.insert(body_b as int).insert(exit_b as int);
    let ex3 = ex.insert(exit_b as int);
    lemma_expr_frame(c5, w.condition);
    match lower_expr_s(c5, w.condition) {
        Err(_er) => {},
        Ok((c6, cond)) => {
            let c7 = terminate_s(c6, Terminator::CondBr(cond, body_b, exit_b));
            let c8 = position_s(c7, f, body_b);
            lemma_stmt_list_closed(c8, w.body.inners, ex3);
            lemma_stmt_list_frame(c8, w.body.inners);
            match lower_stmt_list_s(c8, w.body.inners) {
                Err(_er) => {},
                Ok(c9) => {
                    let c10 = terminate_s(c9, Terminator::Br(cond_b));
                    let cf = position_s(c10, f, exit_b);
                    if lens_ok(cf) && ready(c) && closed_except(c, ex) {
                        let p1 = c.pos->Some_0.1 as int;
                        let bl = c.module.funcs[f as int].blocks.len() as int;
                        assert(f < c.module.funcs.len());
                        assert(c9.module.funcs[f as int].blocks.len() >= bl + 3);
                        assert(cf.module.funcs[f as int].blocks.len() == c9.module.funcs[
                            f as int
                        ].blocks.len());
                        assert(bl + 3 <= usize::MAX);
                        assert(cond_b == bl && body_b == bl + 1 && exit_b == bl + 2);
                        assert(c4.module.funcs[f as int].blocks[p1].term is Some);
                        assert(ready(c5));
                        // At the condition block, every other block but the
                        // loop's own body and exit is terminated.
                        assert forall|j: int|
                            0 <= j < c5.module.funcs[f as int].blocks.len() && j != bl
                                && !ex2.contains(j) implies (#[trigger] c5.module.funcs[
                            f as int
                        ].blocks[j]).term is Some by {
                            if j < bl {
                                if j != p1 {
                                    assert(c.module.funcs[f as int].blocks[j].term is Some);
                                }
                            } else {
                                assert(j == bl + 1 || j == bl + 2);
                            }
                        };
                        assert(closed_except(c5, ex2));
                        assert(ready(c6) && closed_except(c6, ex2));
                        assert(c7.module.funcs[f as int].blocks[bl].term is Some);
                        assert(ready(c8));
                        assert forall|j: int|
                            0 <= j < c8.module.funcs[f as int].blocks.len() && j != bl + 1
                                && !ex3.contains(j) implies (#[trigger] c8.module.funcs[
                            f as int
                        ].blocks[j]).term is Some by {
                            if j != bl {
                                assert(c6.module.funcs[f as int].blocks[j].term is Some);
                            }
                        };
                        assert(closed_except(c8, ex3));
                        assert(ready(c9) && c9.pos->Some_0.0 == f && closed_except(c9, ex3));
                        let p9 = c9.pos->Some_0.1 as int;
                        assert(c10.module.funcs[f as int].blocks[p9].term is Some);
                        assert(ready(cf));
                        assert forall|j: int|
                            0 <= j < cf.module.funcs[f as int].blocks.len() && j != bl + 2
                                && !ex.contains(j) implies (#[trigger] cf.module.funcs[
                            f as int
                        ].blocks[j]).term is Some by {
                            if j != p9 {
                                assert(c9.module.funcs[f as int].blocks[j].term is Some);
                            }
                        };
                        assert(closed_except(cf, ex));
                    }
                },
            }
        },
    }
}

impl Stmt {
    /// Emit the code of this statement at the builder position.
    #[verifier::rlimit(100)]
    pub fn codegen(&self, ctx: &mut CompilerContext) -> (r: Result<(), CodegenError>)
        requires
            ready(old(ctx)@),
        ensures
            match r {
                Ok(()) => lower_stmt_s(old(ctx)@, self@) == Ok::<CtxV, CodegenError>(final(ctx)@)
                    && ready(final(ctx)@),
                Err(er) => lower_stmt_s(old(ctx)@, self@) == Err::<CtxV, CodegenError>(er),
            },
        decreases self,
    {
        match self {
            Stmt::ExprStmt(e) => match e.codegen(ctx) {
                Ok(_v) => Ok(()),
                Err(er) => Err(er),
            },
            Stmt::BlockStmt(b) => b.codegen(ctx),
            Stmt::IfStmt(i) => i.codegen(ctx),
            Stmt::WhileStmt(w) => w.codegen(ctx),
            Stmt::ConstDef(d) => {
                let ty = match d.binding.ty.as_llvm_type(ctx) {
                    Ok(t) => t,
                    Err(er) => {
                        return Err(er);
                    },
                };
                let slot = ctx.emit(Inst::Alloca(ty));
                let val = match d.value.codegen(ctx) {
                    Ok(v) => v,
                    Err(er) => {
                        return Err(er);
                    },
                };
                ctx.emit(Inst::Store(val, slot.clone()));
                let _ = ctx.symbols.add_symbol(
                    d.binding.name.clone(),
                    Symbol::new(slot, SymbolType::Const),
                );
                Ok(())
            },
            Stmt::VarDef(d) => {
                let ty = match d.binding.ty.as_llvm_type(ctx) {
                    Ok(t) => t,
                    Err(er) => {
                        return Err(er);
                    },
                };
                let slot = ctx.emit(Inst::Alloca(ty));
                let val = match d.value.codegen(ctx) {
                    Ok(v) => v,
                    Err(er) => {
                        return Err(er);
                    },
                };
                ctx.emit(Inst::Store(val, slot.clone()));
                let _ = ctx.symbols.add_symbol(
                    d.binding.name.clone(),
                    Symbol::new(slot, SymbolType::Var),
                );
                Ok(())
            },
            Stmt::ReturnStmt(e) => {
                let val = match e.codegen(ctx) {
                    Ok(v) => v,
                    Err(er) => {
                        return Err(er);
                    },
                };
                ctx.terminate(Terminator::Ret(val));
                Ok(())
            },
        }
    }
}

impl BlockStmt {
    /// Emit the code of this block's statements in order.
    pub fn codegen(&self, ctx: &mut CompilerContext) -> (r: Result<(), CodegenError>)
        requires
            ready(old(ctx)@),
        ensures
            match r {
                Ok(()) => lower_stmt_list_s(old(ctx)@, self@.inners) == Ok::<
                    CtxV,
                    CodegenError,
                >(final(ctx)@) && ready(final(ctx)@),
                Err(er) => lower_stmt_list_s(old(ctx)@, self@.inners) == Err::<
                    CtxV,
                    CodegenError,
                >(er),
            },
        decreases self,
    {
        let n = self.inners.len();
        proof {
            assert(self.inners@.subrange(0, n as int) =~= self.inners@);
        }
        codegen_stmts(ctx, &self.inners, n)
    }
}

/// Lower the first `n` statements of a list, in order.
pub(crate) fn codegen_stmts(ctx: &mut CompilerContext, ss: &Vec<Stmt>, n: usize) -> (r: Result<
    (),
    CodegenError,
>)
    requires
        ready(old(ctx)@),
        n <= ss@.len(),
    ensures
        match r {
            Ok(()) => lower_stmt_list_s(old(ctx)@, view_stmt_seq(ss@.subrange(0, n as int)))
                == Ok::<CtxV, CodegenError>(final(ctx)@) && ready(final(ctx)@),
            Err(er) => lower_stmt_list_s(old(ctx)@, view_stmt_seq(ss@.subrange(0, n as int)))
                == Err::<CtxV, CodegenError>(er),
        },
    decreases ss@.subrange(0, n as int),
{
    if n == 0 {
        proof {
            assert(ss@.subrange(0, 0) =~= Seq::<Stmt>::empty());
        }
        Ok(())
    } else {
        proof {
            let sub = ss@.subrange(0, n as int);
            assert(sub.drop_last() =~= ss@.subrange(0, n - 1));
            assert(sub.last() == ss@[n - 1]);
            let subv = view_stmt_seq(sub);
            assert(subv.drop_last() =~= view_stmt_seq(ss@.subrange(0, n - 1)));
            assert(subv.last() == view_stmt(ss@[n - 1]));
            assert(decreases_to!(ss@.subrange(0, n as int) => ss@.subrange(0, n - 1)));
            assert(decreases_to!(ss@.subrange(0, n as int) => ss@[n - 1]));
        }
        match codegen_stmts(ctx, ss, n - 1) {
            Ok(()) => {},
            Err(er) => {
                return Err(er);
            },
        }
        ss[n - 1].codegen(ctx)
    }
}

impl IfStmt {
    /// Emit the control flow of this `if` chain.
    #[verifier::rlimit(100)]
    #[verifier::spinoff_prover]
    pub fn codegen(&self, ctx: &mut CompilerContext) -> (r: Result<(), CodegenError>)
        requires
            ready(old(ctx)@),
        ensures
            match r {
                Ok(()) => lower_if_s(old(ctx)@, self@) == Ok::<CtxV, CodegenError>(final(ctx)@)
                    && ready(final(ctx)@),
                Err(er) => lower_if_s(old(ctx)@, self@) == Err::<CtxV, CodegenError>(er),
            },
        decreases self,
    {
        let ghost c0 = old(ctx)@;
        let cond = match self.condition.codegen(ctx) {
            Ok(v) => v,
            Err(er) => {
                return Err(er);
            },
        };
        proof {
            lemma_expr_frame(c0, self@.condition);
        }
        let ghost sc1 = ctx@;
        let f = ctx.current_func();
        let then_b = ctx.append_block(f);
        let ghost sc2 = ctx@;
        let else_b = ctx.append_block(f);
        let ghost sc3 = ctx@;
        let merge_b = ctx.append_block(f);
        let ghost sc4 = ctx@;
        ctx.terminate(Terminator::CondBr(cond.clone(), then_b, else_b));
        let ghost sc5 = ctx@;
        ctx.position_at_end(f, then_b);
        let ghost sc6 = ctx@;
        proof {
            assert(sc2 == append_block_s(sc1, f));
            assert(sc3 == append_block_s(sc2, f));
            assert(sc4 == append_block_s(sc3, f));
            assert(sc5 == terminate_s(sc4, Terminator::CondBr(cond, then_b, else_b)));
            assert(sc6 == position_s(sc5, f, then_b));
            assert(ready(sc6));
        }
        let n = self.body.inners.len();
        proof {
            assert(self.body.inners@.subrange(0, n as int) =~= self.body.inners@);
        }
        match codegen_stmts(ctx, &self.body.inners, n) {
            Ok(()) => {},
            Err(er) => {
                return Err(er);
            },
        }
        proof {
            lemma_stmt_list_frame(sc6, self@.body.inners);
        }
        let ghost sc7 = ctx@;
        ctx.terminate(Terminator::Br(merge_b));
        let ghost sc8 = ctx@;
        ctx.position_at_end(f, else_b);
        let ghost sc9 = ctx@;
        proof {
            assert(sc8 == terminate_s(sc7, Terminator::Br(merge_b)));
            assert(sc9 == position_s(sc8, f, else_b));
            assert(view_stmt_seq(self.body.inners@.subrange(0, n as int)) == view_stmt_seq(
                self.body.inners@,
            ));
            assert(self@.body.inners == view_stmt_seq(self.body.inners@));
            assert(lower_stmt_list_s(sc6, self@.body.inners) == Ok::<CtxV, CodegenError>(sc7));
            assert(stmt_frame(sc6, sc7));
            assert(f < sc6.module.funcs.len());
            assert(sc7.module.funcs[f as int].blocks.len() >= sc6.module.funcs[
                f as int
            ].blocks.len());
            assert(sc6.module.funcs[f as int].blocks.len() == sc4.module.funcs[
                f as int
            ].blocks.len());
            assert(else_b < sc4.module.funcs[f as int].blocks.len());
            assert(sc8.module.funcs[f as int].blocks.len() == sc7.module.funcs[
                f as int
            ].blocks.len());
            assert(sc9.module.funcs == sc8.module.funcs);
            assert(sc9.func_stack == sc7.func_stack);
            assert(ready(sc9));
        }
        match &self.else_stmt {
            None => {},
            Some(crate::type_checker::typed_ast::IfOrElse::If(inner)) => {
                match (&**inner).codegen(ctx) {
                    Ok(()) => {},
                    Err(er) => {
                        return Err(er);
                    },
                }
                proof {
                    lemma_if_frame(sc9, (&**inner)@);
                }
            },
            Some(crate::type_checker::typed_ast::IfOrElse::Else(b)) => {
                let m = b.inners.len();
                proof {
                    assert(b.inners@.subrange(0, m as int) =~= b.inners@);
                }
                match codegen_stmts(ctx, &b.inners, m) {
                    Ok(()) => {},
                    Err(er) => {
                        return Err(er);
                    },
                }
                proof {
                    lemma_stmt_list_frame(sc9, b@.inners);
                }
            },
        }
        let ghost sc10 = ctx@;
        ctx.terminate(Terminator::Br(merge_b));
        let ghost sc11 = ctx@;
        ctx.position_at_end(f, merge_b);
        proof {
            assert(sc11 == terminate_s(sc10, Terminator::Br(merge_b)));
            assert(ctx@ == position_s(sc11, f, merge_b));
            assert(ready(ctx@));
        }
        Ok(())
    }
}

impl WhileStmt {
    /// Emit the control flow of this loop.
    #[verifier::rlimit(100)]
    #[verifier::spinoff_prover]
    pub fn codegen(&self, ctx: &mut CompilerContext) -> (r: Result<(), CodegenError>)
        requires
            ready(old(ctx)@),
        ensures
            match r {
                Ok(()) => lower_while_s(old(ctx)@, self@) == Ok::<CtxV, CodegenError>(
                    final(ctx)@,
                ) && ready(final(ctx)@),
                Err(er) => lower_while_s(old(ctx)@, self@) == Err::<CtxV, CodegenError>(er),
            },
        decreases self,
    {
        let ghost c0 = old(ctx)@;
        let f = ctx.current_func();
        let cond_b = ctx.append_block(f);
        let ghost sc1 = ctx@;
        let body_b = ctx.append_block(f);
        let ghost sc2 = ctx@;
        let exit_b = ctx.append_block(f);
        let ghost sc3 = ctx@;
        ctx.terminate(Terminator::Br(cond_b));
        let ghost sc4 = ctx@;
        ctx.position_at_end(f, cond_b);
        let ghost sc5 = ctx@;
        proof {
            assert(sc1 == append_block_s(c0, f));
            assert(sc2 == append_block_s(sc1, f));
            assert(sc3 == append_block_s(sc2, f));
            assert(sc4 == terminate_s(sc3, Terminator::Br(cond_b)));
            assert(sc5 == position_s(sc4, f, cond_b));
            assert(ready(sc5));
        }
        let cond = match self.condition.codegen(ctx) {
            Ok(v) => v,
            Err(er) => {
                return Err(er);
            },
        };
        proof {
            lemma_expr_frame(sc5, self@.condition);
        }
        let ghost sc6 = ctx@;
        ctx.terminate(Terminator::CondBr(cond.clone(), body_b, exit_b));
        let ghost sc7 = ctx@;
        ctx.position_at_end(f, body_b);
        let ghost sc8 = ctx@;
        proof {
            assert(sc7 == terminate_s(sc6, Terminator::CondBr(cond, body_b, exit_b)));
            assert(sc8 == position_s(sc7, f, body_b));
            assert(ready(sc8));
        }
        let n = self.body.inners.len();
        proof {
            assert(self.body.inners@.subrange(0, n as int) =~= self.body.inners@);
        }
        match codegen_stmts(ctx, &self.body.inners, n) {
            Ok(()) => {},
            Err(er) => {
                return Err(er);
            },
        }
        proof {
            lemma_stmt_list_frame(sc8, self@.body.inners);
        }
        let ghost sc9 = ctx@;
        ctx.terminate(Terminator::Br(cond_b));
        let ghost sc10 = ctx@;
        ctx.position_at_end(f, exit_b);
        proof {
            assert(sc10 == terminate_s(sc9, Terminator::Br(cond_b)));
            assert(ctx@ == position_s(sc10, f, exit_b));
            assert(ready(ctx@));
        }
        Ok(())
    }
}

} // verus!

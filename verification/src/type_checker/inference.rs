//! Typed-AST elaboration.
//!
//! `infer_types_pass` walks the parse AST top-down with a scoped name-to-type
//! environment and produces a typed AST in which every expression carries the
//! type its operation yields.  The meaning of the pass is given by the
//! `elab_*` specification functions below, which assign to every parse-tree
//! node either its typed mirror or the error elaboration stops with;
//! the executable functions are proved to return exactly that.
//!
//! Rules, in brief: a literal takes the type of its suffix (`Int` when
//! unsuffixed); an identifier takes the innermost binding of its name, or
//! elaboration fails with `Undeclared`; a binary operation takes the type of
//! its left operand; `&e` takes `Ref` of the operand's type; `*e` takes the
//! inner type of the operand's `Ref`, or `DerefNonRef`; `a[i]` takes the
//! element type of `a`'s array type, or `BadIndex`; an array constructor of
//! `n` items takes `Array` of its first item's type and `n`, and an empty one
//! fails with `EmptyArray`; a cast takes the named target type; a call takes
//! the callee's recorded return type; a class constructor takes the named
//! class type.  A function or extern definition records its return type under
//! its own name in the global scope before its body is elaborated; parameters
//! are bound in a scope of their own; every block gets a scope; a binding
//! statement elaborates its right-hand side and then binds its name to the
//! declared type; the expression of `return` must equal the enclosing
//! declared return type, or elaboration fails with `ReturnMismatch`.

use vstd::prelude::*;

use crate::ast;
use crate::codegen::symbol::{lookup, ScopedSymbolTable};
use crate::res_view;
use crate::type_checker::error::{TypeCheckerError, TypeCheckerErrorV};
use crate::type_checker::typed_ast;
use crate::type_checker::typed_ast::{
    view_binding_seq, view_class_fields, view_expr, view_expr_fields, view_expr_seq,
    view_stmt_seq, view_top_seq, ArrayExprV, BinaryExprV, BlockStmtV, CastExprV, ClassDefV,
    ClassExprV, ConstDefV, ExprInnerV, ExprV, ExternDefV, FunctionCallV, FunctionDefV,
    GlobalConstDefV, IfOrElseV, IfStmtV, IndexExprV, LiteralInnerV, LiteralV, ProgramV, StmtV,
    TopLevelStmtV, TypeBindingV, TypeV, UnaryExprV, VarDefV, WhileStmtV,
};

verus! {

/// The environment both passes share: a stack of name-to-type frames,
/// global frame first.
pub type EnvV = Seq<Map<Seq<char>, TypeV>>;

/// The environment elaboration starts from: one empty global frame.
pub open spec fn init_env() -> EnvV {
    seq![Map::empty()]
}

pub open spec fn elab_type(t: ast::Type) -> TypeV
    decreases t,
{
    match t {
        ast::Type::Class(name) => TypeV::Class(name@),
        ast::Type::Array(inner, len) => TypeV::Array(Box::new(elab_type(*inner)), len as nat),
        ast::Type::Ref(inner) => TypeV::Ref(Box::new(elab_type(*inner))),
        ast::Type::Int => TypeV::Int,
        ast::Type::Int8 => TypeV::Int8,
        ast::Type::Int16 => TypeV::Int16,
        ast::Type::Int32 => TypeV::Int32,
        ast::Type::Int64 => TypeV::Int64,
        ast::Type::UInt => TypeV::UInt,
        ast::Type::UInt8 => TypeV::UInt8,
        ast::Type::UInt16 => TypeV::UInt16,
        ast::Type::UInt32 => TypeV::UInt32,
        ast::Type::UInt64 => TypeV::UInt64,
        ast::Type::Char => TypeV::Char,
        ast::Type::Str => TypeV::Str,
        ast::Type::CStr => TypeV::CStr,
        ast::Type::Bool => TypeV::Bool,
    }
}

/// A missing declared return type means the function returns nothing.
pub open spec fn elab_ret_type(t: Option<ast::Type>) -> TypeV {
    match t {
        Some(t) => elab_type(t),
        None => TypeV::NoneType,
    }
}

pub open spec fn elab_literal(l: ast::Literal) -> LiteralV {
    match l {
        ast::Literal::Int(v) => LiteralV { ty: TypeV::Int, val: LiteralInnerV::Int(v) },
        ast::Literal::UInt(v) => LiteralV { ty: TypeV::UInt, val: LiteralInnerV::UInt(v) },
        ast::Literal::Int8(v) => LiteralV { ty: TypeV::Int8, val: LiteralInnerV::Int8(v) },
        ast::Literal::Int16(v) => LiteralV { ty: TypeV::Int16, val: LiteralInnerV::Int16(v) },
        ast::Literal::Int32(v) => LiteralV { ty: TypeV::Int32, val: LiteralInnerV::Int32(v) },
        ast::Literal::Int64(v) => LiteralV { ty: TypeV::Int64, val: LiteralInnerV::Int64(v) },
        ast::Literal::UInt8(v) => LiteralV { ty: TypeV::UInt8, val: LiteralInnerV::UInt8(v) },
        ast::Literal::UInt16(v) => LiteralV { ty: TypeV::UInt16, val: LiteralInnerV::UInt16(v) },
        ast::Literal::UInt32(v) => LiteralV { ty: TypeV::UInt32, val: LiteralInnerV::UInt32(v) },
        ast::Literal::UInt64(v) => LiteralV { ty: TypeV::UInt64, val: LiteralInnerV::UInt64(v) },
        ast::Literal::Str(s) => LiteralV { ty: TypeV::Str, val: LiteralInnerV::Str(s@) },
        ast::Literal::CStr(s) => LiteralV { ty: TypeV::CStr, val: LiteralInnerV::CStr(s@) },
        ast::Literal::Bool(v) => LiteralV { ty: TypeV::Bool, val: LiteralInnerV::Bool(v) },
    }
}

pub open spec fn elab_binop(op: ast::BinOp) -> typed_ast::BinOp {
    match op {
        ast::BinOp::Plus => typed_ast::BinOp::Plus,
        ast::BinOp::Minus => typed_ast::BinOp::Minus,
        ast::BinOp::Times => typed_ast::BinOp::Times,
        ast::BinOp::Divide => typed_ast::BinOp::Divide,
        ast::BinOp::LogicalAnd => typed_ast::BinOp::LogicalAnd,
        ast::BinOp::LogicalOr => typed_ast::BinOp::LogicalOr,
        ast::BinOp::Equals => typed_ast::BinOp::Equals,
        ast::BinOp::Eq => typed_ast::BinOp::Eq,
        ast::BinOp::Ne => typed_ast::BinOp::Ne,
        ast::BinOp::Gt => typed_ast::BinOp::Gt,
        ast::BinOp::Gte => typed_ast::BinOp::Gte,
        ast::BinOp::Lt => typed_ast::BinOp::Lt,
        ast::BinOp::Lte => typed_ast::BinOp::Lte,
    }
}

pub open spec fn elab_unaryop(op: ast::UnaryOp) -> typed_ast::UnaryOp {
    match op {
        ast::UnaryOp::Reference => typed_ast::UnaryOp::Reference,
        ast::UnaryOp::Deref => typed_ast::UnaryOp::Deref,
        ast::UnaryOp::Minus => typed_ast::UnaryOp::Minus,
        ast::UnaryOp::Not => typed_ast::UnaryOp::Not,
    }
}

pub open spec fn elab_class_fields(fs: Seq<(String, ast::Type)>) -> Seq<(Seq<char>, TypeV)>
    decreases fs,
{
    if fs.len() == 0 {
        Seq::empty()
    } else {
        elab_class_fields(fs.drop_last()).push((fs.last().0@, elab_type(fs.last().1)))
    }
}

pub open spec fn elab_binding(b: ast::TypeBinding) -> TypeBindingV {
    TypeBindingV { name: b.name@, ty: elab_type(b.ty) }
}

pub open spec fn elab_binding_seq(bs: Seq<ast::TypeBinding>) -> Seq<TypeBindingV>
    decreases bs,
{
    if bs.len() == 0 {
        Seq::empty()
    } else {
        elab_binding_seq(bs.drop_last()).push(elab_binding(bs.last()))
    }
}

/// The frame a function's parameters are bound in, in declaration order.
pub open spec fn param_frame(ps: Seq<ast::TypeBinding>) -> Map<Seq<char>, TypeV>
    decreases ps,
{
    if ps.len() == 0 {
        Map::empty()
    } else {
        param_frame(ps.drop_last()).insert(ps.last().name@, elab_type(ps.last().ty))
    }
}

/// Bind a name to a type in the innermost frame.
pub open spec fn env_bind(env: EnvV, name: Seq<char>, ty: TypeV) -> EnvV {
    env.update(env.len() - 1, env.last().insert(name, ty))
}

pub open spec fn elab_expr(env: EnvV, e: ast::Expr) -> Result<ExprV, TypeCheckerErrorV>
    decreases e,
{
    match e {
        ast::Expr::Literal(lit) => {
            let lv = elab_literal(lit);
            Ok(ExprV { ty: lv.ty, val: ExprInnerV::Literal(lv) })
        },
        ast::Expr::Ident(name) => match lookup(env, name@) {
            Some(ty) => Ok(ExprV { ty: ty, val: ExprInnerV::Ident(name@) }),
            None => Err(TypeCheckerErrorV::Undeclared(name@)),
        },
        ast::Expr::Binary(lhs, op, rhs) => match elab_expr(env, *lhs) {
            Err(er) => Err(er),
            Ok(lv) => match elab_expr(env, *rhs) {
                Err(er) => Err(er),
                Ok(rv) => Ok(
                    ExprV {
                        ty: lv.ty,
                        val: ExprInnerV::Binary(
                            BinaryExprV {
                                lhs: Box::new(lv),
                                rhs: Box::new(rv),
                                op: elab_binop(op),
                            },
                        ),
                    },
                ),
            },
        },
        ast::Expr::Unary(op, data) => match elab_expr(env, *data) {
            Err(er) => Err(er),
            Ok(dv) => match op {
                ast::UnaryOp::Reference => Ok(
                    ExprV {
                        ty: TypeV::Ref(Box::new(dv.ty)),
                        val: ExprInnerV::Unary(
                            UnaryExprV {
                                data: Box::new(dv),
                                op: typed_ast::UnaryOp::Reference,
                            },
                        ),
                    },
                ),
                ast::UnaryOp::Deref => match dv.ty {
                    TypeV::Ref(inner) => Ok(
                        ExprV {
                            ty: *inner,
                            val: ExprInnerV::Unary(
                                UnaryExprV { data: Box::new(dv), op: typed_ast::UnaryOp::Deref },
                            ),
                        },
                    ),
                    _ => Err(TypeCheckerErrorV::DerefNonRef),
                },
                _ => Ok(
                    ExprV {
                        ty: dv.ty,
                        val: ExprInnerV::Unary(
                            UnaryExprV { data: Box::new(dv), op: elab_unaryop(op) },
                        ),
                    },
                ),
            },
        },
        ast::Expr::IndexExpr(name, index) => match elab_expr(env, *name) {
            Err(er) => Err(er),
            Ok(nv) => match nv.ty {
                TypeV::Array(elem, _len) => match elab_expr(env, *index) {
                    Err(er) => Err(er),
                    Ok(iv) => Ok(
                        ExprV {
                            ty: *elem,
                            val: ExprInnerV::IndexExpr(
                                IndexExprV { name: Box::new(nv), index: Box::new(iv) },
                            ),
                        },
                    ),
                },
                _ => Err(TypeCheckerErrorV::BadIndex),
            },
        },
        ast::Expr::Array(items, len) => {
            if items@.len() == 0 {
                Err(TypeCheckerErrorV::EmptyArray)
            } else {
                match elab_expr_seq(env, items@) {
                    Err(er) => Err(er),
                    Ok(list) => Ok(
                        ExprV {
                            ty: TypeV::Array(Box::new(list[0].ty), items@.len()),
                            val: ExprInnerV::Array(ArrayExprV { items: list, len: len as nat }),
                        },
                    ),
                }
            }
        },
        ast::Expr::Cast(original, to_type) => match elab_expr(env, *original) {
            Err(er) => Err(er),
            Ok(ov) => Ok(
                ExprV {
                    ty: elab_type(to_type),
                    val: ExprInnerV::Cast(
                        CastExprV { original: Box::new(ov), to_type: elab_type(to_type) },
                    ),
                },
            ),
        },
        ast::Expr::FunctionCall(call) => match elab_expr(env, *call.name) {
            Err(er) => Err(er),
            Ok(nv) => match elab_expr_seq(env, call.args@) {
                Err(er) => Err(er),
                Ok(args) => Ok(
                    ExprV {
                        ty: nv.ty,
                        val: ExprInnerV::FunctionCall(
                            FunctionCallV { name: Box::new(nv), args: args },
                        ),
                    },
                ),
            },
        },
        ast::Expr::Class(c) => match elab_field_seq(env, c.fields@) {
            Err(er) => Err(er),
            Ok(fields) => Ok(
                ExprV {
                    ty: TypeV::Class(c.class@),
                    val: ExprInnerV::Class(ClassExprV { class: c.class@, fields: fields }),
                },
            ),
        },
    }
}

pub open spec fn elab_expr_seq(env: EnvV, es: Seq<ast::Expr>) -> Result<
    Seq<ExprV>,
    TypeCheckerErrorV,
>
    decreases es,
{
    if es.len() == 0 {
        Ok(Seq::empty())
    } else {
        match elab_expr_seq(env, es.drop_last()) {
            Err(er) => Err(er),
            Ok(list) => match elab_expr(env, es.last()) {
                Err(er) => Err(er),
                Ok(ev) => Ok(list.push(ev)),
            },
        }
    }
}

pub open spec fn elab_field_seq(env: EnvV, fs: Seq<(String, Box<ast::Expr>)>) -> Result<
    Seq<(Seq<char>, ExprV)>,
    TypeCheckerErrorV,
>
    decreases fs,
{
    if fs.len() == 0 {
        Ok(Seq::empty())
    } else {
        match elab_field_seq(env, fs.drop_last()) {
            Err(er) => Err(er),
            Ok(list) => match elab_expr(env, *fs.last().1) {
                Err(er) => Err(er),
                Ok(ev) => Ok(list.push((fs.last().0@, ev))),
            },
        }
    }
}

pub open spec fn elab_stmt(env: EnvV, ret: TypeV, s: ast::Stmt) -> Result<
    (EnvV, StmtV),
    TypeCheckerErrorV,
>
    decreases s,
{
    match s {
        ast::Stmt::ExprStmt(e) => match elab_expr(env, e) {
            Err(er) => Err(er),
            Ok(ev) => Ok((env, StmtV::ExprStmt(ev))),
        },
        ast::Stmt::BlockStmt(b) => match elab_block(env, ret, b) {
            Err(er) => Err(er),
            Ok((env2, bv)) => Ok((env2, StmtV::BlockStmt(bv))),
        },
        ast::Stmt::IfStmt(i) => match elab_if(env, ret, i) {
            Err(er) => Err(er),
            Ok((env2, iv)) => Ok((env2, StmtV::IfStmt(iv))),
        },
        ast::Stmt::WhileStmt(w) => match elab_expr(env, w.condition) {
            Err(er) => Err(er),
            Ok(cv) => match elab_block(env, ret, w.body) {
                Err(er) => Err(er),
                Ok((env2, bv)) => Ok(
                    (env2, StmtV::WhileStmt(WhileStmtV { condition: cv, body: bv })),
                ),
            },
        },
        ast::Stmt::ConstDef(d) => match elab_expr(env, d.value) {
            Err(er) => Err(er),
            Ok(ev) => Ok(
                (
                    env_bind(env, d.binding.name@, elab_type(d.binding.ty)),
                    StmtV::ConstDef(ConstDefV { binding: elab_binding(d.binding), value: ev }),
                ),
            ),
        },
        ast::Stmt::VarDef(d) => match elab_expr(env, d.value) {
            Err(er) => Err(er),
            Ok(ev) => Ok(
                (
                    env_bind(env, d.binding.name@, elab_type(d.binding.ty)),
                    StmtV::VarDef(VarDefV { binding: elab_binding(d.binding), value: ev }),
                ),
            ),
        },
        ast::Stmt::ReturnStmt(e) => match elab_expr(env, e) {
            Err(er) => Err(er),
            Ok(ev) => {
                if ev.ty == ret {
                    Ok((env, StmtV::ReturnStmt(ev)))
                } else {
                    Err(TypeCheckerErrorV::ReturnMismatch)
                }
            },
        },
    }
}

pub open spec fn elab_stmt_seq(env: EnvV, ret: TypeV, ss: Seq<ast::Stmt>) -> Result<
    (EnvV, Seq<StmtV>),
    TypeCheckerErrorV,
>
    decreases ss,
{
    if ss.len() == 0 {
        Ok((env, Seq::empty()))
    } else {
        match elab_stmt_seq(env, ret, ss.drop_last()) {
            Err(er) => Err(er),
            Ok((env1, list)) => match elab_stmt(env1, ret, ss.last()) {
                Err(er) => Err(er),
                Ok((env2, sv)) => Ok((env2, list.push(sv))),
            },
        }
    }
}

/// A block opens a scope, elaborates its statements in order, and closes
/// the scope again.
pub open spec fn elab_block(env: EnvV, ret: TypeV, b: ast::BlockStmt) -> Result<
    (EnvV, BlockStmtV),
    TypeCheckerErrorV,
>
    decreases b,
{
    match elab_stmt_seq(env.push(Map::empty()), ret, b.0@) {
        Err(er) => Err(er),
        Ok((env2, list)) => Ok((env2.drop_last(), BlockStmtV { inners: list })),
    }
}

pub open spec fn elab_if(env: EnvV, ret: TypeV, i: ast::IfStmt) -> Result<
    (EnvV, IfStmtV),
    TypeCheckerErrorV,
>
    decreases i,
{
    match elab_expr(env, i.condition) {
        Err(er) => Err(er),
        Ok(cv) => match elab_block(env, ret, i.body) {
            Err(er) => Err(er),
            Ok((env1, bv)) => match i.else_stmt {
                None => Ok(
                    (env1, IfStmtV { condition: cv, body: bv, else_stmt: None }),
                ),
                Some(ast::IfOrElse::If(inner)) => match elab_if(env1, ret, *inner) {
                    Err(er) => Err(er),
                    Ok((env2, iv)) => Ok(
                        (
                            env2,
                            IfStmtV {
                                condition: cv,
                                body: bv,
                                else_stmt: Some(IfOrElseV::If(Box::new(iv))),
                            },
                        ),
                    ),
                },
                Some(ast::IfOrElse::Else(b)) => match elab_block(env1, ret, b) {
                    Err(er) => Err(er),
                    Ok((env2, ev)) => Ok(
                        (
                            env2,
                            IfStmtV {
                                condition: cv,
                                body: bv,
                                else_stmt: Some(IfOrElseV::Else(ev)),
                            },
                        ),
                    ),
                },
            },
        },
    }
}

pub open spec fn elab_top(env: EnvV, t: ast::TopLevelStmt) -> Result<
    (EnvV, TopLevelStmtV),
    TypeCheckerErrorV,
>
    decreases t,
{
    match t {
        ast::TopLevelStmt::ClassDef(c) => Ok(
            (
                env,
                TopLevelStmtV::ClassDef(
                    ClassDefV { name: c.name@, fields: elab_class_fields(c.fields@) },
                ),
            ),
        ),
        ast::TopLevelStmt::FunctionDef(f) => {
            let ret = elab_ret_type(f.return_type);
            let env1 = env_bind(env, f.name@, ret);
            let env2 = env1.push(param_frame(f.params@));
            match elab_block(env2, ret, f.body) {
                Err(er) => Err(er),
                Ok((env3, bv)) => Ok(
                    (
                        env3.drop_last(),
                        TopLevelStmtV::FunctionDef(
                            FunctionDefV {
                                name: f.name@,
                                params: elab_binding_seq(f.params@),
                                return_type: ret,
                                body: bv,
                            },
                        ),
                    ),
                ),
            }
        },
        ast::TopLevelStmt::ExternDef(f) => {
            let ret = elab_ret_type(f.return_type);
            Ok(
                (
                    env_bind(env, f.name@, ret),
                    TopLevelStmtV::ExternDef(
                        ExternDefV {
                            name: f.name@,
                            params: elab_binding_seq(f.params@),
                            return_type: ret,
                        },
                    ),
                ),
            )
        },
        ast::TopLevelStmt::ConstDef(g) => Ok(
            (
                env_bind(env, g.binding.name@, elab_type(g.binding.ty)),
                TopLevelStmtV::ConstDef(
                    GlobalConstDefV {
                        binding: elab_binding(g.binding),
                        value: elab_literal(g.value),
                    },
                ),
            ),
        ),
    }
}

pub open spec fn elab_top_seq(env: EnvV, ts: Seq<ast::TopLevelStmt>) -> Result<
    (EnvV, Seq<TopLevelStmtV>),
    TypeCheckerErrorV,
>
    decreases ts,
{
    if ts.len() == 0 {
        Ok((env, Seq::empty()))
    } else {
        match elab_top_seq(env, ts.drop_last()) {
            Err(er) => Err(er),
            Ok((env1, list)) => match elab_top(env1, ts.last()) {
                Err(er) => Err(er),
                Ok((env2, tv)) => Ok((env2, list.push(tv))),
            },
        }
    }
}

/// What elaboration of a whole program yields.
pub open spec fn elab_program(p: ast::Program) -> Result<ProgramV, TypeCheckerErrorV> {
    match elab_top_seq(init_env(), p.0@) {
        Err(er) => Err(er),
        Ok((_env, list)) => Ok(ProgramV(list)),
    }
}

// LEMMAS
//
// Elaboration of statements can grow and shrink only the scope it opened:
// the number of frames is preserved.  The `*_err` lemmas push an error found
// at one list position out to the whole list.

proof fn lemma_stmt_len(env: EnvV, ret: TypeV, s: ast::Stmt)
    requires
        env.len() >= 1,
    ensures
        elab_stmt(env, ret, s) matches Ok(p) ==> p.0.len() == env.len(),
    decreases s,
{
    match s {
        ast::Stmt::BlockStmt(b) => {
            lemma_block_len(env, ret, b);
        },
        ast::Stmt::IfStmt(i) => {
            lemma_if_len(env, ret, i);
        },
        ast::Stmt::WhileStmt(w) => {
            lemma_block_len(env, ret, w.body);
        },
        _ => {},
    }
}

proof fn lemma_stmt_seq_len(env: EnvV, ret: TypeV, ss: Seq<ast::Stmt>)
    requires
        env.len() >= 1,
    ensures
        elab_stmt_seq(env, ret, ss) matches Ok(p) ==> p.0.len() == env.len(),
    decreases ss,
{
    if ss.len() > 0 {
        lemma_stmt_seq_len(env, ret, ss.drop_last());
        match elab_stmt_seq(env, ret, ss.drop_last()) {
            Ok(p) => {
                lemma_stmt_len(p.0, ret, ss.last());
            },
            _ => {},
        }
    }
}

proof fn lemma_block_len(env: EnvV, ret: TypeV, b: ast::BlockStmt)
    ensures
        elab_block(env, ret, b) matches Ok(p) ==> p.0.len() == env.len(),
    decreases b,
{
    lemma_stmt_seq_len(env.push(Map::empty()), ret, b.0@);
}

proof fn lemma_if_len(env: EnvV, ret: TypeV, i: ast::IfStmt)
    requires
        env.len() >= 1,
    ensures
        elab_if(env, ret, i) matches Ok(p) ==> p.0.len() == env.len(),
    decreases i,
{
    lemma_block_len(env, ret, i.body);
    match elab_block(env, ret, i.body) {
        Ok(p1) => {
            match i.else_stmt {
                Some(ast::IfOrElse::If(inner)) => {
                    lemma_if_len(p1.0, ret, *inner);
                },
                Some(ast::IfOrElse::Else(b)) => {
                    lemma_block_len(p1.0, ret, b);
                },
                None => {},
            }
        },
        _ => {},
    }
}

proof fn lemma_expr_seq_err(env: EnvV, es: Seq<ast::Expr>, i: int, er: TypeCheckerErrorV)
    requires
        0 <= i < es.len(),
        elab_expr_seq(env, es.subrange(0, i)) is Ok,
        elab_expr(env, es[i]) == Err::<ExprV, TypeCheckerErrorV>(er),
    ensures
        elab_expr_seq(env, es) == Err::<Seq<ExprV>, TypeCheckerErrorV>(er),
    decreases es.len(),
{
    if i == es.len() - 1 {
        assert(es.drop_last() =~= es.subrange(0, i));
    } else {
        assert(es.drop_last().subrange(0, i) =~= es.subrange(0, i));
        lemma_expr_seq_err(env, es.drop_last(), i, er);
    }
}

proof fn lemma_field_seq_err(
    env: EnvV,
    fs: Seq<(String, Box<ast::Expr>)>,
    i: int,
    er: TypeCheckerErrorV,
)
    requires
        0 <= i < fs.len(),
        elab_field_seq(env, fs.subrange(0, i)) is Ok,
        elab_expr(env, *fs[i].1) == Err::<ExprV, TypeCheckerErrorV>(er),
    ensures
        elab_field_seq(env, fs) == Err::<Seq<(Seq<char>, ExprV)>, TypeCheckerErrorV>(er),
    decreases fs.len(),
{
    if i == fs.len() - 1 {
        assert(fs.drop_last() =~= fs.subrange(0, i));
    } else {
        assert(fs.drop_last().subrange(0, i) =~= fs.subrange(0, i));
        lemma_field_seq_err(env, fs.drop_last(), i, er);
    }
}

proof fn lemma_stmt_seq_err(
    env: EnvV,
    ret: TypeV,
    ss: Seq<ast::Stmt>,
    i: int,
    env1: EnvV,
    er: TypeCheckerErrorV,
)
    requires
        0 <= i < ss.len(),
        elab_stmt_seq(env, ret, ss.subrange(0, i)) matches Ok(p) && p.0 == env1,
        elab_stmt(env1, ret, ss[i]) matches Err(e) && e == er,
    ensures
        elab_stmt_seq(env, ret, ss) == Err::<(EnvV, Seq<StmtV>), TypeCheckerErrorV>(er),
    decreases ss.len(),
{
    if i == ss.len() - 1 {
        assert(ss.drop_last() =~= ss.subrange(0, i));
    } else {
        assert(ss.drop_last().subrange(0, i) =~= ss.subrange(0, i));
        lemma_stmt_seq_err(env, ret, ss.drop_last(), i, env1, er);
    }
}

proof fn lemma_top_seq_err(
    env: EnvV,
    ts: Seq<ast::TopLevelStmt>,
    i: int,
    env1: EnvV,
    er: TypeCheckerErrorV,
)
    requires
        0 <= i < ts.len(),
        elab_top_seq(env, ts.subrange(0, i)) matches Ok(p) && p.0 == env1,
        elab_top(env1, ts[i]) matches Err(e) && e == er,
    ensures
        elab_top_seq(env, ts) == Err::<(EnvV, Seq<TopLevelStmtV>), TypeCheckerErrorV>(er),
    decreases ts.len(),
{
    if i == ts.len() - 1 {
        assert(ts.drop_last() =~= ts.subrange(0, i));
    } else {
        assert(ts.drop_last().subrange(0, i) =~= ts.subrange(0, i));
        lemma_top_seq_err(env, ts.drop_last(), i, env1, er);
    }
}

/// Indexing into the view of a sequence of typed expressions.
proof fn lemma_view_expr_seq_index(s: Seq<typed_ast::Expr>, i: int)
    requires
        0 <= i < s.len(),
    ensures
        view_expr_seq(s).len() == s.len(),
        view_expr_seq(s)[i] == view_expr(s[i]),
    decreases s.len(),
{
    if s.len() > 0 && i < s.len() - 1 {
        lemma_view_expr_seq_index(s.drop_last(), i);
    } else if s.len() > 0 {
        lemma_view_expr_seq_len(s.drop_last());
    }
}

proof fn lemma_view_expr_seq_len(s: Seq<typed_ast::Expr>)
    ensures
        view_expr_seq(s).len() == s.len(),
    decreases s.len(),
{
    if s.len() > 0 {
        lemma_view_expr_seq_len(s.drop_last());
    }
}

proof fn lemma_top_len(env: EnvV, t: ast::TopLevelStmt)
    requires
        env.len() >= 1,
    ensures
        elab_top(env, t) matches Ok(p) ==> p.0.len() == env.len(),
{
    match t {
        ast::TopLevelStmt::FunctionDef(f) => {
            let ret = elab_ret_type(f.return_type);
            let env2 = env_bind(env, f.name@, ret).push(param_frame(f.params@));
            lemma_block_len(env2, ret, f.body);
        },
        _ => {},
    }
}

// SHAPE PRESERVATION
//
// Elaboration only annotates: the typed tree it yields has the parse tree's
// shape, constructor for constructor and child for child, with operators and
// written types carried over unchanged.

pub open spec fn shape_expr(e: ast::Expr, t: ExprV) -> bool
    decreases e,
{
    match e {
        ast::Expr::Literal(l) => t.val == ExprInnerV::Literal(elab_literal(l)),
        ast::Expr::Ident(n) => t.val == ExprInnerV::Ident(n@),
        ast::Expr::Binary(l, op, r) => t.val matches ExprInnerV::Binary(bv) && shape_expr(
            *l,
            *bv.lhs,
        ) && shape_expr(*r, *bv.rhs) && bv.op == elab_binop(op),
        ast::Expr::Unary(op, d) => t.val matches ExprInnerV::Unary(uv) && shape_expr(
            *d,
            *uv.data,
        ) && uv.op == elab_unaryop(op),
        ast::Expr::IndexExpr(n, i) => t.val matches ExprInnerV::IndexExpr(iv) && shape_expr(
            *n,
            *iv.name,
        ) && shape_expr(*i, *iv.index),
        ast::Expr::Array(items, len) => t.val matches ExprInnerV::Array(av) && av.len == len as nat
            && shape_expr_seq(items@, av.items),
        ast::Expr::Cast(o, ty) => t.val matches ExprInnerV::Cast(cv) && shape_expr(
            *o,
            *cv.original,
        ) && cv.to_type == elab_type(ty),
        ast::Expr::FunctionCall(c) => t.val matches ExprInnerV::FunctionCall(fv) && shape_expr(
            *c.name,
            *fv.name,
        ) && shape_expr_seq(c.args@, fv.args),
        ast::Expr::Class(ce) => t.val matches ExprInnerV::Class(cv) && cv.class == ce.class@
            && shape_fields(ce.fields@, cv.fields),
    }
}

pub open spec fn shape_expr_seq(es: Seq<ast::Expr>, ts: Seq<ExprV>) -> bool
    decreases es,
{
    &&& es.len() == ts.len()
    &&& if es.len() == 0 {
        true
    } else {
        shape_expr_seq(es.drop_last(), ts.drop_last()) && shape_expr(es.last(), ts.last())
    }
}

pub open spec fn shape_fields(
    fs: Seq<(String, Box<ast::Expr>)>,
    ts: Seq<(Seq<char>, ExprV)>,
) -> bool
    decreases fs,
{
    &&& fs.len() == ts.len()
    &&& if fs.len() == 0 {
        true
    } else {
        shape_fields(fs.drop_last(), ts.drop_last()) && ts.last().0 == fs.last().0@ && shape_expr(
            *fs.last().1,
            ts.last().1,
        )
    }
}

/// Law: an expression elaborated in any environment keeps its shape.
pub proof fn lemma_elab_expr_shape(env: EnvV, e: ast::Expr)
    ensures
        elab_expr(env, e) matches Ok(t) ==> shape_expr(e, t),
    decreases e,
{
    match e {
        ast::Expr::Literal(_l) => {},
        ast::Expr::Ident(_n) => {},
        ast::Expr::Binary(l, _op, r) => {
            lemma_elab_expr_shape(env, *l);
            lemma_elab_expr_shape(env, *r);
        },
        ast::Expr::Unary(_op, d) => {
            lemma_elab_expr_shape(env, *d);
        },
        ast::Expr::IndexExpr(n, i) => {
            lemma_elab_expr_shape(env, *n);
            lemma_elab_expr_shape(env, *i);
        },
        ast::Expr::Array(items, _len) => {
            lemma_elab_expr_seq_shape(env, items@);
        },
        ast::Expr::Cast(o, _ty) => {
            lemma_elab_expr_shape(env, *o);
        },
        ast::Expr::FunctionCall(c) => {
            lemma_elab_expr_shape(env, *c.name);
            lemma_elab_expr_seq_shape(env, c.args@);
        },
        ast::Expr::Class(ce) => {
            lemma_elab_field_seq_shape(env, ce.fields@);
        },
    }
}

proof fn lemma_elab_expr_seq_shape(env: EnvV, es: Seq<ast::Expr>)
    ensures
        elab_expr_seq(env, es) matches Ok(ts) ==> shape_expr_seq(es, ts),
    decreases es,
{
    if es.len() > 0 {
        lemma_elab_expr_seq_shape(env, es.drop_last());
        lemma_elab_expr_shape(env, es.last());
        match elab_expr_seq(env, es.drop_last()) {
            Err(_er) => {},
            Ok(list) => {
                match elab_expr(env, es.last()) {
                    Err(_er) => {},
                    Ok(ev) => {
                        assert(list.push(ev).drop_last() =~= list);
                    },
                }
            },
        }
    }
}

proof fn lemma_elab_field_seq_shape(env: EnvV, fs: Seq<(String, Box<ast::Expr>)>)
    ensures
        elab_field_seq(env, fs) matches Ok(ts) ==> shape_fields(fs, ts),
    decreases fs,
{
    if fs.len() > 0 {
        lemma_elab_field_seq_shape(env, fs.drop_last());
        lemma_elab_expr_shape(env, *fs.last().1);
        match elab_field_seq(env, fs.drop_last()) {
            Err(_er) => {},
            Ok(list) => {
                match elab_expr(env, *fs.last().1) {
                    Err(_er) => {},
                    Ok(ev) => {
                        assert(list.push((fs.last().0@, ev)).drop_last() =~= list);
                    },
                }
            },
        }
    }
}

pub open spec fn shape_stmt(s: ast::Stmt, t: StmtV) -> bool
    decreases s,
{
    match s {
        ast::Stmt::ExprStmt(e) => t matches StmtV::ExprStmt(tv) && shape_expr(e, tv),
        ast::Stmt::BlockStmt(b) => t matches StmtV::BlockStmt(bv) && shape_block(b, bv),
        ast::Stmt::IfStmt(i) => t matches StmtV::IfStmt(iv) && shape_if(i, iv),
        ast::Stmt::WhileStmt(w) => t matches StmtV::WhileStmt(wv) && shape_expr(
            w.condition,
            wv.condition,
        ) && shape_block(w.body, wv.body),
        ast::Stmt::ConstDef(d) => t matches StmtV::ConstDef(dv) && dv.binding == elab_binding(
            d.binding,
        ) && shape_expr(d.value, dv.value),
        ast::Stmt::VarDef(d) => t matches StmtV::VarDef(dv) && dv.binding == elab_binding(
            d.binding,
        ) && shape_expr(d.value, dv.value),
        ast::Stmt::ReturnStmt(e) => t matches StmtV::ReturnStmt(tv) && shape_expr(e, tv),
    }
}

pub open spec fn shape_stmt_seq(ss: Seq<ast::Stmt>, ts: Seq<StmtV>) -> bool
    decreases ss,
{
    &&& ss.len() == ts.len()
    &&& if ss.len() == 0 {
        true
    } else {
        shape_stmt_seq(ss.drop_last(), ts.drop_last()) && shape_stmt(ss.last(), ts.last())
    }
}

pub open spec fn shape_block(b: ast::BlockStmt, t: BlockStmtV) -> bool
    decreases b,
{
    shape_stmt_seq(b.0@, t.inners)
}

pub open spec fn shape_if(i: ast::IfStmt, t: IfStmtV) -> bool
    decreases i,
{
    &&& shape_expr(i.condition, t.condition)
    &&& shape_block(i.body, t.body)
    &&& match (i.else_stmt, t.else_stmt) {
        (None, None) => true,
        (Some(ast::IfOrElse::If(inner)), Some(IfOrElseV::If(tv))) => shape_if(*inner, *tv),
        (Some(ast::IfOrElse::Else(b)), Some(IfOrElseV::Else(bv))) => shape_block(b, bv),
        _ => false,
    }
}

pub open spec fn shape_top(t: ast::TopLevelStmt, tv: TopLevelStmtV) -> bool {
    match t {
        ast::TopLevelStmt::ClassDef(c) => tv == TopLevelStmtV::ClassDef(
            ClassDefV { name: c.name@, fields: elab_class_fields(c.fields@) },
        ),
        ast::TopLevelStmt::FunctionDef(f) => tv matches TopLevelStmtV::FunctionDef(fv)
            && fv.name == f.name@ && fv.params == elab_binding_seq(f.params@) && fv.return_type
            == elab_ret_type(f.return_type) && shape_block(f.body, fv.body),
        ast::TopLevelStmt::ExternDef(x) => tv == TopLevelStmtV::ExternDef(
            ExternDefV {
                name: x.name@,
                params: elab_binding_seq(x.params@),
                return_type: elab_ret_type(x.return_type),
            },
        ),
        ast::TopLevelStmt::ConstDef(g) => tv == TopLevelStmtV::ConstDef(
            GlobalConstDefV { binding: elab_binding(g.binding), value: elab_literal(g.value) },
        ),
    }
}

pub open spec fn shape_top_seq(ts: Seq<ast::TopLevelStmt>, tvs: Seq<TopLevelStmtV>) -> bool
    decreases ts,
{
    &&& ts.len() == tvs.len()
    &&& if ts.len() == 0 {
        true
    } else {
        shape_top_seq(ts.drop_last(), tvs.drop_last()) && shape_top(ts.last(), tvs.last())
    }
}

proof fn lemma_elab_stmt_shape(env: EnvV, ret: TypeV, s: ast::Stmt)
    ensures
        elab_stmt(env, ret, s) matches Ok(p) ==> shape_stmt(s, p.1),
    decreases s,
{
    match s {
        ast::Stmt::ExprStmt(e) => {
            lemma_elab_expr_shape(env, e);
        },
        ast::Stmt::BlockStmt(b) => {
            lemma_elab_block_shape(env, ret, b);
        },
        ast::Stmt::IfStmt(i) => {
            lemma_elab_if_shape(env, ret, i);
        },
        ast::Stmt::WhileStmt(w) => {
            lemma_elab_expr_shape(env, w.condition);
            lemma_elab_block_shape(env, ret, w.body);
        },
        ast::Stmt::ConstDef(d) => {
            lemma_elab_expr_shape(env, d.value);
        },
        ast::Stmt::VarDef(d) => {
            lemma_elab_expr_shape(env, d.value);
        },
        ast::Stmt::ReturnStmt(e) => {
            lemma_elab_expr_shape(env, e);
        },
    }
}

proof fn lemma_elab_stmt_seq_shape(env: EnvV, ret: TypeV, ss: Seq<ast::Stmt>)
    ensures
        elab_stmt_seq(env, ret, ss) matches Ok(p) ==> shape_stmt_seq(ss, p.1),
    decreases ss,
{
    if ss.len() > 0 {
        lemma_elab_stmt_seq_shape(env, ret, ss.drop_last());
        match elab_stmt_seq(env, ret, ss.drop_last()) {
            Err(_er) => {},
            Ok((env1, list)) => {
                lemma_elab_stmt_shape(env1, ret, ss.last());
                match elab_stmt(env1, ret, ss.last()) {
                    Err(_er) => {},
                    Ok((_env2, sv)) => {
                        assert(list.push(sv).drop_last() =~= list);
                    },
                }
            },
        }
    }
}

proof fn lemma_elab_block_shape(env: EnvV, ret: TypeV, b: ast::BlockStmt)
    ensures
        elab_block(env, ret, b) matches Ok(p) ==> shape_block(b, p.1),
    decreases b,
{
    lemma_elab_stmt_seq_shape(env.push(Map::empty()), ret, b.0@);
}

proof fn lemma_elab_if_shape(env: EnvV, ret: TypeV, i: ast::IfStmt)
    ensures
        elab_if(env, ret, i) matches Ok(p) ==> shape_if(i, p.1),
    decreases i,
{
    lemma_elab_expr_shape(env, i.condition);
    lemma_elab_block_shape(env, ret, i.body);
    match elab_expr(env, i.condition) {
        Err(_er) => {},
        Ok(_cv) => {
            match elab_block(env, ret, i.body) {
                Err(_er) => {},
                Ok((env1, _bv)) => {
                    match i.else_stmt {
                        None => {},
                        Some(ast::IfOrElse::If(inner)) => {
                            lemma_elab_if_shape(env1, ret, *inner);
                        },
                        Some(ast::IfOrElse::Else(b)) => {
                            lemma_elab_block_shape(env1, ret, b);
                        },
                    }
                },
            }
        },
    }
}

proof fn lemma_elab_top_shape(env: EnvV, t: ast::TopLevelStmt)
    ensures
        elab_top(env, t) matches Ok(p) ==> shape_top(t, p.1),
{
    match t {
        ast::TopLevelStmt::FunctionDef(f) => {
            let ret = elab_ret_type(f.return_type);
            let env2 = env_bind(env, f.name@, ret).push(param_frame(f.params@));
            lemma_elab_block_shape(env2, ret, f.body);
        },
        _ => {},
    }
}

/// Law: elaboration yields a typed tree of the program's own shape, item
/// for item and node for node; in particular, on a program whose written
/// annotations already determine every type, it is exactly transcription.
pub proof fn lemma_elab_program_shape(p: ast::Program)
    ensures
        elab_program(p) matches Ok(tp) ==> shape_top_seq(p.0@, tp.0),
{
    lemma_elab_top_seq_shape(init_env(), p.0@);
}

proof fn lemma_elab_top_seq_shape(env: EnvV, ts: Seq<ast::TopLevelStmt>)
    ensures
        elab_top_seq(env, ts) matches Ok(p) ==> shape_top_seq(ts, p.1),
    decreases ts,
{
    if ts.len() > 0 {
        lemma_elab_top_seq_shape(env, ts.drop_last());
        match elab_top_seq(env, ts.drop_last()) {
            Err(_er) => {},
            Ok((env1, list)) => {
                lemma_elab_top_shape(env1, ts.last());
                match elab_top(env1, ts.last()) {
                    Err(_er) => {},
                    Ok((_env2, tv)) => {
                        assert(list.push(tv).drop_last() =~= list);
                    },
                }
            },
        }
    }
}

// EXECUTABLE ELABORATION

fn convert_type(t: &ast::Type) -> (r: typed_ast::Type)
    ensures
        r@ == elab_type(*t),
    decreases t,
{
    match t {
        ast::Type::Class(name) => typed_ast::Type::Class(name.clone()),
        ast::Type::Array(inner, len) => typed_ast::Type::Array(
            Box::new(convert_type(&**inner)),
            *len,
        ),
        ast::Type::Ref(inner) => typed_ast::Type::Ref(Box::new(convert_type(&**inner))),
        ast::Type::Int => typed_ast::Type::Int,
        ast::Type::Int8 => typed_ast::Type::Int8,
        ast::Type::Int16 => typed_ast::Type::Int16,
        ast::Type::Int32 => typed_ast::Type::Int32,
        ast::Type::Int64 => typed_ast::Type::Int64,
        ast::Type::UInt => typed_ast::Type::UInt,
        ast::Type::UInt8 => typed_ast::Type::UInt8,
        ast::Type::UInt16 => typed_ast::Type::UInt16,
        ast::Type::UInt32 => typed_ast::Type::UInt32,
        ast::Type::UInt64 => typed_ast::Type::UInt64,
        ast::Type::Char => typed_ast::Type::Char,
        ast::Type::Str => typed_ast::Type::Str,
        ast::Type::CStr => typed_ast::Type::CStr,
        ast::Type::Bool => typed_ast::Type::Bool,
    }
}

fn convert_ret_type(t: &Option<ast::Type>) -> (r: typed_ast::Type)
    ensures
        r@ == elab_ret_type(*t),
{
    match t {
        Some(t) => convert_type(t),
        None => typed_ast::Type::NoneType,
    }
}

fn convert_literal(l: &ast::Literal) -> (r: typed_ast::Literal)
    ensures
        r@ == elab_literal(*l),
{
    match l {
        ast::Literal::Int(v) => typed_ast::Literal {
            ty: typed_ast::Type::Int,
            val: typed_ast::LiteralInner::Int(*v),
        },
        ast::Literal::UInt(v) => typed_ast::Literal {
            ty: typed_ast::Type::UInt,
            val: typed_ast::LiteralInner::UInt(*v),
        },
        ast::Literal::Int8(v) => typed_ast::Literal {
            ty: typed_ast::Type::Int8,
            val: typed_ast::LiteralInner::Int8(*v),
        },
        ast::Literal::Int16(v) => typed_ast::Literal {
            ty: typed_ast::Type::Int16,
            val: typed_ast::LiteralInner::Int16(*v),
        },
        ast::Literal::Int32(v) => typed_ast::Literal {
            ty: typed_ast::Type::Int32,
            val: typed_ast::LiteralInner::Int32(*v),
        },
        ast::Literal::Int64(v) => typed_ast::Literal {
            ty: typed_ast::Type::Int64,
            val: typed_ast::LiteralInner::Int64(*v),
        },
        ast::Literal::UInt8(v) => typed_ast::Literal {
            ty: typed_ast::Type::UInt8,
            val: typed_ast::LiteralInner::UInt8(*v),
        },
        ast::Literal::UInt16(v) => typed_ast::Literal {
            ty: typed_ast::Type::UInt16,
            val: typed_ast::LiteralInner::UInt16(*v),
        },
        ast::Literal::UInt32(v) => typed_ast::Literal {
            ty: typed_ast::Type::UInt32,
            val: typed_ast::LiteralInner::UInt32(*v),
        },
        ast::Literal::UInt64(v) => typed_ast::Literal {
            ty: typed_ast::Type::UInt64,
            val: typed_ast::LiteralInner::UInt64(*v),
        },
        ast::Literal::Str(s) => typed_ast::Literal {
            ty: typed_ast::Type::Str,
            val: typed_ast::LiteralInner::Str(s.clone()),
        },
        ast::Literal::CStr(s) => typed_ast::Literal {
            ty: typed_ast::Type::CStr,
            val: typed_ast::LiteralInner::CStr(s.clone()),
        },
        ast::Literal::Bool(v) => typed_ast::Literal {
            ty: typed_ast::Type::Bool,
            val: typed_ast::LiteralInner::Bool(*v),
        },
    }
}

fn convert_binop(op: &ast::BinOp) -> (r: typed_ast::BinOp)
    ensures
        r == elab_binop(*op),
{
    match op {
        ast::BinOp::Plus => typed_ast::BinOp::Plus,
        ast::BinOp::Minus => typed_ast::BinOp::Minus,
        ast::BinOp::Times => typed_ast::BinOp::Times,
        ast::BinOp::Divide => typed_ast::BinOp::Divide,
        ast::BinOp::LogicalAnd => typed_ast::BinOp::LogicalAnd,
        ast::BinOp::LogicalOr => typed_ast::BinOp::LogicalOr,
        ast::BinOp::Equals => typed_ast::BinOp::Equals,
        ast::BinOp::Eq => typed_ast::BinOp::Eq,
        ast::BinOp::Ne => typed_ast::BinOp::Ne,
        ast::BinOp::Gt => typed_ast::BinOp::Gt,
        ast::BinOp::Gte => typed_ast::BinOp::Gte,
        ast::BinOp::Lt => typed_ast::BinOp::Lt,
        ast::BinOp::Lte => typed_ast::BinOp::Lte,
    }
}

fn convert_unaryop(op: &ast::UnaryOp) -> (r: typed_ast::UnaryOp)
    ensures
        r == elab_unaryop(*op),
{
    match op {
        ast::UnaryOp::Reference => typed_ast::UnaryOp::Reference,
        ast::UnaryOp::Deref => typed_ast::UnaryOp::Deref,
        ast::UnaryOp::Minus => typed_ast::UnaryOp::Minus,
        ast::UnaryOp::Not => typed_ast::UnaryOp::Not,
    }
}

fn convert_binding(b: &ast::TypeBinding) -> (r: typed_ast::TypeBinding)
    ensures
        r@ == elab_binding(*b),
{
    typed_ast::TypeBinding { name: b.name.clone(), ty: convert_type(&b.ty) }
}

fn convert_binding_vec(bs: &Vec<ast::TypeBinding>) -> (r: Vec<typed_ast::TypeBinding>)
    ensures
        view_binding_seq(r@) == elab_binding_seq(bs@),
        r@.len() == bs@.len(),
{
    let mut acc: Vec<typed_ast::TypeBinding> = Vec::new();
    let mut i: usize = 0;
    proof {
        assert(bs@.subrange(0, 0) =~= Seq::<ast::TypeBinding>::empty());
    }
    while i < bs.len()
        invariant
            i <= bs@.len(),
            acc@.len() == i,
            view_binding_seq(acc@) == elab_binding_seq(bs@.subrange(0, i as int)),
        decreases bs@.len() - i,
    {
        let ghost pre = acc@;
        acc.push(convert_binding(&bs[i]));
        proof {
            assert(acc@.drop_last() =~= pre);
            assert(bs@.subrange(0, i + 1).drop_last() =~= bs@.subrange(0, i as int));
            assert(bs@.subrange(0, i + 1).last() == bs@[i as int]);
        }
        i = i + 1;
    }
    proof {
        assert(bs@.subrange(0, bs@.len() as int) =~= bs@);
    }
    acc
}

fn convert_class_fields(fs: &Vec<(String, ast::Type)>) -> (r: Vec<(String, typed_ast::Type)>)
    ensures
        view_class_fields(r@) == elab_class_fields(fs@),
        r@.len() == fs@.len(),
{
    let mut acc: Vec<(String, typed_ast::Type)> = Vec::new();
    let mut i: usize = 0;
    proof {
        assert(fs@.subrange(0, 0) =~= Seq::<(String, ast::Type)>::empty());
    }
    while i < fs.len()
        invariant
            i <= fs@.len(),
            acc@.len() == i,
            view_class_fields(acc@) == elab_class_fields(fs@.subrange(0, i as int)),
        decreases fs@.len() - i,
    {
        let ghost pre = acc@;
        let pair = (fs[i].0.clone(), convert_type(&fs[i].1));
        acc.push(pair);
        proof {
            assert(acc@.drop_last() =~= pre);
            assert(fs@.subrange(0, i + 1).drop_last() =~= fs@.subrange(0, i as int));
            assert(fs@.subrange(0, i + 1).last() == fs@[i as int]);
        }
        i = i + 1;
    }
    proof {
        assert(fs@.subrange(0, fs@.len() as int) =~= fs@);
    }
    acc
}

fn elaborate_expr(names: &ScopedSymbolTable<typed_ast::Type>, e: &ast::Expr) -> (r: Result<
    typed_ast::Expr,
    TypeCheckerError,
>)
    ensures
        res_view(r) == elab_expr(names@, *e),
    decreases e,
{
    match e {
        ast::Expr::Literal(lit) => {
            let lv = convert_literal(lit);
            let ty = lv.ty.clone();
            Ok(typed_ast::Expr { ty, val: typed_ast::ExprInner::Literal(lv) })
        },
        ast::Expr::Ident(name) => match names.get_symbol(name.as_str()) {
            Some(t) => {
                let ty = t.clone();
                Ok(typed_ast::Expr { ty, val: typed_ast::ExprInner::Ident(name.clone()) })
            },
            None => Err(TypeCheckerError::Undeclared(name.clone())),
        },
        ast::Expr::Binary(lhs, op, rhs) => {
            let lv = match elaborate_expr(names, &**lhs) {
                Ok(v) => v,
                Err(er) => {
                    return Err(er);
                },
            };
            let rv = match elaborate_expr(names, &**rhs) {
                Ok(v) => v,
                Err(er) => {
                    return Err(er);
                },
            };
            let ty = lv.ty.clone();
            Ok(
                typed_ast::Expr {
                    ty,
                    val: typed_ast::ExprInner::Binary(
                        typed_ast::BinaryExpr {
                            lhs: Box::new(lv),
                            rhs: Box::new(rv),
                            op: convert_binop(op),
                        },
                    ),
                },
            )
        },
        ast::Expr::Unary(op, data) => {
            let dv = match elaborate_expr(names, &**data) {
                Ok(v) => v,
                Err(er) => {
                    return Err(er);
                },
            };
            match op {
                ast::UnaryOp::Reference => {
                    let ty = typed_ast::Type::Ref(Box::new(dv.ty.clone()));
                    Ok(
                        typed_ast::Expr {
                            ty,
                            val: typed_ast::ExprInner::Unary(
                                typed_ast::UnaryExpr {
                                    data: Box::new(dv),
                                    op: typed_ast::UnaryOp::Reference,
                                },
                            ),
                        },
                    )
                },
                ast::UnaryOp::Deref => match &dv.ty {
                    typed_ast::Type::Ref(inner) => {
                        let ty = (&**inner).clone();
                        Ok(
                            typed_ast::Expr {
                                ty,
                                val: typed_ast::ExprInner::Unary(
                                    typed_ast::UnaryExpr {
                                        data: Box::new(dv),
                                        op: typed_ast::UnaryOp::Deref,
                                    },
                                ),
                            },
                        )
                    },
                    _ => Err(TypeCheckerError::DerefNonRef),
                },
                _ => {
                    let ty = dv.ty.clone();
                    Ok(
                        typed_ast::Expr {
                            ty,
                            val: typed_ast::ExprInner::Unary(
                                typed_ast::UnaryExpr {
                                    data: Box::new(dv),
                                    op: convert_unaryop(op),
                                },
                            ),
                        },
                    )
                },
            }
        },
        ast::Expr::IndexExpr(name, index) => {
            let nv = match elaborate_expr(names, &**name) {
                Ok(v) => v,
                Err(er) => {
                    return Err(er);
                },
            };
            match &nv.ty {
                typed_ast::Type::Array(elem, _len) => {
                    let ety = (&**elem).clone();
                    let iv = match elaborate_expr(names, &**index) {
                        Ok(v) => v,
                        Err(er) => {
                            return Err(er);
                        },
                    };
                    Ok(
                        typed_ast::Expr {
                            ty: ety,
                            val: typed_ast::ExprInner::IndexExpr(
                                typed_ast::IndexExpr {
                                    name: Box::new(nv),
                                    index: Box::new(iv),
                                },
                            ),
                        },
                    )
                },
                _ => Err(TypeCheckerError::BadIndex),
            }
        },
        ast::Expr::Array(items, len) => {
            if items.len() == 0 {
                Err(TypeCheckerError::EmptyArray)
            } else {
                let list = match elaborate_expr_vec(names, items) {
                    Ok(v) => v,
                    Err(er) => {
                        return Err(er);
                    },
                };
                proof {
                    lemma_view_expr_seq_index(list@, 0);
                }
                let ty = typed_ast::Type::Array(Box::new(list[0].ty.clone()), items.len());
                Ok(
                    typed_ast::Expr {
                        ty,
                        val: typed_ast::ExprInner::Array(
                            typed_ast::ArrayExpr { items: list, len: *len },
                        ),
                    },
                )
            }
        },
        ast::Expr::Cast(original, to_type) => {
            let ov = match elaborate_expr(names, &**original) {
                Ok(v) => v,
                Err(er) => {
                    return Err(er);
                },
            };
            let t = convert_type(to_type);
            let ty = t.clone();
            Ok(
                typed_ast::Expr {
                    ty,
                    val: typed_ast::ExprInner::Cast(
                        typed_ast::CastExpr { original: Box::new(ov), to_type: t },
                    ),
                },
            )
        },
        ast::Expr::FunctionCall(call) => {
            let nv = match elaborate_expr(names, &*call.name) {
                Ok(v) => v,
                Err(er) => {
                    return Err(er);
                },
            };
            let args = match elaborate_expr_vec(names, &call.args) {
                Ok(v) => v,
                Err(er) => {
                    return Err(er);
                },
            };
            let ty = nv.ty.clone();
            Ok(
                typed_ast::Expr {
                    ty,
                    val: typed_ast::ExprInner::FunctionCall(
                        typed_ast::FunctionCall { name: Box::new(nv), args },
                    ),
                },
            )
        },
        ast::Expr::Class(c) => {
            let fields = match elaborate_field_vec(names, &c.fields) {
                Ok(v) => v,
                Err(er) => {
                    return Err(er);
                },
            };
            Ok(
                typed_ast::Expr {
                    ty: typed_ast::Type::Class(c.class.clone()),
                    val: typed_ast::ExprInner::Class(
                        typed_ast::ClassExpr { class: c.class.clone(), fields },
                    ),
                },
            )
        },
    }
}

fn elaborate_expr_vec(names: &ScopedSymbolTable<typed_ast::Type>, es: &Vec<ast::Expr>) -> (r:
    Result<Vec<typed_ast::Expr>, TypeCheckerError>)
    ensures
        match r {
            Ok(v) => elab_expr_seq(names@, es@) == Ok::<Seq<ExprV>, TypeCheckerErrorV>(
                view_expr_seq(v@),
            ) && v@.len() == es@.len(),
            Err(er) => elab_expr_seq(names@, es@) == Err::<Seq<ExprV>, TypeCheckerErrorV>(er@),
        },
    decreases es,
{
    let mut acc: Vec<typed_ast::Expr> = Vec::new();
    let mut i: usize = 0;
    proof {
        assert(es@.subrange(0, 0) =~= Seq::<ast::Expr>::empty());
    }
    while i < es.len()
        invariant
            i <= es@.len(),
            acc@.len() == i,
            elab_expr_seq(names@, es@.subrange(0, i as int)) == Ok::<
                Seq<ExprV>,
                TypeCheckerErrorV,
            >(view_expr_seq(acc@)),
        decreases es@.len() - i,
    {
        match elaborate_expr(names, &es[i]) {
            Err(er) => {
                proof {
                    lemma_expr_seq_err(names@, es@, i as int, er@);
                }
                return Err(er);
            },
            Ok(t) => {
                let ghost pre = acc@;
                acc.push(t);
                proof {
                    assert(acc@.drop_last() =~= pre);
                    assert(es@.subrange(0, i + 1).drop_last() =~= es@.subrange(0, i as int));
                    assert(es@.subrange(0, i + 1).last() == es@[i as int]);
                }
            },
        }
        i = i + 1;
    }
    proof {
        assert(es@.subrange(0, es@.len() as int) =~= es@);
    }
    Ok(acc)
}

fn elaborate_field_vec(
    names: &ScopedSymbolTable<typed_ast::Type>,
    fs: &Vec<(String, Box<ast::Expr>)>,
) -> (r: Result<Vec<(String, Box<typed_ast::Expr>)>, TypeCheckerError>)
    ensures
        match r {
            Ok(v) => elab_field_seq(names@, fs@) == Ok::<
                Seq<(Seq<char>, ExprV)>,
                TypeCheckerErrorV,
            >(view_expr_fields(v@)),
            Err(er) => elab_field_seq(names@, fs@) == Err::<
                Seq<(Seq<char>, ExprV)>,
                TypeCheckerErrorV,
            >(er@),
        },
    decreases fs,
{
    let mut acc: Vec<(String, Box<typed_ast::Expr>)> = Vec::new();
    let mut i: usize = 0;
    proof {
        assert(fs@.subrange(0, 0) =~= Seq::<(String, Box<ast::Expr>)>::empty());
    }
    while i < fs.len()
        invariant
            i <= fs@.len(),
            acc@.len() == i,
            elab_field_seq(names@, fs@.subrange(0, i as int)) == Ok::<
                Seq<(Seq<char>, ExprV)>,
                TypeCheckerErrorV,
            >(view_expr_fields(acc@)),
        decreases fs@.len() - i,
    {
        match elaborate_expr(names, &*fs[i].1) {
            Err(er) => {
                proof {
                    lemma_field_seq_err(names@, fs@, i as int, er@);
                }
                return Err(er);
            },
            Ok(t) => {
                let ghost pre = acc@;
                let pair = (fs[i].0.clone(), Box::new(t));
                acc.push(pair);
                proof {
                    assert(acc@.drop_last() =~= pre);
                    assert(fs@.subrange(0, i + 1).drop_last() =~= fs@.subrange(0, i as int));
                    assert(fs@.subrange(0, i + 1).last() == fs@[i as int]);
                }
            },
        }
        i = i + 1;
    }
    proof {
        assert(fs@.subrange(0, fs@.len() as int) =~= fs@);
    }
    Ok(acc)
}

fn elaborate_stmt(
    names: &mut ScopedSymbolTable<typed_ast::Type>,
    ret: &typed_ast::Type,
    s: &ast::Stmt,
) -> (r: Result<typed_ast::Stmt, TypeCheckerError>)
    requires
        old(names)@.len() >= 1,
    ensures
        match r {
            Ok(sv) => elab_stmt(old(names)@, ret@, *s) == Ok::<(EnvV, StmtV), TypeCheckerErrorV>(
                (final(names)@, sv@),
            ),
            Err(er) => elab_stmt(old(names)@, ret@, *s) == Err::<
                (EnvV, StmtV),
                TypeCheckerErrorV,
            >(er@),
        },
    decreases s,
{
    match s {
        ast::Stmt::ExprStmt(e) => match elaborate_expr(names, e) {
            Ok(ev) => Ok(typed_ast::Stmt::ExprStmt(ev)),
            Err(er) => Err(er),
        },
        ast::Stmt::BlockStmt(b) => match elaborate_block(names, ret, b) {
            Ok(bv) => Ok(typed_ast::Stmt::BlockStmt(bv)),
            Err(er) => Err(er),
        },
        ast::Stmt::IfStmt(i) => match elaborate_if(names, ret, i) {
            Ok(iv) => Ok(typed_ast::Stmt::IfStmt(iv)),
            Err(er) => Err(er),
        },
        ast::Stmt::WhileStmt(w) => {
            let cv = match elaborate_expr(names, &w.condition) {
                Ok(v) => v,
                Err(er) => {
                    return Err(er);
                },
            };
            match elaborate_block(names, ret, &w.body) {
                Ok(bv) => Ok(
                    typed_ast::Stmt::WhileStmt(
                        typed_ast::WhileStmt { condition: cv, body: bv },
                    ),
                ),
                Err(er) => Err(er),
            }
        },
        ast::Stmt::ConstDef(d) => {
            let ev = match elaborate_expr(names, &d.value) {
                Ok(v) => v,
                Err(er) => {
                    return Err(er);
                },
            };
            let binding = convert_binding(&d.binding);
            let _ = names.add_symbol(binding.name.clone(), binding.ty.clone());
            Ok(typed_ast::Stmt::ConstDef(typed_ast::ConstDef { binding, value: ev }))
        },
        ast::Stmt::VarDef(d) => {
            let ev = match elaborate_expr(names, &d.value) {
                Ok(v) => v,
                Err(er) => {
                    return Err(er);
                },
            };
            let binding = convert_binding(&d.binding);
            let _ = names.add_symbol(binding.name.clone(), binding.ty.clone());
            Ok(typed_ast::Stmt::VarDef(typed_ast::VarDef { binding, value: ev }))
        },
        ast::Stmt::ReturnStmt(e) => {
            let ev = match elaborate_expr(names, e) {
                Ok(v) => v,
                Err(er) => {
                    return Err(er);
                },
            };
            if crate::type_checker::typed_ast::type_eq(&ev.ty, ret) {
                Ok(typed_ast::Stmt::ReturnStmt(ev))
            } else {
                Err(TypeCheckerError::ReturnMismatch)
            }
        },
    }
}

fn elaborate_stmt_vec(
    names: &mut ScopedSymbolTable<typed_ast::Type>,
    ret: &typed_ast::Type,
    ss: &Vec<ast::Stmt>,
) -> (r: Result<Vec<typed_ast::Stmt>, TypeCheckerError>)
    requires
        old(names)@.len() >= 1,
    ensures
        match r {
            Ok(v) => elab_stmt_seq(old(names)@, ret@, ss@) == Ok::<
                (EnvV, Seq<StmtV>),
                TypeCheckerErrorV,
            >((final(names)@, view_stmt_seq(v@))),
            Err(er) => elab_stmt_seq(old(names)@, ret@, ss@) == Err::<
                (EnvV, Seq<StmtV>),
                TypeCheckerErrorV,
            >(er@),
        },
    decreases ss,
{
    let n = ss.len();
    proof {
        assert(ss@.subrange(0, n as int) =~= ss@);
    }
    elaborate_stmt_prefix(names, ret, ss, n)
}

/// Elaborate the first `n` statements of a list, threading the environment
/// through them in order.
fn elaborate_stmt_prefix(
    names: &mut ScopedSymbolTable<typed_ast::Type>,
    ret: &typed_ast::Type,
    ss: &Vec<ast::Stmt>,
    n: usize,
) -> (r: Result<Vec<typed_ast::Stmt>, TypeCheckerError>)
    requires
        old(names)@.len() >= 1,
        n <= ss@.len(),
    ensures
        match r {
            Ok(v) => elab_stmt_seq(old(names)@, ret@, ss@.subrange(0, n as int)) == Ok::<
                (EnvV, Seq<StmtV>),
                TypeCheckerErrorV,
            >((final(names)@, view_stmt_seq(v@))) && v@.len() == n,
            Err(er) => elab_stmt_seq(old(names)@, ret@, ss@.subrange(0, n as int)) == Err::<
                (EnvV, Seq<StmtV>),
                TypeCheckerErrorV,
            >(er@),
        },
    decreases ss@.subrange(0, n as int),
{
    if n == 0 {
        proof {
            assert(ss@.subrange(0, 0) =~= Seq::<ast::Stmt>::empty());
        }
        Ok(Vec::new())
    } else {
        proof {
            let sub = ss@.subrange(0, n as int);
            assert(sub.drop_last() =~= ss@.subrange(0, n - 1));
            assert(sub.last() == ss@[n - 1]);
            assert(decreases_to!(ss@.subrange(0, n as int) => ss@.subrange(0, n - 1)));
            assert(decreases_to!(ss@.subrange(0, n as int) => ss@[n - 1]));
        }
        let mut list = match elaborate_stmt_prefix(names, ret, ss, n - 1) {
            Ok(v) => v,
            Err(er) => {
                return Err(er);
            },
        };
        proof {
            lemma_stmt_seq_len(old(names)@, ret@, ss@.subrange(0, n - 1));
        }
        let sv = match elaborate_stmt(names, ret, &ss[n - 1]) {
            Ok(v) => v,
            Err(er) => {
                return Err(er);
            },
        };
        let ghost pre = list@;
        list.push(sv);
        proof {
            assert(list@.drop_last() =~= pre);
        }
        Ok(list)
    }
}

fn elaborate_block(
    names: &mut ScopedSymbolTable<typed_ast::Type>,
    ret: &typed_ast::Type,
    b: &ast::BlockStmt,
) -> (r: Result<typed_ast::BlockStmt, TypeCheckerError>)
    requires
        old(names)@.len() >= 1,
    ensures
        match r {
            Ok(bv) => elab_block(old(names)@, ret@, *b) == Ok::<
                (EnvV, BlockStmtV),
                TypeCheckerErrorV,
            >((final(names)@, bv@)),
            Err(er) => elab_block(old(names)@, ret@, *b) == Err::<
                (EnvV, BlockStmtV),
                TypeCheckerErrorV,
            >(er@),
        },
    decreases b,
{
    names.push_scope();
    let ghost env1 = names@;
    match elaborate_stmt_vec(names, ret, &b.0) {
        Err(er) => Err(er),
        Ok(list) => {
            proof {
                lemma_stmt_seq_len(env1, ret@, b.0@);
            }
            let _ = names.pop_scope();
            Ok(typed_ast::BlockStmt { inners: list })
        },
    }
}

fn elaborate_if(
    names: &mut ScopedSymbolTable<typed_ast::Type>,
    ret: &typed_ast::Type,
    i: &ast::IfStmt,
) -> (r: Result<typed_ast::IfStmt, TypeCheckerError>)
    requires
        old(names)@.len() >= 1,
    ensures
        match r {
            Ok(iv) => elab_if(old(names)@, ret@, *i) == Ok::<(EnvV, IfStmtV), TypeCheckerErrorV>(
                (final(names)@, iv@),
            ),
            Err(er) => elab_if(old(names)@, ret@, *i) == Err::<(EnvV, IfStmtV), TypeCheckerErrorV>(
                er@,
            ),
        },
    decreases i,
{
    let ghost env0 = names@;
    let cv = match elaborate_expr(names, &i.condition) {
        Ok(v) => v,
        Err(er) => {
            return Err(er);
        },
    };
    let bv = match elaborate_block(names, ret, &i.body) {
        Ok(v) => v,
        Err(er) => {
            return Err(er);
        },
    };
    proof {
        lemma_block_len(env0, ret@, i.body);
    }
    match &i.else_stmt {
        None => Ok(typed_ast::IfStmt { condition: cv, body: bv, else_stmt: None }),
        Some(ast::IfOrElse::If(inner)) => {
            let iv = match elaborate_if(names, ret, &**inner) {
                Ok(v) => v,
                Err(er) => {
                    return Err(er);
                },
            };
            Ok(
                typed_ast::IfStmt {
                    condition: cv,
                    body: bv,
                    else_stmt: Some(typed_ast::IfOrElse::If(Box::new(iv))),
                },
            )
        },
        Some(ast::IfOrElse::Else(b)) => {
            let ebv = match elaborate_block(names, ret, b) {
                Ok(v) => v,
                Err(er) => {
                    return Err(er);
                },
            };
            Ok(
                typed_ast::IfStmt {
                    condition: cv,
                    body: bv,
                    else_stmt: Some(typed_ast::IfOrElse::Else(ebv)),
                },
            )
        },
    }
}

fn elaborate_top(names: &mut ScopedSymbolTable<typed_ast::Type>, t: &ast::TopLevelStmt) -> (r:
    Result<typed_ast::TopLevelStmt, TypeCheckerError>)
    requires
        old(names)@.len() >= 1,
    ensures
        match r {
            Ok(tv) => elab_top(old(names)@, *t) == Ok::<
                (EnvV, TopLevelStmtV),
                TypeCheckerErrorV,
            >((final(names)@, tv@)),
            Err(er) => elab_top(old(names)@, *t) == Err::<
                (EnvV, TopLevelStmtV),
                TypeCheckerErrorV,
            >(er@),
        },
{
    match t {
        ast::TopLevelStmt::ClassDef(c) => {
            let fields = convert_class_fields(&c.fields);
            Ok(
                typed_ast::TopLevelStmt::ClassDef(
                    typed_ast::ClassDef { name: c.name.clone(), fields },
                ),
            )
        },
        ast::TopLevelStmt::FunctionDef(f) => {
            let ret_ty = convert_ret_type(&f.return_type);
            let _ = names.add_symbol(f.name.clone(), ret_ty.clone());
            let ghost env1 = names@;
            names.push_scope();
            let mut params: Vec<typed_ast::TypeBinding> = Vec::new();
            let mut i: usize = 0;
            proof {
                assert(f.params@.subrange(0, 0) =~= Seq::<ast::TypeBinding>::empty());
                assert(names@ =~= env1.push(param_frame(f.params@.subrange(0, 0))));
            }
            while i < f.params.len()
                invariant
                    i <= f.params@.len(),
                    params@.len() == i,
                    env1.len() >= 1,
                    names@ == env1.push(param_frame(f.params@.subrange(0, i as int))),
                    view_binding_seq(params@) == elab_binding_seq(f.params@.subrange(0, i as int)),
                decreases f.params@.len() - i,
            {
                let p = convert_binding(&f.params[i]);
                let _ = names.add_symbol(p.name.clone(), p.ty.clone());
                let ghost prev = params@;
                params.push(p);
                proof {
                    let sub1 = f.params@.subrange(0, i + 1);
                    assert(sub1.drop_last() =~= f.params@.subrange(0, i as int));
                    assert(sub1.last() == f.params@[i as int]);
                    let pf = param_frame(f.params@.subrange(0, i as int));
                    assert(names@ =~= env1.push(pf.insert(p.name@, p.ty@)));
                    assert(params@.drop_last() =~= prev);
                }
                i = i + 1;
            }
            proof {
                assert(f.params@.subrange(0, f.params@.len() as int) =~= f.params@);
            }
            let ghost env2 = names@;
            let bv = match elaborate_block(names, &ret_ty, &f.body) {
                Ok(v) => v,
                Err(er) => {
                    return Err(er);
                },
            };
            proof {
                lemma_block_len(env2, ret_ty@, f.body);
            }
            let _ = names.pop_scope();
            Ok(
                typed_ast::TopLevelStmt::FunctionDef(
                    typed_ast::FunctionDef {
                        name: f.name.clone(),
                        params,
                        return_type: ret_ty,
                        body: bv,
                    },
                ),
            )
        },
        ast::TopLevelStmt::ExternDef(x) => {
            let ret_ty = convert_ret_type(&x.return_type);
            let _ = names.add_symbol(x.name.clone(), ret_ty.clone());
            let params = convert_binding_vec(&x.params);
            Ok(
                typed_ast::TopLevelStmt::ExternDef(
                    typed_ast::ExternDef { name: x.name.clone(), params, return_type: ret_ty },
                ),
            )
        },
        ast::TopLevelStmt::ConstDef(g) => {
            let binding = convert_binding(&g.binding);
            let value = convert_literal(&g.value);
            let _ = names.add_symbol(binding.name.clone(), binding.ty.clone());
            Ok(
                typed_ast::TopLevelStmt::ConstDef(
                    typed_ast::GlobalConstDef { binding, value },
                ),
            )
        },
    }
}

/// Elaborate a parsed program into the typed AST, or report the first error.
pub fn infer_types_pass(program: ast::Program) -> (r: Result<
    typed_ast::Program,
    TypeCheckerError,
>)
    ensures
        res_view(r) == elab_program(program),
{
    let mut names: ScopedSymbolTable<typed_ast::Type> = ScopedSymbolTable::new();
    proof {
        assert(names@ =~= init_env());
    }
    let mut out: Vec<typed_ast::TopLevelStmt> = Vec::new();
    let mut i: usize = 0;
    proof {
        assert(program.0@.subrange(0, 0) =~= Seq::<ast::TopLevelStmt>::empty());
    }
    while i < program.0.len()
        invariant
            i <= program.0@.len(),
            out@.len() == i,
            names@.len() >= 1,
            elab_top_seq(init_env(), program.0@.subrange(0, i as int)) == Ok::<
                (EnvV, Seq<TopLevelStmtV>),
                TypeCheckerErrorV,
            >((names@, view_top_seq(out@))),
        decreases program.0@.len() - i,
    {
        let ghost env1 = names@;
        match elaborate_top(&mut names, &program.0[i]) {
            Err(er) => {
                proof {
                    lemma_top_seq_err(init_env(), program.0@, i as int, env1, er@);
                }
                return Err(er);
            },
            Ok(tv) => {
                proof {
                    lemma_top_len(env1, program.0@[i as int]);
                }
                let ghost pre = out@;
                out.push(tv);
                proof {
                    assert(out@.drop_last() =~= pre);
                    let sub1 = program.0@.subrange(0, i + 1);
                    assert(sub1.drop_last() =~= program.0@.subrange(0, i as int));
                    assert(sub1.last() == program.0@[i as int]);
                }
            },
        }
        i = i + 1;
    }
    proof {
        assert(program.0@.subrange(0, program.0@.len() as int) =~= program.0@);
    }
    Ok(typed_ast::Program(out))
}

/// Elaborate a parsed program: resolve every name and give every expression
/// its type.
pub fn infer_types(program: ast::Program) -> (r: Result<typed_ast::Program, TypeCheckerError>)
    ensures
        res_view(r) == elab_program(program),
{
    infer_types_pass(program)
}

} // verus!

//! Class-closedness of elaborated programs.
//!
//! Every `Class(name)` that appears in the type of any elaborated expression
//! names a class defined by the program, provided the program's own written
//! annotations do: declared types of bindings, parameters, returns and
//! casts mention only defined classes, and every class constructor names a
//! defined class.  Elaboration invents no class names of its own.

use vstd::prelude::*;

use crate::ast;
use crate::type_checker::inference::{
    elab_binding, elab_block, elab_class_fields, elab_expr, elab_expr_seq, elab_field_seq,
    elab_if, elab_literal, elab_program, elab_ret_type, elab_stmt, elab_stmt_seq, elab_top,
    elab_top_seq, elab_type, env_bind, init_env, param_frame, EnvV,
};
use crate::type_checker::typed_ast::{
    BlockStmtV, ExprInnerV, ExprV, IfOrElseV, IfStmtV, ProgramV, StmtV, TopLevelStmtV, TypeV,
};

verus! {

/// The class names a program defines.
pub open spec fn classes_of(ts: Seq<ast::TopLevelStmt>) -> Set<Seq<char>>
    decreases ts,
{
    if ts.len() == 0 {
        Set::empty()
    } else {
        match ts.last() {
            ast::TopLevelStmt::ClassDef(c) => classes_of(ts.drop_last()).insert(c.name@),
            _ => classes_of(ts.drop_last()),
        }
    }
}

/// Every class name in the type is one of `cs`.
pub open spec fn ty_closed(t: TypeV, cs: Set<Seq<char>>) -> bool
    decreases t,
{
    match t {
        TypeV::Class(name) => cs.contains(name),
        TypeV::Array(inner, _len) => ty_closed(*inner, cs),
        TypeV::Ref(inner) => ty_closed(*inner, cs),
        _ => true,
    }
}

/// Every written annotation in the expression is closed, and every class
/// constructor names a class of `cs`.
pub open spec fn expr_anns_closed(e: ast::Expr, cs: Set<Seq<char>>) -> bool
    decreases e,
{
    match e {
        ast::Expr::Literal(_l) => true,
        ast::Expr::Ident(_n) => true,
        ast::Expr::Binary(l, _op, r) => expr_anns_closed(*l, cs) && expr_anns_closed(*r, cs),
        ast::Expr::Unary(_op, d) => expr_anns_closed(*d, cs),
        ast::Expr::IndexExpr(n, i) => expr_anns_closed(*n, cs) && expr_anns_closed(*i, cs),
        ast::Expr::Array(items, _len) => exprs_anns_closed(items@, cs),
        ast::Expr::Cast(o, ty) => expr_anns_closed(*o, cs) && ty_closed(elab_type(ty), cs),
        ast::Expr::FunctionCall(c) => expr_anns_closed(*c.name, cs) && exprs_anns_closed(
            c.args@,
            cs,
        ),
        ast::Expr::Class(ce) => cs.contains(ce.class@) && fields_anns_closed(ce.fields@, cs),
    }
}

pub open spec fn exprs_anns_closed(es: Seq<ast::Expr>, cs: Set<Seq<char>>) -> bool
    decreases es,
{
    if es.len() == 0 {
        true
    } else {
        exprs_anns_closed(es.drop_last(), cs) && expr_anns_closed(es.last(), cs)
    }
}

pub open spec fn fields_anns_closed(fs: Seq<(String, Box<ast::Expr>)>, cs: Set<Seq<char>>) -> bool
    decreases fs,
{
    if fs.len() == 0 {
        true
    } else {
        fields_anns_closed(fs.drop_last(), cs) && expr_anns_closed(*fs.last().1, cs)
    }
}

pub open spec fn stmt_anns_closed(s: ast::Stmt, cs: Set<Seq<char>>) -> bool
    decreases s,
{
    match s {
        ast::Stmt::ExprStmt(e) => expr_anns_closed(e, cs),
        ast::Stmt::BlockStmt(b) => stmts_anns_closed(b.0@, cs),
        ast::Stmt::IfStmt(i) => if_anns_closed(i, cs),
        ast::Stmt::WhileStmt(w) => expr_anns_closed(w.condition, cs) && stmts_anns_closed(
            w.body.0@,
            cs,
        ),
        ast::Stmt::ConstDef(d) => ty_closed(elab_type(d.binding.ty), cs) && expr_anns_closed(
            d.value,
            cs,
        ),
        ast::Stmt::VarDef(d) => ty_closed(elab_type(d.binding.ty), cs) && expr_anns_closed(
            d.value,
            cs,
        ),
        ast::Stmt::ReturnStmt(e) => expr_anns_closed(e, cs),
    }
}

pub open spec fn stmts_anns_closed(ss: Seq<ast::Stmt>, cs: Set<Seq<char>>) -> bool
    decreases ss,
{
    if ss.len() == 0 {
        true
    } else {
        stmts_anns_closed(ss.drop_last(), cs) && stmt_anns_closed(ss.last(), cs)
    }
}

pub open spec fn if_anns_closed(i: ast::IfStmt, cs: Set<Seq<char>>) -> bool
    decreases i,
{
    &&& expr_anns_closed(i.condition, cs)
    &&& stmts_anns_closed(i.body.0@, cs)
    &&& match i.else_stmt {
        None => true,
        Some(ast::IfOrElse::If(inner)) => if_anns_closed(*inner, cs),
        Some(ast::IfOrElse::Else(b)) => stmts_anns_closed(b.0@, cs),
    }
}

pub open spec fn params_anns_closed(ps: Seq<ast::TypeBinding>, cs: Set<Seq<char>>) -> bool
    decreases ps,
{
    if ps.len() == 0 {
        true
    } else {
        params_anns_closed(ps.drop_last(), cs) && ty_closed(elab_type(ps.last().ty), cs)
    }
}

pub open spec fn top_anns_closed(t: ast::TopLevelStmt, cs: Set<Seq<char>>) -> bool {
    match t {
        ast::TopLevelStmt::ClassDef(_c) => true,
        ast::TopLevelStmt::FunctionDef(f) => ty_closed(elab_ret_type(f.return_type), cs)
            && params_anns_closed(f.params@, cs) && stmts_anns_closed(f.body.0@, cs),
        ast::TopLevelStmt::ExternDef(x) => ty_closed(elab_ret_type(x.return_type), cs)
            && params_anns_closed(x.params@, cs),
        ast::TopLevelStmt::ConstDef(g) => ty_closed(elab_type(g.binding.ty), cs),
    }
}

pub open spec fn tops_anns_closed(ts: Seq<ast::TopLevelStmt>, cs: Set<Seq<char>>) -> bool
    decreases ts,
{
    if ts.len() == 0 {
        true
    } else {
        tops_anns_closed(ts.drop_last(), cs) && top_anns_closed(ts.last(), cs)
    }
}

/// Every type the environment records is closed.
pub open spec fn env_closed(env: EnvV, cs: Set<Seq<char>>) -> bool {
    forall|i: int, n: Seq<char>|
        0 <= i < env.len() && (#[trigger] env[i].contains_key(n)) ==> ty_closed(env[i][n], cs)
}

/// The type of every node of the elaborated expression is closed.
pub open spec fn expr_tys_closed(t: ExprV, cs: Set<Seq<char>>) -> bool
    decreases t,
{
    &&& ty_closed(t.ty, cs)
    &&& match t.val {
        ExprInnerV::Class(cv) => fields_tys_closed(cv.fields, cs),
        ExprInnerV::FunctionCall(fv) => expr_tys_closed(*fv.name, cs) && exprs_tys_closed(
            fv.args,
            cs,
        ),
        ExprInnerV::IndexExpr(iv) => expr_tys_closed(*iv.name, cs) && expr_tys_closed(
            *iv.index,
            cs,
        ),
        ExprInnerV::Binary(bv) => expr_tys_closed(*bv.lhs, cs) && expr_tys_closed(*bv.rhs, cs),
        ExprInnerV::Unary(uv) => expr_tys_closed(*uv.data, cs),
        ExprInnerV::Array(av) => exprs_tys_closed(av.items, cs),
        ExprInnerV::Cast(cv) => expr_tys_closed(*cv.original, cs),
        ExprInnerV::Literal(_lv) => true,
        ExprInnerV::Ident(_n) => true,
    }
}

pub open spec fn exprs_tys_closed(ts: Seq<ExprV>, cs: Set<Seq<char>>) -> bool
    decreases ts,
{
    if ts.len() == 0 {
        true
    } else {
        exprs_tys_closed(ts.drop_last(), cs) && expr_tys_closed(ts.last(), cs)
    }
}

pub open spec fn fields_tys_closed(fs: Seq<(Seq<char>, ExprV)>, cs: Set<Seq<char>>) -> bool
    decreases fs,
{
    if fs.len() == 0 {
        true
    } else {
        fields_tys_closed(fs.drop_last(), cs) && expr_tys_closed(fs.last().1, cs)
    }
}

pub open spec fn stmt_tys_closed(t: StmtV, cs: Set<Seq<char>>) -> bool
    decreases t,
{
    match t {
        StmtV::ExprStmt(tv) => expr_tys_closed(tv, cs),
        StmtV::BlockStmt(bv) => stmts_tys_closed(bv.inners, cs),
        StmtV::IfStmt(iv) => if_tys_closed(iv, cs),
        StmtV::WhileStmt(wv) => expr_tys_closed(wv.condition, cs) && stmts_tys_closed(
            wv.body.inners,
            cs,
        ),
        StmtV::ConstDef(dv) => expr_tys_closed(dv.value, cs),
        StmtV::VarDef(dv) => expr_tys_closed(dv.value, cs),
        StmtV::ReturnStmt(tv) => expr_tys_closed(tv, cs),
    }
}

pub open spec fn stmts_tys_closed(ts: Seq<StmtV>, cs: Set<Seq<char>>) -> bool
    decreases ts,
{
    if ts.len() == 0 {
        true
    } else {
        stmts_tys_closed(ts.drop_last(), cs) && stmt_tys_closed(ts.last(), cs)
    }
}

pub open spec fn if_tys_closed(t: IfStmtV, cs: Set<Seq<char>>) -> bool
    decreases t,
{
    &&& expr_tys_closed(t.condition, cs)
    &&& stmts_tys_closed(t.body.inners, cs)
    &&& match t.else_stmt {
        None => true,
        Some(IfOrElseV::If(inner)) => if_tys_closed(*inner, cs),
        Some(IfOrElseV::Else(bv)) => stmts_tys_closed(bv.inners, cs),
    }
}

pub open spec fn top_tys_closed(t: TopLevelStmtV, cs: Set<Seq<char>>) -> bool {
    match t {
        TopLevelStmtV::FunctionDef(fv) => stmts_tys_closed(fv.body.inners, cs),
        _ => true,
    }
}

pub open spec fn tops_tys_closed(ts: Seq<TopLevelStmtV>, cs: Set<Seq<char>>) -> bool
    decreases ts,
{
    if ts.len() == 0 {
        true
    } else {
        tops_tys_closed(ts.drop_last(), cs) && top_tys_closed(ts.last(), cs)
    }
}

proof fn lemma_expr_closed(env: EnvV, e: ast::Expr, cs: Set<Seq<char>>)
    requires
        env_closed(env, cs),
        expr_anns_closed(e, cs),
    ensures
        elab_expr(env, e) matches Ok(t) ==> expr_tys_closed(t, cs),
    decreases e,
{
    match e {
        ast::Expr::Literal(_l) => {},
        ast::Expr::Ident(n) => {
            lemma_lookup_closed(env, n@, cs);
        },
        ast::Expr::Binary(l, _op, r) => {
            lemma_expr_closed(env, *l, cs);
            lemma_expr_closed(env, *r, cs);
        },
        ast::Expr::Unary(_op, d) => {
            lemma_expr_closed(env, *d, cs);
        },
        ast::Expr::IndexExpr(n, i) => {
            lemma_expr_closed(env, *n, cs);
            lemma_expr_closed(env, *i, cs);
        },
        ast::Expr::Array(items, _len) => {
            lemma_exprs_closed(env, items@, cs);
            match elab_expr_seq(env, items@) {
                Err(_er) => {},
                Ok(list) => {
                    if items@.len() > 0 {
                        lemma_exprs_closed_index(env, items@, cs, 0);
                    }
                },
            }
        },
        ast::Expr::Cast(o, _ty) => {
            lemma_expr_closed(env, *o, cs);
        },
        ast::Expr::FunctionCall(c) => {
            lemma_expr_closed(env, *c.name, cs);
            lemma_exprs_closed(env, c.args@, cs);
        },
        ast::Expr::Class(ce) => {
            lemma_fields_closed(env, ce.fields@, cs);
        },
    }
}

/// Whatever lookup finds in a closed environment is closed.
proof fn lemma_lookup_closed(env: EnvV, n: Seq<char>, cs: Set<Seq<char>>)
    requires
        env_closed(env, cs),
    ensures
        crate::codegen::symbol::lookup(env, n) matches Some(t) ==> ty_closed(t, cs),
    decreases env.len(),
{
    if env.len() > 0 {
        if env.last().contains_key(n) {
            assert(env[env.len() - 1].contains_key(n));
        } else {
            assert forall|i: int, m: Seq<char>|
                0 <= i < env.drop_last().len() && (#[trigger] env.drop_last()[i].contains_key(
                    m,
                )) implies ty_closed(env.drop_last()[i][m], cs) by {
                assert(env[i].contains_key(m));
            }
            lemma_lookup_closed(env.drop_last(), n, cs);
        }
    }
}

proof fn lemma_exprs_closed(env: EnvV, es: Seq<ast::Expr>, cs: Set<Seq<char>>)
    requires
        env_closed(env, cs),
        exprs_anns_closed(es, cs),
    ensures
        elab_expr_seq(env, es) matches Ok(ts) ==> exprs_tys_closed(ts, cs),
    decreases es,
{
    if es.len() > 0 {
        lemma_exprs_closed(env, es.drop_last(), cs);
        lemma_expr_closed(env, es.last(), cs);
        match elab_expr_seq(env, es.drop_last()) {
            Err(_er) => {},
            Ok(list) => {
                match elab_expr(env, es.last()) {
                    Err(_er) => {},
                    Ok(ev) => {
                        assert(list.push(ev).drop_last() =~= list);
                    },
                }
            },
        }
    }
}

/// Elementwise closedness of an elaborated list.
proof fn lemma_exprs_closed_index(env: EnvV, es: Seq<ast::Expr>, cs: Set<Seq<char>>, i: int)
    requires
        env_closed(env, cs),
        exprs_anns_closed(es, cs),
        0 <= i < es.len(),
    ensures
        elab_expr_seq(env, es) matches Ok(ts) ==> i < ts.len() && expr_tys_closed(ts[i], cs),
    decreases es,
{
    lemma_exprs_len(env, es);
    match elab_expr_seq(env, es) {
        Err(_er) => {},
        Ok(ts) => {
            if i == es.len() - 1 {
                lemma_expr_closed(env, es.last(), cs);
                match elab_expr_seq(env, es.drop_last()) {
                    Err(_er) => {},
                    Ok(list) => {
                        match elab_expr(env, es.last()) {
                            Err(_er) => {},
                            Ok(ev) => {
                                assert(ts == list.push(ev));
                                assert(ts[i] == ev);
                            },
                        }
                    },
                }
            } else {
                lemma_exprs_closed_index(env, es.drop_last(), cs, i);
                match elab_expr_seq(env, es.drop_last()) {
                    Err(_er) => {},
                    Ok(list) => {
                        assert(ts.drop_last() =~= list);
                        assert(ts[i] == list[i]);
                    },
                }
            }
        },
    }
}

proof fn lemma_exprs_len(env: EnvV, es: Seq<ast::Expr>)
    ensures
        elab_expr_seq(env, es) matches Ok(ts) ==> ts.len() == es.len(),
    decreases es,
{
    if es.len() > 0 {
        lemma_exprs_len(env, es.drop_last());
    }
}

proof fn lemma_fields_closed(env: EnvV, fs: Seq<(String, Box<ast::Expr>)>, cs: Set<Seq<char>>)
    requires
        env_closed(env, cs),
        fields_anns_closed(fs, cs),
    ensures
        elab_field_seq(env, fs) matches Ok(ts) ==> fields_tys_closed(ts, cs),
    decreases fs,
{
    if fs.len() > 0 {
        lemma_fields_closed(env, fs.drop_last(), cs);
        lemma_expr_closed(env, *fs.last().1, cs);
        match elab_field_seq(env, fs.drop_last()) {
            Err(_er) => {},
            Ok(list) => {
                match elab_expr(env, *fs.last().1) {
                    Err(_er) => {},
                    Ok(ev) => {
                        assert(list.push((fs.last().0@, ev)).drop_last() =~= list);
                    },
                }
            },
        }
    }
}

/// Binding a closed type keeps the environment closed.
proof fn lemma_bind_closed(env: EnvV, n: Seq<char>, ty: TypeV, cs: Set<Seq<char>>)
    requires
        env_closed(env, cs),
        ty_closed(ty, cs),
        env.len() >= 1,
    ensures
        env_closed(env_bind(env, n, ty), cs),
{
    let env2 = env_bind(env, n, ty);
    assert forall|i: int, m: Seq<char>|
        0 <= i < env2.len() && (#[trigger] env2[i].contains_key(m)) implies ty_closed(
        env2[i][m],
        cs,
    ) by {
        if i == env.len() - 1 && m != n {
            assert(env[i].contains_key(m));
        }
        if i < env.len() - 1 {
            assert(env[i].contains_key(m));
        }
    }
}

proof fn lemma_push_closed(env: EnvV, fr: Map<Seq<char>, TypeV>, cs: Set<Seq<char>>)
    requires
        env_closed(env, cs),
        forall|n: Seq<char>| (#[trigger] fr.contains_key(n)) ==> ty_closed(fr[n], cs),
    ensures
        env_closed(env.push(fr), cs),
{
    let env2 = env.push(fr);
    assert forall|i: int, m: Seq<char>|
        0 <= i < env2.len() && (#[trigger] env2[i].contains_key(m)) implies ty_closed(
        env2[i][m],
        cs,
    ) by {
        if i < env.len() {
            assert(env[i].contains_key(m));
        } else {
            assert(fr.contains_key(m));
        }
    }
}

proof fn lemma_param_frame_closed(ps: Seq<ast::TypeBinding>, cs: Set<Seq<char>>)
    requires
        params_anns_closed(ps, cs),
    ensures
        forall|n: Seq<char>|
            (#[trigger] param_frame(ps).contains_key(n)) ==> ty_closed(param_frame(ps)[n], cs),
    decreases ps,
{
    if ps.len() > 0 {
        lemma_param_frame_closed(ps.drop_last(), cs);
        assert forall|n: Seq<char>|
            (#[trigger] param_frame(ps).contains_key(n)) implies ty_closed(
            param_frame(ps)[n],
            cs,
        ) by {
            if n != ps.last().name@ {
                assert(param_frame(ps.drop_last()).contains_key(n));
            }
        }
    }
}

proof fn lemma_stmt_closed_p(env: EnvV, ret: TypeV, s: ast::Stmt, cs: Set<Seq<char>>)
    requires
        env_closed(env, cs),
        stmt_anns_closed(s, cs),
        env.len() >= 1,
    ensures
        elab_stmt(env, ret, s) matches Ok(p) ==> env_closed(p.0, cs) && p.0.len() == env.len()
            && stmt_tys_closed(p.1, cs),
    decreases s,
{
    match s {
        ast::Stmt::ExprStmt(e) => {
            lemma_expr_closed(env, e, cs);
        },
        ast::Stmt::BlockStmt(b) => {
            lemma_block_closed(env, ret, b, cs);
        },
        ast::Stmt::IfStmt(i) => {
            lemma_if_closed_p(env, ret, i, cs);
        },
        ast::Stmt::WhileStmt(w) => {
            lemma_expr_closed(env, w.condition, cs);
            lemma_block_closed(env, ret, w.body, cs);
        },
        ast::Stmt::ConstDef(d) => {
            lemma_expr_closed(env, d.value, cs);
            lemma_bind_closed(env, d.binding.name@, elab_type(d.binding.ty), cs);
        },
        ast::Stmt::VarDef(d) => {
            lemma_expr_closed(env, d.value, cs);
            lemma_bind_closed(env, d.binding.name@, elab_type(d.binding.ty), cs);
        },
        ast::Stmt::ReturnStmt(e) => {
            lemma_expr_closed(env, e, cs);
        },
    }
}

proof fn lemma_stmts_closed_p(env: EnvV, ret: TypeV, ss: Seq<ast::Stmt>, cs: Set<Seq<char>>)
    requires
        env_closed(env, cs),
        stmts_anns_closed(ss, cs),
        env.len() >= 1,
    ensures
        elab_stmt_seq(env, ret, ss) matches Ok(p) ==> env_closed(p.0, cs) && p.0.len()
            == env.len() && stmts_tys_closed(p.1, cs),
    decreases ss,
{
    if ss.len() > 0 {
        lemma_stmts_closed_p(env, ret, ss.drop_last(), cs);
        match elab_stmt_seq(env, ret, ss.drop_last()) {
            Err(_er) => {},
            Ok((env1, list)) => {
                lemma_stmt_closed_p(env1, ret, ss.last(), cs);
                match elab_stmt(env1, ret, ss.last()) {
                    Err(_er) => {},
                    Ok((_env2, sv)) => {
                        assert(list.push(sv).drop_last() =~= list);
                    },
                }
            },
        }
    }
}

proof fn lemma_block_closed(env: EnvV, ret: TypeV, b: ast::BlockStmt, cs: Set<Seq<char>>)
    requires
        env_closed(env, cs),
        stmts_anns_closed(b.0@, cs),
        env.len() >= 1,
    ensures
        elab_block(env, ret, b) matches Ok(p) ==> env_closed(p.0, cs) && p.0.len() == env.len()
            && stmts_tys_closed(p.1.inners, cs),
    decreases b,
{
    lemma_push_closed(env, Map::empty(), cs);
    lemma_stmts_closed_p(env.push(Map::empty()), ret, b.0@, cs);
    match elab_stmt_seq(env.push(Map::empty()), ret, b.0@) {
        Err(_er) => {},
        Ok((env2, _list)) => {
            lemma_drop_closed(env2, cs);
        },
    }
}

proof fn lemma_drop_closed(env: EnvV, cs: Set<Seq<char>>)
    requires
        env_closed(env, cs),
        env.len() >= 1,
    ensures
        env_closed(env.drop_last(), cs),
{
    assert forall|i: int, m: Seq<char>|
        0 <= i < env.drop_last().len() && (#[trigger] env.drop_last()[i].contains_key(
            m,
        )) implies ty_closed(env.drop_last()[i][m], cs) by {
        assert(env[i].contains_key(m));
    }
}

proof fn lemma_if_closed_p(env: EnvV, ret: TypeV, i: ast::IfStmt, cs: Set<Seq<char>>)
    requires
        env_closed(env, cs),
        if_anns_closed(i, cs),
        env.len() >= 1,
    ensures
        elab_if(env, ret, i) matches Ok(p) ==> env_closed(p.0, cs) && p.0.len() == env.len()
            && if_tys_closed(p.1, cs),
    decreases i,
{
    lemma_expr_closed(env, i.condition, cs);
    lemma_block_closed(env, ret, i.body, cs);
    match elab_expr(env, i.condition) {
        Err(_er) => {},
        Ok(_cv) => {
            match elab_block(env, ret, i.body) {
                Err(_er) => {},
                Ok((env1, _bv)) => {
                    match i.else_stmt {
                        None => {},
                        Some(ast::IfOrElse::If(inner)) => {
                            lemma_if_closed_p(env1, ret, *inner, cs);
                        },
                        Some(ast::IfOrElse::Else(b)) => {
                            lemma_block_closed(env1, ret, b, cs);
                        },
                    }
                },
            }
        },
    }
}

proof fn lemma_top_closed(env: EnvV, t: ast::TopLevelStmt, cs: Set<Seq<char>>)
    requires
        env_closed(env, cs),
        top_anns_closed(t, cs),
        env.len() >= 1,
    ensures
        elab_top(env, t) matches Ok(p) ==> env_closed(p.0, cs) && p.0.len() == env.len()
            && top_tys_closed(p.1, cs),
{
    match t {
        ast::TopLevelStmt::ClassDef(_c) => {},
        ast::TopLevelStmt::FunctionDef(f) => {
            let ret = elab_ret_type(f.return_type);
            let env1 = env_bind(env, f.name@, ret);
            lemma_bind_closed(env, f.name@, ret, cs);
            lemma_param_frame_closed(f.params@, cs);
            lemma_push_closed(env1, param_frame(f.params@), cs);
            let env2 = env1.push(param_frame(f.params@));
            lemma_block_closed(env2, ret, f.body, cs);
            match elab_block(env2, ret, f.body) {
                Err(_er) => {},
                Ok((env3, _bv)) => {
                    lemma_drop_closed(env3, cs);
                },
            }
        },
        ast::TopLevelStmt::ExternDef(x) => {
            lemma_bind_closed(env, x.name@, elab_ret_type(x.return_type), cs);
        },
        ast::TopLevelStmt::ConstDef(g) => {
            lemma_bind_closed(env, g.binding.name@, elab_type(g.binding.ty), cs);
        },
    }
}

proof fn lemma_tops_closed(env: EnvV, ts: Seq<ast::TopLevelStmt>, cs: Set<Seq<char>>)
    requires
        env_closed(env, cs),
        tops_anns_closed(ts, cs),
        env.len() >= 1,
    ensures
        elab_top_seq(env, ts) matches Ok(p) ==> env_closed(p.0, cs) && p.0.len() == env.len()
            && tops_tys_closed(p.1, cs),
    decreases ts,
{
    if ts.len() > 0 {
        lemma_tops_closed(env, ts.drop_last(), cs);
        match elab_top_seq(env, ts.drop_last()) {
            Err(_er) => {},
            Ok((env1, list)) => {
                lemma_top_closed(env1, ts.last(), cs);
                match elab_top(env1, ts.last()) {
                    Err(_er) => {},
                    Ok((_env2, tv)) => {
                        assert(list.push(tv).drop_last() =~= list);
                    },
                }
            },
        }
    }
}

/// Law: when every annotation of a program mentions only classes the
/// program defines, the type of every elaborated expression does too.
pub proof fn lemma_elab_program_classes_closed(p: ast::Program)
    requires
        tops_anns_closed(p.0@, classes_of(p.0@)),
    ensures
        elab_program(p) matches Ok(tp) ==> tops_tys_closed(tp.0, classes_of(p.0@)),
{
    let cs = classes_of(p.0@);
    assert forall|i: int, m: Seq<char>|
        0 <= i < init_env().len() && (#[trigger] init_env()[i].contains_key(m)) implies ty_closed(
        init_env()[i][m],
        cs,
    ) by {
        assert(!Map::<Seq<char>, TypeV>::empty().contains_key(m));
    }
    lemma_tops_closed(init_env(), p.0@, cs);
}

} // verus!

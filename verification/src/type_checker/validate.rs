//! Well-formedness of typed programs.
//!
//! The typed AST promises that the condition of every `if` and `while` has
//! type `Bool`.  Elaboration itself does not reject a program whose
//! conditions elaborate to another type, so the promise is checked here,
//! with an exact contract: the checker returns true exactly when every
//! condition in every function body is boolean.

use vstd::prelude::*;

use crate::type_checker::typed_ast::{
    view_stmt, view_stmt_seq, IfOrElse, IfOrElseV, IfStmt, IfStmtV, Program, ProgramV, Stmt,
    StmtV, TopLevelStmtV, TypeV, WhileStmt,
};

verus! {

broadcast use crate::type_checker::typed_ast::lemma_view_if_unfold, crate::type_checker::typed_ast::lemma_view_block_unfold;

pub open spec fn conds_bool_stmt(s: StmtV) -> bool
    decreases s,
{
    match s {
        StmtV::BlockStmt(b) => conds_bool_list(b.inners),
        StmtV::IfStmt(i) => conds_bool_if(i),
        StmtV::WhileStmt(w) => w.condition.ty == TypeV::Bool && conds_bool_list(w.body.inners),
        _ => true,
    }
}

pub open spec fn conds_bool_list(ss: Seq<StmtV>) -> bool
    decreases ss,
{
    if ss.len() == 0 {
        true
    } else {
        conds_bool_list(ss.drop_last()) && conds_bool_stmt(ss.last())
    }
}

pub open spec fn conds_bool_if(i: IfStmtV) -> bool
    decreases i,
{
    &&& i.condition.ty == TypeV::Bool
    &&& conds_bool_list(i.body.inners)
    &&& match i.else_stmt {
        None => true,
        Some(IfOrElseV::If(inner)) => conds_bool_if(*inner),
        Some(IfOrElseV::Else(b)) => conds_bool_list(b.inners),
    }
}

/// Every condition in every function body of the program is boolean.
pub open spec fn conds_bool_program(p: ProgramV) -> bool
    decreases p.0.len(),
{
    conds_bool_tops(p.0)
}

pub open spec fn conds_bool_tops(ts: Seq<TopLevelStmtV>) -> bool
    decreases ts,
{
    if ts.len() == 0 {
        true
    } else {
        conds_bool_tops(ts.drop_last()) && match ts.last() {
            TopLevelStmtV::FunctionDef(f) => conds_bool_list(f.body.inners),
            _ => true,
        }
    }
}

fn check_stmt(s: &Stmt) -> (r: bool)
    ensures
        r == conds_bool_stmt(s@),
    decreases s,
{
    match s {
        Stmt::BlockStmt(b) => check_list(&b.inners),
        Stmt::IfStmt(i) => check_if(i),
        Stmt::WhileStmt(w) => {
            let cond_ok = matches!(w.condition.ty, crate::type_checker::typed_ast::Type::Bool);
            cond_ok && check_list(&w.body.inners)
        },
        _ => true,
    }
}

fn check_list(ss: &Vec<Stmt>) -> (r: bool)
    ensures
        r == conds_bool_list(view_stmt_seq(ss@)),
    decreases ss,
{
    let mut i: usize = 0;
    proof {
        assert(ss@.subrange(0, 0) =~= Seq::<Stmt>::empty());
    }
    while i < ss.len()
        invariant
            i <= ss@.len(),
            conds_bool_list(view_stmt_seq(ss@.subrange(0, i as int))),
        decreases ss@.len() - i,
    {
        proof {
            let sub = ss@.subrange(0, i + 1);
            assert(sub.drop_last() =~= ss@.subrange(0, i as int));
            assert(sub.last() == ss@[i as int]);
            let subv = view_stmt_seq(sub);
            assert(subv.drop_last() =~= view_stmt_seq(ss@.subrange(0, i as int)));
            assert(subv.last() == view_stmt(ss@[i as int]));
            assert(decreases_to!(ss@.subrange(0, i + 1) => ss@[i as int]));
        }
        if !check_stmt(&ss[i]) {
            proof {
                lemma_list_false(ss@, i as int);
            }
            return false;
        }
        i = i + 1;
    }
    proof {
        assert(ss@.subrange(0, ss@.len() as int) =~= ss@);
    }
    true
}

/// One failing statement makes the whole list fail.
proof fn lemma_list_false(ss: Seq<Stmt>, i: int)
    requires
        0 <= i < ss.len(),
        !conds_bool_stmt(view_stmt(ss[i])),
    ensures
        !conds_bool_list(view_stmt_seq(ss)),
    decreases ss.len(),
{
    let sv = view_stmt_seq(ss);
    assert(sv.drop_last() =~= view_stmt_seq(ss.drop_last()));
    assert(sv.last() == view_stmt(ss.last()));
    if i < ss.len() - 1 {
        assert(ss.drop_last()[i] == ss[i]);
        lemma_list_false(ss.drop_last(), i);
    }
}

fn check_if(i: &IfStmt) -> (r: bool)
    ensures
        r == conds_bool_if(i@),
    decreases i,
{
    if !matches!(i.condition.ty, crate::type_checker::typed_ast::Type::Bool) {
        return false;
    }
    if !check_list(&i.body.inners) {
        return false;
    }
    match &i.else_stmt {
        None => true,
        Some(IfOrElse::If(inner)) => check_if(&**inner),
        Some(IfOrElse::Else(b)) => check_list(&b.inners),
    }
}

impl Program {
    /// Decide whether every `if` and `while` condition in this program has
    /// type `Bool`.
    pub fn conditions_are_bool(&self) -> (r: bool)
        ensures
            r == conds_bool_program(self@),
    {
        let mut i: usize = 0;
        proof {
            assert(self.0@.subrange(0, 0) =~= Seq::<
                crate::type_checker::typed_ast::TopLevelStmt,
            >::empty());
            assert(crate::type_checker::typed_ast::view_top_seq(self.0@.subrange(0, 0)) =~= Seq::<
                TopLevelStmtV,
            >::empty());
        }
        while i < self.0.len()
            invariant
                i <= self.0@.len(),
                conds_bool_tops(
                    crate::type_checker::typed_ast::view_top_seq(self.0@.subrange(0, i as int)),
                ),
            decreases self.0@.len() - i,
        {
            proof {
                let sub = self.0@.subrange(0, i + 1);
                assert(sub.drop_last() =~= self.0@.subrange(0, i as int));
                assert(sub.last() == self.0@[i as int]);
                let subv = crate::type_checker::typed_ast::view_top_seq(sub);
                assert(subv.drop_last() =~= crate::type_checker::typed_ast::view_top_seq(
                    self.0@.subrange(0, i as int),
                ));
                assert(subv.last() == crate::type_checker::typed_ast::view_top(
                    self.0@[i as int],
                ));
            }
            match &self.0[i] {
                crate::type_checker::typed_ast::TopLevelStmt::FunctionDef(f) => {
                    if !check_list(&f.body.inners) {
                        proof {
                            lemma_tops_false(self.0@, i as int);
                        }
                        return false;
                    }
                },
                _ => {},
            }
            i = i + 1;
        }
        proof {
            assert(self.0@.subrange(0, self.0@.len() as int) =~= self.0@);
        }
        true
    }
}

proof fn lemma_tops_false(ts: Seq<crate::type_checker::typed_ast::TopLevelStmt>, i: int)
    requires
        0 <= i < ts.len(),
        crate::type_checker::typed_ast::view_top(ts[i]) matches TopLevelStmtV::FunctionDef(f)
            && !conds_bool_list(f.body.inners),
    ensures
        !conds_bool_tops(crate::type_checker::typed_ast::view_top_seq(ts)),
    decreases ts.len(),
{
    let tv = crate::type_checker::typed_ast::view_top_seq(ts);
    assert(tv.drop_last() =~= crate::type_checker::typed_ast::view_top_seq(ts.drop_last()));
    assert(tv.last() == crate::type_checker::typed_ast::view_top(ts.last()));
    if i < ts.len() - 1 {
        assert(ts.drop_last()[i] == ts[i]);
        lemma_tops_false(ts.drop_last(), i);
    }
}

} // verus!

//! Typed-AST elaboration: types assigned, names resolved, errors reported.

use tinylang::ast;
use tinylang::type_checker::error::TypeCheckerError;
use tinylang::type_checker::inference::{infer_types, infer_types_pass};
use tinylang::type_checker::typed_ast as t;

fn int_lit(v: i32) -> ast::Expr {
    ast::Expr::Literal(ast::Literal::Int(v))
}

fn ident(name: &str) -> ast::Expr {
    ast::Expr::Ident(name.to_string())
}

fn binding(name: &str, ty: ast::Type) -> ast::TypeBinding {
    ast::TypeBinding { name: name.to_string(), ty }
}

fn func(name: &str, params: Vec<ast::TypeBinding>, ret: Option<ast::Type>, body: Vec<ast::Stmt>) -> ast::TopLevelStmt {
    ast::TopLevelStmt::FunctionDef(ast::FunctionDef {
        name: name.to_string(),
        params,
        return_type: ret,
        body: ast::BlockStmt(body),
    })
}

fn var_def(name: &str, ty: ast::Type, value: ast::Expr) -> ast::Stmt {
    ast::Stmt::VarDef(ast::VarDef { binding: binding(name, ty), value })
}

#[test]
fn literal_takes_suffix_type() {
    let program = ast::Program(vec![func(
        "main",
        vec![],
        Some(ast::Type::Int),
        vec![ast::Stmt::ReturnStmt(int_lit(3))],
    )]);
    let typed = infer_types_pass(program).unwrap();
    match &typed.0[0] {
        t::TopLevelStmt::FunctionDef(f) => {
            assert_eq!(f.return_type, t::Type::Int);
            match &f.body.inners[0] {
                t::Stmt::ReturnStmt(e) => {
                    assert_eq!(e.ty, t::Type::Int);
                    assert_eq!(e.val, t::ExprInner::Literal(t::Literal {
                        ty: t::Type::Int,
                        val: t::LiteralInner::Int(3),
                    }));
                }
                other => panic!("expected a return, got {:?}", other),
            }
        }
        other => panic!("expected a function, got {:?}", other),
    }
}

#[test]
fn identifier_resolves_to_binding_type() {
    let program = ast::Program(vec![func(
        "main",
        vec![],
        Some(ast::Type::Int),
        vec![
            var_def("x", ast::Type::Int, int_lit(7)),
            ast::Stmt::ReturnStmt(ident("x")),
        ],
    )]);
    let typed = infer_types_pass(program).unwrap();
    match &typed.0[0] {
        t::TopLevelStmt::FunctionDef(f) => match &f.body.inners[1] {
            t::Stmt::ReturnStmt(e) => {
                assert_eq!(e.ty, t::Type::Int);
                assert_eq!(e.val, t::ExprInner::Ident("x".to_string()));
            }
            other => panic!("expected a return, got {:?}", other),
        },
        other => panic!("expected a function, got {:?}", other),
    }
}

#[test]
fn parameters_are_in_scope() {
    let program = ast::Program(vec![func(
        "id",
        vec![binding("n", ast::Type::Int64)],
        Some(ast::Type::Int64),
        vec![ast::Stmt::ReturnStmt(ident("n"))],
    )]);
    assert!(infer_types_pass(program).is_ok());
}

#[test]
fn function_name_is_recorded_before_its_body() {
    // A call of the enclosing function inside its own body resolves.
    let program = ast::Program(vec![func(
        "loopy",
        vec![],
        Some(ast::Type::Int),
        vec![ast::Stmt::ReturnStmt(ast::Expr::FunctionCall(ast::FunctionCall {
            name: Box::new(ident("loopy")),
            args: vec![],
        }))],
    )]);
    assert!(infer_types_pass(program).is_ok());
}

#[test]
fn undeclared_identifier_is_rejected() {
    let program = ast::Program(vec![func(
        "main",
        vec![],
        Some(ast::Type::Int),
        vec![ast::Stmt::ReturnStmt(ident("ghost_name"))],
    )]);
    assert_eq!(
        infer_types_pass(program),
        Err(TypeCheckerError::Undeclared("ghost_name".to_string()))
    );
}

#[test]
fn binding_is_not_visible_outside_its_block() {
    let program = ast::Program(vec![func(
        "main",
        vec![],
        Some(ast::Type::Int),
        vec![
            ast::Stmt::BlockStmt(ast::BlockStmt(vec![var_def(
                "inner",
                ast::Type::Int,
                int_lit(1),
            )])),
            ast::Stmt::ReturnStmt(ident("inner")),
        ],
    )]);
    assert_eq!(
        infer_types_pass(program),
        Err(TypeCheckerError::Undeclared("inner".to_string()))
    );
}

#[test]
fn reference_and_deref_types() {
    let program = ast::Program(vec![func(
        "main",
        vec![binding("x", ast::Type::Int)],
        Some(ast::Type::Int),
        vec![
            var_def(
                "r",
                ast::Type::Ref(Box::new(ast::Type::Int)),
                ast::Expr::Unary(ast::UnaryOp::Reference, Box::new(ident("x"))),
            ),
            ast::Stmt::ReturnStmt(ast::Expr::Unary(ast::UnaryOp::Deref, Box::new(ident("r")))),
        ],
    )]);
    let typed = infer_types_pass(program).unwrap();
    match &typed.0[0] {
        t::TopLevelStmt::FunctionDef(f) => {
            match &f.body.inners[0] {
                t::Stmt::VarDef(d) => {
                    assert_eq!(d.value.ty, t::Type::Ref(Box::new(t::Type::Int)));
                }
                other => panic!("expected a var binding, got {:?}", other),
            }
            match &f.body.inners[1] {
                t::Stmt::ReturnStmt(e) => assert_eq!(e.ty, t::Type::Int),
                other => panic!("expected a return, got {:?}", other),
            }
        }
        other => panic!("expected a function, got {:?}", other),
    }
}

#[test]
fn deref_of_non_reference_is_rejected() {
    let program = ast::Program(vec![func(
        "main",
        vec![],
        Some(ast::Type::Int),
        vec![ast::Stmt::ReturnStmt(ast::Expr::Unary(
            ast::UnaryOp::Deref,
            Box::new(int_lit(4)),
        ))],
    )]);
    assert_eq!(infer_types_pass(program), Err(TypeCheckerError::DerefNonRef));
}

#[test]
fn array_constructor_and_index_types() {
    let arr_ty = ast::Type::Array(Box::new(ast::Type::Int), 3);
    let program = ast::Program(vec![func(
        "main",
        vec![],
        Some(ast::Type::Int),
        vec![
            var_def(
                "a",
                arr_ty,
                ast::Expr::Array(vec![int_lit(10), int_lit(20), int_lit(30)], 3),
            ),
            ast::Stmt::ReturnStmt(ast::Expr::IndexExpr(
                Box::new(ident("a")),
                Box::new(int_lit(1)),
            )),
        ],
    )]);
    let typed = infer_types_pass(program).unwrap();
    match &typed.0[0] {
        t::TopLevelStmt::FunctionDef(f) => {
            match &f.body.inners[0] {
                t::Stmt::VarDef(d) => {
                    assert_eq!(d.value.ty, t::Type::Array(Box::new(t::Type::Int), 3));
                }
                other => panic!("expected a var binding, got {:?}", other),
            }
            match &f.body.inners[1] {
                t::Stmt::ReturnStmt(e) => assert_eq!(e.ty, t::Type::Int),
                other => panic!("expected a return, got {:?}", other),
            }
        }
        other => panic!("expected a function, got {:?}", other),
    }
}

#[test]
fn empty_array_constructor_is_rejected() {
    let program = ast::Program(vec![func(
        "main",
        vec![],
        None,
        vec![ast::Stmt::ExprStmt(ast::Expr::Array(vec![], 0))],
    )]);
    assert_eq!(infer_types_pass(program), Err(TypeCheckerError::EmptyArray));
}

#[test]
fn indexing_a_non_array_is_rejected() {
    let program = ast::Program(vec![func(
        "main",
        vec![],
        None,
        vec![ast::Stmt::ExprStmt(ast::Expr::IndexExpr(
            Box::new(int_lit(1)),
            Box::new(int_lit(0)),
        ))],
    )]);
    assert_eq!(infer_types_pass(program), Err(TypeCheckerError::BadIndex));
}

#[test]
fn return_type_mismatch_is_rejected() {
    let program = ast::Program(vec![func(
        "main",
        vec![],
        Some(ast::Type::Bool),
        vec![ast::Stmt::ReturnStmt(int_lit(1))],
    )]);
    assert_eq!(infer_types_pass(program), Err(TypeCheckerError::ReturnMismatch));
}

#[test]
fn extern_return_type_is_recorded() {
    let program = ast::Program(vec![
        ast::TopLevelStmt::ExternDef(ast::ExternDef {
            name: "puts".to_string(),
            params: vec![binding("s", ast::Type::CStr)],
            return_type: Some(ast::Type::Int),
        }),
        func(
            "main",
            vec![],
            Some(ast::Type::Int),
            vec![ast::Stmt::ReturnStmt(ast::Expr::FunctionCall(ast::FunctionCall {
                name: Box::new(ident("puts")),
                args: vec![ast::Expr::Literal(ast::Literal::CStr("hi".to_string()))],
            }))],
        ),
    ]);
    let typed = infer_types_pass(program).unwrap();
    match &typed.0[1] {
        t::TopLevelStmt::FunctionDef(f) => match &f.body.inners[0] {
            t::Stmt::ReturnStmt(e) => assert_eq!(e.ty, t::Type::Int),
            other => panic!("expected a return, got {:?}", other),
        },
        other => panic!("expected a function, got {:?}", other),
    }
}

#[test]
fn infer_types_matches_infer_types_pass() {
    let make = || {
        ast::Program(vec![func(
            "main",
            vec![],
            Some(ast::Type::Int),
            vec![ast::Stmt::ReturnStmt(int_lit(0))],
        )])
    };
    assert_eq!(infer_types(make()), infer_types_pass(make()));
}

#[test]
fn elaboration_preserves_shape() {
    // One function, three statements; the typed tree mirrors them one for one.
    let program = ast::Program(vec![func(
        "main",
        vec![],
        Some(ast::Type::Int),
        vec![
            var_def("a", ast::Type::Int, int_lit(1)),
            var_def("b", ast::Type::Int, int_lit(2)),
            ast::Stmt::ReturnStmt(ast::Expr::Binary(
                Box::new(ident("a")),
                ast::BinOp::Plus,
                Box::new(ident("b")),
            )),
        ],
    )]);
    let typed = infer_types_pass(program).unwrap();
    assert_eq!(typed.0.len(), 1);
    match &typed.0[0] {
        t::TopLevelStmt::FunctionDef(f) => {
            assert_eq!(f.body.inners.len(), 3);
            assert!(matches!(f.body.inners[0], t::Stmt::VarDef(_)));
            assert!(matches!(f.body.inners[1], t::Stmt::VarDef(_)));
            assert!(matches!(f.body.inners[2], t::Stmt::ReturnStmt(_)));
        }
        other => panic!("expected a function, got {:?}", other),
    }
}

#[test]
fn conditions_are_bool_accepts_boolean_conditions() {
    // A comparison takes the type of its left operand, so a boolean
    // condition has to be boolean-typed itself.
    let program = ast::Program(vec![func(
        "main",
        vec![],
        Some(ast::Type::Int),
        vec![
            ast::Stmt::IfStmt(ast::IfStmt {
                condition: ast::Expr::Literal(ast::Literal::Bool(true)),
                body: ast::BlockStmt(vec![ast::Stmt::ReturnStmt(int_lit(7))]),
                else_stmt: None,
            }),
            ast::Stmt::ReturnStmt(int_lit(3)),
        ],
    )]);
    let typed = infer_types_pass(program).unwrap();
    assert!(typed.conditions_are_bool());
}

#[test]
fn conditions_are_bool_rejects_integer_condition() {
    let program = ast::Program(vec![func(
        "main",
        vec![],
        Some(ast::Type::Int),
        vec![
            ast::Stmt::WhileStmt(ast::WhileStmt {
                condition: int_lit(1),
                body: ast::BlockStmt(vec![]),
            }),
            ast::Stmt::ReturnStmt(int_lit(0)),
        ],
    )]);
    let typed = infer_types_pass(program).unwrap();
    assert!(!typed.conditions_are_bool());
}

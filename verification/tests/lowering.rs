//! Lowering to the IR model: structure of the emitted module and the
//! code generator's error cases.

use tinylang::ast;
use tinylang::codegen::context::CompilerContext;
use tinylang::codegen::error::CodegenError;
use tinylang::codegen::ir::{Inst, IrType, Terminator};
use tinylang::compile_to_module;
use tinylang::type_checker::typed_ast as t;
use tinylang::CompileError;

fn int_lit(v: i32) -> ast::Expr {
    ast::Expr::Literal(ast::Literal::Int(v))
}

fn ident(name: &str) -> ast::Expr {
    ast::Expr::Ident(name.to_string())
}

fn binding(name: &str, ty: ast::Type) -> ast::TypeBinding {
    ast::TypeBinding { name: name.to_string(), ty }
}

fn func(name: &str, params: Vec<ast::TypeBinding>, ret: Option<ast::Type>, body: Vec<ast::Stmt>) -> ast::TopLevelStmt {
    ast::TopLevelStmt::FunctionDef(ast::FunctionDef {
        name: name.to_string(),
        params,
        return_type: ret,
        body: ast::BlockStmt(body),
    })
}

#[test]
fn type_lowering_matches_widths() {
    let ctx = CompilerContext::new();
    assert_eq!(t::Type::Int.as_llvm_type(&ctx), Ok(IrType::I32));
    assert_eq!(t::Type::UInt.as_llvm_type(&ctx), Ok(IrType::I32));
    assert_eq!(t::Type::Int8.as_llvm_type(&ctx), Ok(IrType::I8));
    assert_eq!(t::Type::Char.as_llvm_type(&ctx), Ok(IrType::I8));
    assert_eq!(t::Type::Int16.as_llvm_type(&ctx), Ok(IrType::I16));
    assert_eq!(t::Type::Int64.as_llvm_type(&ctx), Ok(IrType::I64));
    assert_eq!(t::Type::Bool.as_llvm_type(&ctx), Ok(IrType::I1));
    assert_eq!(
        t::Type::CStr.as_llvm_type(&ctx),
        Ok(IrType::Ptr(Box::new(IrType::I8)))
    );
    assert_eq!(
        t::Type::Ref(Box::new(t::Type::Bool)).as_llvm_type(&ctx),
        Ok(IrType::Ptr(Box::new(IrType::I1)))
    );
    assert_eq!(
        t::Type::Array(Box::new(t::Type::Int), 3).as_llvm_type(&ctx),
        Ok(IrType::ArrayTy(Box::new(IrType::I32), 3))
    );
    assert_eq!(t::Type::NoneType.as_llvm_type(&ctx), Ok(IrType::Void));
    assert_eq!(t::Type::Str.as_llvm_type(&ctx), Err(CodegenError::Unsupported));
    assert_eq!(
        t::Type::Class("nowhere".to_string()).as_llvm_type(&ctx),
        Err(CodegenError::UnknownClass)
    );
}

#[test]
fn function_gets_signature_and_entry_block() {
    let program = ast::Program(vec![func(
        "main",
        vec![binding("n", ast::Type::Int)],
        Some(ast::Type::Int),
        vec![ast::Stmt::ReturnStmt(ident("n"))],
    )]);
    let module = compile_to_module(program).unwrap();
    assert_eq!(module.funcs.len(), 1);
    let f = &module.funcs[0];
    assert_eq!(f.name, "main");
    assert_eq!(f.params, vec![IrType::I32]);
    assert_eq!(f.ret, IrType::I32);
    assert_eq!(f.blocks.len(), 1);
    // Parameter slot, incoming store, load for the return.
    assert!(matches!(f.blocks[0].insts[0], Inst::Alloca(IrType::I32)));
    assert!(matches!(f.blocks[0].insts[1], Inst::Store(..)));
    assert!(matches!(f.blocks[0].term, Some(Terminator::Ret(_))));
}

#[test]
fn void_function_gets_trailing_ret_void() {
    let program = ast::Program(vec![func("noop", vec![], None, vec![])]);
    let module = compile_to_module(program).unwrap();
    assert_eq!(module.funcs[0].ret, IrType::Void);
    assert_eq!(module.funcs[0].blocks[0].term, Some(Terminator::RetVoid));
}

#[test]
fn extern_is_a_bodiless_declaration() {
    let program = ast::Program(vec![ast::TopLevelStmt::ExternDef(ast::ExternDef {
        name: "puts".to_string(),
        params: vec![binding("s", ast::Type::CStr)],
        return_type: Some(ast::Type::Int),
    })]);
    let module = compile_to_module(program).unwrap();
    assert_eq!(module.funcs.len(), 1);
    assert_eq!(module.funcs[0].name, "puts");
    assert_eq!(module.funcs[0].blocks.len(), 0);
    assert_eq!(module.funcs[0].params, vec![IrType::Ptr(Box::new(IrType::I8))]);
}

#[test]
fn class_registers_named_struct() {
    let program = ast::Program(vec![ast::TopLevelStmt::ClassDef(ast::ClassDef {
        name: "Point".to_string(),
        fields: vec![
            ("x".to_string(), ast::Type::Int),
            ("y".to_string(), ast::Type::Int),
        ],
    })]);
    let module = compile_to_module(program).unwrap();
    assert_eq!(module.structs.len(), 1);
    assert_eq!(module.structs[0].name, "Point");
    assert_eq!(module.structs[0].fields, vec![IrType::I32, IrType::I32]);
}

#[test]
fn if_lowering_terminates_its_blocks() {
    // if (1 == 2) { return 7 } else { return 3 }
    let program = ast::Program(vec![func(
        "main",
        vec![],
        Some(ast::Type::Int),
        vec![ast::Stmt::IfStmt(ast::IfStmt {
            condition: ast::Expr::Binary(Box::new(int_lit(1)), ast::BinOp::Eq, Box::new(int_lit(2))),
            body: ast::BlockStmt(vec![ast::Stmt::ReturnStmt(int_lit(7))]),
            else_stmt: Some(ast::IfOrElse::Else(ast::BlockStmt(vec![
                ast::Stmt::ReturnStmt(int_lit(3)),
            ]))),
        })],
    )]);
    let module = compile_to_module(program).unwrap();
    let f = &module.funcs[0];
    // Entry, then, else, merge.
    assert_eq!(f.blocks.len(), 4);
    assert!(matches!(f.blocks[0].term, Some(Terminator::CondBr(_, 1, 2))));
    // Both arms return; the first terminator of a block stands, so the
    // branch to merge emitted after each arm is dropped.
    assert!(matches!(f.blocks[1].term, Some(Terminator::Ret(_))));
    assert!(matches!(f.blocks[2].term, Some(Terminator::Ret(_))));
    // Every block but the open merge block is terminated exactly once.
    for (i, b) in f.blocks.iter().enumerate() {
        if i != 3 {
            assert!(b.term.is_some());
        }
    }
    assert!(f.blocks[3].term.is_none());
}

#[test]
fn while_lowering_builds_cond_body_exit() {
    // var i: int = 0; while (i < 10) { i = i + 1 } return i
    let program = ast::Program(vec![func(
        "main",
        vec![],
        Some(ast::Type::Int),
        vec![
            ast::Stmt::VarDef(ast::VarDef {
                binding: binding("i", ast::Type::Int),
                value: int_lit(0),
            }),
            ast::Stmt::WhileStmt(ast::WhileStmt {
                condition: ast::Expr::Binary(Box::new(ident("i")), ast::BinOp::Lt, Box::new(int_lit(10))),
                body: ast::BlockStmt(vec![ast::Stmt::ExprStmt(ast::Expr::Binary(
                    Box::new(ident("i")),
                    ast::BinOp::Equals,
                    Box::new(ast::Expr::Binary(
                        Box::new(ident("i")),
                        ast::BinOp::Plus,
                        Box::new(int_lit(1)),
                    )),
                ))]),
            }),
            ast::Stmt::ReturnStmt(ident("i")),
        ],
    )]);
    let module = compile_to_module(program).unwrap();
    let f = &module.funcs[0];
    // Entry, cond, body, exit.
    assert_eq!(f.blocks.len(), 4);
    assert!(matches!(f.blocks[0].term, Some(Terminator::Br(1))));
    assert!(matches!(f.blocks[1].term, Some(Terminator::CondBr(_, 2, 3))));
    assert!(matches!(f.blocks[2].term, Some(Terminator::Br(1))));
    // The loop's exit block holds the final return.
    assert!(matches!(f.blocks[3].term, Some(Terminator::Ret(_))));
}

#[test]
fn cstring_literal_becomes_global() {
    let program = ast::Program(vec![
        ast::TopLevelStmt::ExternDef(ast::ExternDef {
            name: "puts".to_string(),
            params: vec![binding("s", ast::Type::CStr)],
            return_type: Some(ast::Type::Int),
        }),
        func(
            "main",
            vec![],
            Some(ast::Type::Int),
            vec![
                ast::Stmt::ExprStmt(ast::Expr::FunctionCall(ast::FunctionCall {
                    name: Box::new(ident("puts")),
                    args: vec![ast::Expr::Literal(ast::Literal::CStr("hi".to_string()))],
                })),
                ast::Stmt::ReturnStmt(int_lit(0)),
            ],
        ),
    ]);
    let module = compile_to_module(program).unwrap();
    assert_eq!(module.globals, vec!["hi".to_string()]);
}

#[test]
fn lowering_twice_is_identical() {
    let make = || {
        ast::Program(vec![func(
            "main",
            vec![],
            Some(ast::Type::Int),
            vec![
                ast::Stmt::VarDef(ast::VarDef {
                    binding: binding("x", ast::Type::Int),
                    value: ast::Expr::Binary(Box::new(int_lit(35)), ast::BinOp::Plus, Box::new(int_lit(34))),
                }),
                ast::Stmt::ReturnStmt(ident("x")),
            ],
        )])
    };
    let m1 = compile_to_module(make()).unwrap();
    let m2 = compile_to_module(make()).unwrap();
    assert_eq!(m1, m2);
}

#[test]
fn unknown_class_in_binding_fails_lowering() {
    let program = ast::Program(vec![func(
        "main",
        vec![],
        None,
        vec![ast::Stmt::VarDef(ast::VarDef {
            binding: binding("p", ast::Type::Class("Ghost".to_string())),
            value: int_lit(0),
        })],
    )]);
    assert_eq!(
        compile_to_module(program),
        Err(CompileError::Codegen(CodegenError::UnknownClass))
    );
}

#[test]
fn unknown_field_in_constructor_fails_lowering() {
    let program = ast::Program(vec![
        ast::TopLevelStmt::ClassDef(ast::ClassDef {
            name: "Point".to_string(),
            fields: vec![("x".to_string(), ast::Type::Int)],
        }),
        func(
            "main",
            vec![],
            None,
            vec![ast::Stmt::ExprStmt(ast::Expr::Class(ast::ClassExpr {
                class: "Point".to_string(),
                fields: vec![("z".to_string(), Box::new(int_lit(1)))],
            }))],
        ),
    ]);
    assert_eq!(
        compile_to_module(program),
        Err(CompileError::Codegen(CodegenError::UnknownField))
    );
}

#[test]
fn cast_between_non_integers_fails_lowering() {
    let program = ast::Program(vec![func(
        "main",
        vec![],
        None,
        vec![ast::Stmt::ExprStmt(ast::Expr::Cast(
            Box::new(int_lit(1)),
            ast::Type::Ref(Box::new(ast::Type::Int)),
        ))],
    )]);
    assert_eq!(
        compile_to_module(program),
        Err(CompileError::Codegen(CodegenError::UnsupportedCast))
    );
}

#[test]
fn integer_cast_sign_extends() {
    let program = ast::Program(vec![func(
        "main",
        vec![],
        Some(ast::Type::Int64),
        vec![ast::Stmt::ReturnStmt(ast::Expr::Cast(
            Box::new(int_lit(5)),
            ast::Type::Int64,
        ))],
    )]);
    let module = compile_to_module(program).unwrap();
    let insts = &module.funcs[0].blocks[0].insts;
    assert!(insts.iter().any(|i| matches!(i, Inst::SExt(_, IrType::I64))));
}

#[test]
fn str_literal_is_reserved() {
    let program = ast::Program(vec![func(
        "main",
        vec![],
        None,
        vec![ast::Stmt::ExprStmt(ast::Expr::Literal(ast::Literal::Str(
            "abc".to_string(),
        )))],
    )]);
    assert_eq!(
        compile_to_module(program),
        Err(CompileError::Codegen(CodegenError::Unsupported))
    );
}

#[test]
fn global_const_lowering_is_reserved() {
    let program = ast::Program(vec![ast::TopLevelStmt::ConstDef(ast::GlobalConstDef {
        binding: binding("K", ast::Type::Int),
        value: ast::Literal::Int(7),
    })]);
    assert_eq!(
        compile_to_module(program),
        Err(CompileError::Codegen(CodegenError::Unsupported))
    );
}

#[test]
fn unresolved_symbol_in_typed_tree_fails_codegen() {
    // Hand a typed tree with an unbound identifier straight to lowering.
    let typed = t::Program(vec![t::TopLevelStmt::FunctionDef(t::FunctionDef {
        name: "main".to_string(),
        params: vec![],
        return_type: t::Type::NoneType,
        body: t::BlockStmt {
            inners: vec![t::Stmt::ExprStmt(t::Expr {
                ty: t::Type::Int,
                val: t::ExprInner::Ident("nowhere".to_string()),
            })],
        },
    })]);
    let mut ctx = CompilerContext::new();
    assert_eq!(typed.codegen(&mut ctx), Err(CodegenError::UnknownSymbol));
}

#[test]
fn assignment_to_non_lvalue_fails_codegen() {
    let lit = |v: i32| t::Expr {
        ty: t::Type::Int,
        val: t::ExprInner::Literal(t::Literal {
            ty: t::Type::Int,
            val: t::LiteralInner::Int(v),
        }),
    };
    let typed = t::Program(vec![t::TopLevelStmt::FunctionDef(t::FunctionDef {
        name: "main".to_string(),
        params: vec![],
        return_type: t::Type::NoneType,
        body: t::BlockStmt {
            inners: vec![t::Stmt::ExprStmt(t::Expr {
                ty: t::Type::Int,
                val: t::ExprInner::Binary(t::BinaryExpr {
                    lhs: Box::new(lit(1)),
                    rhs: Box::new(lit(2)),
                    op: t::BinOp::Equals,
                }),
            })],
        },
    })]);
    let mut ctx = CompilerContext::new();
    assert_eq!(typed.codegen(&mut ctx), Err(CodegenError::BadPtrGen));
}

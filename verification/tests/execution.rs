//! End-to-end scenarios: compile a program and run the emitted module in a
//! small reference evaluator for the IR.

use std::collections::HashMap;
use tinylang::ast;
use tinylang::codegen::ir::{Inst, Module, Predicate, Terminator, Value};
use tinylang::compile_to_module;

#[derive(Clone, Debug, PartialEq)]
enum Val {
    Int(i128),
    Ptr(usize, Vec<usize>),
    Agg(Vec<Val>),
    Func(usize),
    Str(usize),
    Unit,
}

struct Mem {
    cells: Vec<Val>,
    out: Vec<String>,
}

fn as_int(v: &Val) -> i128 {
    match v {
        Val::Int(x) => *x,
        other => panic!("expected an integer, got {:?}", other),
    }
}

fn eval(regs: &HashMap<(usize, usize), Val>, args: &[Val], v: &Value) -> Val {
    match v {
        Value::ConstInt(_, x) => Val::Int(*x),
        Value::Reg(b, i) => regs.get(&(*b, *i)).expect("undefined register").clone(),
        Value::Param(i) => args[*i].clone(),
        Value::FuncRef(f) => Val::Func(*f),
        Value::GlobalRef(g) => Val::Str(*g),
    }
}

fn navigate<'a>(mut cell: &'a mut Val, path: &[usize]) -> &'a mut Val {
    for step in path {
        if !matches!(cell, Val::Agg(_)) {
            *cell = Val::Agg(vec![]);
        }
        match cell {
            Val::Agg(items) => {
                if items.len() <= *step {
                    items.resize(*step + 1, Val::Unit);
                }
                cell = &mut items[*step];
            }
            _ => unreachable!(),
        }
    }
    cell
}

fn store(mem: &mut Mem, p: &Val, v: Val) {
    match p {
        Val::Ptr(a, path) => {
            *navigate(&mut mem.cells[*a], path) = v;
        }
        other => panic!("store through non-pointer {:?}", other),
    }
}

fn load(mem: &mut Mem, p: &Val) -> Val {
    match p {
        Val::Ptr(a, path) => navigate(&mut mem.cells[*a], path).clone(),
        other => panic!("load through non-pointer {:?}", other),
    }
}

fn run(m: &Module, mem: &mut Mem, fidx: usize, args: Vec<Val>) -> Val {
    let f = &m.funcs[fidx];
    if f.blocks.is_empty() {
        // An extern declaration: the only one these programs use is puts.
        if f.name == "puts" {
            if let Val::Str(g) = &args[0] {
                let line = m.globals[*g].clone();
                mem.out.push(line);
            }
            return Val::Int(0);
        }
        panic!("call of unknown extern {}", f.name);
    }
    let mut regs: HashMap<(usize, usize), Val> = HashMap::new();
    let mut b: usize = 0;
    loop {
        let blk = &f.blocks[b];
        for (i, inst) in blk.insts.iter().enumerate() {
            let val = match inst {
                Inst::Alloca(_ty) => {
                    mem.cells.push(Val::Unit);
                    Val::Ptr(mem.cells.len() - 1, vec![])
                }
                Inst::Load(p) => {
                    let pv = eval(&regs, &args, p);
                    load(mem, &pv)
                }
                Inst::Store(v, p) => {
                    let vv = eval(&regs, &args, v);
                    let pv = eval(&regs, &args, p);
                    store(mem, &pv, vv);
                    Val::Unit
                }
                Inst::Add(a, c) => Val::Int(as_int(&eval(&regs, &args, a)) + as_int(&eval(&regs, &args, c))),
                Inst::Sub(a, c) => Val::Int(as_int(&eval(&regs, &args, a)) - as_int(&eval(&regs, &args, c))),
                Inst::Mul(a, c) => Val::Int(as_int(&eval(&regs, &args, a)) * as_int(&eval(&regs, &args, c))),
                Inst::SDiv(a, c) => Val::Int(as_int(&eval(&regs, &args, a)) / as_int(&eval(&regs, &args, c))),
                Inst::And(a, c) => Val::Int(as_int(&eval(&regs, &args, a)) & as_int(&eval(&regs, &args, c))),
                Inst::Or(a, c) => Val::Int(as_int(&eval(&regs, &args, a)) | as_int(&eval(&regs, &args, c))),
                Inst::Neg(a) => Val::Int(-as_int(&eval(&regs, &args, a))),
                Inst::Not(a) => Val::Int(if as_int(&eval(&regs, &args, a)) == 0 { 1 } else { 0 }),
                Inst::ICmp(p, a, c) => {
                    let x = as_int(&eval(&regs, &args, a));
                    let y = as_int(&eval(&regs, &args, c));
                    let r = match p {
                        Predicate::IntEQ => x == y,
                        Predicate::IntNE => x != y,
                        Predicate::IntSGT => x > y,
                        Predicate::IntSGE => x >= y,
                        Predicate::IntSLT => x < y,
                        Predicate::IntSLE => x <= y,
                    };
                    Val::Int(if r { 1 } else { 0 })
                }
                Inst::SExt(v, _ty) => eval(&regs, &args, v),
                Inst::Call(callee, call_args) => {
                    let cv = eval(&regs, &args, callee);
                    let argv: Vec<Val> = call_args.iter().map(|a| eval(&regs, &args, a)).collect();
                    match cv {
                        Val::Func(fi) => run(m, mem, fi, argv),
                        other => panic!("call of non-function {:?}", other),
                    }
                }
                Inst::Gep(base, idxs) => {
                    let bv = eval(&regs, &args, base);
                    let i0 = as_int(&eval(&regs, &args, &idxs[0])) as usize;
                    match bv {
                        Val::Ptr(a, mut path) => {
                            path.push(i0);
                            Val::Ptr(a, path)
                        }
                        Val::Agg(items) => {
                            // Address of an element of a loaded aggregate: park
                            // the element in a fresh cell.
                            mem.cells.push(items[i0].clone());
                            Val::Ptr(mem.cells.len() - 1, vec![])
                        }
                        other => panic!("gep on {:?}", other),
                    }
                }
                Inst::StructGep(base, fi) => {
                    let bv = eval(&regs, &args, base);
                    match bv {
                        Val::Ptr(a, mut path) => {
                            path.push(*fi);
                            Val::Ptr(a, path)
                        }
                        other => panic!("struct gep on {:?}", other),
                    }
                }
            };
            regs.insert((b, i), val);
        }
        match &blk.term {
            Some(Terminator::Ret(v)) => return eval(&regs, &args, v),
            Some(Terminator::RetVoid) | None => return Val::Unit,
            Some(Terminator::Br(t)) => b = *t,
            Some(Terminator::CondBr(c, t, e)) => {
                b = if as_int(&eval(&regs, &args, c)) != 0 { *t } else { *e };
            }
        }
    }
}

fn run_main(m: &Module) -> (i128, Vec<String>) {
    let fidx = m
        .funcs
        .iter()
        .position(|f| f.name == "main")
        .expect("no main function");
    let mut mem = Mem { cells: vec![], out: vec![] };
    let r = run(m, &mut mem, fidx, vec![]);
    (as_int(&r), mem.out)
}

fn int_lit(v: i32) -> ast::Expr {
    ast::Expr::Literal(ast::Literal::Int(v))
}

fn ident(name: &str) -> ast::Expr {
    ast::Expr::Ident(name.to_string())
}

fn binding(name: &str, ty: ast::Type) -> ast::TypeBinding {
    ast::TypeBinding { name: name.to_string(), ty }
}

fn func(name: &str, params: Vec<ast::TypeBinding>, ret: Option<ast::Type>, body: Vec<ast::Stmt>) -> ast::TopLevelStmt {
    ast::TopLevelStmt::FunctionDef(ast::FunctionDef {
        name: name.to_string(),
        params,
        return_type: ret,
        body: ast::BlockStmt(body),
    })
}

#[test]
fn puts_program_prints_and_exits_zero() {
    // extern puts(s: cstr) -> int; func main() -> int { puts(c"hi"); return 0 }
    let program = ast::Program(vec![
        ast::TopLevelStmt::ExternDef(ast::ExternDef {
            name: "puts".to_string(),
            params: vec![binding("s", ast::Type::CStr)],
            return_type: Some(ast::Type::Int),
        }),
        func(
            "main",
            vec![],
            Some(ast::Type::Int),
            vec![
                ast::Stmt::ExprStmt(ast::Expr::FunctionCall(ast::FunctionCall {
                    name: Box::new(ident("puts")),
                    args: vec![ast::Expr::Literal(ast::Literal::CStr("hi".to_string()))],
                })),
                ast::Stmt::ReturnStmt(int_lit(0)),
            ],
        ),
    ]);
    let module = compile_to_module(program).unwrap();
    let (exit, out) = run_main(&module);
    assert_eq!(exit, 0);
    // puts itself appends the newline when the binary runs.
    assert_eq!(out, vec!["hi".to_string()]);
}

#[test]
fn addition_program_exits_69() {
    // func main() -> int { var x: int = 35 + 34; return x }
    let program = ast::Program(vec![func(
        "main",
        vec![],
        Some(ast::Type::Int),
        vec![
            ast::Stmt::VarDef(ast::VarDef {
                binding: binding("x", ast::Type::Int),
                value: ast::Expr::Binary(Box::new(int_lit(35)), ast::BinOp::Plus, Box::new(int_lit(34))),
            }),
            ast::Stmt::ReturnStmt(ident("x")),
        ],
    )]);
    let module = compile_to_module(program).unwrap();
    assert_eq!(run_main(&module).0, 69);
}

#[test]
fn while_loop_counts_to_ten() {
    // func main() -> int { var i: int = 0; while (i < 10) { i = i + 1 } return i }
    let program = ast::Program(vec![func(
        "main",
        vec![],
        Some(ast::Type::Int),
        vec![
            ast::Stmt::VarDef(ast::VarDef {
                binding: binding("i", ast::Type::Int),
                value: int_lit(0),
            }),
            ast::Stmt::WhileStmt(ast::WhileStmt {
                condition: ast::Expr::Binary(Box::new(ident("i")), ast::BinOp::Lt, Box::new(int_lit(10))),
                body: ast::BlockStmt(vec![ast::Stmt::ExprStmt(ast::Expr::Binary(
                    Box::new(ident("i")),
                    ast::BinOp::Equals,
                    Box::new(ast::Expr::Binary(
                        Box::new(ident("i")),
                        ast::BinOp::Plus,
                        Box::new(int_lit(1)),
                    )),
                ))]),
            }),
            ast::Stmt::ReturnStmt(ident("i")),
        ],
    )]);
    let module = compile_to_module(program).unwrap();
    assert_eq!(run_main(&module).0, 10);
}

#[test]
fn if_else_takes_the_false_arm() {
    // func main() -> int { if (1 == 2) { return 7 } else { return 3 } }
    let program = ast::Program(vec![func(
        "main",
        vec![],
        Some(ast::Type::Int),
        vec![ast::Stmt::IfStmt(ast::IfStmt {
            condition: ast::Expr::Binary(Box::new(int_lit(1)), ast::BinOp::Eq, Box::new(int_lit(2))),
            body: ast::BlockStmt(vec![ast::Stmt::ReturnStmt(int_lit(7))]),
            else_stmt: Some(ast::IfOrElse::Else(ast::BlockStmt(vec![
                ast::Stmt::ReturnStmt(int_lit(3)),
            ]))),
        })],
    )]);
    let module = compile_to_module(program).unwrap();
    assert_eq!(run_main(&module).0, 3);
}

#[test]
fn if_else_takes_the_true_arm() {
    let program = ast::Program(vec![func(
        "main",
        vec![],
        Some(ast::Type::Int),
        vec![ast::Stmt::IfStmt(ast::IfStmt {
            condition: ast::Expr::Binary(Box::new(int_lit(2)), ast::BinOp::Eq, Box::new(int_lit(2))),
            body: ast::BlockStmt(vec![ast::Stmt::ReturnStmt(int_lit(7))]),
            else_stmt: Some(ast::IfOrElse::Else(ast::BlockStmt(vec![
                ast::Stmt::ReturnStmt(int_lit(3)),
            ]))),
        })],
    )]);
    let module = compile_to_module(program).unwrap();
    assert_eq!(run_main(&module).0, 7);
}

#[test]
fn array_indexing_reads_middle_element() {
    // func main() -> int { var a: [int; 3] = [10, 20, 30]; return a[1] }
    let program = ast::Program(vec![func(
        "main",
        vec![],
        Some(ast::Type::Int),
        vec![
            ast::Stmt::VarDef(ast::VarDef {
                binding: binding("a", ast::Type::Array(Box::new(ast::Type::Int), 3)),
                value: ast::Expr::Array(vec![int_lit(10), int_lit(20), int_lit(30)], 3),
            }),
            ast::Stmt::ReturnStmt(ast::Expr::IndexExpr(Box::new(ident("a")), Box::new(int_lit(1)))),
        ],
    )]);
    let module = compile_to_module(program).unwrap();
    assert_eq!(run_main(&module).0, 20);
}

#[test]
fn class_constructor_stores_fields_in_order() {
    // class Point { x: int, y: int }
    // func main() -> int { var p: Point = Point { x: 4, y: 5 }; return 42 }
    // The parse AST has no field-access expression, so the constructed value
    // is checked through the stores the constructor emits.
    let program = ast::Program(vec![
        ast::TopLevelStmt::ClassDef(ast::ClassDef {
            name: "Point".to_string(),
            fields: vec![
                ("x".to_string(), ast::Type::Int),
                ("y".to_string(), ast::Type::Int),
            ],
        }),
        func(
            "main",
            vec![],
            Some(ast::Type::Int),
            vec![
                ast::Stmt::VarDef(ast::VarDef {
                    binding: binding("p", ast::Type::Class("Point".to_string())),
                    value: ast::Expr::Class(ast::ClassExpr {
                        class: "Point".to_string(),
                        fields: vec![
                            ("x".to_string(), Box::new(int_lit(4))),
                            ("y".to_string(), Box::new(int_lit(5))),
                        ],
                    }),
                }),
                ast::Stmt::ReturnStmt(int_lit(42)),
            ],
        ),
    ]);
    let module = compile_to_module(program).unwrap();
    // The constructor addresses field 0 for x and field 1 for y.
    let insts = &module.funcs[0].blocks[0].insts;
    assert!(insts.iter().any(|i| matches!(i, Inst::StructGep(_, 0))));
    assert!(insts.iter().any(|i| matches!(i, Inst::StructGep(_, 1))));
    assert_eq!(run_main(&module).0, 42);
}

#[test]
fn nested_loop_computes_product() {
    // Two nested whiles summing 3 * 4.
    let program = ast::Program(vec![func(
        "main",
        vec![],
        Some(ast::Type::Int),
        vec![
            ast::Stmt::VarDef(ast::VarDef {
                binding: binding("total", ast::Type::Int),
                value: int_lit(0),
            }),
            ast::Stmt::VarDef(ast::VarDef {
                binding: binding("i", ast::Type::Int),
                value: int_lit(0),
            }),
            ast::Stmt::WhileStmt(ast::WhileStmt {
                condition: ast::Expr::Binary(Box::new(ident("i")), ast::BinOp::Lt, Box::new(int_lit(3))),
                body: ast::BlockStmt(vec![
                    ast::Stmt::VarDef(ast::VarDef {
                        binding: binding("j", ast::Type::Int),
                        value: int_lit(0),
                    }),
                    ast::Stmt::WhileStmt(ast::WhileStmt {
                        condition: ast::Expr::Binary(Box::new(ident("j")), ast::BinOp::Lt, Box::new(int_lit(4))),
                        body: ast::BlockStmt(vec![
                            ast::Stmt::ExprStmt(ast::Expr::Binary(
                                Box::new(ident("total")),
                                ast::BinOp::Equals,
                                Box::new(ast::Expr::Binary(
                                    Box::new(ident("total")),
                                    ast::BinOp::Plus,
                                    Box::new(int_lit(1)),
                                )),
                            )),
                            ast::Stmt::ExprStmt(ast::Expr::Binary(
                                Box::new(ident("j")),
                                ast::BinOp::Equals,
                                Box::new(ast::Expr::Binary(
                                    Box::new(ident("j")),
                                    ast::BinOp::Plus,
                                    Box::new(int_lit(1)),
                                )),
                            )),
                        ]),
                    }),
                    ast::Stmt::ExprStmt(ast::Expr::Binary(
                        Box::new(ident("i")),
                        ast::BinOp::Equals,
                        Box::new(ast::Expr::Binary(
                            Box::new(ident("i")),
                            ast::BinOp::Plus,
                            Box::new(int_lit(1)),
                        )),
                    )),
                ]),
            }),
            ast::Stmt::ReturnStmt(ident("total")),
        ],
    )]);
    let module = compile_to_module(program).unwrap();
    assert_eq!(run_main(&module).0, 12);
}

#[test]
fn function_call_passes_arguments() {
    // func add(a: int, b: int) -> int { return a + b }  (defined before use)
    // func main() -> int { return add(30, 12) }
    let program = ast::Program(vec![
        func(
            "add",
            vec![binding("a", ast::Type::Int), binding("b", ast::Type::Int)],
            Some(ast::Type::Int),
            vec![ast::Stmt::ReturnStmt(ast::Expr::Binary(
                Box::new(ident("a")),
                ast::BinOp::Plus,
                Box::new(ident("b")),
            ))],
        ),
        func(
            "main",
            vec![],
            Some(ast::Type::Int),
            vec![ast::Stmt::ReturnStmt(ast::Expr::FunctionCall(ast::FunctionCall {
                name: Box::new(ident("add")),
                args: vec![int_lit(30), int_lit(12)],
            }))],
        ),
    ]);
    let module = compile_to_module(program).unwrap();
    assert_eq!(run_main(&module).0, 42);
}

#[test]
fn reference_and_deref_round_trip() {
    // var x: int = 5; var r: ref int = &x; return *r
    let program = ast::Program(vec![func(
        "main",
        vec![],
        Some(ast::Type::Int),
        vec![
            ast::Stmt::VarDef(ast::VarDef {
                binding: binding("x", ast::Type::Int),
                value: int_lit(5),
            }),
            ast::Stmt::VarDef(ast::VarDef {
                binding: binding("r", ast::Type::Ref(Box::new(ast::Type::Int))),
                value: ast::Expr::Unary(ast::UnaryOp::Reference, Box::new(ident("x"))),
            }),
            ast::Stmt::ReturnStmt(ast::Expr::Unary(ast::UnaryOp::Deref, Box::new(ident("r")))),
        ],
    )]);
    let module = compile_to_module(program).unwrap();
    assert_eq!(run_main(&module).0, 5);
}

#[test]
fn unary_minus_and_comparisons() {
    // return -(3 - 10)
    let program = ast::Program(vec![func(
        "main",
        vec![],
        Some(ast::Type::Int),
        vec![ast::Stmt::ReturnStmt(ast::Expr::Unary(
            ast::UnaryOp::Minus,
            Box::new(ast::Expr::Binary(Box::new(int_lit(3)), ast::BinOp::Minus, Box::new(int_lit(10)))),
        ))],
    )]);
    let module = compile_to_module(program).unwrap();
    assert_eq!(run_main(&module).0, 7);
}

#[test]
fn logical_operators_on_booleans() {
    // var a: bool = true; var b: bool = false;
    // if (a and not b) { return 1 } else { return 0 }
    let bool_lit = |v: bool| ast::Expr::Literal(ast::Literal::Bool(v));
    let program = ast::Program(vec![func(
        "main",
        vec![],
        Some(ast::Type::Int),
        vec![
            ast::Stmt::VarDef(ast::VarDef {
                binding: binding("a", ast::Type::Bool),
                value: bool_lit(true),
            }),
            ast::Stmt::VarDef(ast::VarDef {
                binding: binding("b", ast::Type::Bool),
                value: bool_lit(false),
            }),
            ast::Stmt::IfStmt(ast::IfStmt {
                condition: ast::Expr::Binary(
                    Box::new(ident("a")),
                    ast::BinOp::LogicalAnd,
                    Box::new(ast::Expr::Unary(ast::UnaryOp::Not, Box::new(ident("b")))),
                ),
                body: ast::BlockStmt(vec![ast::Stmt::ReturnStmt(int_lit(1))]),
                else_stmt: Some(ast::IfOrElse::Else(ast::BlockStmt(vec![
                    ast::Stmt::ReturnStmt(int_lit(0)),
                ]))),
            }),
        ],
    )]);
    let module = compile_to_module(program).unwrap();
    assert_eq!(run_main(&module).0, 1);
}

#[test]
fn division_is_signed() {
    // return 84 / 2
    let program = ast::Program(vec![func(
        "main",
        vec![],
        Some(ast::Type::Int),
        vec![ast::Stmt::ReturnStmt(ast::Expr::Binary(
            Box::new(int_lit(84)),
            ast::BinOp::Divide,
            Box::new(int_lit(2)),
        ))],
    )]);
    let module = compile_to_module(program).unwrap();
    assert_eq!(run_main(&module).0, 42);
}

#[test]
fn else_if_chain_picks_middle_arm() {
    // if (false) { return 1 } else if (true) { return 2 } else { return 3 }
    let bool_lit = |v: bool| ast::Expr::Literal(ast::Literal::Bool(v));
    let program = ast::Program(vec![func(
        "main",
        vec![],
        Some(ast::Type::Int),
        vec![ast::Stmt::IfStmt(ast::IfStmt {
            condition: bool_lit(false),
            body: ast::BlockStmt(vec![ast::Stmt::ReturnStmt(int_lit(1))]),
            else_stmt: Some(ast::IfOrElse::If(Box::new(ast::IfStmt {
                condition: bool_lit(true),
                body: ast::BlockStmt(vec![ast::Stmt::ReturnStmt(int_lit(2))]),
                else_stmt: Some(ast::IfOrElse::Else(ast::BlockStmt(vec![
                    ast::Stmt::ReturnStmt(int_lit(3)),
                ]))),
            }))),
        })],
    )]);
    let module = compile_to_module(program).unwrap();
    assert_eq!(run_main(&module).0, 2);
}

#[test]
fn cast_to_wider_integer_keeps_value() {
    // func main() -> int64 { return 7 as int64 }
    let program = ast::Program(vec![func(
        "main",
        vec![],
        Some(ast::Type::Int64),
        vec![ast::Stmt::ReturnStmt(ast::Expr::Cast(
            Box::new(int_lit(7)),
            ast::Type::Int64,
        ))],
    )]);
    let module = compile_to_module(program).unwrap();
    assert_eq!(run_main(&module).0, 7);
}

#[test]
fn suffixed_literals_keep_their_values() {
    // func main() -> int16 { return 300_i16 }
    let program = ast::Program(vec![func(
        "main",
        vec![],
        Some(ast::Type::Int16),
        vec![ast::Stmt::ReturnStmt(ast::Expr::Literal(ast::Literal::Int16(300)))],
    )]);
    let module = compile_to_module(program).unwrap();
    assert_eq!(run_main(&module).0, 300);
}

//! The typed abstract syntax tree.
//!
//! Every expression carries the concrete `Type` the operation yields, and
//! every identifier has been resolved by elaboration.  Each executable node
//! has a mathematical mirror (`...V`) in which strings are `Seq<char>` and
//! vectors are `Seq`; contracts throughout the crate speak of those mirrors
//! through `View`.

use vstd::prelude::*;

verus! {

#[derive(Debug, PartialEq)]
pub struct Program(pub Vec<TopLevelStmt>);

#[derive(Debug, PartialEq)]
pub enum TopLevelStmt {
    ClassDef(ClassDef),
    FunctionDef(FunctionDef),
    ExternDef(ExternDef),
    ConstDef(GlobalConstDef),
}

#[derive(Debug, PartialEq)]
pub struct ClassDef {
    pub name: String,
    pub fields: Vec<(String, Type)>,
}

// TOP LEVEL STATEMENTS

#[derive(Debug, PartialEq)]
pub struct FunctionDef {
    pub name: String,
    pub params: Vec<TypeBinding>,
    pub return_type: Type,
    pub body: BlockStmt,
}

#[derive(Debug, PartialEq)]
pub struct ExternDef {
    pub name: String,
    pub params: Vec<TypeBinding>,
    pub return_type: Type,
}

#[derive(Debug, PartialEq)]
pub struct GlobalConstDef {
    pub binding: TypeBinding,
    pub value: Literal,
}

// STATEMENTS

#[derive(Debug, PartialEq)]
pub enum Stmt {
    ExprStmt(Expr),
    BlockStmt(BlockStmt),
    IfStmt(IfStmt),
    WhileStmt(WhileStmt),
    ConstDef(ConstDef),
    VarDef(VarDef),
    ReturnStmt(Expr),
}

#[derive(Debug, PartialEq)]
pub struct BlockStmt {
    pub inners: Vec<Stmt>,
}

#[derive(Debug, PartialEq)]
pub struct IfStmt {
    pub condition: Expr,
    pub body: BlockStmt,
    pub else_stmt: Option<IfOrElse>,
}

#[derive(Debug, PartialEq)]
pub enum IfOrElse {
    If(Box<IfStmt>),
    Else(BlockStmt),
}

#[derive(Debug, PartialEq)]
pub struct WhileStmt {
    pub condition: Expr,
    pub body: BlockStmt,
}

#[derive(Debug, PartialEq)]
pub struct ConstDef {
    pub binding: TypeBinding,
    pub value: Expr,
}

#[derive(Debug, PartialEq)]
pub struct VarDef {
    pub binding: TypeBinding,
    pub value: Expr,
}

// EXPRESSIONS

#[derive(Debug, PartialEq)]
pub struct Expr {
    pub ty: Type,
    pub val: ExprInner,
}

#[derive(Debug, PartialEq)]
pub enum ExprInner {
    Class(ClassExpr),
    FunctionCall(FunctionCall),
    IndexExpr(IndexExpr),
    Binary(BinaryExpr),
    Unary(UnaryExpr),
    Array(ArrayExpr),
    Cast(CastExpr),
    Literal(Literal),
    Ident(String),
}

#[derive(Debug, PartialEq)]
pub struct ClassExpr {
    pub class: String,
    pub fields: Vec<(String, Box<Expr>)>,
}

#[derive(Debug, PartialEq)]
pub struct FunctionCall {
    pub name: Box<Expr>,
    pub args: Vec<Expr>,
}

#[derive(Debug, PartialEq)]
pub struct IndexExpr {
    pub name: Box<Expr>,
    pub index: Box<Expr>,
}

#[derive(Debug, PartialEq)]
pub struct BinaryExpr {
    pub lhs: Box<Expr>,
    pub rhs: Box<Expr>,
    pub op: BinOp,
}

#[derive(Debug, PartialEq)]
pub struct UnaryExpr {
    pub data: Box<Expr>,
    pub op: UnaryOp,
}

#[derive(Debug, PartialEq)]
pub struct ArrayExpr {
    pub items: Vec<Expr>,
    pub len: usize,
}

#[derive(Debug, PartialEq)]
pub struct CastExpr {
    pub original: Box<Expr>,
    pub to_type: Type,
}

#[derive(Debug, Clone, Copy, PartialEq, Eq, Structural)]
pub enum BinOp {
    Plus,
    Minus,
    Times,
    Divide,
    LogicalAnd,
    LogicalOr,
    Equals,
    Eq,
    Ne,
    Gt,
    Gte,
    Lt,
    Lte,
}

#[derive(Debug, Clone, Copy, PartialEq, Eq, Structural)]
pub enum UnaryOp {
    Reference,
    Deref,
    Minus,
    Not,
}

// LITERALS

#[derive(Debug, PartialEq)]
pub struct Literal {
    pub ty: Type,
    pub val: LiteralInner,
}

#[derive(Debug, PartialEq)]
pub enum LiteralInner {
    Int(i32),
    UInt(u32),
    Int8(i8),
    Int16(i16),
    Int32(i32),
    Int64(i64),
    UInt8(u8),
    UInt16(u16),
    UInt32(u32),
    UInt64(u64),
    Str(String),
    CStr(String),
    Bool(bool),
}

#[derive(Debug, PartialEq)]
pub struct TypeBinding {
    pub name: String,
    pub ty: Type,
}

#[derive(Debug, PartialEq)]
pub enum Type {
    Class(String),
    Array(Box<Type>, usize),
    Ref(Box<Type>),
    Int,
    Int8,
    Int16,
    Int32,
    Int64,
    UInt,
    UInt8,
    UInt16,
    UInt32,
    UInt64,
    Char,
    Str,
    CStr,
    Bool,
    NoneType,
}

// MATHEMATICAL MIRRORS
//
// One mirror per node; strings become `Seq<char>`, vectors become `Seq`,
// lengths become `nat`.

pub enum TypeV {
    Class(Seq<char>),
    Array(Box<TypeV>, nat),
    Ref(Box<TypeV>),
    Int,
    Int8,
    Int16,
    Int32,
    Int64,
    UInt,
    UInt8,
    UInt16,
    UInt32,
    UInt64,
    Char,
    Str,
    CStr,
    Bool,
    NoneType,
}

pub struct LiteralV {
    pub ty: TypeV,
    pub val: LiteralInnerV,
}

pub enum LiteralInnerV {
    Int(i32),
    UInt(u32),
    Int8(i8),
    Int16(i16),
    Int32(i32),
    Int64(i64),
    UInt8(u8),
    UInt16(u16),
    UInt32(u32),
    UInt64(u64),
    Str(Seq<char>),
    CStr(Seq<char>),
    Bool(bool),
}

pub struct TypeBindingV {
    pub name: Seq<char>,
    pub ty: TypeV,
}

pub struct ExprV {
    pub ty: TypeV,
    pub val: ExprInnerV,
}

pub enum ExprInnerV {
    Class(ClassExprV),
    FunctionCall(FunctionCallV),
    IndexExpr(IndexExprV),
    Binary(BinaryExprV),
    Unary(UnaryExprV),
    Array(ArrayExprV),
    Cast(CastExprV),
    Literal(LiteralV),
    Ident(Seq<char>),
}

pub struct ClassExprV {
    pub class: Seq<char>,
    pub fields: Seq<(Seq<char>, ExprV)>,
}

pub struct FunctionCallV {
    pub name: Box<ExprV>,
    pub args: Seq<ExprV>,
}

pub struct IndexExprV {
    pub name: Box<ExprV>,
    pub index: Box<ExprV>,
}

pub struct BinaryExprV {
    pub lhs: Box<ExprV>,
    pub rhs: Box<ExprV>,
    pub op: BinOp,
}

pub struct UnaryExprV {
    pub data: Box<ExprV>,
    pub op: UnaryOp,
}

pub struct ArrayExprV {
    pub items: Seq<ExprV>,
    pub len: nat,
}

pub struct CastExprV {
    pub original: Box<ExprV>,
    pub to_type: TypeV,
}

pub enum StmtV {
    ExprStmt(ExprV),
    BlockStmt(BlockStmtV),
    IfStmt(IfStmtV),
    WhileStmt(WhileStmtV),
    ConstDef(ConstDefV),
    VarDef(VarDefV),
    ReturnStmt(ExprV),
}

pub struct BlockStmtV {
    pub inners: Seq<StmtV>,
}

pub struct IfStmtV {
    pub condition: ExprV,
    pub body: BlockStmtV,
    pub else_stmt: Option<IfOrElseV>,
}

pub enum IfOrElseV {
    If(Box<IfStmtV>),
    Else(BlockStmtV),
}

pub struct WhileStmtV {
    pub condition: ExprV,
    pub body: BlockStmtV,
}

pub struct ConstDefV {
    pub binding: TypeBindingV,
    pub value: ExprV,
}

pub struct VarDefV {
    pub binding: TypeBindingV,
    pub value: ExprV,
}

pub struct ClassDefV {
    pub name: Seq<char>,
    pub fields: Seq<(Seq<char>, TypeV)>,
}

pub struct FunctionDefV {
    pub name: Seq<char>,
    pub params: Seq<TypeBindingV>,
    pub return_type: TypeV,
    pub body: BlockStmtV,
}

pub struct ExternDefV {
    pub name: Seq<char>,
    pub params: Seq<TypeBindingV>,
    pub return_type: TypeV,
}

pub struct GlobalConstDefV {
    pub binding: TypeBindingV,
    pub value: LiteralV,
}

pub enum TopLevelStmtV {
    ClassDef(ClassDefV),
    FunctionDef(FunctionDefV),
    ExternDef(ExternDefV),
    ConstDef(GlobalConstDefV),
}

pub struct ProgramV(pub Seq<TopLevelStmtV>);

// VIEW FUNCTIONS

pub open spec fn view_type(t: Type) -> TypeV
    decreases t,
{
    match t {
        Type::Class(name) => TypeV::Class(name@),
        Type::Array(inner, len) => TypeV::Array(Box::new(view_type(*inner)), len as nat),
        Type::Ref(inner) => TypeV::Ref(Box::new(view_type(*inner))),
        Type::Int => TypeV::Int,
        Type::Int8 => TypeV::Int8,
        Type::Int16 => TypeV::Int16,
        Type::Int32 => TypeV::Int32,
        Type::Int64 => TypeV::Int64,
        Type::UInt => TypeV::UInt,
        Type::UInt8 => TypeV::UInt8,
        Type::UInt16 => TypeV::UInt16,
        Type::UInt32 => TypeV::UInt32,
        Type::UInt64 => TypeV::UInt64,
        Type::Char => TypeV::Char,
        Type::Str => TypeV::Str,
        Type::CStr => TypeV::CStr,
        Type::Bool => TypeV::Bool,
        Type::NoneType => TypeV::NoneType,
    }
}

pub open spec fn view_literal_inner(l: LiteralInner) -> LiteralInnerV {
    match l {
        LiteralInner::Int(v) => LiteralInnerV::Int(v),
        LiteralInner::UInt(v) => LiteralInnerV::UInt(v),
        LiteralInner::Int8(v) => LiteralInnerV::Int8(v),
        LiteralInner::Int16(v) => LiteralInnerV::Int16(v),
        LiteralInner::Int32(v) => LiteralInnerV::Int32(v),
        LiteralInner::Int64(v) => LiteralInnerV::Int64(v),
        LiteralInner::UInt8(v) => LiteralInnerV::UInt8(v),
        LiteralInner::UInt16(v) => LiteralInnerV::UInt16(v),
        LiteralInner::UInt32(v) => LiteralInnerV::UInt32(v),
        LiteralInner::UInt64(v) => LiteralInnerV::UInt64(v),
        LiteralInner::Str(s) => LiteralInnerV::Str(s@),
        LiteralInner::CStr(s) => LiteralInnerV::CStr(s@),
        LiteralInner::Bool(v) => LiteralInnerV::Bool(v),
    }
}

pub open spec fn view_literal(l: Literal) -> LiteralV {
    LiteralV { ty: view_type(l.ty), val: view_literal_inner(l.val) }
}

pub open spec fn view_binding(b: TypeBinding) -> TypeBindingV {
    TypeBindingV { name: b.name@, ty: view_type(b.ty) }
}

pub open spec fn view_binding_seq(bs: Seq<TypeBinding>) -> Seq<TypeBindingV>
    decreases bs,
{
    if bs.len() == 0 {
        Seq::empty()
    } else {
        view_binding_seq(bs.drop_last()).push(view_binding(bs.last()))
    }
}

pub open spec fn view_class_fields(fs: Seq<(String, Type)>) -> Seq<(Seq<char>, TypeV)>
    decreases fs,
{
    if fs.len() == 0 {
        Seq::empty()
    } else {
        view_class_fields(fs.drop_last()).push((fs.last().0@, view_type(fs.last().1)))
    }
}

pub open spec fn view_expr(e: Expr) -> ExprV
    decreases e,
{
    ExprV { ty: view_type(e.ty), val: view_expr_inner(e.val) }
}

pub open spec fn view_expr_inner(e: ExprInner) -> ExprInnerV
    decreases e,
{
    match e {
        ExprInner::Class(c) => ExprInnerV::Class(
            ClassExprV { class: c.class@, fields: view_expr_fields(c.fields@) },
        ),
        ExprInner::FunctionCall(c) => ExprInnerV::FunctionCall(
            FunctionCallV { name: Box::new(view_expr(*c.name)), args: view_expr_seq(c.args@) },
        ),
        ExprInner::IndexExpr(i) => ExprInnerV::IndexExpr(
            IndexExprV {
                name: Box::new(view_expr(*i.name)),
                index: Box::new(view_expr(*i.index)),
            },
        ),
        ExprInner::Binary(b) => ExprInnerV::Binary(
            BinaryExprV {
                lhs: Box::new(view_expr(*b.lhs)),
                rhs: Box::new(view_expr(*b.rhs)),
                op: b.op,
            },
        ),
        ExprInner::Unary(u) => ExprInnerV::Unary(
            UnaryExprV { data: Box::new(view_expr(*u.data)), op: u.op },
        ),
        ExprInner::Array(a) => ExprInnerV::Array(
            ArrayExprV { items: view_expr_seq(a.items@), len: a.len as nat },
        ),
        ExprInner::Cast(c) => ExprInnerV::Cast(
            CastExprV { original: Box::new(view_expr(*c.original)), to_type: view_type(c.to_type) },
        ),
        ExprInner::Literal(l) => ExprInnerV::Literal(view_literal(l)),
        ExprInner::Ident(name) => ExprInnerV::Ident(name@),
    }
}

pub open spec fn view_expr_seq(es: Seq<Expr>) -> Seq<ExprV>
    decreases es,
{
    if es.len() == 0 {
        Seq::empty()
    } else {
        view_expr_seq(es.drop_last()).push(view_expr(es.last()))
    }
}

pub open spec fn view_expr_fields(fs: Seq<(String, Box<Expr>)>) -> Seq<(Seq<char>, ExprV)>
    decreases fs,
{
    if fs.len() == 0 {
        Seq::empty()
    } else {
        view_expr_fields(fs.drop_last()).push((fs.last().0@, view_expr(*fs.last().1)))
    }
}

pub open spec fn view_stmt(s: Stmt) -> StmtV
    decreases s,
{
    match s {
        Stmt::ExprStmt(e) => StmtV::ExprStmt(view_expr(e)),
        Stmt::BlockStmt(b) => StmtV::BlockStmt(view_block(b)),
        Stmt::IfStmt(i) => StmtV::IfStmt(view_if(i)),
        Stmt::WhileStmt(w) => StmtV::WhileStmt(
            WhileStmtV { condition: view_expr(w.condition), body: view_block(w.body) },
        ),
        Stmt::ConstDef(d) => StmtV::ConstDef(
            ConstDefV { binding: view_binding(d.binding), value: view_expr(d.value) },
        ),
        Stmt::VarDef(d) => StmtV::VarDef(
            VarDefV { binding: view_binding(d.binding), value: view_expr(d.value) },
        ),
        Stmt::ReturnStmt(e) => StmtV::ReturnStmt(view_expr(e)),
    }
}

pub open spec fn view_stmt_seq(ss: Seq<Stmt>) -> Seq<StmtV>
    decreases ss,
{
    if ss.len() == 0 {
        Seq::empty()
    } else {
        view_stmt_seq(ss.drop_last()).push(view_stmt(ss.last()))
    }
}

pub open spec fn view_block(b: BlockStmt) -> BlockStmtV
    decreases b,
{
    BlockStmtV { inners: view_stmt_seq(b.inners@) }
}

pub open spec fn view_if(i: IfStmt) -> IfStmtV
    decreases i,
{
    IfStmtV {
        condition: view_expr(i.condition),
        body: view_block(i.body),
        else_stmt: match i.else_stmt {
            None => None,
            Some(IfOrElse::If(inner)) => Some(IfOrElseV::If(Box::new(view_if(*inner)))),
            Some(IfOrElse::Else(b)) => Some(IfOrElseV::Else(view_block(b))),
        },
    }
}

pub open spec fn view_class_def(c: ClassDef) -> ClassDefV {
    ClassDefV { name: c.name@, fields: view_class_fields(c.fields@) }
}

pub open spec fn view_function_def(f: FunctionDef) -> FunctionDefV {
    FunctionDefV {
        name: f.name@,
        params: view_binding_seq(f.params@),
        return_type: view_type(f.return_type),
        body: view_block(f.body),
    }
}

pub open spec fn view_extern_def(f: ExternDef) -> ExternDefV {
    ExternDefV {
        name: f.name@,
        params: view_binding_seq(f.params@),
        return_type: view_type(f.return_type),
    }
}

pub open spec fn view_global_const(g: GlobalConstDef) -> GlobalConstDefV {
    GlobalConstDefV { binding: view_binding(g.binding), value: view_literal(g.value) }
}

pub open spec fn view_top(t: TopLevelStmt) -> TopLevelStmtV {
    match t {
        TopLevelStmt::ClassDef(c) => TopLevelStmtV::ClassDef(view_class_def(c)),
        TopLevelStmt::FunctionDef(f) => TopLevelStmtV::FunctionDef(view_function_def(f)),
        TopLevelStmt::ExternDef(e) => TopLevelStmtV::ExternDef(view_extern_def(e)),
        TopLevelStmt::ConstDef(g) => TopLevelStmtV::ConstDef(view_global_const(g)),
    }
}

pub open spec fn view_top_seq(ts: Seq<TopLevelStmt>) -> Seq<TopLevelStmtV>
    decreases ts,
{
    if ts.len() == 0 {
        Seq::empty()
    } else {
        view_top_seq(ts.drop_last()).push(view_top(ts.last()))
    }
}

impl View for Type {
    type V = TypeV;

    open spec fn view(&self) -> TypeV {
        view_type(*self)
    }
}

impl View for Literal {
    type V = LiteralV;

    open spec fn view(&self) -> LiteralV {
        view_literal(*self)
    }
}

impl View for TypeBinding {
    type V = TypeBindingV;

    open spec fn view(&self) -> TypeBindingV {
        view_binding(*self)
    }
}

impl View for Expr {
    type V = ExprV;

    open spec fn view(&self) -> ExprV {
        view_expr(*self)
    }
}

impl View for Stmt {
    type V = StmtV;

    open spec fn view(&self) -> StmtV {
        view_stmt(*self)
    }
}

impl View for BlockStmt {
    type V = BlockStmtV;

    open spec fn view(&self) -> BlockStmtV {
        view_block(*self)
    }
}

impl View for IfStmt {
    type V = IfStmtV;

    open spec fn view(&self) -> IfStmtV {
        view_if(*self)
    }
}

impl View for WhileStmt {
    type V = WhileStmtV;

    open spec fn view(&self) -> WhileStmtV {
        WhileStmtV { condition: view_expr(self.condition), body: view_block(self.body) }
    }
}

impl View for ClassDef {
    type V = ClassDefV;

    open spec fn view(&self) -> ClassDefV {
        view_class_def(*self)
    }
}

impl View for FunctionDef {
    type V = FunctionDefV;

    open spec fn view(&self) -> FunctionDefV {
        view_function_def(*self)
    }
}

impl View for ExternDef {
    type V = ExternDefV;

    open spec fn view(&self) -> ExternDefV {
        view_extern_def(*self)
    }
}

impl View for GlobalConstDef {
    type V = GlobalConstDefV;

    open spec fn view(&self) -> GlobalConstDefV {
        view_global_const(*self)
    }
}

impl View for TopLevelStmt {
    type V = TopLevelStmtV;

    open spec fn view(&self) -> TopLevelStmtV {
        view_top(*self)
    }
}

impl View for Program {
    type V = ProgramV;

    open spec fn view(&self) -> ProgramV {
        ProgramV(view_top_seq(self.0@))
    }
}

// CLONING
//
// The elaborator and the code generator keep types in their symbol tables
// while also writing them into the trees they build, so `Type` (and the few
// nodes holding one) must be duplicated with a known result.

impl Clone for Type {
    fn clone(&self) -> (res: Type)
        ensures
            res == *self,
        decreases self,
    {
        match self {
            Type::Class(name) => Type::Class(name.clone()),
            Type::Array(inner, len) => Type::Array(Box::new((&**inner).clone()), *len),
            Type::Ref(inner) => Type::Ref(Box::new((&**inner).clone())),
            Type::Int => Type::Int,
            Type::Int8 => Type::Int8,
            Type::Int16 => Type::Int16,
            Type::Int32 => Type::Int32,
            Type::Int64 => Type::Int64,
            Type::UInt => Type::UInt,
            Type::UInt8 => Type::UInt8,
            Type::UInt16 => Type::UInt16,
            Type::UInt32 => Type::UInt32,
            Type::UInt64 => Type::UInt64,
            Type::Char => Type::Char,
            Type::Str => Type::Str,
            Type::CStr => Type::CStr,
            Type::Bool => Type::Bool,
            Type::NoneType => Type::NoneType,
        }
    }
}

impl Clone for TypeBinding {
    fn clone(&self) -> (res: TypeBinding)
        ensures
            res == *self,
    {
        TypeBinding { name: self.name.clone(), ty: self.ty.clone() }
    }
}

impl Clone for ClassDef {
    fn clone(&self) -> (res: ClassDef)
        ensures
            res.name == self.name,
            res.fields@ == self.fields@,
            res@ == self@,
    {
        let mut fields: Vec<(String, Type)> = Vec::new();
        let mut i: usize = 0;
        while i < self.fields.len()
            invariant
                i <= self.fields.len(),
                fields@ == self.fields@.subrange(0, i as int),
            decreases self.fields.len() - i,
        {
            let pair = (self.fields[i].0.clone(), self.fields[i].1.clone());
            fields.push(pair);
            proof {
                assert(fields@ =~= self.fields@.subrange(0, i + 1));
            }
            i = i + 1;
        }
        proof {
            assert(fields@ =~= self.fields@);
        }
        ClassDef { name: self.name.clone(), fields }
    }
}

/// Ambient restatement of `view_if`'s definition, so deep proofs need not
/// unfold it.
pub broadcast proof fn lemma_view_if_unfold(i: IfStmt)
    ensures
        #[trigger] view_if(i) == (IfStmtV {
            condition: view_expr(i.condition),
            body: view_block(i.body),
            else_stmt: match i.else_stmt {
                None => None,
                Some(IfOrElse::If(inner)) => Some(IfOrElseV::If(Box::new(view_if(*inner)))),
                Some(IfOrElse::Else(b)) => Some(IfOrElseV::Else(view_block(b))),
            },
        }),
{
}

/// Ambient restatement of `view_block`'s definition.
pub broadcast proof fn lemma_view_block_unfold(b: BlockStmt)
    ensures
        #[trigger] view_block(b) == (BlockStmtV { inners: view_stmt_seq(b.inners@) }),
{
}

/// The view of a binding list has one entry per binding.
pub proof fn lemma_view_binding_seq_len(s: Seq<TypeBinding>)
    ensures
        view_binding_seq(s).len() == s.len(),
    decreases s.len(),
{
    if s.len() > 0 {
        lemma_view_binding_seq_len(s.drop_last());
    }
}

/// The view of an expression list has one entry per expression.
pub proof fn lemma_view_expr_seq_props(s: Seq<Expr>)
    ensures
        view_expr_seq(s).len() == s.len(),
    decreases s.len(),
{
    if s.len() > 0 {
        lemma_view_expr_seq_props(s.drop_last());
    }
}

/// The view of a class-field list has one entry per field, in place.
pub proof fn lemma_view_class_fields_index(s: Seq<(String, Type)>)
    ensures
        view_class_fields(s).len() == s.len(),
        forall|i: int|
            0 <= i < s.len() ==> view_class_fields(s)[i] == (s[i].0@, view_type(s[i].1)),
    decreases s.len(),
{
    if s.len() > 0 {
        lemma_view_class_fields_index(s.drop_last());
        assert forall|i: int|
            0 <= i < s.len() implies view_class_fields(s)[i] == (s[i].0@, view_type(s[i].1)) by {
            if i < s.len() - 1 {
                assert(s.drop_last()[i] == s[i]);
            }
        }
    }
}

/// Structural equality of two types, decided over their mirrors.
pub fn type_eq(a: &Type, b: &Type) -> (r: bool)
    ensures
        r == (a@ == b@),
    decreases a,
{
    match (a, b) {
        (Type::Class(n1), Type::Class(n2)) => n1.eq(n2),
        (Type::Array(t1, l1), Type::Array(t2, l2)) => *l1 == *l2 && type_eq(&**t1, &**t2),
        (Type::Ref(t1), Type::Ref(t2)) => type_eq(&**t1, &**t2),
        (Type::Int, Type::Int) => true,
        (Type::Int8, Type::Int8) => true,
        (Type::Int16, Type::Int16) => true,
        (Type::Int32, Type::Int32) => true,
        (Type::Int64, Type::Int64) => true,
        (Type::UInt, Type::UInt) => true,
        (Type::UInt8, Type::UInt8) => true,
        (Type::UInt16, Type::UInt16) => true,
        (Type::UInt32, Type::UInt32) => true,
        (Type::UInt64, Type::UInt64) => true,
        (Type::Char, Type::Char) => true,
        (Type::Str, Type::Str) => true,
        (Type::CStr, Type::CStr) => true,
        (Type::Bool, Type::Bool) => true,
        (Type::NoneType, Type::NoneType) => true,
        _ => false,
    }
}

} // verus!

//! The intermediate representation the code generator emits.
//!
//! The shape follows LLVM IR at the C-API level: a module holds named
//! structs, NUL-terminated string globals and functions; a function holds
//! basic blocks; a block holds a straight-line run of instructions and at
//! most one terminator.  An instruction result is named by its position
//! (block index, instruction index) inside its function, so every register
//! name is unique by construction.

use vstd::prelude::*;

verus! {

/// An IR value type.  `Struct(i)` refers to the `i`-th registered named
/// struct of the module.
#[derive(Debug, PartialEq)]
pub enum IrType {
    I1,
    I8,
    I16,
    I32,
    I64,
    Void,
    Ptr(Box<IrType>),
    ArrayTy(Box<IrType>, usize),
    Struct(usize),
}

impl Clone for IrType {
    fn clone(&self) -> (res: IrType)
        ensures
            res == *self,
        decreases self,
    {
        match self {
            IrType::I1 => IrType::I1,
            IrType::I8 => IrType::I8,
            IrType::I16 => IrType::I16,
            IrType::I32 => IrType::I32,
            IrType::I64 => IrType::I64,
            IrType::Void => IrType::Void,
            IrType::Ptr(inner) => IrType::Ptr(Box::new((&**inner).clone())),
            IrType::ArrayTy(inner, len) => IrType::ArrayTy(Box::new((&**inner).clone()), *len),
            IrType::Struct(i) => IrType::Struct(*i),
        }
    }
}

/// Signed integer comparison predicates, named as LLVM names them.
#[derive(Debug, Clone, Copy, PartialEq, Eq, Structural)]
pub enum Predicate {
    IntEQ,
    IntNE,
    IntSGT,
    IntSGE,
    IntSLT,
    IntSLE,
}

/// An SSA value.
///
/// `Reg(b, i)` is the result of instruction `i` of block `b` of the
/// enclosing function; `Param(i)` is the `i`-th incoming parameter;
/// `FuncRef(f)` is the `f`-th function of the module; `GlobalRef(g)` is a
/// pointer to the `g`-th string global of the module.
#[derive(Debug, PartialEq)]
pub enum Value {
    /// An integer constant of the given type; the value is kept exactly.
    ConstInt(IrType, i128),
    Reg(usize, usize),
    Param(usize),
    FuncRef(usize),
    GlobalRef(usize),
}

impl Clone for Value {
    fn clone(&self) -> (res: Value)
        ensures
            res == *self,
    {
        match self {
            Value::ConstInt(ty, v) => Value::ConstInt(ty.clone(), *v),
            Value::Reg(b, i) => Value::Reg(*b, *i),
            Value::Param(i) => Value::Param(*i),
            Value::FuncRef(f) => Value::FuncRef(*f),
            Value::GlobalRef(g) => Value::GlobalRef(*g),
        }
    }
}

/// A non-terminator instruction.
#[derive(Debug, PartialEq)]
pub enum Inst {
    /// Reserve a stack slot of the given type; the result is a pointer to it.
    Alloca(IrType),
    /// Load from a pointer.
    Load(Value),
    /// `Store(value, pointer)`: store a value through a pointer.
    Store(Value, Value),
    Add(Value, Value),
    Sub(Value, Value),
    Mul(Value, Value),
    SDiv(Value, Value),
    And(Value, Value),
    Or(Value, Value),
    Neg(Value),
    Not(Value),
    ICmp(Predicate, Value, Value),
    /// Sign-extending cast to the given type.
    SExt(Value, IrType),
    /// `Call(callee, arguments)`.
    Call(Value, Vec<Value>),
    /// `Gep(base, indices)`: address arithmetic into an aggregate.
    Gep(Value, Vec<Value>),
    /// `StructGep(base, field)`: address of one field of a struct.
    StructGep(Value, usize),
}

/// The mirror of `Inst`: argument vectors become sequences.
pub enum InstV {
    Alloca(IrType),
    Load(Value),
    Store(Value, Value),
    Add(Value, Value),
    Sub(Value, Value),
    Mul(Value, Value),
    SDiv(Value, Value),
    And(Value, Value),
    Or(Value, Value),
    Neg(Value),
    Not(Value),
    ICmp(Predicate, Value, Value),
    SExt(Value, IrType),
    Call(Value, Seq<Value>),
    Gep(Value, Seq<Value>),
    StructGep(Value, usize),
}

/// A block terminator.  `Br` and `CondBr` name blocks of the enclosing
/// function by index.
#[derive(Debug, PartialEq)]
pub enum Terminator {
    Ret(Value),
    RetVoid,
    Br(usize),
    CondBr(Value, usize, usize),
}

impl Clone for Terminator {
    fn clone(&self) -> (res: Terminator)
        ensures
            res == *self,
    {
        match self {
            Terminator::Ret(v) => Terminator::Ret(v.clone()),
            Terminator::RetVoid => Terminator::RetVoid,
            Terminator::Br(b) => Terminator::Br(*b),
            Terminator::CondBr(c, t, e) => Terminator::CondBr(c.clone(), *t, *e),
        }
    }
}

/// A basic block: instructions in emission order, and at most one
/// terminator.  Holding the terminator apart from the instruction list is
/// what makes "a block is terminated at most once" true by construction.
#[derive(Debug, PartialEq)]
pub struct BasicBlock {
    pub insts: Vec<Inst>,
    pub term: Option<Terminator>,
}

pub struct BlockV {
    pub insts: Seq<InstV>,
    pub term: Option<Terminator>,
}

/// A function: a declaration when `blocks` is empty (an extern), a
/// definition otherwise.
#[derive(Debug, PartialEq)]
pub struct Function {
    pub name: String,
    pub params: Vec<IrType>,
    pub ret: IrType,
    pub blocks: Vec<BasicBlock>,
}

pub struct FunctionV {
    pub name: Seq<char>,
    pub params: Seq<IrType>,
    pub ret: IrType,
    pub blocks: Seq<BlockV>,
}

/// A registered named struct.
#[derive(Debug, PartialEq)]
pub struct StructDef {
    pub name: String,
    pub fields: Vec<IrType>,
}

pub struct StructDefV {
    pub name: Seq<char>,
    pub fields: Seq<IrType>,
}

/// A whole module under construction.
#[derive(Debug, PartialEq)]
pub struct Module {
    pub target: String,
    pub structs: Vec<StructDef>,
    pub globals: Vec<String>,
    pub funcs: Vec<Function>,
}

pub struct ModuleV {
    pub target: Seq<char>,
    pub structs: Seq<StructDefV>,
    pub globals: Seq<Seq<char>>,
    pub funcs: Seq<FunctionV>,
}

// VIEW FUNCTIONS

pub open spec fn view_inst(i: Inst) -> InstV {
    match i {
        Inst::Alloca(t) => InstV::Alloca(t),
        Inst::Load(p) => InstV::Load(p),
        Inst::Store(v, p) => InstV::Store(v, p),
        Inst::Add(a, b) => InstV::Add(a, b),
        Inst::Sub(a, b) => InstV::Sub(a, b),
        Inst::Mul(a, b) => InstV::Mul(a, b),
        Inst::SDiv(a, b) => InstV::SDiv(a, b),
        Inst::And(a, b) => InstV::And(a, b),
        Inst::Or(a, b) => InstV::Or(a, b),
        Inst::Neg(a) => InstV::Neg(a),
        Inst::Not(a) => InstV::Not(a),
        Inst::ICmp(p, a, b) => InstV::ICmp(p, a, b),
        Inst::SExt(a, t) => InstV::SExt(a, t),
        Inst::Call(f, args) => InstV::Call(f, args@),
        Inst::Gep(b, idxs) => InstV::Gep(b, idxs@),
        Inst::StructGep(b, f) => InstV::StructGep(b, f),
    }
}

pub open spec fn view_inst_seq(is: Seq<Inst>) -> Seq<InstV> {
    Seq::new(is.len(), |i: int| view_inst(is[i]))
}

pub open spec fn view_basic_block(b: BasicBlock) -> BlockV {
    BlockV { insts: view_inst_seq(b.insts@), term: b.term }
}

pub open spec fn view_block_seq(bs: Seq<BasicBlock>) -> Seq<BlockV> {
    Seq::new(bs.len(), |i: int| view_basic_block(bs[i]))
}

pub open spec fn view_function(f: Function) -> FunctionV {
    FunctionV { name: f.name@, params: f.params@, ret: f.ret, blocks: view_block_seq(f.blocks@) }
}

pub open spec fn view_func_seq(fs: Seq<Function>) -> Seq<FunctionV> {
    Seq::new(fs.len(), |i: int| view_function(fs[i]))
}

pub open spec fn view_struct_def(s: StructDef) -> StructDefV {
    StructDefV { name: s.name@, fields: s.fields@ }
}

pub open spec fn view_struct_seq(ss: Seq<StructDef>) -> Seq<StructDefV> {
    Seq::new(ss.len(), |i: int| view_struct_def(ss[i]))
}

pub open spec fn view_string_seq(ss: Seq<String>) -> Seq<Seq<char>> {
    Seq::new(ss.len(), |i: int| ss[i]@)
}

pub open spec fn view_module(m: Module) -> ModuleV {
    ModuleV {
        target: m.target@,
        structs: view_struct_seq(m.structs@),
        globals: view_string_seq(m.globals@),
        funcs: view_func_seq(m.funcs@),
    }
}

// CONGRUENCE LEMMAS
//
// How each sequence view commutes with push and in-place update.

pub proof fn lemma_view_inst_seq_push(s: Seq<Inst>, x: Inst)
    ensures
        view_inst_seq(s.push(x)) == view_inst_seq(s).push(view_inst(x)),
{
    assert(view_inst_seq(s.push(x)) =~= view_inst_seq(s).push(view_inst(x)));
}

pub proof fn lemma_view_block_seq_push(s: Seq<BasicBlock>, x: BasicBlock)
    ensures
        view_block_seq(s.push(x)) == view_block_seq(s).push(view_basic_block(x)),
{
    assert(view_block_seq(s.push(x)) =~= view_block_seq(s).push(view_basic_block(x)));
}

pub proof fn lemma_view_block_seq_update(s: Seq<BasicBlock>, i: int, x: BasicBlock)
    requires
        0 <= i < s.len(),
    ensures
        view_block_seq(s.update(i, x)) == view_block_seq(s).update(i, view_basic_block(x)),
{
    assert(view_block_seq(s.update(i, x)) =~= view_block_seq(s).update(i, view_basic_block(x)));
}

pub proof fn lemma_view_func_seq_push(s: Seq<Function>, x: Function)
    ensures
        view_func_seq(s.push(x)) == view_func_seq(s).push(view_function(x)),
{
    assert(view_func_seq(s.push(x)) =~= view_func_seq(s).push(view_function(x)));
}

pub proof fn lemma_view_func_seq_update(s: Seq<Function>, i: int, x: Function)
    requires
        0 <= i < s.len(),
    ensures
        view_func_seq(s.update(i, x)) == view_func_seq(s).update(i, view_function(x)),
{
    assert(view_func_seq(s.update(i, x)) =~= view_func_seq(s).update(i, view_function(x)));
}

pub proof fn lemma_view_struct_seq_push(s: Seq<StructDef>, x: StructDef)
    ensures
        view_struct_seq(s.push(x)) == view_struct_seq(s).push(view_struct_def(x)),
{
    assert(view_struct_seq(s.push(x)) =~= view_struct_seq(s).push(view_struct_def(x)));
}

pub proof fn lemma_view_string_seq_push(s: Seq<String>, x: String)
    ensures
        view_string_seq(s.push(x)) == view_string_seq(s).push(x@),
{
    assert(view_string_seq(s.push(x)) =~= view_string_seq(s).push(x@));
}

pub proof fn lemma_view_inst_seq_empty()
    ensures
        view_inst_seq(Seq::<Inst>::empty()) == Seq::<InstV>::empty(),
{
    assert(view_inst_seq(Seq::<Inst>::empty()) =~= Seq::<InstV>::empty());
}

pub proof fn lemma_view_block_seq_empty()
    ensures
        view_block_seq(Seq::<BasicBlock>::empty()) == Seq::<BlockV>::empty(),
{
    assert(view_block_seq(Seq::<BasicBlock>::empty()) =~= Seq::<BlockV>::empty());
}

impl View for Inst {
    type V = InstV;

    open spec fn view(&self) -> InstV {
        view_inst(*self)
    }
}

impl View for BasicBlock {
    type V = BlockV;

    open spec fn view(&self) -> BlockV {
        view_basic_block(*self)
    }
}

impl View for Function {
    type V = FunctionV;

    open spec fn view(&self) -> FunctionV {
        view_function(*self)
    }
}

impl View for StructDef {
    type V = StructDefV;

    open spec fn view(&self) -> StructDefV {
        view_struct_def(*self)
    }
}

impl View for Module {
    type V = ModuleV;

    open spec fn view(&self) -> ModuleV {
        view_module(*self)
    }
}

} // verus!

//! The code generator's state: the module under construction, the builder
//! position, the function stack, the class registry and the symbol table.
//!
//! Each primitive below mirrors one step of an IR builder at the C-API
//! level, with two safety refinements over a raw builder: a terminator
//! emitted into an already-terminated block is dropped (the first terminator
//! of a block stands), and popping the last function clears the builder
//! position.  Every primitive's effect is stated exactly, as an equation
//! over the context's view, by the `*_s` specification functions; the
//! lowering code is proved against those equations.

use vstd::prelude::*;

use crate::codegen::error::CodegenError;
use crate::codegen::ir::{
    lemma_view_block_seq_empty, lemma_view_block_seq_push, lemma_view_block_seq_update,
    lemma_view_func_seq_push, lemma_view_func_seq_update, lemma_view_inst_seq_empty,
    lemma_view_inst_seq_push, lemma_view_string_seq_push, lemma_view_struct_seq_push,
    view_basic_block, view_block_seq, view_function, view_inst, view_inst_seq, view_struct_def,
    BasicBlock, BlockV, Function, FunctionV, Inst, InstV,
    IrType, Module, ModuleV, StructDef, StructDefV, Terminator, Value,
};
use crate::codegen::symbol::{ScopedSymbolTable, Symbol};
use crate::type_checker::typed_ast;
use crate::type_checker::typed_ast::{view_class_def, ClassDefV};
use vstd::string::StringExecFns;

verus! {

/// The view of a whole code-generation state.
pub struct CtxV {
    pub symbols: Seq<Map<Seq<char>, Symbol>>,
    pub classes: Seq<(Seq<char>, usize, ClassDefV)>,
    pub func_stack: Seq<usize>,
    pub module: ModuleV,
    pub pos: Option<(usize, usize)>,
}

pub struct CompilerContext {
    pub symbols: ScopedSymbolTable<Symbol>,
    pub classes: Vec<(String, usize, typed_ast::ClassDef)>,
    pub func_stack: Vec<usize>,
    pub module: Module,
    pub pos: Option<(usize, usize)>,
}

pub open spec fn view_class_list(cs: Seq<(String, usize, typed_ast::ClassDef)>) -> Seq<
    (Seq<char>, usize, ClassDefV),
> {
    Seq::new(cs.len(), |i: int| (cs[i].0@, cs[i].1, view_class_def(cs[i].2)))
}

impl View for CompilerContext {
    type V = CtxV;

    open spec fn view(&self) -> CtxV {
        CtxV {
            symbols: self.symbols@,
            classes: view_class_list(self.classes@),
            func_stack: self.func_stack@,
            module: self.module@,
            pos: self.pos,
        }
    }
}

/// The registry lookup: the most recently registered class of a name wins.
pub open spec fn class_lookup(cs: Seq<(Seq<char>, usize, ClassDefV)>, name: Seq<char>) -> Option<
    (usize, ClassDefV),
>
    decreases cs,
{
    if cs.len() == 0 {
        None
    } else if cs.last().0 == name {
        Some((cs.last().1, cs.last().2))
    } else {
        class_lookup(cs.drop_last(), name)
    }
}

/// The builder is positioned at an existing block of the function on top of
/// the non-empty function stack, and the symbol table has a scope open: the
/// state in which statements and expressions are lowered.  In particular,
/// the function stack is non-empty exactly while the builder sits inside a
/// function body.
pub open spec fn ready(c: CtxV) -> bool {
    &&& c.pos matches Some(p) && p.0 < c.module.funcs.len() && p.1
        < c.module.funcs[p.0 as int].blocks.len() && c.func_stack.len() > 0 && c.func_stack.last()
        == p.0
    &&& c.symbols.len() >= 1
}

/// The state between top-level items: no function under construction and no
/// builder position.
pub open spec fn idle(c: CtxV) -> bool {
    &&& c.pos is None
    &&& c.func_stack.len() == 0
    &&& c.symbols.len() >= 1
}

/// The function stack is non-empty exactly when the builder is positioned
/// inside a function body; both lowering states guarantee it.
pub proof fn lemma_pos_stack_agree(c: CtxV)
    requires
        ready(c) || idle(c),
    ensures
        c.func_stack.len() > 0 <==> c.pos is Some,
{
}

// SPECIFICATION TRANSFORMERS

/// The builder position names an existing block.
pub open spec fn pos_ok(c: CtxV) -> bool {
    c.pos matches Some(p) && p.0 < c.module.funcs.len() && p.1 < c.module.funcs[p.0 as int]
        .blocks.len()
}

pub open spec fn add_struct_s(c: CtxV, name: Seq<char>, fields: Seq<IrType>) -> CtxV {
    CtxV {
        module: ModuleV {
            structs: c.module.structs.push(StructDefV { name, fields }),
            ..c.module
        },
        ..c
    }
}

pub open spec fn add_class_s(c: CtxV, name: Seq<char>, id: usize, def: ClassDefV) -> CtxV {
    CtxV { classes: c.classes.push((name, id, def)), ..c }
}

pub open spec fn add_function_s(c: CtxV, name: Seq<char>, params: Seq<IrType>, ret: IrType) -> CtxV {
    CtxV {
        module: ModuleV {
            funcs: c.module.funcs.push(
                FunctionV { name, params, ret, blocks: Seq::empty() },
            ),
            ..c.module
        },
        ..c
    }
}

pub open spec fn append_block_s(c: CtxV, func: usize) -> CtxV {
    if func >= c.module.funcs.len() {
        c
    } else {
        CtxV {
        module: ModuleV {
            funcs: c.module.funcs.update(
                func as int,
                FunctionV {
                    blocks: c.module.funcs[func as int].blocks.push(
                        BlockV { insts: Seq::empty(), term: None },
                    ),
                    ..c.module.funcs[func as int]
                },
            ),
            ..c.module
        },
        ..c
        }
    }
}

pub open spec fn position_s(c: CtxV, func: usize, block: usize) -> CtxV {
    CtxV { pos: Some((func, block)), ..c }
}

pub open spec fn add_func_s(c: CtxV, func: usize) -> CtxV {
    CtxV { func_stack: c.func_stack.push(func), ..c }
}

pub open spec fn pop_func_s(c: CtxV) -> CtxV {
    if c.func_stack.len() == 0 {
        CtxV { pos: None, ..c }
    } else {
        let stack = c.func_stack.drop_last();
        CtxV { func_stack: stack, pos: if stack.len() == 0 { None } else { c.pos }, ..c }
    }
}

pub open spec fn push_scope_s(c: CtxV) -> CtxV {
    CtxV { symbols: c.symbols.push(Map::empty()), ..c }
}

pub open spec fn pop_scope_s(c: CtxV) -> CtxV {
    if c.symbols.len() <= 1 {
        c
    } else {
        CtxV { symbols: c.symbols.drop_last(), ..c }
    }
}

pub open spec fn bind_symbol_s(c: CtxV, name: Seq<char>, sym: Symbol) -> CtxV {
    if c.symbols.len() == 0 {
        c
    } else {
        CtxV {
            symbols: c.symbols.update(c.symbols.len() - 1, c.symbols.last().insert(name, sym)),
            ..c
        }
    }
}

/// The register the next instruction emitted at the current position names.
pub open spec fn emit_val_s(c: CtxV) -> Value {
    let p = c.pos->Some_0;
    Value::Reg(p.1, c.module.funcs[p.0 as int].blocks[p.1 as int].insts.len() as usize)
}

/// Append an instruction to the block the builder is positioned at.
pub open spec fn emit_s(c: CtxV, inst: InstV) -> CtxV {
    if !pos_ok(c) {
        c
    } else {
        let p = c.pos->Some_0;
        let f = c.module.funcs[p.0 as int];
        let b = f.blocks[p.1 as int];
        CtxV {
            module: ModuleV {
                funcs: c.module.funcs.update(
                    p.0 as int,
                    FunctionV {
                        blocks: f.blocks.update(
                            p.1 as int,
                            BlockV { insts: b.insts.push(inst), ..b },
                        ),
                        ..f
                    },
                ),
                ..c.module
            },
            ..c
        }
    }
}

/// Set the terminator of the block the builder is positioned at, unless the
/// block already has one: the first terminator of a block stands.
pub open spec fn terminate_s(c: CtxV, t: Terminator) -> CtxV {
    if !pos_ok(c) {
        c
    } else {
    let p = c.pos->Some_0;
    let f = c.module.funcs[p.0 as int];
    let b = f.blocks[p.1 as int];
    if b.term is Some {
        c
    } else {
        CtxV {
            module: ModuleV {
                funcs: c.module.funcs.update(
                    p.0 as int,
                    FunctionV {
                        blocks: f.blocks.update(p.1 as int, BlockV { term: Some(t), ..b }),
                        ..f
                    },
                ),
                ..c.module
            },
            ..c
        }
    }
    }
}

pub open spec fn add_global_string_s(c: CtxV, s: Seq<char>) -> CtxV {
    CtxV { module: ModuleV { globals: c.module.globals.push(s), ..c.module }, ..c }
}

pub open spec fn global_val_s(c: CtxV) -> Value {
    Value::GlobalRef(c.module.globals.len() as usize)
}

/// The context code generation starts from: empty module with the fixed
/// target triple, one global symbol scope, nothing under construction.
pub open spec fn init_ctx() -> CtxV {
    CtxV {
        symbols: seq![Map::empty()],
        classes: Seq::empty(),
        func_stack: Seq::empty(),
        module: ModuleV {
            target: "x86_64-pc-linux-gnu"@,
            structs: Seq::empty(),
            globals: Seq::empty(),
            funcs: Seq::empty(),
        },
        pos: None,
    }
}

impl CompilerContext {
    pub fn new() -> (res: Self)
        ensures
            res@ == init_ctx(),
            idle(res@),
    {
        let res = Self {
            symbols: ScopedSymbolTable::new(),
            classes: Vec::new(),
            func_stack: Vec::new(),
            module: Module {
                target: String::from_str("x86_64-pc-linux-gnu"),
                structs: Vec::new(),
                globals: Vec::new(),
                funcs: Vec::new(),
            },
            pos: None,
        };
        proof {
            assert(res@.classes =~= init_ctx().classes);
            assert(res@.module.structs =~= init_ctx().module.structs);
            assert(res@.module.globals =~= init_ctx().module.globals);
            assert(res@.module.funcs =~= init_ctx().module.funcs);
            assert(res@.symbols =~= init_ctx().symbols);
            assert(res@.func_stack =~= init_ctx().func_stack);
            assert(res@ == init_ctx());
        }
        res
    }

    /// Hand out the finished module.
    pub fn into_module(self) -> (m: Module)
        ensures
            m@ == self@.module,
    {
        self.module
    }

    /// Register a named struct with its field types; returns its handle.
    pub fn add_struct(&mut self, name: String, fields: Vec<IrType>) -> (id: usize)
        ensures
            final(self)@ == add_struct_s(old(self)@, name@, fields@),
            id == old(self)@.module.structs.len(),
    {
        let id = self.module.structs.len();
        let ghost x = StructDef { name: name, fields: fields };
        self.module.structs.push(StructDef { name, fields });
        proof {
            lemma_view_struct_seq_push(old(self).module.structs@, x);
            assert(view_struct_def(x) == (StructDefV { name: name@, fields: fields@ }));
        }
        id
    }

    /// Record a class definition under its registered struct handle.
    pub fn add_class(&mut self, ty: usize, class: typed_ast::ClassDef) -> (r: Result<
        (),
        CodegenError,
    >)
        ensures
            r is Ok,
            final(self)@ == add_class_s(old(self)@, class.name@, ty, class@),
    {
        let name = class.name.clone();
        self.classes.push((name, ty, class));
        proof {
            assert(view_class_list(self.classes@) =~= old(self)@.classes.push(
                (class.name@, ty, class@),
            ));
        }
        Ok(())
    }

    /// Find the most recent registration of a class name.
    pub fn class(&self, name: &str) -> (r: Option<&(String, usize, typed_ast::ClassDef)>)
        ensures
            match r {
                Some(entry) => class_lookup(self@.classes, name@) == Some(
                    (entry.1, entry.2@),
                ),
                None => class_lookup(self@.classes, name@) is None,
            },
    {
        let key = String::from_str(name);
        let mut i: usize = self.classes.len();
        proof {
            assert(self.classes@.subrange(0, self.classes@.len() as int) =~= self.classes@);
        }
        while i > 0
            invariant
                i <= self.classes@.len(),
                key@ == name@,
                class_lookup(view_class_list(self.classes@), name@) == class_lookup(
                    view_class_list(self.classes@.subrange(0, i as int)),
                    name@,
                ),
            decreases i,
        {
            i = i - 1;
            proof {
                let s = self.classes@;
                let cur_v = view_class_list(s.subrange(0, i + 1));
                let pre_v = view_class_list(s.subrange(0, i as int));
                let elem = (s[i as int].0@, s[i as int].1, view_class_def(s[i as int].2));
                assert(cur_v =~= pre_v.push(elem));
                assert(cur_v.drop_last() =~= pre_v);
                assert(cur_v.last() == elem);
            }
            if self.classes[i].0.eq(&key) {
                return Some(&self.classes[i]);
            }
        }
        proof {
            assert(self.classes@.subrange(0, 0) =~= Seq::<
                (String, usize, typed_ast::ClassDef),
            >::empty());
        }
        None
    }

    /// Add a function (a declaration until blocks are appended); returns its
    /// handle.
    pub fn add_function(&mut self, name: String, params: Vec<IrType>, ret: IrType) -> (id: usize)
        ensures
            final(self)@ == add_function_s(old(self)@, name@, params@, ret),
            id == old(self)@.module.funcs.len(),
    {
        let id = self.module.funcs.len();
        self.module.funcs.push(Function { name, params, ret, blocks: Vec::new() });
        proof {
            let fnew = self.module.funcs@.last();
            lemma_view_func_seq_push(old(self).module.funcs@, fnew);
            lemma_view_block_seq_empty();
            assert(fnew.blocks@ =~= Seq::<BasicBlock>::empty());
            assert(view_function(fnew) == (FunctionV {
                name: name@,
                params: params@,
                ret: ret,
                blocks: Seq::empty(),
            }));
        }
        id
    }

    /// Append a fresh, unterminated basic block to a function; returns its
    /// index.
    pub fn append_block(&mut self, func: usize) -> (b: usize)
        requires
            func < old(self)@.module.funcs.len(),
        ensures
            final(self)@ == append_block_s(old(self)@, func),
            b == old(self)@.module.funcs[func as int].blocks.len(),
    {
        let b = self.module.funcs[func].blocks.len();
        self.module.funcs[func].blocks.push(BasicBlock { insts: Vec::new(), term: None });
        proof {
            let oldf = old(self).module.funcs@[func as int];
            let newf = self.module.funcs@[func as int];
            let newblock = newf.blocks@.last();
            assert(self.module.funcs@ =~= old(self).module.funcs@.update(func as int, newf));
            lemma_view_func_seq_update(old(self).module.funcs@, func as int, newf);
            lemma_view_block_seq_push(oldf.blocks@, newblock);
            lemma_view_inst_seq_empty();
            assert(newblock.insts@ =~= Seq::<Inst>::empty());
            assert(view_basic_block(newblock) == (BlockV { insts: Seq::empty(), term: None }));
            assert(view_function(newf) == (FunctionV {
                blocks: view_block_seq(oldf.blocks@).push(
                    BlockV { insts: Seq::empty(), term: None },
                ),
                ..view_function(oldf)
            }));
        }
        b
    }

    /// Point the builder at the end of a block.
    pub fn position_at_end(&mut self, func: usize, block: usize)
        ensures
            final(self)@ == position_s(old(self)@, func, block),
    {
        self.pos = Some((func, block));
    }

    /// Push a function on the stack of functions under construction.
    pub fn add_func(&mut self, func: usize)
        ensures
            final(self)@ == add_func_s(old(self)@, func),
    {
        self.func_stack.push(func);
    }

    /// Pop the function under construction; when the stack empties, the
    /// builder position is cleared with it.
    pub fn pop_func(&mut self)
        ensures
            final(self)@ == pop_func_s(old(self)@),
    {
        self.func_stack.pop();
        if self.func_stack.is_empty() {
            self.pos = None;
        }
    }

    /// The function currently being built.
    pub fn current_func(&self) -> (f: usize)
        requires
            self@.func_stack.len() > 0,
        ensures
            f == self@.func_stack.last(),
    {
        self.func_stack[self.func_stack.len() - 1]
    }

    /// Append an instruction at the builder position; returns the register
    /// naming its result.
    pub fn emit(&mut self, inst: Inst) -> (v: Value)
        requires
            ready(old(self)@),
        ensures
            final(self)@ == emit_s(old(self)@, inst@),
            v == emit_val_s(old(self)@),
            ready(final(self)@),
    {
        let p = match self.pos {
            Some(p) => p,
            None => {
                proof {
                    assert(false);
                }
                (0, 0)
            },
        };
        let ghost instv = view_inst(inst);
        let idx = self.module.funcs[p.0].blocks[p.1].insts.len();
        self.module.funcs[p.0].blocks[p.1].insts.push(inst);
        proof {
            let oldf = old(self).module.funcs@[p.0 as int];
            let oldb = oldf.blocks@[p.1 as int];
            let newf = self.module.funcs@[p.0 as int];
            let newb = newf.blocks@[p.1 as int];
            assert(newb.insts@ =~= oldb.insts@.push(inst));
            assert(newf.blocks@ =~= oldf.blocks@.update(p.1 as int, newb));
            assert(self.module.funcs@ =~= old(self).module.funcs@.update(p.0 as int, newf));
            lemma_view_func_seq_update(old(self).module.funcs@, p.0 as int, newf);
            lemma_view_block_seq_update(oldf.blocks@, p.1 as int, newb);
            lemma_view_inst_seq_push(oldb.insts@, inst);
            assert(view_basic_block(newb) == (BlockV {
                insts: view_inst_seq(oldb.insts@).push(instv),
                ..view_basic_block(oldb)
            }));
            assert(view_function(newf) == (FunctionV {
                blocks: view_block_seq(oldf.blocks@).update(p.1 as int, view_basic_block(newb)),
                ..view_function(oldf)
            }));
        }
        Value::Reg(p.1, idx)
    }

    /// Terminate the block at the builder position, unless it already has a
    /// terminator.
    pub fn terminate(&mut self, t: Terminator)
        requires
            ready(old(self)@),
        ensures
            final(self)@ == terminate_s(old(self)@, t),
            ready(final(self)@),
    {
        let p = match self.pos {
            Some(p) => p,
            None => {
                proof {
                    assert(false);
                }
                (0, 0)
            },
        };
        if self.module.funcs[p.0].blocks[p.1].term.is_none() {
            self.module.funcs[p.0].blocks[p.1].term = Some(t);
            proof {
                let oldf = old(self).module.funcs@[p.0 as int];
                let oldb = oldf.blocks@[p.1 as int];
                let newf = self.module.funcs@[p.0 as int];
                let newb = newf.blocks@[p.1 as int];
                assert(newb.insts@ =~= oldb.insts@);
                assert(view_inst_seq(newb.insts@) =~= view_inst_seq(oldb.insts@));
                assert(newf.blocks@ =~= oldf.blocks@.update(p.1 as int, newb));
                assert(self.module.funcs@ =~= old(self).module.funcs@.update(p.0 as int, newf));
                lemma_view_func_seq_update(old(self).module.funcs@, p.0 as int, newf);
                lemma_view_block_seq_update(oldf.blocks@, p.1 as int, newb);
                assert(view_basic_block(newb) == (BlockV {
                    term: Some(t),
                    ..view_basic_block(oldb)
                }));
                assert(view_function(newf) == (FunctionV {
                    blocks: view_block_seq(oldf.blocks@).update(
                        p.1 as int,
                        view_basic_block(newb),
                    ),
                    ..view_function(oldf)
                }));
            }
        }
    }

    /// Add a NUL-terminated string global; returns a pointer to it.
    pub fn add_global_string(&mut self, s: String) -> (v: Value)
        ensures
            final(self)@ == add_global_string_s(old(self)@, s@),
            v == global_val_s(old(self)@),
    {
        let g = self.module.globals.len();
        let ghost sv = s@;
        self.module.globals.push(s);
        proof {
            let x = self.module.globals@.last();
            lemma_view_string_seq_push(old(self).module.globals@, x);
        }
        Value::GlobalRef(g)
    }
}

} // verus!

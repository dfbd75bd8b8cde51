//! The scoped symbol table shared by elaboration and code generation.
//!
//! A stack of frames, each mapping names to values of the pass at hand:
//! types during elaboration, IR symbols during code generation.  The stack
//! always holds at least the global frame; `add_symbol` writes to the top
//! frame, overwriting an earlier binding of the same name there (shadowing
//! an outer binding leaves the outer one in place); `get_symbol` returns the
//! innermost match.
//!
//! The view of a table is a sequence of maps from name (`Seq<char>`) to the
//! view of the stored value, global frame first.

use vstd::prelude::*;

use crate::codegen::error::CodegenError;
use crate::codegen::ir::Value;
use vstd::string::StringExecFns;

verus! {

/// What kind of storage a name is bound to during code generation.
#[derive(Debug, Clone, Copy, PartialEq, Eq, Structural)]
pub enum SymbolType {
    Const,
    Var,
    Func,
}

/// A name's binding during code generation: for `Const` and `Var` the value
/// is a pointer to the stack slot, for `Func` it is the function itself.
#[derive(Debug, PartialEq)]
pub struct Symbol {
    pub value: Value,
    pub ty: SymbolType,
}

impl View for Symbol {
    type V = Symbol;

    open spec fn view(&self) -> Symbol {
        *self
    }
}

impl Clone for Symbol {
    fn clone(&self) -> (res: Symbol)
        ensures
            res == *self,
    {
        Symbol { value: self.value.clone(), ty: self.ty }
    }
}

impl Symbol {
    pub fn new(value: Value, ty: SymbolType) -> (res: Self)
        ensures
            res.value == value,
            res.ty == ty,
    {
        Self { value, ty }
    }
}

pub struct ScopedSymbolTable<V> {
    stack: Vec<Vec<(String, V)>>,
}

/// The map a single frame denotes: later entries win.
pub open spec fn frame_view<V: View>(fr: Seq<(String, V)>) -> Map<Seq<char>, V::V>
    decreases fr,
{
    if fr.len() == 0 {
        Map::empty()
    } else {
        frame_view(fr.drop_last()).insert(fr.last().0@, fr.last().1@)
    }
}

pub open spec fn table_view<V: View>(stack: Seq<Vec<(String, V)>>) -> Seq<Map<Seq<char>, V::V>>
    decreases stack,
{
    if stack.len() == 0 {
        Seq::empty()
    } else {
        table_view(stack.drop_last()).push(frame_view(stack.last()@))
    }
}

/// Innermost-first lookup over a stack of frames.
pub open spec fn lookup<VV>(env: Seq<Map<Seq<char>, VV>>, name: Seq<char>) -> Option<VV>
    decreases env,
{
    if env.len() == 0 {
        None
    } else if env.last().contains_key(name) {
        Some(env.last()[name])
    } else {
        lookup(env.drop_last(), name)
    }
}

impl<V: View> View for ScopedSymbolTable<V> {
    type V = Seq<Map<Seq<char>, V::V>>;

    closed spec fn view(&self) -> Seq<Map<Seq<char>, V::V>> {
        table_view(self.stack@)
    }
}

/// The view of a stack of frames has one map per frame, in place.
proof fn lemma_table_view_props<V: View>(s: Seq<Vec<(String, V)>>)
    ensures
        table_view(s).len() == s.len(),
        forall|i: int| 0 <= i < s.len() ==> table_view(s)[i] == frame_view(s[i]@),
    decreases s,
{
    if s.len() > 0 {
        lemma_table_view_props(s.drop_last());
        assert forall|i: int| 0 <= i < s.len() implies table_view(s)[i] == frame_view(s[i]@) by {
            if i < s.len() - 1 {
                assert(s.drop_last()[i] == s[i]);
            }
        }
    }
}

/// A frame none of whose entries carries the name denotes a map without it.
proof fn lemma_frame_absent<V: View>(fr: Seq<(String, V)>, name: Seq<char>)
    requires
        forall|k: int| 0 <= k < fr.len() ==> fr[k].0@ != name,
    ensures
        !frame_view(fr).contains_key(name),
    decreases fr.len(),
{
    if fr.len() > 0 {
        lemma_frame_absent(fr.drop_last(), name);
    }
}

/// An entry whose name no later entry repeats is the one the frame's map
/// holds for that name.
proof fn lemma_frame_found<V: View>(fr: Seq<(String, V)>, name: Seq<char>, j: int)
    requires
        0 <= j < fr.len(),
        fr[j].0@ == name,
        forall|k: int| j < k < fr.len() ==> fr[k].0@ != name,
    ensures
        frame_view(fr).contains_key(name),
        frame_view(fr)[name] == fr[j].1@,
    decreases fr.len(),
{
    if j < fr.len() - 1 {
        lemma_frame_found(fr.drop_last(), name, j);
    }
}

/// Search one frame from its newest entry backwards.
fn find_in_frame<'a, V: View>(frame: &'a Vec<(String, V)>, key: &String) -> (r: Option<&'a V>)
    ensures
        match r {
            Some(v) => frame_view(frame@).contains_key(key@) && frame_view(frame@)[key@] == v@,
            None => !frame_view(frame@).contains_key(key@),
        },
{
    let mut j: usize = frame.len();
    while j > 0
        invariant
            j <= frame@.len(),
            forall|k: int| j <= k < frame@.len() ==> frame@[k].0@ != key@,
        decreases j,
    {
        j = j - 1;
        if frame[j].0.eq(key) {
            proof {
                lemma_frame_found(frame@, key@, j as int);
            }
            return Some(&frame[j].1);
        }
    }
    proof {
        lemma_frame_absent(frame@, key@);
    }
    None
}

impl<V: View> ScopedSymbolTable<V> {
    /// Create a new scoped symbol table with a global scope.
    pub fn new() -> (res: Self)
        ensures
            res@ =~= seq![Map::<Seq<char>, V::V>::empty()],
    {
        let mut stack: Vec<Vec<(String, V)>> = Vec::new();
        let frame: Vec<(String, V)> = Vec::new();
        stack.push(frame);
        proof {
            assert(stack@.drop_last() =~= Seq::<Vec<(String, V)>>::empty());
            assert(stack@.last() == stack@[0]);
            assert(stack@[0]@.len() == 0);
            assert(frame_view(stack@.last()@) == Map::<Seq<char>, V::V>::empty());
            assert(table_view(stack@.drop_last()) == Seq::<Map<Seq<char>, V::V>>::empty());
            assert(table_view(stack@) == Seq::<Map<Seq<char>, V::V>>::empty().push(
                Map::<Seq<char>, V::V>::empty(),
            ));
            assert(table_view(stack@) =~= seq![Map::<Seq<char>, V::V>::empty()]);
        }
        Self { stack }
    }

    /// Get a symbol by name. Returns the match in the most nested scope.
    pub fn get_symbol(&self, name: &str) -> (r: Option<&V>)
        ensures
            match r {
                Some(v) => lookup(self@, name@) == Some(v@),
                None => lookup(self@, name@) is None,
            },
    {
        let key = String::from_str(name);
        proof {
            assert(self.stack@.subrange(0, self.stack@.len() as int) =~= self.stack@);
        }
        let mut i: usize = self.stack.len();
        while i > 0
            invariant
                i <= self.stack@.len(),
                key@ == name@,
                lookup(table_view(self.stack@), name@) == lookup(
                    table_view(self.stack@.subrange(0, i as int)),
                    name@,
                ),
            decreases i,
        {
            i = i - 1;
            let found = find_in_frame(&self.stack[i], &key);
            proof {
                let s = self.stack@;
                let pre = s.subrange(0, i as int);
                let cur = s.subrange(0, i + 1);
                assert(cur.drop_last() =~= pre);
                assert(cur.last() == s[i as int]);
                assert(table_view(cur) == table_view(pre).push(frame_view(s[i as int]@)));
                assert(table_view(cur).last() == frame_view(s[i as int]@));
                assert(table_view(cur).drop_last() =~= table_view(pre));
            }
            match found {
                Some(v) => {
                    return Some(v);
                },
                None => {
                },
            }
        }
        proof {
            assert(self.stack@.subrange(0, 0) =~= Seq::<Vec<(String, V)>>::empty());
        }
        None
    }

    /// Adds a symbol to the innermost scope, overwriting a binding of the
    /// same name in that scope.
    pub fn add_symbol(&mut self, name: String, value: V) -> (r: Result<(), CodegenError>)
        ensures
            old(self)@.len() == 0 ==> r is Err && final(self)@ == old(self)@,
            old(self)@.len() > 0 ==> r is Ok && final(self)@ =~= old(self)@.update(
                old(self)@.len() - 1,
                old(self)@.last().insert(name@, value@),
            ),
    {
        proof {
            lemma_table_view_props(self.stack@);
        }
        match self.stack.pop() {
            None => Err(CodegenError::EmptySymbolTable),
            Some(mut frame) => {
                let ghost old_stack = old(self).stack@;
                frame.push((name, value));
                self.stack.push(frame);
                proof {
                    let news = self.stack@;
                    lemma_table_view_props(news);
                    lemma_table_view_props(old_stack);
                    assert(news.drop_last() =~= old_stack.drop_last());
                    assert(frame@.drop_last() =~= old_stack.last()@);
                    assert(frame_view(frame@) == frame_view(old_stack.last()@).insert(
                        name@,
                        value@,
                    ));
                    assert(table_view(old_stack).last() == frame_view(old_stack.last()@));
                    lemma_table_view_props(news.drop_last());
                    lemma_table_view_props(old_stack.drop_last());
                    assert(table_view(news) =~= table_view(old_stack).update(
                        old_stack.len() - 1,
                        table_view(old_stack).last().insert(name@, value@),
                    ));
                }
                Ok(())
            },
        }
    }

    /// Add an empty scope to the symbol table.
    pub fn push_scope(&mut self)
        ensures
            final(self)@ =~= old(self)@.push(Map::<Seq<char>, V::V>::empty()),
    {
        let frame: Vec<(String, V)> = Vec::new();
        self.stack.push(frame);
        proof {
            assert(self.stack@.drop_last() =~= old(self).stack@);
            assert(self.stack@.last()@.len() == 0);
            lemma_table_view_props(old(self).stack@);
        }
    }

    /// Remove the innermost scope as long as more than the global scope is
    /// left.
    pub fn pop_scope(&mut self) -> (r: Result<(), ()>)
        ensures
            old(self)@.len() <= 1 ==> r is Err && final(self)@ == old(self)@,
            old(self)@.len() > 1 ==> r is Ok && final(self)@ =~= old(self)@.drop_last(),
    {
        proof {
            lemma_table_view_props(self.stack@);
        }
        if self.stack.len() <= 1 {
            return Err(());
        }
        let ghost old_stack = self.stack@;
        self.stack.pop();
        proof {
            assert(self.stack@ =~= old_stack.drop_last());
            lemma_table_view_props(self.stack@);
            lemma_table_view_props(old_stack.drop_last());
            assert(table_view(self.stack@) =~= table_view(old_stack).drop_last());
        }
        Ok(())
    }
}

// LAWS

/// A symbol just added to the top scope is the one lookup finds, and the
/// lookup of every other name is unchanged.
pub proof fn lemma_lookup_after_add<VV>(env: Seq<Map<Seq<char>, VV>>, name: Seq<char>, v: VV)
    requires
        env.len() >= 1,
    ensures
        lookup(env.update(env.len() - 1, env.last().insert(name, v)), name) == Some(v),
        forall|other: Seq<char>|
            other != name ==> lookup(env.update(env.len() - 1, env.last().insert(name, v)), other)
                == lookup(env, other),
{
    let env2 = env.update(env.len() - 1, env.last().insert(name, v));
    assert(env2.last() == env.last().insert(name, v));
    assert(env2.drop_last() =~= env.drop_last());
    assert forall|other: Seq<char>| other != name implies lookup(env2, other) == lookup(
        env,
        other,
    ) by {
        assert(env2.last().contains_key(other) == env.last().contains_key(other));
    }
}

/// Pushing a scope does not change what any name resolves to.
pub proof fn lemma_lookup_after_push<VV>(env: Seq<Map<Seq<char>, VV>>, name: Seq<char>)
    ensures
        lookup(env.push(Map::empty()), name) == lookup(env, name),
{
    assert(!Map::<Seq<char>, VV>::empty().contains_key(name));
    assert(env.push(Map::empty()).drop_last() =~= env);
}

/// Pushing a scope and popping it restores the table exactly.
pub proof fn lemma_push_then_pop<VV>(env: Seq<Map<Seq<char>, VV>>)
    ensures
        env.push(Map::<Seq<char>, VV>::empty()).drop_last() == env,
{
    assert(env.push(Map::<Seq<char>, VV>::empty()).drop_last() =~= env);
}

} // verus!

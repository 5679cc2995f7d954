//! The values, environments and frames of the stack machine.

use crate::hir::{clone_names, Arenas, DecIdx, ExpIdx, Lab, Name, PatIdx, SCon, ValBind};
use crate::list::{clone_list, List};
use crate::statics::info::{Exn, IdStatus};
use std::collections::HashMap;
use vstd::prelude::*;

verus! {

/// One arm of a matcher: a pattern and the expression for what it matches.
#[derive(Debug, Clone, Copy)]
pub struct Arm {
    pub pat: PatIdx,
    pub exp: ExpIdx,
}

/// What a constructed value was constructed with.
#[derive(Debug)]
pub enum ConKind {
    /// A constructor of a datatype.
    Dat(Name),
    /// An exception constructor.
    Exn(Name, Exn),
}

/// A constructor, with its argument if it has one.
#[derive(Debug)]
pub struct Con {
    pub kind: ConKind,
    pub arg: Option<Box<Val>>,
}

/// An exception value.
#[derive(Debug)]
pub struct Exception {
    pub name: Name,
    pub exn: Exn,
    pub arg: Option<Box<Val>>,
}

/// A function value: its matcher, the environment it was made in, and the
/// names under which it refers to itself.
#[derive(Debug)]
pub struct Closure {
    pub env: Env,
    pub this: List<Name>,
    pub matcher: List<Arm>,
}

/// A value.
#[derive(Debug)]
pub enum Val {
    SCon(SCon),
    Con(Con),
    Record(Box<List<(Lab, Val)>>),
    Closure(Box<Closure>),
}

/// The values of names. A name further to the front hides the same name
/// behind it.
pub type ValEnv = List<(Name, Val)>;

/// The environments of structures. A name further to the front hides the
/// same name behind it.
#[derive(Debug)]
pub enum StrEnv {
    Nil,
    Cons(Name, Box<Env>, Box<StrEnv>),
}

/// An environment: the structures and the values in scope.
#[derive(Debug)]
pub struct Env {
    pub str: StrEnv,
    pub val: Box<List<(Name, Val)>>,
}

/// What the machine does with the value that comes back to a frame.
#[derive(Debug)]
pub enum FrameKind {
    /// A record under evaluation: whether it is a tuple, the rows that have
    /// their value, the label whose value is awaited, and the rows to come.
    Record(bool, List<(Lab, Val)>, Lab, List<(Lab, ExpIdx)>),
    /// The function of an application is awaited; this is the argument.
    AppFunc(ExpIdx),
    /// The argument of a closure is awaited.
    AppClosureArg(List<Arm>),
    /// The argument of a constructor is awaited.
    AppConArg(ConKind),
    /// The exception to raise is awaited.
    Raise,
    /// An expression runs under this handler.
    Handle(List<Arm>),
    /// The value of a binding is awaited: whether it is recursive, its
    /// pattern, and the bindings to come.
    ValBind(bool, PatIdx, List<ValBind>),
    /// The declarations of a `let` to come, and its expression.
    Let(List<DecIdx>, ExpIdx),
    /// The local declarations to come, and those after `in`.
    Local(List<DecIdx>, List<DecIdx>),
    /// The declarations to come.
    In(List<DecIdx>),
}

/// A continuation: what to do, and the environment to do it in.
#[derive(Debug)]
pub struct Frame {
    pub env: Env,
    pub kind: FrameKind,
}

/// What the machine works on next.
#[derive(Debug)]
pub enum Step {
    Exp(u32),
    Val(Val),
    Dec(u32),
    Raise(Exception),
    DecDone,
}

/// The state of the machine: the current environment and the stack of
/// frames, the innermost first.
#[derive(Debug)]
pub struct St {
    pub env: Env,
    pub frames: List<Frame>,
}

/// What the machine reads and never changes: the arenas, the status of each
/// path expression and of each constructor pattern, and the exceptions of a
/// failed match and a failed binding.
pub struct Cx<'a> {
    pub ars: &'a Arenas,
    pub exp: &'a HashMap<u32, IdStatus>,
    pub pat: &'a HashMap<u32, IdStatus>,
    pub match_exn: &'a Exception,
    pub bind_exn: &'a Exception,
}

impl Clone for ConKind {
    fn clone(&self) -> (r: Self)
        ensures
            r == *self,
    {
        match self {
            ConKind::Dat(n) => ConKind::Dat(n.clone()),
            ConKind::Exn(n, e) => ConKind::Exn(n.clone(), *e),
        }
    }
}

impl Clone for Val {
    fn clone(&self) -> (r: Self)
        ensures
            r == *self,
        decreases *self,
    {
        match self {
            Val::SCon(c) => Val::SCon(c.clone()),
            Val::Con(c) => Val::Con(Con { kind: c.kind.clone(), arg: clone_arg(&c.arg) }),
            Val::Record(rows) => Val::Record(Box::new(clone_rows(rows))),
            Val::Closure(c) => Val::Closure(
                Box::new(
                    Closure {
                        env: clone_env(&c.env),
                        this: clone_names(&c.this),
                        matcher: clone_list(&c.matcher),
                    },
                ),
            ),
        }
    }
}

/// A copy of the argument of a constructor.
pub fn clone_arg(arg: &Option<Box<Val>>) -> (r: Option<Box<Val>>)
    ensures
        r == *arg,
    decreases *arg,
{
    match arg {
        None => None,
        Some(v) => Some(Box::new((**v).clone())),
    }
}

/// A copy of the rows of a record value.
pub fn clone_rows(rows: &List<(Lab, Val)>) -> (r: List<(Lab, Val)>)
    ensures
        r == *rows,
    decreases *rows,
{
    match rows {
        List::Nil => List::Nil,
        List::Cons(h, t) => List::Cons((h.0.clone(), h.1.clone()), Box::new(clone_rows(t))),
    }
}

/// A copy of the values of names.
pub fn clone_val_env(env: &List<(Name, Val)>) -> (r: List<(Name, Val)>)
    ensures
        r == *env,
    decreases *env,
{
    match env {
        List::Nil => List::Nil,
        List::Cons(h, t) => List::Cons((h.0.clone(), h.1.clone()), Box::new(clone_val_env(t))),
    }
}

/// A copy of the structures in scope.
pub fn clone_str_env(env: &StrEnv) -> (r: StrEnv)
    ensures
        r == *env,
    decreases *env,
{
    match env {
        StrEnv::Nil => StrEnv::Nil,
        StrEnv::Cons(n, e, t) => StrEnv::Cons(
            n.clone(),
            Box::new(clone_env(e)),
            Box::new(clone_str_env(t)),
        ),
    }
}

/// A copy of an environment.
pub fn clone_env(env: &Env) -> (r: Env)
    ensures
        r == *env,
    decreases *env,
{
    Env { str: clone_str_env(&env.str), val: Box::new(clone_val_env(&env.val)) }
}

impl Clone for Exception {
    fn clone(&self) -> (r: Self)
        ensures
            r == *self,
    {
        Exception { name: self.name.clone(), exn: self.exn, arg: clone_arg(&self.arg) }
    }
}

impl Con {
    /// The constructor without an argument.
    pub fn empty(kind: ConKind) -> (r: Con)
        ensures
            r == (Con { kind, arg: None }),
    {
        Con { kind, arg: None }
    }

    /// The exception that this constructor is, if it is one.
    pub open spec fn as_exception(self) -> Option<Exception> {
        match self.kind {
            ConKind::Dat(_) => None,
            ConKind::Exn(name, exn) => Some(Exception { name, exn, arg: self.arg }),
        }
    }

    /// The exception that this constructor is, if it is one.
    pub fn into_exception(self) -> (r: Option<Exception>)
        ensures
            r == self.as_exception(),
    {
        match self.kind {
            ConKind::Dat(_) => None,
            ConKind::Exn(name, exn) => Some(Exception { name, exn, arg: self.arg }),
        }
    }
}

impl Exception {
    /// The exception as a constructed value.
    pub open spec fn as_con(self) -> Con {
        Con { kind: ConKind::Exn(self.name, self.exn), arg: self.arg }
    }

    /// The exception as a constructed value.
    pub fn into_con(self) -> (r: Con)
        ensures
            r == self.as_con(),
    {
        Con { kind: ConKind::Exn(self.name, self.exn), arg: self.arg }
    }
}

/// The value of a name: that of the first entry with the name.
pub open spec fn lookup_val(env: List<(Name, Val)>, name: Seq<char>) -> Option<Val>
    decreases env,
{
    match env {
        List::Nil => None,
        List::Cons(h, t) => if h.0@ == name {
            Some(h.1)
        } else {
            lookup_val(*t, name)
        },
    }
}

/// The environment of a structure: that of the first entry with the name.
pub open spec fn lookup_str(env: StrEnv, name: Seq<char>) -> Option<Env>
    decreases env,
{
    match env {
        StrEnv::Nil => None,
        StrEnv::Cons(n, e, t) => if n@ == name {
            Some(*e)
        } else {
            lookup_str(*t, name)
        },
    }
}

/// The environment that the structures `names` lead to, one inside the
/// other.
pub open spec fn env_at(env: Env, names: List<Name>) -> Option<Env>
    decreases names,
{
    match names {
        List::Nil => Some(env),
        List::Cons(h, t) => match lookup_str(env.str, h@) {
            None => None,
            Some(inner) => env_at(inner, *t),
        },
    }
}

/// Whether one of the rows has the label.
pub open spec fn has_row(rows: List<(Lab, Val)>, lab: Lab) -> bool
    decreases rows,
{
    match rows {
        List::Nil => false,
        List::Cons(h, t) => h.0@ == lab@ || has_row(*t, lab),
    }
}

/// The value of the row with the label, if there is one.
pub open spec fn row_val(rows: List<(Lab, Val)>, lab: Lab) -> Option<Val>
    decreases rows,
{
    match rows {
        List::Nil => None,
        List::Cons(h, t) => if h.0@ == lab@ {
            Some(h.1)
        } else {
            row_val(*t, lab)
        },
    }
}

/// The value of a name.
pub fn get_val<'a>(env: &'a List<(Name, Val)>, name: &Name) -> (r: Option<&'a Val>)
    ensures
        match r {
            Some(v) => lookup_val(*env, name@) == Some(*v),
            None => lookup_val(*env, name@) is None,
        },
    decreases *env,
{
    match env {
        List::Nil => None,
        List::Cons(h, t) => if h.0 == *name {
            Some(&h.1)
        } else {
            get_val(t, name)
        },
    }
}

fn get_str<'a>(env: &'a StrEnv, name: &Name) -> (r: Option<&'a Env>)
    ensures
        match r {
            Some(v) => lookup_str(*env, name@) == Some(*v),
            None => lookup_str(*env, name@) is None,
        },
    decreases *env,
{
    match env {
        StrEnv::Nil => None,
        StrEnv::Cons(n, e, t) => if *n == *name {
            Some(&**e)
        } else {
            get_str(t, name)
        },
    }
}

/// Whether one of the rows has the label.
pub fn rows_have(rows: &List<(Lab, Val)>, lab: &Lab) -> (r: bool)
    ensures
        r == has_row(*rows, *lab),
    decreases *rows,
{
    match rows {
        List::Nil => false,
        List::Cons(h, t) => h.0.same(lab) || rows_have(t, lab),
    }
}

/// The value of the row with the label, if there is one.
pub fn get_row<'a>(rows: &'a List<(Lab, Val)>, lab: &Lab) -> (r: Option<&'a Val>)
    ensures
        match r {
            Some(v) => row_val(*rows, *lab) == Some(*v),
            None => row_val(*rows, *lab) is None,
        },
    decreases *rows,
{
    match rows {
        List::Nil => None,
        List::Cons(h, t) => if h.0.same(lab) {
            Some(&h.1)
        } else {
            get_row(t, lab)
        },
    }
}

impl Env {
    /// The environment without names.
    pub fn new() -> (r: Env)
        ensures
            r == (Env { str: StrEnv::Nil, val: Box::new(List::Nil) }),
    {
        Env { str: StrEnv::Nil, val: Box::new(List::Nil) }
    }

    /// The environment that the structures `names` lead to, one inside the
    /// other.
    pub fn get<'a>(&'a self, names: &List<Name>) -> (r: Option<&'a Env>)
        ensures
            match r {
                Some(e) => env_at(*self, *names) == Some(*e),
                None => env_at(*self, *names) is None,
            },
        decreases *names,
    {
        match names {
            List::Nil => Some(self),
            List::Cons(h, t) => match get_str(&self.str, h) {
                None => None,
                Some(inner) => inner.get(t),
            },
        }
    }
}

impl St {
    /// Puts a frame of the given kind, with a copy of the current
    /// environment, on the stack.
    pub fn push_with_cur_env(&mut self, kind: FrameKind)
        ensures
            *final(self) == (St {
                env: old(self).env,
                frames: List::Cons(
                    Frame { env: old(self).env, kind },
                    Box::new(old(self).frames),
                ),
            }),
    {
        let env = clone_env(&self.env);
        let mut frames = List::Nil;
        std::mem::swap(&mut frames, &mut self.frames);
        self.frames = List::Cons(Frame { env, kind }, Box::new(frames));
    }

    /// Takes the innermost frame off the stack.
    pub fn pop(&mut self) -> (r: Option<Frame>)
        ensures
            match old(self).frames {
                List::Nil => r is None && *final(self) == *old(self),
                List::Cons(f, rest) => r == Some(f) && *final(self) == (St {
                    env: old(self).env,
                    frames: *rest,
                }),
            },
    {
        let mut frames = List::Nil;
        std::mem::swap(&mut frames, &mut self.frames);
        match frames {
            List::Nil => None,
            List::Cons(f, rest) => {
                self.frames = *rest;
                Some(f)
            },
        }
    }
}

} // verus!

//! The environments of the type checker.

use crate::hir::Name;
use crate::list::List;
use crate::statics::info::ValInfo;
use crate::statics::types::{
    apply, ground, lemma_apply_ground, occurs, occurs_in, Entries, MetaTyVar, Subst, Ty, TyScheme,
};
use vstd::prelude::*;

verus! {

/// The values in scope, with their types. A name further to the front hides
/// the same name behind it.
pub type ValEnv = List<(Name, ValInfo)>;

/// The structures in scope. A name further to the front hides the same name
/// behind it.
#[derive(Debug)]
pub enum StrEnv {
    Nil,
    Cons(Name, Box<Env>, Box<StrEnv>),
}

/// The type constructors in scope, each with the type that it makes of its
/// arguments. A name further to the front hides the same name behind it.
pub type TyEnv = List<(Name, TyScheme)>;

/// An environment: the structures, the type constructors and the values in
/// scope.
#[derive(Debug)]
pub struct Env {
    pub str_env: StrEnv,
    pub ty_env: Box<TyEnv>,
    pub val_env: Box<ValEnv>,
}

/// The context of a declaration or an expression: the environment around
/// it.
#[derive(Debug)]
pub struct Cx {
    pub env: Env,
}

/// A copy of the values in scope.
pub fn clone_val_env(env: &ValEnv) -> (r: ValEnv)
    ensures
        r == *env,
    decreases *env,
{
    match env {
        List::Nil => List::Nil,
        List::Cons(h, t) => List::Cons((h.0.clone(), h.1.clone()), Box::new(clone_val_env(t))),
    }
}

/// A copy of the type constructors in scope.
pub fn clone_ty_env(env: &TyEnv) -> (r: TyEnv)
    ensures
        r == *env,
    decreases *env,
{
    match env {
        List::Nil => List::Nil,
        List::Cons(h, t) => List::Cons((h.0.clone(), h.1.clone()), Box::new(clone_ty_env(t))),
    }
}

/// A copy of the structures in scope.
pub fn clone_str_env(env: &StrEnv) -> (r: StrEnv)
    ensures
        r == *env,
    decreases *env,
{
    match env {
        StrEnv::Nil => StrEnv::Nil,
        StrEnv::Cons(n, e, t) => StrEnv::Cons(
            n.clone(),
            Box::new(clone_env(e)),
            Box::new(clone_str_env(t)),
        ),
    }
}

/// A copy of an environment.
pub fn clone_env(env: &Env) -> (r: Env)
    ensures
        r == *env,
    decreases *env,
{
    Env {
        str_env: clone_str_env(&env.str_env),
        ty_env: Box::new(clone_ty_env(&env.ty_env)),
        val_env: Box::new(clone_val_env(&env.val_env)),
    }
}

impl Clone for Cx {
    fn clone(&self) -> (r: Self)
        ensures
            r == *self,
    {
        Cx { env: clone_env(&self.env) }
    }
}

/// The information of a name: that of the first entry with the name.
pub open spec fn lookup_val(env: ValEnv, name: Seq<char>) -> Option<ValInfo>
    decreases env,
{
    match env {
        List::Nil => None,
        List::Cons(h, t) => if h.0@ == name {
            Some(h.1)
        } else {
            lookup_val(*t, name)
        },
    }
}

/// The type that a type constructor makes: that of the first entry with
/// the name.
pub open spec fn lookup_ty(env: TyEnv, name: Seq<char>) -> Option<TyScheme>
    decreases env,
{
    match env {
        List::Nil => None,
        List::Cons(h, t) => if h.0@ == name {
            Some(h.1)
        } else {
            lookup_ty(*t, name)
        },
    }
}

/// The environment of a structure: that of the first entry with the name.
pub open spec fn lookup_str(env: StrEnv, name: Seq<char>) -> Option<Env>
    decreases env,
{
    match env {
        StrEnv::Nil => None,
        StrEnv::Cons(n, e, t) => if n@ == name {
            Some(*e)
        } else {
            lookup_str(*t, name)
        },
    }
}

/// The structures of `front` in front of those of `back`.
pub open spec fn append_str(front: StrEnv, back: StrEnv) -> StrEnv
    decreases front,
{
    match front {
        StrEnv::Nil => back,
        StrEnv::Cons(n, e, t) => StrEnv::Cons(n, e, Box::new(append_str(*t, back))),
    }
}

/// The environment that the structures `names` lead to, one inside the
/// other.
pub open spec fn env_at(env: Env, names: List<Name>) -> Option<Env>
    decreases names,
{
    match names {
        List::Nil => Some(env),
        List::Cons(h, t) => match lookup_str(env.str_env, h@) {
            None => None,
            Some(inner) => env_at(inner, *t),
        },
    }
}

/// The environment with what `other` holds in front.
pub open spec fn extended(env: Env, other: Env) -> Env {
    Env {
        str_env: append_str(other.str_env, env.str_env),
        ty_env: Box::new(other.ty_env.append(*env.ty_env)),
        val_env: Box::new(other.val_env.append(*env.val_env)),
    }
}

/// Whether the meta variable occurs in the type of a value in scope, after
/// the entries were applied.
pub open spec fn in_val_env(s: Entries, env: ValEnv, mv: MetaTyVar) -> bool
    decreases env,
{
    match env {
        List::Nil => false,
        List::Cons(h, t) => occurs(mv, apply(s, h.1.ty_scheme.ty)) || in_val_env(s, *t, mv),
    }
}

/// Whether the meta variable occurs in the type of a value of a structure
/// in scope.
pub open spec fn in_str_env(s: Entries, env: StrEnv, mv: MetaTyVar) -> bool
    decreases env,
{
    match env {
        StrEnv::Nil => false,
        StrEnv::Cons(_, e, t) => in_env(s, *e, mv) || in_str_env(s, *t, mv),
    }
}

/// Whether the meta variable is free in the environment: it occurs in the
/// type of a value in scope, or of a value of a structure in scope.
pub open spec fn in_env(s: Entries, env: Env, mv: MetaTyVar) -> bool
    decreases env,
{
    in_val_env(s, *env.val_env, mv) || in_str_env(s, env.str_env, mv)
}

/// Whether no type of a value in scope holds a meta variable.
pub open spec fn closed_vals(env: ValEnv) -> bool
    decreases env,
{
    match env {
        List::Nil => true,
        List::Cons(h, t) => ground(h.1.ty_scheme.ty) && closed_vals(*t),
    }
}

/// A type without meta variables holds none.
pub proof fn lemma_ground_occurs(mv: MetaTyVar, ty: Ty)
    requires
        ground(ty),
    ensures
        !occurs(mv, ty),
    decreases ty,
{
    match ty {
        Ty::Record(rows) => lemma_ground_occurs_rows(mv, *rows),
        Ty::Con(args, _) => lemma_ground_occurs_tys(mv, *args),
        Ty::Fn(param, res) => {
            lemma_ground_occurs(mv, *param);
            lemma_ground_occurs(mv, *res);
        },
        _ => {},
    }
}

pub proof fn lemma_ground_occurs_tys(mv: MetaTyVar, tys: List<Ty>)
    requires
        crate::statics::types::ground_tys(tys),
    ensures
        !crate::statics::types::occurs_tys(mv, tys),
    decreases tys,
{
    match tys {
        List::Nil => {},
        List::Cons(h, t) => {
            lemma_ground_occurs(mv, h);
            lemma_ground_occurs_tys(mv, *t);
        },
    }
}

pub proof fn lemma_ground_occurs_rows(mv: MetaTyVar, rows: List<(crate::hir::Lab, Ty)>)
    requires
        crate::statics::types::ground_rows(rows),
    ensures
        !crate::statics::types::occurs_rows(mv, rows),
    decreases rows,
{
    match rows {
        List::Nil => {},
        List::Cons(h, t) => {
            lemma_ground_occurs(mv, h.1);
            lemma_ground_occurs_rows(mv, *t);
        },
    }
}

/// Where no type of a value in scope holds a meta variable, no meta
/// variable is free in the values, whatever the entries.
pub proof fn lemma_closed_vals(s: Entries, env: ValEnv, mv: MetaTyVar)
    requires
        closed_vals(env),
    ensures
        !in_val_env(s, env, mv),
    decreases env,
{
    match env {
        List::Nil => {},
        List::Cons(h, t) => {
            lemma_apply_ground(s, h.1.ty_scheme.ty);
            lemma_ground_occurs(mv, h.1.ty_scheme.ty);
            lemma_closed_vals(s, *t, mv);
        },
    }
}

/// The information of a name.
pub fn get_val<'a>(env: &'a ValEnv, name: &Name) -> (r: Option<&'a ValInfo>)
    ensures
        match r {
            Some(v) => lookup_val(*env, name@) == Some(*v),
            None => lookup_val(*env, name@) is None,
        },
    decreases *env,
{
    match env {
        List::Nil => None,
        List::Cons(h, t) => if h.0 == *name {
            Some(&h.1)
        } else {
            get_val(t, name)
        },
    }
}

/// The type that a type constructor makes.
pub fn get_ty<'a>(env: &'a TyEnv, name: &Name) -> (r: Option<&'a TyScheme>)
    ensures
        match r {
            Some(v) => lookup_ty(*env, name@) == Some(*v),
            None => lookup_ty(*env, name@) is None,
        },
    decreases *env,
{
    match env {
        List::Nil => None,
        List::Cons(h, t) => if h.0 == *name {
            Some(&h.1)
        } else {
            get_ty(t, name)
        },
    }
}

fn get_str<'a>(env: &'a StrEnv, name: &Name) -> (r: Option<&'a Env>)
    ensures
        match r {
            Some(v) => lookup_str(*env, name@) == Some(*v),
            None => lookup_str(*env, name@) is None,
        },
    decreases *env,
{
    match env {
        StrEnv::Nil => None,
        StrEnv::Cons(n, e, t) => if *n == *name {
            Some(&**e)
        } else {
            get_str(t, name)
        },
    }
}

fn concat_str(front: StrEnv, back: StrEnv) -> (r: StrEnv)
    ensures
        r == append_str(front, back),
    decreases front,
{
    match front {
        StrEnv::Nil => back,
        StrEnv::Cons(n, e, t) => StrEnv::Cons(n, e, Box::new(concat_str(*t, back))),
    }
}

fn val_env_has(subst: &Subst, env: &ValEnv, mv: MetaTyVar) -> (r: bool)
    ensures
        r == in_val_env(subst@, *env, mv),
    decreases *env,
{
    match env {
        List::Nil => false,
        List::Cons(h, t) => {
            let ty = subst.apply(&h.1.ty_scheme.ty);
            occurs_in(mv, &ty) || val_env_has(subst, t, mv)
        },
    }
}

fn str_env_has(subst: &Subst, env: &StrEnv, mv: MetaTyVar) -> (r: bool)
    ensures
        r == in_str_env(subst@, *env, mv),
    decreases *env,
{
    match env {
        StrEnv::Nil => false,
        StrEnv::Cons(_, e, t) => e.has_free(subst, mv) || str_env_has(subst, t, mv),
    }
}

impl Env {
    /// The environment without names.
    pub fn new() -> (r: Env)
        ensures
            r == (Env {
                str_env: StrEnv::Nil,
                ty_env: Box::new(List::Nil),
                val_env: Box::new(List::Nil),
            }),
    {
        Env { str_env: StrEnv::Nil, ty_env: Box::new(List::Nil), val_env: Box::new(List::Nil) }
    }

    /// The environment that the structures `names` lead to, one inside the
    /// other.
    pub fn get<'a>(&'a self, names: &List<Name>) -> (r: Option<&'a Env>)
        ensures
            match r {
                Some(e) => env_at(*self, *names) == Some(*e),
                None => env_at(*self, *names) is None,
            },
        decreases *names,
    {
        match names {
            List::Nil => Some(self),
            List::Cons(h, t) => match get_str(&self.str_env, h) {
                None => None,
                Some(inner) => inner.get(t),
            },
        }
    }

    /// Puts what `other` holds in front of what this environment holds.
    pub fn extend(&mut self, other: Env)
        ensures
            *final(self) == extended(*old(self), other),
    {
        let mut mine = Env::new();
        std::mem::swap(&mut mine, self);
        let Env { str_env, ty_env, val_env } = mine;
        let Env { str_env: other_str, ty_env: other_ty, val_env: other_val } = other;
        *self = Env {
            str_env: concat_str(other_str, str_env),
            ty_env: Box::new((*other_ty).concat(*ty_env)),
            val_env: Box::new((*other_val).concat(*val_env)),
        };
    }

    /// Whether the meta variable is free in the environment.
    pub fn has_free(&self, subst: &Subst, mv: MetaTyVar) -> (r: bool)
        ensures
            r == in_env(subst@, *self, mv),
        decreases *self,
    {
        val_env_has(subst, &self.val_env, mv) || str_env_has(subst, &self.str_env, mv)
    }
}

} // verus!

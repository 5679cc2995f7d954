//! The types that a program writes.

use crate::hir::{ty_at, Arenas, Idx, Lab, Nodes, Path, Ty as HirTy, TyIdx};
use crate::list::List;
use crate::statics::env::{env_at, get_ty, lookup_ty, Cx, Env};
use crate::statics::error::ErrorKind;
use crate::statics::pat::{add_row, insert_row};
use crate::statics::st::{with_error, St, StView};
use crate::statics::types::{FixedTyVar, Ty, TyScheme};
use vstd::prelude::*;

verus! {

/// The type that a path to a type constructor makes of its arguments: the
/// structures of the path lead to an environment, and the last name is a
/// type constructor there.
pub open spec fn lookup_ty_path(env: Env, path: Path) -> Option<TyScheme> {
    match env_at(env, path.structures) {
        None => None,
        Some(e) => lookup_ty(*e.ty_env, path.last@),
    }
}

/// The item at position `i` of a list of types.
pub open spec fn item(l: List<Ty>, i: nat) -> Option<Ty>
    decreases l,
{
    match l {
        List::Nil => None,
        List::Cons(h, t) => if i == 0 {
            Some(h)
        } else {
            item(*t, (i - 1) as nat)
        },
    }
}

/// Whether two lists are equally long.
pub open spec fn alike<A, B>(a: List<A>, b: List<B>) -> bool
    decreases a,
{
    match a {
        List::Nil => b is Nil,
        List::Cons(_, t) => b matches List::Cons(_, u) && alike(*t, *u),
    }
}

/// The type with the bound variable at each position replaced by the
/// argument at that position. A bound variable without an argument becomes
/// unknown.
pub open spec fn fill(ty: Ty, args: List<Ty>) -> Ty
    decreases ty,
{
    match ty {
        Ty::BoundVar(i) => match item(args, i as nat) {
            Some(t) => t,
            None => Ty::Unknown,
        },
        Ty::Unknown | Ty::MetaVar(_) | Ty::FixedVar(_) => ty,
        Ty::Record(rows) => Ty::Record(Box::new(fill_rows(*rows, args))),
        Ty::Con(tys, sym) => Ty::Con(Box::new(fill_tys(*tys, args)), sym),
        Ty::Fn(param, res) => Ty::Fn(Box::new(fill(*param, args)), Box::new(fill(*res, args))),
    }
}

pub open spec fn fill_tys(tys: List<Ty>, args: List<Ty>) -> List<Ty>
    decreases tys,
{
    match tys {
        List::Nil => List::Nil,
        List::Cons(h, t) => List::Cons(fill(h, args), Box::new(fill_tys(*t, args))),
    }
}

pub open spec fn fill_rows(rows: List<(Lab, Ty)>, args: List<Ty>) -> List<(Lab, Ty)>
    decreases rows,
{
    match rows {
        List::Nil => List::Nil,
        List::Cons(h, t) => List::Cons((h.0, fill(h.1, args)), Box::new(fill_rows(*t, args))),
    }
}

/// The type that a written type stands for in an environment, in at most
/// `fuel` nested steps: the state afterwards, and the type.
///
/// A missing type is unknown. A type variable stands for itself. A record
/// type has the types of its rows, in the order of the labels. A type
/// constructor makes a type of its arguments: a constructor that is not in
/// scope, or that takes another number of arguments, is an error.
pub open spec fn ty_spec(n: Nodes, st: StView, env: Env, ty: TyIdx, fuel: nat) -> (StView, Ty)
    decreases fuel, 0nat,
{
    if fuel == 0 || ty is None || ty->0 >= n.tys.len() {
        (st, Ty::Unknown)
    } else {
        let t = ty->0;
        let f = (fuel - 1) as nat;
        match n.tys[t as int] {
            HirTy::Hole => (st, Ty::Unknown),
            HirTy::Var(tv) => (st, Ty::FixedVar(FixedTyVar { id: 0, ty_var: tv })),
            HirTy::Record(rows) => ty_rows_spec(n, st, env, rows@, 0, List::Nil, t, f),
            HirTy::Con(args, path) => {
                let (st1, tys) = ty_args_spec(n, st, env, args@, 0, f);
                match lookup_ty_path(env, path) {
                    Some(scheme) => if alike(scheme.bound_vars, tys) {
                        (st1, fill(scheme.ty, tys))
                    } else {
                        (with_error(st1, Idx::Ty(t), ErrorKind::Undefined), Ty::Unknown)
                    },
                    None => (with_error(st1, Idx::Ty(t), ErrorKind::Undefined), Ty::Unknown),
                }
            },
            HirTy::Fn(param, res) => {
                let (st1, p) = ty_spec(n, st, env, param, f);
                let (st2, r) = ty_spec(n, st1, env, res, f);
                (st2, Ty::Fn(Box::new(p), Box::new(r)))
            },
        }
    }
}

/// The types that the arguments `args[from..]` stand for, in order.
pub open spec fn ty_args_spec(
    n: Nodes,
    st: StView,
    env: Env,
    args: Seq<TyIdx>,
    from: int,
    fuel: nat,
) -> (StView, List<Ty>)
    decreases fuel, 1 + args.len() - from,
{
    if from < 0 || from >= args.len() {
        (st, List::Nil)
    } else {
        let (st1, ty) = ty_spec(n, st, env, args[from], fuel);
        let (st2, rest) = ty_args_spec(n, st1, env, args, from + 1, fuel);
        (st2, List::Cons(ty, Box::new(rest)))
    }
}

/// The record type of the rows `rows[from..]` of a written record type,
/// with the rows `acc`. A label that comes twice is an error, and its
/// second row is left out.
pub open spec fn ty_rows_spec(
    n: Nodes,
    st: StView,
    env: Env,
    rows: Seq<(Lab, TyIdx)>,
    from: int,
    acc: List<(Lab, Ty)>,
    t: u32,
    fuel: nat,
) -> (StView, Ty)
    decreases fuel, 1 + rows.len() - from,
{
    if from < 0 || from >= rows.len() {
        (st, Ty::Record(Box::new(acc)))
    } else {
        let (st1, ty) = ty_spec(n, st, env, rows[from].1, fuel);
        match insert_row(acc, rows[from].0, ty) {
            None => ty_rows_spec(
                n,
                with_error(st1, Idx::Ty(t), ErrorKind::DuplicateLab(rows[from].0)),
                env,
                rows,
                from + 1,
                acc,
                t,
                fuel,
            ),
            Some(acc2) => ty_rows_spec(n, st1, env, rows, from + 1, acc2, t, fuel),
        }
    }
}

/// The type that a path to a type constructor makes of its arguments.
pub fn get_ty_path<'a>(env: &'a Env, path: &Path) -> (r: Option<&'a TyScheme>)
    ensures
        match r {
            Some(s) => lookup_ty_path(*env, *path) == Some(*s),
            None => lookup_ty_path(*env, *path) is None,
        },
{
    match env.get(path.structures()) {
        None => None,
        Some(e) => get_ty(&e.ty_env, path.last()),
    }
}

fn item_of(l: &List<Ty>, i: u32) -> (r: Option<&Ty>)
    ensures
        match r {
            Some(t) => item(*l, i as nat) == Some(*t),
            None => item(*l, i as nat) is None,
        },
    decreases *l,
{
    match l {
        List::Nil => None,
        List::Cons(h, t) => if i == 0 {
            Some(h)
        } else {
            item_of(t, i - 1)
        },
    }
}

fn is_alike<A, B>(a: &List<A>, b: &List<B>) -> (r: bool)
    ensures
        r == alike(*a, *b),
    decreases *a,
{
    match a {
        List::Nil => b.is_empty(),
        List::Cons(_, t) => match b {
            List::Nil => false,
            List::Cons(_, u) => is_alike(t, u),
        },
    }
}

/// The type with the bound variable at each position replaced by the
/// argument at that position.
pub fn filled(ty: &Ty, args: &List<Ty>) -> (r: Ty)
    ensures
        r == fill(*ty, *args),
    decreases *ty,
{
    match ty {
        Ty::BoundVar(i) => match item_of(args, *i) {
            Some(t) => t.clone(),
            None => Ty::Unknown,
        },
        Ty::Unknown | Ty::MetaVar(_) | Ty::FixedVar(_) => ty.clone(),
        Ty::Record(rows) => Ty::Record(Box::new(filled_rows(rows, args))),
        Ty::Con(tys, sym) => Ty::Con(Box::new(filled_tys(tys, args)), *sym),
        Ty::Fn(param, res) => Ty::Fn(Box::new(filled(param, args)), Box::new(filled(res, args))),
    }
}

fn filled_tys(tys: &List<Ty>, args: &List<Ty>) -> (r: List<Ty>)
    ensures
        r == fill_tys(*tys, *args),
    decreases *tys,
{
    match tys {
        List::Nil => List::Nil,
        List::Cons(h, t) => List::Cons(filled(h, args), Box::new(filled_tys(t, args))),
    }
}

fn filled_rows(rows: &List<(Lab, Ty)>, args: &List<Ty>) -> (r: List<(Lab, Ty)>)
    ensures
        r == fill_rows(*rows, *args),
    decreases *rows,
{
    match rows {
        List::Nil => List::Nil,
        List::Cons(h, t) => List::Cons(
            (h.0.clone(), filled(&h.1, args)),
            Box::new(filled_rows(t, args)),
        ),
    }
}

/// The type that a written type stands for, in at most `fuel` nested
/// steps.
pub fn get(st: &mut St, cx: &Cx, ars: &Arenas, ty: TyIdx, fuel: u64) -> (r: Ty)
    ensures
        (final(st)@, r) == ty_spec(ars.nodes(), old(st)@, cx.env, ty, fuel as nat),
        final(st).subst == old(st).subst,
        final(st).syms == old(st).syms,
    decreases fuel, 0nat,
{
    if fuel == 0 {
        return Ty::Unknown;
    }
    let t = match ty {
        None => {
            return Ty::Unknown;
        },
        Some(t) => t,
    };
    let node = match ty_at(&ars.ty, t) {
        None => {
            return Ty::Unknown;
        },
        Some(node) => node,
    };
    let f = fuel - 1;
    match node {
        HirTy::Hole => Ty::Unknown,
        HirTy::Var(tv) => Ty::FixedVar(FixedTyVar { id: 0, ty_var: tv.clone() }),
        HirTy::Record(rows) => get_rows(st, cx, ars, rows, 0, List::Nil, t, f),
        HirTy::Con(args, path) => {
            let tys = get_args(st, cx, ars, args, 0, f);
            match get_ty_path(&cx.env, path) {
                Some(scheme) => if is_alike(&scheme.bound_vars, &tys) {
                    filled(&scheme.ty, &tys)
                } else {
                    st.err(Idx::Ty(t), ErrorKind::Undefined);
                    Ty::Unknown
                },
                None => {
                    st.err(Idx::Ty(t), ErrorKind::Undefined);
                    Ty::Unknown
                },
            }
        },
        HirTy::Fn(param, res) => {
            let p = get(st, cx, ars, *param, f);
            let r = get(st, cx, ars, *res, f);
            Ty::Fn(Box::new(p), Box::new(r))
        },
    }
}

fn get_args(st: &mut St, cx: &Cx, ars: &Arenas, args: &Vec<TyIdx>, from: usize, fuel: u64) -> (r:
    List<Ty>)
    ensures
        (final(st)@, r) == ty_args_spec(
            ars.nodes(),
            old(st)@,
            cx.env,
            args@,
            from as int,
            fuel as nat,
        ),
        final(st).subst == old(st).subst,
        final(st).syms == old(st).syms,
    decreases fuel, 1 + args.len() - from,
{
    if from >= args.len() {
        return List::Nil;
    }
    let ty = get(st, cx, ars, args[from], fuel);
    let rest = get_args(st, cx, ars, args, from + 1, fuel);
    List::Cons(ty, Box::new(rest))
}

fn get_rows(
    st: &mut St,
    cx: &Cx,
    ars: &Arenas,
    rows: &Vec<(Lab, TyIdx)>,
    from: usize,
    acc: List<(Lab, Ty)>,
    t: u32,
    fuel: u64,
) -> (r: Ty)
    ensures
        (final(st)@, r) == ty_rows_spec(
            ars.nodes(),
            old(st)@,
            cx.env,
            rows@,
            from as int,
            acc,
            t,
            fuel as nat,
        ),
        final(st).subst == old(st).subst,
        final(st).syms == old(st).syms,
    decreases fuel, 1 + rows.len() - from,
{
    if from >= rows.len() {
        return Ty::Record(Box::new(acc));
    }
    let ty = get(st, cx, ars, rows[from].1, fuel);
    match add_row(acc, &rows[from].0, ty) {
        Err((acc, _)) => {
            st.err(Idx::Ty(t), ErrorKind::DuplicateLab(rows[from].0.clone()));
            get_rows(st, cx, ars, rows, from + 1, acc, t, fuel)
        },
        Ok(acc2) => get_rows(st, cx, ars, rows, from + 1, acc2, t, fuel),
    }
}

} // verus!

//! Instantiating and generalising type schemes.

use crate::hir::{second_byte_is_tick, Lab};
use crate::list::List;
use crate::statics::env::{in_env, Env, StrEnv, ValEnv};
use crate::statics::st::{bump_meta, with_subst, St, StView};
use crate::statics::types::{
    apply, is_solved, lookup, occurs, occurs_rows, occurs_tys, replace, replace_in, set_entry,
    Entries, FixedTyVar, MetaTyVar, Subst, SubstEntry, Ty, TyScheme, TyVarKind,
};
use crate::statics::unify::kind_of;
use vstd::prelude::*;

verus! {

/// The type with the bound variable at position `i` replaced by the meta
/// variable `base + i`, for every `i` below `n`. A bound variable that the
/// scheme does not bind becomes unknown.
pub open spec fn inst_ty(ty: Ty, base: u32, n: nat) -> Ty
    decreases ty,
{
    match ty {
        Ty::BoundVar(i) => if i < n && base + i <= u32::MAX {
            Ty::MetaVar(MetaTyVar { id: (base + i) as u32 })
        } else {
            Ty::Unknown
        },
        Ty::Unknown | Ty::MetaVar(_) | Ty::FixedVar(_) => ty,
        Ty::Record(rows) => Ty::Record(Box::new(inst_rows(*rows, base, n))),
        Ty::Con(args, sym) => Ty::Con(Box::new(inst_tys(*args, base, n)), sym),
        Ty::Fn(param, res) => Ty::Fn(
            Box::new(inst_ty(*param, base, n)),
            Box::new(inst_ty(*res, base, n)),
        ),
    }
}

pub open spec fn inst_tys(tys: List<Ty>, base: u32, n: nat) -> List<Ty>
    decreases tys,
{
    match tys {
        List::Nil => List::Nil,
        List::Cons(h, t) => List::Cons(inst_ty(h, base, n), Box::new(inst_tys(*t, base, n))),
    }
}

pub open spec fn inst_rows(rows: List<(Lab, Ty)>, base: u32, n: nat) -> List<(Lab, Ty)>
    decreases rows,
{
    match rows {
        List::Nil => List::Nil,
        List::Cons(h, t) => List::Cons(
            (h.0, inst_ty(h.1, base, n)),
            Box::new(inst_rows(*t, base, n)),
        ),
    }
}

/// The state after a meta variable was made for each of the kinds, the
/// first one being `st.next_meta`: each variable gets its kind, unless the
/// kind says nothing or the variable has a solution.
pub open spec fn fresh_kinds(st: StView, kinds: List<TyVarKind>) -> StView
    decreases kinds,
{
    match kinds {
        List::Nil => st,
        List::Cons(k, rest) => {
            let mv = MetaTyVar { id: st.next_meta };
            let next = bump_meta(st);
            let st2 = if k == TyVarKind::Regular || is_solved(st.subst, mv) {
                next
            } else {
                with_subst(next, set_entry(st.subst, mv, Some(SubstEntry::Kind(k))))
            };
            fresh_kinds(st2, *rest)
        },
    }
}

/// The instance of a type scheme: the state afterwards, and the type with a
/// fresh meta variable of the right kind for each bound variable. When the
/// numbers of meta variables run out, nothing changes and the type is
/// unknown.
pub open spec fn instantiate_spec(st: StView, scheme: TyScheme) -> (StView, Ty) {
    if scheme.bound_vars.len() > u32::MAX - st.next_meta {
        (st, Ty::Unknown)
    } else {
        (
            fresh_kinds(st, scheme.bound_vars),
            inst_ty(scheme.ty, st.next_meta, scheme.bound_vars.len()),
        )
    }
}

fn list_len<T>(l: &List<T>) -> (r: u64)
    ensures
        r == l.len() || (r == u64::MAX && l.len() >= u64::MAX),
    decreases *l,
{
    match l {
        List::Nil => 0,
        List::Cons(_, t) => {
            let n = list_len(t);
            if n < u64::MAX {
                n + 1
            } else {
                n
            }
        },
    }
}

fn inst(ty: &Ty, base: u32, n: u64) -> (r: Ty)
    ensures
        r == inst_ty(*ty, base, n as nat),
    decreases *ty,
{
    match ty {
        Ty::BoundVar(i) => if (*i as u64) < n && *i <= u32::MAX - base {
            Ty::MetaVar(MetaTyVar { id: base + *i })
        } else {
            Ty::Unknown
        },
        Ty::Unknown => Ty::Unknown,
        Ty::MetaVar(mv) => Ty::MetaVar(*mv),
        Ty::FixedVar(fv) => Ty::FixedVar(fv.clone()),
        Ty::Record(rows) => Ty::Record(Box::new(inst_rows_exec(rows, base, n))),
        Ty::Con(args, sym) => Ty::Con(Box::new(inst_tys_exec(args, base, n)), *sym),
        Ty::Fn(param, res) => Ty::Fn(Box::new(inst(param, base, n)), Box::new(inst(res, base, n))),
    }
}

fn inst_tys_exec(tys: &List<Ty>, base: u32, n: u64) -> (r: List<Ty>)
    ensures
        r == inst_tys(*tys, base, n as nat),
    decreases *tys,
{
    match tys {
        List::Nil => List::Nil,
        List::Cons(h, t) => List::Cons(inst(h, base, n), Box::new(inst_tys_exec(t, base, n))),
    }
}

fn inst_rows_exec(rows: &List<(Lab, Ty)>, base: u32, n: u64) -> (r: List<(Lab, Ty)>)
    ensures
        r == inst_rows(*rows, base, n as nat),
    decreases *rows,
{
    match rows {
        List::Nil => List::Nil,
        List::Cons(h, t) => List::Cons(
            (h.0.clone(), inst(&h.1, base, n)),
            Box::new(inst_rows_exec(t, base, n)),
        ),
    }
}

fn make_fresh(st: &mut St, kinds: &List<TyVarKind>)
    requires
        old(st).subst.wf(),
    ensures
        final(st)@ == fresh_kinds(old(st)@, *kinds),
        final(st).subst.wf(),
        final(st).syms == old(st).syms,
    decreases *kinds,
{
    match kinds {
        List::Nil => {},
        List::Cons(k, rest) => {
            let mv = st.gen_meta_var();
            let regular = match k {
                TyVarKind::Regular => true,
                _ => false,
            };
            let solved = match st.subst.get(mv) {
                Some(SubstEntry::Solved(_)) => true,
                _ => false,
            };
            if !regular && !solved {
                st.subst.set_kind(mv, *k);
            }
            make_fresh(st, rest);
        },
    }
}

/// The instance of a type scheme: a fresh meta variable of the right kind
/// takes the place of each bound variable.
pub fn instantiate(st: &mut St, scheme: &TyScheme) -> (r: Ty)
    requires
        old(st).subst.wf(),
    ensures
        (final(st)@, r) == instantiate_spec(old(st)@, *scheme),
        final(st).subst.wf(),
        final(st).syms == old(st).syms,
{
    let n = list_len(&scheme.bound_vars);
    if n > (u32::MAX - st.next_meta) as u64 {
        return Ty::Unknown;
    }
    let base = st.next_meta;
    make_fresh(st, &scheme.bound_vars);
    inst(&scheme.ty, base, n)
}

/// Whether the list holds the meta variable.
pub open spec fn has_meta(l: List<MetaTyVar>, mv: MetaTyVar) -> bool
    decreases l,
{
    match l {
        List::Nil => false,
        List::Cons(h, t) => h == mv || has_meta(*t, mv),
    }
}

/// The meta variables of the type that are not free in the environment, in
/// the order in which they first occur, behind those of `acc`. That order
/// is the order of the bound variables of a scheme: the first variable of
/// a type, read from the left, is the first bound variable, whatever its
/// number is.
pub open spec fn collect(s: Entries, env: Env, ty: Ty, acc: List<MetaTyVar>) -> List<MetaTyVar>
    decreases ty,
{
    match ty {
        Ty::MetaVar(mv) => if has_meta(acc, mv) || in_env(s, env, mv) {
            acc
        } else {
            acc.append(List::Cons(mv, Box::new(List::Nil)))
        },
        Ty::Unknown | Ty::BoundVar(_) | Ty::FixedVar(_) => acc,
        Ty::Record(rows) => collect_rows(s, env, *rows, acc),
        Ty::Con(args, _) => collect_tys(s, env, *args, acc),
        Ty::Fn(param, res) => collect(s, env, *res, collect(s, env, *param, acc)),
    }
}

pub open spec fn collect_tys(s: Entries, env: Env, tys: List<Ty>, acc: List<MetaTyVar>) -> List<
    MetaTyVar,
>
    decreases tys,
{
    match tys {
        List::Nil => acc,
        List::Cons(h, t) => collect_tys(s, env, *t, collect(s, env, h, acc)),
    }
}

pub open spec fn collect_rows(
    s: Entries,
    env: Env,
    rows: List<(Lab, Ty)>,
    acc: List<MetaTyVar>,
) -> List<MetaTyVar>
    decreases rows,
{
    match rows {
        List::Nil => acc,
        List::Cons(h, t) => collect_rows(s, env, *t, collect(s, env, h.1, acc)),
    }
}

/// The kinds of the meta variables, in order.
pub open spec fn kinds_of(s: Entries, metas: List<MetaTyVar>) -> List<TyVarKind>
    decreases metas,
{
    match metas {
        List::Nil => List::Nil,
        List::Cons(h, t) => List::Cons(kind_of(s, h), Box::new(kinds_of(s, *t))),
    }
}

/// The type with each of the meta variables replaced by a bound variable:
/// the first by the one at position `from`, the next by the one behind it,
/// and so on.
pub open spec fn bind_metas(ty: Ty, metas: List<MetaTyVar>, from: nat) -> Ty
    decreases metas,
{
    match metas {
        List::Nil => ty,
        List::Cons(h, t) => bind_metas(
            replace(ty, h, Ty::BoundVar(if from <= u32::MAX {
                from as u32
            } else {
                u32::MAX
            })),
            *t,
            from + 1,
        ),
    }
}

/// The meta variables that generalising a type binds: those that occur in
/// the type, after the entries were applied, and are not free in the
/// environment.
pub open spec fn generalized(s: Entries, env: Env, ty: Ty) -> List<MetaTyVar> {
    collect(s, env, apply(s, ty), List::Nil)
}

/// Whether the type variable occurs in the type.
pub open spec fn has_fixed(ty: Ty, fv: FixedTyVar) -> bool
    decreases ty,
{
    match ty {
        Ty::FixedVar(v) => v.same(fv),
        Ty::Unknown | Ty::BoundVar(_) | Ty::MetaVar(_) => false,
        Ty::Record(rows) => has_fixed_rows(*rows, fv),
        Ty::Con(args, _) => has_fixed_tys(*args, fv),
        Ty::Fn(param, res) => has_fixed(*param, fv) || has_fixed(*res, fv),
    }
}

pub open spec fn has_fixed_tys(tys: List<Ty>, fv: FixedTyVar) -> bool
    decreases tys,
{
    match tys {
        List::Nil => false,
        List::Cons(h, t) => has_fixed(h, fv) || has_fixed_tys(*t, fv),
    }
}

pub open spec fn has_fixed_rows(rows: List<(Lab, Ty)>, fv: FixedTyVar) -> bool
    decreases rows,
{
    match rows {
        List::Nil => false,
        List::Cons(h, t) => has_fixed(h.1, fv) || has_fixed_rows(*t, fv),
    }
}

/// Whether the type variable occurs in the type of a value in scope, after
/// the entries were applied.
pub open spec fn fixed_in_val_env(s: Entries, env: ValEnv, fv: FixedTyVar) -> bool
    decreases env,
{
    match env {
        List::Nil => false,
        List::Cons(h, t) => has_fixed(apply(s, h.1.ty_scheme.ty), fv) || fixed_in_val_env(
            s,
            *t,
            fv,
        ),
    }
}

/// Whether the type variable occurs in the type of a value of a structure
/// in scope.
pub open spec fn fixed_in_str_env(s: Entries, env: StrEnv, fv: FixedTyVar) -> bool
    decreases env,
{
    match env {
        StrEnv::Nil => false,
        StrEnv::Cons(_, e, t) => fixed_in_env(s, *e, fv) || fixed_in_str_env(s, *t, fv),
    }
}

/// Whether the type variable is free in the environment.
pub open spec fn fixed_in_env(s: Entries, env: Env, fv: FixedTyVar) -> bool
    decreases env,
{
    fixed_in_val_env(s, *env.val_env, fv) || fixed_in_str_env(s, env.str_env, fv)
}

/// Whether the list holds the type variable.
pub open spec fn holds_fixed(l: List<FixedTyVar>, fv: FixedTyVar) -> bool
    decreases l,
{
    match l {
        List::Nil => false,
        List::Cons(h, t) => h.same(fv) || holds_fixed(*t, fv),
    }
}

/// The type variables of the type that are not free in the environment, in
/// the order in which they first occur, behind those of `acc`.
pub open spec fn collect_fixed(s: Entries, env: Env, ty: Ty, acc: List<FixedTyVar>) -> List<
    FixedTyVar,
>
    decreases ty,
{
    match ty {
        Ty::FixedVar(fv) => if holds_fixed(acc, fv) || fixed_in_env(s, env, fv) {
            acc
        } else {
            acc.append(List::Cons(fv, Box::new(List::Nil)))
        },
        Ty::Unknown | Ty::BoundVar(_) | Ty::MetaVar(_) => acc,
        Ty::Record(rows) => collect_fixed_rows(s, env, *rows, acc),
        Ty::Con(args, _) => collect_fixed_tys(s, env, *args, acc),
        Ty::Fn(param, res) => collect_fixed(s, env, *res, collect_fixed(s, env, *param, acc)),
    }
}

pub open spec fn collect_fixed_tys(
    s: Entries,
    env: Env,
    tys: List<Ty>,
    acc: List<FixedTyVar>,
) -> List<FixedTyVar>
    decreases tys,
{
    match tys {
        List::Nil => acc,
        List::Cons(h, t) => collect_fixed_tys(s, env, *t, collect_fixed(s, env, h, acc)),
    }
}

pub open spec fn collect_fixed_rows(
    s: Entries,
    env: Env,
    rows: List<(Lab, Ty)>,
    acc: List<FixedTyVar>,
) -> List<FixedTyVar>
    decreases rows,
{
    match rows {
        List::Nil => acc,
        List::Cons(h, t) => collect_fixed_rows(s, env, *t, collect_fixed(s, env, h.1, acc)),
    }
}

/// The kinds of the type variables, in order: a variable that starts with
/// two `'` ranges over the equality types.
pub open spec fn fixed_kinds(l: List<FixedTyVar>) -> List<TyVarKind>
    decreases l,
{
    match l {
        List::Nil => List::Nil,
        List::Cons(h, t) => List::Cons(
            if second_byte_is_tick(h.ty_var@) {
                TyVarKind::Equality
            } else {
                TyVarKind::Regular
            },
            Box::new(fixed_kinds(*t)),
        ),
    }
}

/// The type with the type variable replaced by the bound variable at
/// position `i`.
pub open spec fn replace_fixed(ty: Ty, fv: FixedTyVar, i: u32) -> Ty
    decreases ty,
{
    match ty {
        Ty::FixedVar(v) => if v.same(fv) {
            Ty::BoundVar(i)
        } else {
            ty
        },
        Ty::Unknown | Ty::BoundVar(_) | Ty::MetaVar(_) => ty,
        Ty::Record(rows) => Ty::Record(Box::new(replace_fixed_rows(*rows, fv, i))),
        Ty::Con(args, sym) => Ty::Con(Box::new(replace_fixed_tys(*args, fv, i)), sym),
        Ty::Fn(param, res) => Ty::Fn(
            Box::new(replace_fixed(*param, fv, i)),
            Box::new(replace_fixed(*res, fv, i)),
        ),
    }
}

pub open spec fn replace_fixed_tys(tys: List<Ty>, fv: FixedTyVar, i: u32) -> List<Ty>
    decreases tys,
{
    match tys {
        List::Nil => List::Nil,
        List::Cons(h, t) => List::Cons(
            replace_fixed(h, fv, i),
            Box::new(replace_fixed_tys(*t, fv, i)),
        ),
    }
}

pub open spec fn replace_fixed_rows(rows: List<(Lab, Ty)>, fv: FixedTyVar, i: u32) -> List<
    (Lab, Ty),
>
    decreases rows,
{
    match rows {
        List::Nil => List::Nil,
        List::Cons(h, t) => List::Cons(
            (h.0, replace_fixed(h.1, fv, i)),
            Box::new(replace_fixed_rows(*t, fv, i)),
        ),
    }
}

/// The position behind `i`, as long as there is one.
pub open spec fn next_pos(i: u32) -> u32 {
    if i < u32::MAX {
        (i + 1) as u32
    } else {
        i
    }
}

/// The type with each of the type variables replaced by a bound variable:
/// the first by the one at position `from`, the next by the one behind it,
/// and so on.
pub open spec fn bind_fixed(ty: Ty, fixed: List<FixedTyVar>, from: u32) -> Ty
    decreases fixed,
{
    match fixed {
        List::Nil => ty,
        List::Cons(h, t) => bind_fixed(replace_fixed(ty, h, from), *t, next_pos(from)),
    }
}

/// The position behind the last of `n` positions.
pub open spec fn pos_behind(n: nat) -> u32 {
    if n <= u32::MAX {
        n as u32
    } else {
        u32::MAX
    }
}

/// The type scheme of a type in an environment: the meta variables that are
/// not free in the environment become bound variables, each with the kind
/// it had, and behind them the type variables that are not free in the
/// environment.
pub open spec fn generalize_spec(s: Entries, env: Env, ty: Ty) -> TyScheme {
    let metas = generalized(s, env, ty);
    let bound = bind_metas(apply(s, ty), metas, 0);
    let fixed = collect_fixed(s, env, bound, List::Nil);
    TyScheme {
        bound_vars: kinds_of(s, metas).append(fixed_kinds(fixed)),
        ty: bind_fixed(bound, fixed, pos_behind(metas.len())),
    }
}

fn metas_have(l: &List<MetaTyVar>, mv: MetaTyVar) -> (r: bool)
    ensures
        r == has_meta(*l, mv),
    decreases *l,
{
    match l {
        List::Nil => false,
        List::Cons(h, t) => *h == mv || metas_have(t, mv),
    }
}

/// calls for every meta variable of `ty` that is not free in `env`.
pub fn meta_vars(subst: &Subst, env: &Env, ty: &Ty, acc: List<MetaTyVar>) -> (r: List<MetaTyVar>)
    ensures
        r == collect(subst@, *env, *ty, acc),
    decreases *ty,
{
    match ty {
        Ty::MetaVar(mv) => if metas_have(&acc, *mv) || env.has_free(subst, *mv) {
            acc
        } else {
            acc.concat(List::Cons(*mv, Box::new(List::Nil)))
        },
        Ty::Unknown | Ty::BoundVar(_) | Ty::FixedVar(_) => acc,
        Ty::Record(rows) => meta_vars_rows(subst, env, rows, acc),
        Ty::Con(args, _) => meta_vars_tys(subst, env, args, acc),
        Ty::Fn(param, res) => {
            let acc2 = meta_vars(subst, env, param, acc);
            meta_vars(subst, env, res, acc2)
        },
    }
}

fn meta_vars_tys(subst: &Subst, env: &Env, tys: &List<Ty>, acc: List<MetaTyVar>) -> (r: List<
    MetaTyVar,
>)
    ensures
        r == collect_tys(subst@, *env, *tys, acc),
    decreases *tys,
{
    match tys {
        List::Nil => acc,
        List::Cons(h, t) => {
            let acc2 = meta_vars(subst, env, h, acc);
            meta_vars_tys(subst, env, t, acc2)
        },
    }
}

fn meta_vars_rows(subst: &Subst, env: &Env, rows: &List<(Lab, Ty)>, acc: List<MetaTyVar>) -> (r:
    List<MetaTyVar>)
    ensures
        r == collect_rows(subst@, *env, *rows, acc),
    decreases *rows,
{
    match rows {
        List::Nil => acc,
        List::Cons(h, t) => {
            let acc2 = meta_vars(subst, env, &h.1, acc);
            meta_vars_rows(subst, env, t, acc2)
        },
    }
}

fn get_kind(subst: &Subst, mv: MetaTyVar) -> (r: TyVarKind)
    ensures
        r == kind_of(subst@, mv),
{
    match subst.get(mv) {
        Some(SubstEntry::Kind(k)) => *k,
        _ => TyVarKind::Regular,
    }
}

fn kinds(subst: &Subst, metas: &List<MetaTyVar>) -> (r: List<TyVarKind>)
    ensures
        r == kinds_of(subst@, *metas),
    decreases *metas,
{
    match metas {
        List::Nil => List::Nil,
        List::Cons(h, t) => List::Cons(get_kind(subst, *h), Box::new(kinds(subst, t))),
    }
}

fn bind_all(ty: Ty, metas: &List<MetaTyVar>, from: u32) -> (r: Ty)
    ensures
        r == bind_metas(ty, *metas, from as nat),
    decreases *metas,
{
    match metas {
        List::Nil => ty,
        List::Cons(h, t) => {
            let by = Ty::BoundVar(from);
            let next = replace_in(&ty, *h, &by);
            if from < u32::MAX {
                bind_all(next, t, from + 1)
            } else {
                proof {
                    lemma_bind_saturates(next, **t, from as nat);
                }
                bind_all(next, t, from)
            }
        },
    }
}

/// Beyond the last position, every meta variable becomes the bound variable
/// at the last position, whatever the position counted from.
proof fn lemma_bind_saturates(ty: Ty, metas: List<MetaTyVar>, from: nat)
    requires
        from >= u32::MAX,
    ensures
        bind_metas(ty, metas, from) == bind_metas(ty, metas, from + 1),
    decreases metas,
{
    match metas {
        List::Nil => {},
        List::Cons(h, t) => {
            let next = replace(ty, h, Ty::BoundVar(u32::MAX));
            lemma_bind_saturates(next, *t, from + 1);
            lemma_bind_saturates(next, *t, from + 2);
            assert(bind_metas(ty, metas, from) == bind_metas(next, *t, from + 1));
            assert(bind_metas(ty, metas, from + 1) == bind_metas(next, *t, from + 2));
        },
    }
}

fn ty_has_fixed(ty: &Ty, fv: &FixedTyVar) -> (r: bool)
    ensures
        r == has_fixed(*ty, *fv),
    decreases *ty,
{
    match ty {
        Ty::FixedVar(v) => v.is_same(fv),
        Ty::Unknown | Ty::BoundVar(_) | Ty::MetaVar(_) => false,
        Ty::Record(rows) => rows_have_fixed(rows, fv),
        Ty::Con(args, _) => tys_have_fixed(args, fv),
        Ty::Fn(param, res) => ty_has_fixed(param, fv) || ty_has_fixed(res, fv),
    }
}

fn tys_have_fixed(tys: &List<Ty>, fv: &FixedTyVar) -> (r: bool)
    ensures
        r == has_fixed_tys(*tys, *fv),
    decreases *tys,
{
    match tys {
        List::Nil => false,
        List::Cons(h, t) => ty_has_fixed(h, fv) || tys_have_fixed(t, fv),
    }
}

fn rows_have_fixed(rows: &List<(Lab, Ty)>, fv: &FixedTyVar) -> (r: bool)
    ensures
        r == has_fixed_rows(*rows, *fv),
    decreases *rows,
{
    match rows {
        List::Nil => false,
        List::Cons(h, t) => ty_has_fixed(&h.1, fv) || rows_have_fixed(t, fv),
    }
}

fn val_env_has_fixed(subst: &Subst, env: &ValEnv, fv: &FixedTyVar) -> (r: bool)
    ensures
        r == fixed_in_val_env(subst@, *env, *fv),
    decreases *env,
{
    match env {
        List::Nil => false,
        List::Cons(h, t) => {
            let ty = subst.apply(&h.1.ty_scheme.ty);
            ty_has_fixed(&ty, fv) || val_env_has_fixed(subst, t, fv)
        },
    }
}

fn str_env_has_fixed(subst: &Subst, env: &StrEnv, fv: &FixedTyVar) -> (r: bool)
    ensures
        r == fixed_in_str_env(subst@, *env, *fv),
    decreases *env,
{
    match env {
        StrEnv::Nil => false,
        StrEnv::Cons(_, e, t) => env_has_fixed(subst, e, fv) || str_env_has_fixed(subst, t, fv),
    }
}

fn env_has_fixed(subst: &Subst, env: &Env, fv: &FixedTyVar) -> (r: bool)
    ensures
        r == fixed_in_env(subst@, *env, *fv),
    decreases *env,
{
    val_env_has_fixed(subst, &env.val_env, fv) || str_env_has_fixed(subst, &env.str_env, fv)
}

fn list_holds_fixed(l: &List<FixedTyVar>, fv: &FixedTyVar) -> (r: bool)
    ensures
        r == holds_fixed(*l, *fv),
    decreases *l,
{
    match l {
        List::Nil => false,
        List::Cons(h, t) => h.is_same(fv) || list_holds_fixed(t, fv),
    }
}

fn fixed_vars(subst: &Subst, env: &Env, ty: &Ty, acc: List<FixedTyVar>) -> (r: List<FixedTyVar>)
    ensures
        r == collect_fixed(subst@, *env, *ty, acc),
    decreases *ty,
{
    match ty {
        Ty::FixedVar(fv) => if list_holds_fixed(&acc, fv) || env_has_fixed(subst, env, fv) {
            acc
        } else {
            acc.concat(List::Cons(fv.clone(), Box::new(List::Nil)))
        },
        Ty::Unknown | Ty::BoundVar(_) | Ty::MetaVar(_) => acc,
        Ty::Record(rows) => fixed_vars_rows(subst, env, rows, acc),
        Ty::Con(args, _) => fixed_vars_tys(subst, env, args, acc),
        Ty::Fn(param, res) => {
            let acc2 = fixed_vars(subst, env, param, acc);
            fixed_vars(subst, env, res, acc2)
        },
    }
}

fn fixed_vars_tys(subst: &Subst, env: &Env, tys: &List<Ty>, acc: List<FixedTyVar>) -> (r: List<
    FixedTyVar,
>)
    ensures
        r == collect_fixed_tys(subst@, *env, *tys, acc),
    decreases *tys,
{
    match tys {
        List::Nil => acc,
        List::Cons(h, t) => {
            let acc2 = fixed_vars(subst, env, h, acc);
            fixed_vars_tys(subst, env, t, acc2)
        },
    }
}

fn fixed_vars_rows(subst: &Subst, env: &Env, rows: &List<(Lab, Ty)>, acc: List<FixedTyVar>) -> (r:
    List<FixedTyVar>)
    ensures
        r == collect_fixed_rows(subst@, *env, *rows, acc),
    decreases *rows,
{
    match rows {
        List::Nil => acc,
        List::Cons(h, t) => {
            let acc2 = fixed_vars(subst, env, &h.1, acc);
            fixed_vars_rows(subst, env, t, acc2)
        },
    }
}

pub(crate) fn kinds_of_fixed(l: &List<FixedTyVar>) -> (r: List<TyVarKind>)
    ensures
        r == fixed_kinds(*l),
    decreases *l,
{
    match l {
        List::Nil => List::Nil,
        List::Cons(h, t) => {
            let kind = if h.ty_var.is_equality() {
                TyVarKind::Equality
            } else {
                TyVarKind::Regular
            };
            List::Cons(kind, Box::new(kinds_of_fixed(t)))
        },
    }
}

fn replaced_fixed(ty: &Ty, fv: &FixedTyVar, i: u32) -> (r: Ty)
    ensures
        r == replace_fixed(*ty, *fv, i),
    decreases *ty,
{
    match ty {
        Ty::FixedVar(v) => if v.is_same(fv) {
            Ty::BoundVar(i)
        } else {
            ty.clone()
        },
        Ty::Unknown | Ty::BoundVar(_) | Ty::MetaVar(_) => ty.clone(),
        Ty::Record(rows) => Ty::Record(Box::new(replaced_fixed_rows(rows, fv, i))),
        Ty::Con(args, sym) => Ty::Con(Box::new(replaced_fixed_tys(args, fv, i)), *sym),
        Ty::Fn(param, res) => Ty::Fn(
            Box::new(replaced_fixed(param, fv, i)),
            Box::new(replaced_fixed(res, fv, i)),
        ),
    }
}

fn replaced_fixed_tys(tys: &List<Ty>, fv: &FixedTyVar, i: u32) -> (r: List<Ty>)
    ensures
        r == replace_fixed_tys(*tys, *fv, i),
    decreases *tys,
{
    match tys {
        List::Nil => List::Nil,
        List::Cons(h, t) => List::Cons(
            replaced_fixed(h, fv, i),
            Box::new(replaced_fixed_tys(t, fv, i)),
        ),
    }
}

fn replaced_fixed_rows(rows: &List<(Lab, Ty)>, fv: &FixedTyVar, i: u32) -> (r: List<(Lab, Ty)>)
    ensures
        r == replace_fixed_rows(*rows, *fv, i),
    decreases *rows,
{
    match rows {
        List::Nil => List::Nil,
        List::Cons(h, t) => List::Cons(
            (h.0.clone(), replaced_fixed(&h.1, fv, i)),
            Box::new(replaced_fixed_rows(t, fv, i)),
        ),
    }
}

pub(crate) fn bind_all_fixed(ty: Ty, fixed: &List<FixedTyVar>, from: u32) -> (r: Ty)
    ensures
        r == bind_fixed(ty, *fixed, from),
    decreases *fixed,
{
    match fixed {
        List::Nil => ty,
        List::Cons(h, t) => {
            let next = replaced_fixed(&ty, h, from);
            let pos = if from < u32::MAX {
                from + 1
            } else {
                from
            };
            bind_all_fixed(next, t, pos)
        },
    }
}

/// The type scheme of a type in an environment.
pub fn generalize(subst: &Subst, env: &Env, ty: &Ty) -> (r: TyScheme)
    ensures
        r == generalize_spec(subst@, *env, *ty),
{
    let applied = subst.apply(ty);
    let metas = meta_vars(subst, env, &applied, List::Nil);
    let n = list_len(&metas);
    let from = if n <= u32::MAX as u64 {
        n as u32
    } else {
        u32::MAX
    };
    let bound = bind_all(applied, &metas, 0);
    let fixed = fixed_vars(subst, env, &bound, List::Nil);
    let bound_vars = kinds(subst, &metas).concat(kinds_of_fixed(&fixed));
    let ty = bind_all_fixed(bound, &fixed, from);
    TyScheme { bound_vars, ty }
}

/// Replacing a type variable by a bound variable leaves every meta variable
/// where it was.
pub proof fn lemma_replace_fixed_keeps_metas(ty: Ty, fv: FixedTyVar, i: u32, m: MetaTyVar)
    ensures
        occurs(m, replace_fixed(ty, fv, i)) == occurs(m, ty),
    decreases ty,
{
    match ty {
        Ty::Record(rows) => lemma_replace_fixed_keeps_metas_rows(*rows, fv, i, m),
        Ty::Con(args, _) => lemma_replace_fixed_keeps_metas_tys(*args, fv, i, m),
        Ty::Fn(param, res) => {
            lemma_replace_fixed_keeps_metas(*param, fv, i, m);
            lemma_replace_fixed_keeps_metas(*res, fv, i, m);
        },
        _ => {},
    }
}

pub proof fn lemma_replace_fixed_keeps_metas_tys(tys: List<Ty>, fv: FixedTyVar, i: u32, m: MetaTyVar)
    ensures
        occurs_tys(m, replace_fixed_tys(tys, fv, i)) == occurs_tys(m, tys),
    decreases tys,
{
    match tys {
        List::Nil => {},
        List::Cons(h, t) => {
            lemma_replace_fixed_keeps_metas(h, fv, i, m);
            lemma_replace_fixed_keeps_metas_tys(*t, fv, i, m);
        },
    }
}

pub proof fn lemma_replace_fixed_keeps_metas_rows(
    rows: List<(Lab, Ty)>,
    fv: FixedTyVar,
    i: u32,
    m: MetaTyVar,
)
    ensures
        occurs_rows(m, replace_fixed_rows(rows, fv, i)) == occurs_rows(m, rows),
    decreases rows,
{
    match rows {
        List::Nil => {},
        List::Cons(h, t) => {
            lemma_replace_fixed_keeps_metas(h.1, fv, i, m);
            lemma_replace_fixed_keeps_metas_rows(*t, fv, i, m);
        },
    }
}

/// Binding type variables leaves every meta variable where it was.
pub proof fn lemma_bind_fixed_keeps_metas(ty: Ty, fixed: List<FixedTyVar>, from: u32, m: MetaTyVar)
    ensures
        occurs(m, bind_fixed(ty, fixed, from)) == occurs(m, ty),
    decreases fixed,
{
    match fixed {
        List::Nil => {},
        List::Cons(h, t) => {
            lemma_replace_fixed_keeps_metas(ty, h, from, m);
            lemma_bind_fixed_keeps_metas(replace_fixed(ty, h, from), *t, next_pos(from), m);
        },
    }
}

/// Replacing a meta variable by a bound variable leaves every other meta
/// variable where it was.
pub proof fn lemma_replace_keeps_others(ty: Ty, mv: MetaTyVar, i: u32, m: MetaTyVar)
    ensures
        occurs(m, replace(ty, mv, Ty::BoundVar(i))) == (m != mv && occurs(m, ty)),
    decreases ty,
{
    match ty {
        Ty::Record(rows) => lemma_replace_keeps_others_rows(*rows, mv, i, m),
        Ty::Con(args, _) => lemma_replace_keeps_others_tys(*args, mv, i, m),
        Ty::Fn(param, res) => {
            lemma_replace_keeps_others(*param, mv, i, m);
            lemma_replace_keeps_others(*res, mv, i, m);
        },
        _ => {},
    }
}

pub proof fn lemma_replace_keeps_others_tys(tys: List<Ty>, mv: MetaTyVar, i: u32, m: MetaTyVar)
    ensures
        occurs_tys(m, crate::statics::types::replace_tys(tys, mv, Ty::BoundVar(i))) == (m != mv
            && occurs_tys(m, tys)),
    decreases tys,
{
    match tys {
        List::Nil => {},
        List::Cons(h, t) => {
            lemma_replace_keeps_others(h, mv, i, m);
            lemma_replace_keeps_others_tys(*t, mv, i, m);
        },
    }
}

pub proof fn lemma_replace_keeps_others_rows(
    rows: List<(Lab, Ty)>,
    mv: MetaTyVar,
    i: u32,
    m: MetaTyVar,
)
    ensures
        occurs_rows(m, crate::statics::types::replace_rows(rows, mv, Ty::BoundVar(i))) == (m != mv
            && occurs_rows(m, rows)),
    decreases rows,
{
    match rows {
        List::Nil => {},
        List::Cons(h, t) => {
            lemma_replace_keeps_others(h.1, mv, i, m);
            lemma_replace_keeps_others_rows(*t, mv, i, m);
        },
    }
}

/// What `collect` adds is not free in the environment.
pub proof fn lemma_collect_avoids_env(s: Entries, env: Env, ty: Ty, acc: List<MetaTyVar>, m: MetaTyVar)
    requires
        in_env(s, env, m),
        !has_meta(acc, m),
    ensures
        !has_meta(collect(s, env, ty, acc), m),
    decreases ty,
{
    match ty {
        Ty::MetaVar(mv) => {
            lemma_has_meta_append(acc, mv, m);
        },
        Ty::Record(rows) => lemma_collect_rows_avoids_env(s, env, *rows, acc, m),
        Ty::Con(args, _) => lemma_collect_tys_avoids_env(s, env, *args, acc, m),
        Ty::Fn(param, res) => {
            lemma_collect_avoids_env(s, env, *param, acc, m);
            lemma_collect_avoids_env(s, env, *res, collect(s, env, *param, acc), m);
        },
        _ => {},
    }
}

proof fn lemma_has_meta_append(acc: List<MetaTyVar>, mv: MetaTyVar, m: MetaTyVar)
    ensures
        has_meta(acc.append(List::Cons(mv, Box::new(List::Nil))), m) == (has_meta(acc, m) || m
            == mv),
    decreases acc,
{
    match acc {
        List::Nil => {},
        List::Cons(_, t) => lemma_has_meta_append(*t, mv, m),
    }
}

proof fn lemma_collect_tys_avoids_env(
    s: Entries,
    env: Env,
    tys: List<Ty>,
    acc: List<MetaTyVar>,
    m: MetaTyVar,
)
    requires
        in_env(s, env, m),
        !has_meta(acc, m),
    ensures
        !has_meta(collect_tys(s, env, tys, acc), m),
    decreases tys,
{
    match tys {
        List::Nil => {},
        List::Cons(h, t) => {
            lemma_collect_avoids_env(s, env, h, acc, m);
            lemma_collect_tys_avoids_env(s, env, *t, collect(s, env, h, acc), m);
        },
    }
}

proof fn lemma_collect_rows_avoids_env(
    s: Entries,
    env: Env,
    rows: List<(Lab, Ty)>,
    acc: List<MetaTyVar>,
    m: MetaTyVar,
)
    requires
        in_env(s, env, m),
        !has_meta(acc, m),
    ensures
        !has_meta(collect_rows(s, env, rows, acc), m),
    decreases rows,
{
    match rows {
        List::Nil => {},
        List::Cons(h, t) => {
            lemma_collect_avoids_env(s, env, h.1, acc, m);
            lemma_collect_rows_avoids_env(s, env, *t, collect(s, env, h.1, acc), m);
        },
    }
}

/// Binding meta variables leaves a meta variable that is none of them where
/// it was.
proof fn lemma_bind_keeps_others(ty: Ty, metas: List<MetaTyVar>, from: nat, m: MetaTyVar)
    requires
        !has_meta(metas, m),
    ensures
        occurs(m, bind_metas(ty, metas, from)) == occurs(m, ty),
    decreases metas,
{
    match metas {
        List::Nil => {},
        List::Cons(h, t) => {
            let i = if from <= u32::MAX {
                from as u32
            } else {
                u32::MAX
            };
            lemma_replace_keeps_others(ty, h, i, m);
            lemma_bind_keeps_others(replace(ty, h, Ty::BoundVar(i)), *t, from + 1, m);
        },
    }
}

/// Generalisation does not generalise a meta variable that is free in the
/// environment: it is none of the variables that become bound, and it
/// occurs in the type of the scheme exactly when it occurred in the type.
pub proof fn law_generalize_spares_env(s: Entries, env: Env, ty: Ty, mv: MetaTyVar)
    requires
        in_env(s, env, mv),
    ensures
        !has_meta(generalized(s, env, ty), mv),
        occurs(mv, generalize_spec(s, env, ty).ty) == occurs(mv, apply(s, ty)),
{
    lemma_collect_avoids_env(s, env, apply(s, ty), List::Nil, mv);
    let metas = generalized(s, env, ty);
    lemma_bind_keeps_others(apply(s, ty), metas, 0, mv);
    let bound = bind_metas(apply(s, ty), metas, 0);
    lemma_bind_fixed_keeps_metas(
        bound,
        collect_fixed(s, env, bound, List::Nil),
        pos_behind(metas.len()),
        mv,
    );
}

} // verus!

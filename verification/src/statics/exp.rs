//! The types of expressions.

use crate::hir::{exp_at, Arenas, Exp, ExpIdx, Idx, Lab, Nodes, PatIdx};
use crate::list::List;
use crate::statics::dec::dec_spec;
use crate::statics::env::{clone_env, extended, Cx, Env, ValEnv};
use crate::statics::error::ErrorKind;
use crate::statics::pat::{
    add_row, fresh, fresh_ty, get_path, get_scon, insert_row, lookup_path, pat_spec, scon_spec,
};
use crate::statics::pat_match::{
    exhaustive, is_exhaustive, is_reachable, reachable, with_row, Matrix,
};
use crate::statics::st::{with_error, St, StView};
use crate::statics::ty::ty_spec;
use crate::statics::types::{Sym, Ty, SYM_EXN};
use crate::statics::unify::{unify, unify_st};
use crate::statics::util::{instantiate, instantiate_spec};
use vstd::prelude::*;

verus! {

/// The type of exceptions.
pub open spec fn exn_ty() -> Ty {
    Ty::Con(Box::new(List::Nil), Sym { raw: SYM_EXN })
}

/// The environment with the values `ve` in front.
pub open spec fn with_vals(env: Env, ve: ValEnv) -> Env {
    Env { str_env: env.str_env, ty_env: env.ty_env, val_env: Box::new(ve.append(*env.val_env)) }
}

/// The type of an expression in an environment, in at most `fuel` nested
/// steps: the state afterwards, and the type.
///
/// A missing expression has the unknown type. A constant has a type of its
/// overload, a path an instance of what it stands for, and a path that
/// stands for nothing is an error. The function of an application is
/// unified with a function type from the type of the argument to a fresh
/// meta variable, which is the type of the application. The patterns of a
/// matcher are unified with one parameter type and its expressions with one
/// result type; an arm that cannot be reached is an error, and so is a
/// function whose arms do not cover every value. The declarations of a
/// `let` are in scope in its expression. An expression with a type
/// annotation is unified with the type, which is then its type.
pub open spec fn exp_spec(n: Nodes, st: StView, env: Env, exp: ExpIdx, fuel: nat) -> (StView, Ty)
    decreases fuel, 0nat,
{
    if fuel == 0 || exp is None || exp->0 >= n.exps.len() {
        (st, Ty::Unknown)
    } else {
        let e = exp->0;
        let idx = Idx::Exp(e);
        let f = (fuel - 1) as nat;
        match n.exps[e as int] {
            Exp::Hole => (st, Ty::Unknown),
            Exp::SCon(c) => scon_spec(st, c),
            Exp::Path(path) => match lookup_path(env, path) {
                None => (with_error(st, idx, ErrorKind::Undefined), Ty::Unknown),
                Some(info) => instantiate_spec(st, info.ty_scheme),
            },
            Exp::Record(rows) => exp_rows_spec(n, st, env, rows@, 0, List::Nil, e, f),
            Exp::Let(dec, body) => {
                let (st1, inner) = dec_spec(n, st, env, dec, f);
                exp_spec(n, st1, extended(env, inner), body, f)
            },
            Exp::App(func, arg) => {
                let (st1, func_ty) = exp_spec(n, st, env, func, f);
                let (st2, arg_ty) = exp_spec(n, st1, env, arg, f);
                let (st3, res) = fresh(st2);
                let (st4, want, got) = unify_st(
                    st3,
                    func_ty,
                    Ty::Fn(Box::new(arg_ty), Box::new(res)),
                    idx,
                );
                (
                    st4,
                    if got is Unknown {
                        Ty::Unknown
                    } else {
                        res
                    },
                )
            },
            Exp::Handle(body, matcher) => {
                let (st1, ty) = exp_spec(n, st, env, body, f);
                let (st2, param, res, _arms) = matcher_spec(n, st1, env, matcher@, e, f);
                let (st3, _w, _g) = unify_st(st2, exn_ty(), param, idx);
                let (st4, want, got) = unify_st(st3, ty, res, idx);
                (st4, want)
            },
            Exp::Raise(body) => {
                let (st1, got) = exp_spec(n, st, env, body, f);
                let (st2, _w, _g) = unify_st(st1, exn_ty(), got, idx);
                fresh(st2)
            },
            Exp::Fn(matcher) => {
                let (st1, param, res, arms) = matcher_spec(n, st, env, matcher@, e, f);
                (
                    if exhaustive(arms) {
                        st1
                    } else {
                        with_error(st1, idx, ErrorKind::NonExhaustiveMatch)
                    },
                    Ty::Fn(Box::new(param), Box::new(res)),
                )
            },
            Exp::Typed(body, ty) => {
                let (st1, got) = exp_spec(n, st, env, body, f);
                let (st2, want) = ty_spec(n, st1, env, ty, f);
                let (st3, want2, _g) = unify_st(st2, want, got, idx);
                (st3, want2)
            },
        }
    }
}

/// The record type of the rows `rows[from..]` of a record expression, with
/// the rows `acc`. A label that comes twice is an error, and its second row
/// is left out.
pub open spec fn exp_rows_spec(
    n: Nodes,
    st: StView,
    env: Env,
    rows: Seq<(Lab, ExpIdx)>,
    from: int,
    acc: List<(Lab, Ty)>,
    e: u32,
    fuel: nat,
) -> (StView, Ty)
    decreases fuel, 1 + rows.len() - from,
{
    if from < 0 || from >= rows.len() {
        (st, Ty::Record(Box::new(acc)))
    } else {
        let (st1, ty) = exp_spec(n, st, env, rows[from].1, fuel);
        match insert_row(acc, rows[from].0, ty) {
            None => exp_rows_spec(
                n,
                with_error(st1, Idx::Exp(e), ErrorKind::DuplicateLab(rows[from].0)),
                env,
                rows,
                from + 1,
                acc,
                e,
                fuel,
            ),
            Some(acc2) => exp_rows_spec(n, st1, env, rows, from + 1, acc2, e, fuel),
        }
    }
}

/// The parameter type and the result type of a matcher, and the patterns
/// of its arms.
pub open spec fn matcher_spec(
    n: Nodes,
    st: StView,
    env: Env,
    arms: Seq<(PatIdx, ExpIdx)>,
    e: u32,
    fuel: nat,
) -> (StView, Ty, Ty, Matrix)
    decreases fuel, 2 + arms.len(),
{
    let (st1, param) = fresh(st);
    let (st2, res) = fresh(st1);
    arms_spec(n, st2, env, arms, 0, param, res, List::Nil, e, fuel)
}

/// Where the errors of an arm are reported: at its pattern, or at the
/// expression `e` when the pattern is missing.
pub open spec fn arm_idx(pat: PatIdx, e: u32) -> Idx {
    match pat {
        Some(p) => Idx::Pat(p),
        None => Idx::Exp(e),
    }
}

/// The arms `arms[from..]` of a matcher behind the arms `seen`: the pattern
/// of each is unified with the parameter type, and its expression, with the
/// names of the pattern in scope, with the result type. An arm whose
/// pattern is of no use behind the arms before it is an error.
pub open spec fn arms_spec(
    n: Nodes,
    st: StView,
    env: Env,
    arms: Seq<(PatIdx, ExpIdx)>,
    from: int,
    param: Ty,
    res: Ty,
    seen: Matrix,
    e: u32,
    fuel: nat,
) -> (StView, Ty, Ty, Matrix)
    decreases fuel, 1 + arms.len() - from,
{
    if from < 0 || from >= arms.len() {
        (st, param, res, seen)
    } else {
        let (st1, ve, pat_ty, pat) = pat_spec(n, st, env, List::Nil, arms[from].0, fuel);
        let (st2, param2, _g) = unify_st(st1, param, pat_ty, Idx::Exp(e));
        let st3 = if reachable(seen, pat) {
            st2
        } else {
            with_error(st2, arm_idx(arms[from].0, e), ErrorKind::UnreachablePattern)
        };
        let (st4, body_ty) = exp_spec(n, st3, with_vals(env, ve), arms[from].1, fuel);
        let (st5, res2, _g2) = unify_st(st4, res, body_ty, Idx::Exp(e));
        arms_spec(n, st5, env, arms, from + 1, param2, res2, with_row(seen, pat), e, fuel)
    }
}

fn exn() -> (r: Ty)
    ensures
        r == exn_ty(),
{
    Ty::Con(Box::new(List::Nil), Sym { raw: SYM_EXN })
}

/// The context with the values `ve` in front.
pub fn cx_with_vals(cx: &Cx, ve: ValEnv) -> (r: Cx)
    ensures
        r.env == with_vals(cx.env, ve),
{
    let Env { str_env, ty_env, val_env } = clone_env(&cx.env);
    Cx { env: Env { str_env, ty_env, val_env: Box::new(ve.concat(*val_env)) } }
}

/// The type of an expression, in at most `fuel` nested steps.
pub fn get(st: &mut St, cx: &Cx, ars: &Arenas, exp: ExpIdx, fuel: u64) -> (r: Ty)
    requires
        old(st).subst.wf(),
    ensures
        (final(st)@, r) == exp_spec(ars.nodes(), old(st)@, cx.env, exp, fuel as nat),
        final(st).subst.wf(),
    decreases fuel, 0nat,
{
    if fuel == 0 {
        return Ty::Unknown;
    }
    let e = match exp {
        None => {
            return Ty::Unknown;
        },
        Some(e) => e,
    };
    let node = match exp_at(&ars.exp, e) {
        None => {
            return Ty::Unknown;
        },
        Some(node) => node,
    };
    let idx = Idx::Exp(e);
    let f = fuel - 1;
    match node {
        Exp::Hole => Ty::Unknown,
        Exp::SCon(c) => get_scon(st, c),
        Exp::Path(path) => match get_path(&cx.env, path) {
            None => {
                st.err(idx, ErrorKind::Undefined);
                Ty::Unknown
            },
            Some(info) => instantiate(st, &info.ty_scheme),
        },
        Exp::Record(rows) => get_rows(st, cx, ars, rows, 0, List::Nil, e, f),
        Exp::Let(dec, body) => {
            let inner = crate::statics::dec::get(st, cx, ars, *dec, f);
            let mut cx2 = cx.clone();
            cx2.env.extend(inner);
            get(st, &cx2, ars, *body, f)
        },
        Exp::App(func, arg) => {
            let mut func_ty = get(st, cx, ars, *func, f);
            let arg_ty = get(st, cx, ars, *arg, f);
            let res = fresh_ty(st);
            let mut got = Ty::Fn(Box::new(arg_ty), Box::new(res.clone()));
            unify(st, &mut func_ty, &mut got, idx);
            match got {
                Ty::Unknown => Ty::Unknown,
                _ => res,
            }
        },
        Exp::Handle(body, matcher) => {
            let mut ty = get(st, cx, ars, *body, f);
            let (mut param, mut res, _arms) = get_matcher(st, cx, ars, matcher, e, f);
            let mut want = exn();
            unify(st, &mut want, &mut param, idx);
            unify(st, &mut ty, &mut res, idx);
            ty
        },
        Exp::Raise(body) => {
            let mut got = get(st, cx, ars, *body, f);
            let mut want = exn();
            unify(st, &mut want, &mut got, idx);
            fresh_ty(st)
        },
        Exp::Fn(matcher) => {
            let (param, res, arms) = get_matcher(st, cx, ars, matcher, e, f);
            if !is_exhaustive(&arms) {
                st.err(idx, ErrorKind::NonExhaustiveMatch);
            }
            Ty::Fn(Box::new(param), Box::new(res))
        },
        Exp::Typed(body, ty) => {
            let mut got = get(st, cx, ars, *body, f);
            let mut want = crate::statics::ty::get(st, cx, ars, *ty, f);
            unify(st, &mut want, &mut got, idx);
            want
        },
    }
}

fn get_rows(
    st: &mut St,
    cx: &Cx,
    ars: &Arenas,
    rows: &Vec<(Lab, ExpIdx)>,
    from: usize,
    acc: List<(Lab, Ty)>,
    e: u32,
    fuel: u64,
) -> (r: Ty)
    requires
        old(st).subst.wf(),
    ensures
        (final(st)@, r) == exp_rows_spec(
            ars.nodes(),
            old(st)@,
            cx.env,
            rows@,
            from as int,
            acc,
            e,
            fuel as nat,
        ),
        final(st).subst.wf(),
    decreases fuel, 1 + rows.len() - from,
{
    if from >= rows.len() {
        return Ty::Record(Box::new(acc));
    }
    let ty = get(st, cx, ars, rows[from].1, fuel);
    match add_row(acc, &rows[from].0, ty) {
        Err((acc, _)) => {
            st.err(Idx::Exp(e), ErrorKind::DuplicateLab(rows[from].0.clone()));
            get_rows(st, cx, ars, rows, from + 1, acc, e, fuel)
        },
        Ok(acc2) => get_rows(st, cx, ars, rows, from + 1, acc2, e, fuel),
    }
}

/// The parameter type and the result type of a matcher, and the patterns
/// of its arms.
pub fn get_matcher(
    st: &mut St,
    cx: &Cx,
    ars: &Arenas,
    arms: &Vec<(PatIdx, ExpIdx)>,
    e: u32,
    fuel: u64,
) -> (r: (Ty, Ty, Matrix))
    requires
        old(st).subst.wf(),
    ensures
        (final(st)@, r.0, r.1, r.2) == matcher_spec(
            ars.nodes(),
            old(st)@,
            cx.env,
            arms@,
            e,
            fuel as nat,
        ),
        final(st).subst.wf(),
    decreases fuel, 2 + arms.len(),
{
    let param = fresh_ty(st);
    let res = fresh_ty(st);
    get_arms(st, cx, ars, arms, 0, param, res, List::Nil, e, fuel)
}

fn get_arms(
    st: &mut St,
    cx: &Cx,
    ars: &Arenas,
    arms: &Vec<(PatIdx, ExpIdx)>,
    from: usize,
    param: Ty,
    res: Ty,
    seen: Matrix,
    e: u32,
    fuel: u64,
) -> (r: (Ty, Ty, Matrix))
    requires
        old(st).subst.wf(),
    ensures
        (final(st)@, r.0, r.1, r.2) == arms_spec(
            ars.nodes(),
            old(st)@,
            cx.env,
            arms@,
            from as int,
            param,
            res,
            seen,
            e,
            fuel as nat,
        ),
        final(st).subst.wf(),
    decreases fuel, 1 + arms.len() - from,
{
    if from >= arms.len() {
        return (param, res, seen);
    }
    let mut param = param;
    let mut res = res;
    let mut ve: ValEnv = List::Nil;
    let (mut pat_ty, pat) = crate::statics::pat::get(st, cx, ars, &mut ve, arms[from].0, fuel);
    unify(st, &mut param, &mut pat_ty, Idx::Exp(e));
    if !is_reachable(&seen, &pat) {
        let at = match arms[from].0 {
            Some(p) => Idx::Pat(p),
            None => Idx::Exp(e),
        };
        st.err(at, ErrorKind::UnreachablePattern);
    }
    let cx2 = cx_with_vals(cx, ve);
    let mut body_ty = get(st, &cx2, ars, arms[from].1, fuel);
    unify(st, &mut res, &mut body_ty, Idx::Exp(e));
    let seen2 = crate::statics::pat_match::add_row(seen, pat);
    get_arms(st, cx, ars, arms, from + 1, param, res, seen2, e, fuel)
}

} // verus!

//! Declarations: the names that they bring into scope, with their types.

use crate::hir::{dec_at, exp_at, Arenas, Dec, DecIdx, ExBind, Exp, ExpIdx, Idx, Name, Nodes, Path, ValBind};
use crate::list::List;
use crate::statics::env::{
    clone_env, clone_val_env, extended, get_val, lookup_val, Cx, Env, StrEnv, ValEnv,
};
use crate::statics::error::ErrorKind;
use crate::statics::exp::{cx_with_vals, exn_ty, exp_spec, with_vals};
use crate::statics::info::{Exn, IdStatus, ValInfo};
use crate::statics::pat::{get_path, lookup_path, pat_spec};
use crate::statics::pat_match::{exhaustive, is_exhaustive, with_row, Pat};
use crate::statics::st::{with_error, St, StView};
use crate::statics::sym::{ExnInfo, SymsView};
use crate::statics::types::{Entries, Sym, Ty, TyScheme, SYM_EXN};
use crate::statics::unify::{unify, unify_st};
use crate::statics::util::{generalize, generalize_spec};
use vstd::prelude::*;

verus! {

/// The environment that holds these values and nothing else.
pub open spec fn env_of(ve: ValEnv) -> Env {
    Env { str_env: StrEnv::Nil, ty_env: Box::new(List::Nil), val_env: Box::new(ve) }
}

/// The environment without names.
pub open spec fn no_env() -> Env {
    env_of(List::Nil)
}

/// The expression of a binding: its type is unified with the type that the
/// pattern wants.
pub open spec fn val_exp_spec(n: Nodes, st: StView, env: Env, exp: ExpIdx, want: Ty, fuel: nat) -> StView
    decreases fuel, 1nat,
{
    let (st1, got) = exp_spec(n, st, env, exp, fuel);
    unify_st(st1, want, got, exp_idx(exp)).0
}

/// The node of an expression, for an error about it.
pub open spec fn exp_idx(exp: ExpIdx) -> Idx {
    match exp {
        Some(e) => Idx::Exp(e),
        None => Idx::Exp(0),
    }
}

/// The pattern of a binding must cover every value: one that does not is an
/// error at the pattern.
pub open spec fn covers_spec(st: StView, at: crate::hir::PatIdx, pat: Pat) -> StView {
    match at {
        Some(p) => if exhaustive(with_row(List::Nil, pat)) {
            st
        } else {
            with_error(st, Idx::Pat(p), ErrorKind::NonExhaustiveBinding)
        },
        None => st,
    }
}

/// The bindings `binds[from..]` up to the first recursive one: each pattern
/// binds its names and must cover every value, and each expression is
/// checked against its pattern. It gives back where the recursive bindings
/// start.
pub open spec fn plain_binds_spec(
    n: Nodes,
    st: StView,
    env: Env,
    binds: Seq<ValBind>,
    from: int,
    ve: ValEnv,
    fuel: nat,
) -> (StView, ValEnv, int)
    decreases fuel, 2 + binds.len() - from,
{
    if from < 0 || from >= binds.len() || binds[from].rec {
        (st, ve, from)
    } else {
        let (st0, ve1, want, pat) = pat_spec(n, st, env, ve, binds[from].pat, fuel);
        let st1 = covers_spec(st0, binds[from].pat, pat);
        let st2 = val_exp_spec(n, st1, env, binds[from].exp, want, fuel);
        plain_binds_spec(n, st2, env, binds, from + 1, ve1, fuel)
    }
}

/// The patterns of the recursive bindings `binds[from..]`: the names that
/// they bind, and the type that each wants, in order.
pub open spec fn rec_pats_spec(
    n: Nodes,
    st: StView,
    env: Env,
    binds: Seq<ValBind>,
    from: int,
    ve: ValEnv,
    fuel: nat,
) -> (StView, ValEnv, List<Ty>)
    decreases fuel, 2 + binds.len() - from,
{
    if from < 0 || from >= binds.len() {
        (st, ve, List::Nil)
    } else {
        let (st0, ve1, want, pat) = pat_spec(n, st, env, ve, binds[from].pat, fuel);
        let st1 = covers_spec(st0, binds[from].pat, pat);
        let (st2, ve2, wants) = rec_pats_spec(n, st1, env, binds, from + 1, ve1, fuel);
        (st2, ve2, List::Cons(want, Box::new(wants)))
    }
}

/// The names of `more` in front of `ve`. A name that `ve` holds already is
/// an error.
pub open spec fn merge_spec(st: StView, ve: ValEnv, more: ValEnv, idx: Idx) -> (StView, ValEnv)
    decreases more,
{
    match more {
        List::Nil => (st, ve),
        List::Cons(h, t) => {
            let (st1, ve1) = merge_spec(st, ve, *t, idx);
            (
                if lookup_val(ve, h.0@) is Some {
                    with_error(st1, idx, ErrorKind::Redefined)
                } else {
                    st1
                },
                List::Cons(h, Box::new(ve1)),
            )
        },
    }
}

/// The expressions of the recursive bindings `binds[from..]`: each must be
/// a function, and is checked against the type that its pattern wants.
pub open spec fn rec_exps_spec(
    n: Nodes,
    st: StView,
    env: Env,
    binds: Seq<ValBind>,
    from: int,
    wants: List<Ty>,
    fuel: nat,
) -> StView
    decreases fuel, 2 + binds.len() - from,
{
    if from < 0 || from >= binds.len() {
        st
    } else {
        match wants {
            List::Nil => st,
            List::Cons(want, rest) => {
                let exp = binds[from].exp;
                let is_fn = exp is Some && exp->0 < n.exps.len() && n.exps[exp->0 as int] is Fn;
                let st1 = if is_fn {
                    st
                } else {
                    with_error(st, exp_idx(exp), ErrorKind::ValRecExpNotFn)
                };
                let st2 = val_exp_spec(n, st1, env, exp, want, fuel);
                rec_exps_spec(n, st2, env, binds, from + 1, *rest, fuel)
            },
        }
    }
}

/// The values with the type of each generalised in the environment.
pub open spec fn generalize_all(s: Entries, env: Env, ve: ValEnv) -> ValEnv
    decreases ve,
{
    match ve {
        List::Nil => List::Nil,
        List::Cons(h, t) => List::Cons(
            (
                h.0,
                ValInfo {
                    ty_scheme: generalize_spec(s, env, h.1.ty_scheme.ty),
                    id_status: h.1.id_status,
                    def: h.1.def,
                    disallow: h.1.disallow,
                },
            ),
            Box::new(generalize_all(s, env, *t)),
        ),
    }
}

/// A `val` declaration. The bindings before the first recursive one are
/// checked one after the other. Of the recursive ones, all patterns come
/// first, so that the names are in scope, with types yet to be found, in
/// every expression. At last the type of each name is generalised.
pub open spec fn val_dec_spec(n: Nodes, st: StView, env: Env, binds: Seq<ValBind>, d: u32, fuel: nat) -> (
    StView,
    Env,
)
    decreases fuel, 3 + binds.len(),
{
    let (st1, ve, first_rec) = plain_binds_spec(n, st, env, binds, 0, List::Nil, fuel);
    let from = if first_rec < 0 {
        0
    } else if first_rec > binds.len() {
        binds.len() as int
    } else {
        first_rec
    };
    let (st2, rec_ve, wants) = rec_pats_spec(n, st1, env, binds, from, List::Nil, fuel);
    let (st3, ve2) = merge_spec(st2, ve, rec_ve, Idx::Dec(d));
    let st4 = rec_exps_spec(n, st3, with_vals(env, rec_ve), binds, from, wants, fuel);
    (st4, env_of(generalize_all(st4.subst, env, ve2)))
}

/// The state with one more exception.
pub open spec fn with_exn(st: StView, info: ExnInfo) -> StView {
    StView { syms: SymsView { exns: st.syms.exns.push(info), ..st.syms }, ..st }
}

/// The value that the name of an exception stands for.
pub open spec fn exn_info(exn: Exn) -> ValInfo {
    ValInfo {
        ty_scheme: TyScheme { bound_vars: List::Nil, ty: exn_ty() },
        id_status: IdStatus::Exn(exn),
        def: None,
        disallow: None,
    }
}

/// The value that the name of an exception with an argument stands for: a
/// function from the type of the argument to the type of exceptions.
pub open spec fn exn_info_of(exn: Exn, param: Option<Ty>) -> ValInfo {
    match param {
        None => exn_info(exn),
        Some(p) => ValInfo {
            ty_scheme: TyScheme { bound_vars: List::Nil, ty: Ty::Fn(Box::new(p), Box::new(exn_ty())) },
            id_status: IdStatus::Exn(exn),
            def: None,
            disallow: None,
        },
    }
}

/// The exception bindings `binds[from..]`. A new exception gets the next
/// number; where it takes an argument, the type of the argument is written
/// in the environment around the declaration. A copy stands for the
/// exception that the path stands for.
pub open spec fn ex_binds_spec(
    n: Nodes,
    st: StView,
    env: Env,
    binds: Seq<ExBind>,
    from: int,
    ve: ValEnv,
    d: u32,
    fuel: nat,
) -> (StView, ValEnv)
    decreases binds.len() - from,
{
    if from < 0 || from >= binds.len() {
        (st, ve)
    } else {
        let (st1, ve1) = match binds[from] {
            ExBind::New(name, ty) => if st.syms.exns.len() > u32::MAX {
                (with_error(st, Idx::Dec(d), ErrorKind::Unsupported), ve)
            } else {
                let (st0, param) = match ty {
                    None => (st, None),
                    Some(t) => {
                        let (s, p) = crate::statics::ty::ty_spec(n, st, env, t, fuel);
                        (s, Some(p))
                    },
                };
                (
                    with_exn(
                        st0,
                        ExnInfo { path: Path { structures: List::Nil, last: name }, param },
                    ),
                    List::Cons(
                        (name, exn_info_of(Exn { raw: st.syms.exns.len() as u32 }, param)),
                        Box::new(ve),
                    ),
                )
            },
            ExBind::Copy(name, path) => match lookup_path(env, path) {
                Some(info) => if info.id_status is Exn {
                    (st, List::Cons((name, info), Box::new(ve)))
                } else {
                    (with_error(st, Idx::Dec(d), ErrorKind::Undefined), ve)
                },
                None => (with_error(st, Idx::Dec(d), ErrorKind::Undefined), ve),
            },
        };
        ex_binds_spec(n, st1, env, binds, from + 1, ve1, d, fuel)
    }
}

/// The declarations `decs[from..]` in sequence: each sees the names of
/// those before it.
pub open spec fn seq_spec(
    n: Nodes,
    st: StView,
    env: Env,
    decs: Seq<DecIdx>,
    from: int,
    acc: Env,
    fuel: nat,
) -> (StView, Env)
    decreases fuel, 2 + decs.len() - from,
{
    if from < 0 || from >= decs.len() {
        (st, acc)
    } else {
        let (st1, one) = dec_spec(n, st, extended(env, acc), decs[from], fuel);
        seq_spec(n, st1, env, decs, from + 1, extended(acc, one), fuel)
    }
}

/// What a declaration brings into scope in an environment, in at most
/// `fuel` nested steps: the state afterwards, and the names with their
/// types.
///
/// An abstract type is a datatype whose constructors are in scope in its
/// declarations only: the types and what the declarations declare come
/// into scope. `open` is not supported.
pub open spec fn dec_spec(n: Nodes, st: StView, env: Env, dec: DecIdx, fuel: nat) -> (StView, Env)
    decreases fuel, 0nat,
{
    if fuel == 0 || dec is None || dec->0 >= n.decs.len() {
        (st, no_env())
    } else {
        let d = dec->0;
        let f = (fuel - 1) as nat;
        match n.decs[d as int] {
            Dec::Val(_, binds) => val_dec_spec(n, st, env, binds@, d, f),
            Dec::Exception(binds) => {
                let (st1, ve) = ex_binds_spec(n, st, env, binds@, 0, List::Nil, d, f);
                (st1, env_of(ve))
            },
            Dec::Local(local, body) => {
                let (st1, inner) = dec_spec(n, st, env, local, f);
                dec_spec(n, st1, extended(env, inner), body, f)
            },
            Dec::Sequence(decs) => seq_spec(n, st, env, decs@, 0, no_env(), f),
            Dec::Ty(binds) => crate::statics::datatype::ty_dec_spec(n, st, env, binds@, f),
            Dec::Datatype(dats, with_type) => crate::statics::datatype::dat_dec_spec(
                n,
                st,
                env,
                dats@,
                with_type@,
                d,
                f,
            ),
            Dec::DatatypeCopy(name, path) => crate::statics::datatype::dat_copy_spec(
                st,
                env,
                name,
                path,
                d,
            ),
            Dec::Abstype(dats, with_type, inner) => {
                let (st1, types) = crate::statics::datatype::dat_dec_spec(
                    n,
                    st,
                    env,
                    dats@,
                    with_type@,
                    d,
                    f,
                );
                let (st2, body) = dec_spec(n, st1, extended(env, types), inner, f);
                (st2, extended(crate::statics::datatype::env_of_tys(*types.ty_env), body))
            },
            Dec::Open(_) => (with_error(st, Idx::Dec(d), ErrorKind::Unsupported), no_env()),
        }
    }
}

fn idx_of(exp: ExpIdx) -> (r: Idx)
    ensures
        r == exp_idx(exp),
{
    match exp {
        Some(e) => Idx::Exp(e),
        None => Idx::Exp(0),
    }
}

/// Checks the expression of a binding against the type that its pattern
/// wants.
pub fn get_val_exp(st: &mut St, cx: &Cx, ars: &Arenas, exp: ExpIdx, want: Ty, fuel: u64)
    requires
        old(st).subst.wf(),
    ensures
        final(st)@ == val_exp_spec(ars.nodes(), old(st)@, cx.env, exp, want, fuel as nat),
        final(st).subst.wf(),
    decreases fuel, 1nat,
{
    let mut want = want;
    let mut got = crate::statics::exp::get(st, cx, ars, exp, fuel);
    unify(st, &mut want, &mut got, idx_of(exp));
}

fn plain_binds(
    st: &mut St,
    cx: &Cx,
    ars: &Arenas,
    binds: &Vec<ValBind>,
    from: usize,
    ve: &mut ValEnv,
    fuel: u64,
) -> (r: usize)
    requires
        old(st).subst.wf(),
        from <= binds.len(),
    ensures
        (final(st)@, *final(ve), r as int) == plain_binds_spec(
            ars.nodes(),
            old(st)@,
            cx.env,
            binds@,
            from as int,
            *old(ve),
            fuel as nat,
        ),
        final(st).subst.wf(),
        from <= r <= binds.len(),
    decreases fuel, 2 + binds.len() - from,
{
    if from >= binds.len() || binds[from].rec {
        return from;
    }
    let (want, pat) = crate::statics::pat::get(st, cx, ars, ve, binds[from].pat, fuel);
    covers(st, binds[from].pat, pat);
    get_val_exp(st, cx, ars, binds[from].exp, want, fuel);
    plain_binds(st, cx, ars, binds, from + 1, ve, fuel)
}

fn covers(st: &mut St, at: crate::hir::PatIdx, pat: Pat)
    ensures
        final(st)@ == covers_spec(old(st)@, at, pat),
        final(st).subst == old(st).subst,
        final(st).syms == old(st).syms,
{
    if let Some(p) = at {
        let arms = crate::statics::pat_match::add_row(List::Nil, pat);
        if !is_exhaustive(&arms) {
            st.err(Idx::Pat(p), ErrorKind::NonExhaustiveBinding);
        }
    }
}

fn rec_pats(
    st: &mut St,
    cx: &Cx,
    ars: &Arenas,
    binds: &Vec<ValBind>,
    from: usize,
    ve: &mut ValEnv,
    fuel: u64,
) -> (r: List<Ty>)
    requires
        old(st).subst.wf(),
    ensures
        (final(st)@, *final(ve), r) == rec_pats_spec(
            ars.nodes(),
            old(st)@,
            cx.env,
            binds@,
            from as int,
            *old(ve),
            fuel as nat,
        ),
        final(st).subst.wf(),
    decreases fuel, 2 + binds.len() - from,
{
    if from >= binds.len() {
        return List::Nil;
    }
    let (want, pat) = crate::statics::pat::get(st, cx, ars, ve, binds[from].pat, fuel);
    covers(st, binds[from].pat, pat);
    let wants = rec_pats(st, cx, ars, binds, from + 1, ve, fuel);
    List::Cons(want, Box::new(wants))
}

fn merge(st: &mut St, ve: &ValEnv, more: &ValEnv, idx: Idx) -> (r: ValEnv)
    ensures
        (final(st)@, r) == merge_spec(old(st)@, *ve, *more, idx),
        final(st).subst == old(st).subst,
        final(st).syms == old(st).syms,
    decreases *more,
{
    match more {
        List::Nil => clone_val_env(ve),
        List::Cons(h, t) => {
            let rest = merge(st, ve, t, idx);
            if get_val(ve, &h.0).is_some() {
                st.err(idx, ErrorKind::Redefined);
            }
            List::Cons((h.0.clone(), h.1.clone()), Box::new(rest))
        },
    }
}

fn rec_exps(
    st: &mut St,
    cx: &Cx,
    ars: &Arenas,
    binds: &Vec<ValBind>,
    from: usize,
    wants: List<Ty>,
    fuel: u64,
)
    requires
        old(st).subst.wf(),
    ensures
        final(st)@ == rec_exps_spec(
            ars.nodes(),
            old(st)@,
            cx.env,
            binds@,
            from as int,
            wants,
            fuel as nat,
        ),
        final(st).subst.wf(),
    decreases fuel, 2 + binds.len() - from,
{
    if from >= binds.len() {
        return ;
    }
    match wants {
        List::Nil => {},
        List::Cons(want, rest) => {
            let exp = binds[from].exp;
            let is_fn = match exp {
                None => false,
                Some(e) => match exp_at(&ars.exp, e) {
                    Some(Exp::Fn(_)) => true,
                    _ => false,
                },
            };
            if !is_fn {
                st.err(idx_of(exp), ErrorKind::ValRecExpNotFn);
            }
            get_val_exp(st, cx, ars, exp, want, fuel);
            rec_exps(st, cx, ars, binds, from + 1, *rest, fuel);
        },
    }
}

fn generalize_env(st: &St, env: &Env, ve: &ValEnv) -> (r: ValEnv)
    ensures
        r == generalize_all(st.subst@, *env, *ve),
    decreases *ve,
{
    match ve {
        List::Nil => List::Nil,
        List::Cons(h, t) => List::Cons(
            (
                h.0.clone(),
                ValInfo {
                    ty_scheme: generalize(&st.subst, env, &h.1.ty_scheme.ty),
                    id_status: h.1.id_status,
                    def: h.1.def,
                    disallow: h.1.disallow,
                },
            ),
            Box::new(generalize_env(st, env, t)),
        ),
    }
}

fn val_dec(st: &mut St, cx: &Cx, ars: &Arenas, binds: &Vec<ValBind>, d: u32, fuel: u64) -> (r: Env)
    requires
        old(st).subst.wf(),
    ensures
        (final(st)@, r) == val_dec_spec(ars.nodes(), old(st)@, cx.env, binds@, d, fuel as nat),
        final(st).subst.wf(),
    decreases fuel, 3 + binds.len(),
{
    let mut ve: ValEnv = List::Nil;
    let from = plain_binds(st, cx, ars, binds, 0, &mut ve, fuel);
    let mut rec_ve: ValEnv = List::Nil;
    let wants = rec_pats(st, cx, ars, binds, from, &mut rec_ve, fuel);
    let ve2 = merge(st, &ve, &rec_ve, Idx::Dec(d));
    let cx2 = cx_with_vals(cx, rec_ve);
    rec_exps(st, &cx2, ars, binds, from, wants, fuel);
    Env {
        str_env: StrEnv::Nil,
        ty_env: Box::new(List::Nil),
        val_env: Box::new(generalize_env(st, &cx.env, &ve2)),
    }
}

fn ex_binds(st: &mut St, cx: &Cx, ars: &Arenas, binds: &Vec<ExBind>, d: u32, fuel: u64) -> (r:
    ValEnv)
    ensures
        (final(st)@, r) == ex_binds_spec(
            ars.nodes(),
            old(st)@,
            cx.env,
            binds@,
            0,
            List::Nil,
            d,
            fuel as nat,
        ),
        final(st).subst == old(st).subst,
{
    let mut ve: ValEnv = List::Nil;
    let mut i: usize = 0;
    while i < binds.len()
        invariant
            i <= binds.len(),
            st.subst == old(st).subst,
            ex_binds_spec(
                ars.nodes(),
                old(st)@,
                cx.env,
                binds@,
                0,
                List::Nil,
                d,
                fuel as nat,
            ) == ex_binds_spec(ars.nodes(), st@, cx.env, binds@, i as int, ve, d, fuel as nat),
        decreases binds.len() - i,
    {
        match &binds[i] {
            ExBind::New(name, ty) => {
                if st.syms.iter_syms_exns_len() > u32::MAX as usize {
                    st.err(Idx::Dec(d), ErrorKind::Unsupported);
                } else {
                    let param = match ty {
                        None => None,
                        Some(t) => Some(crate::statics::ty::get(st, cx, ars, *t, fuel)),
                    };
                    let exn_type = Ty::Con(Box::new(List::Nil), Sym { raw: SYM_EXN });
                    let ty = match &param {
                        None => exn_type,
                        Some(p) => Ty::Fn(Box::new(p.clone()), Box::new(exn_type)),
                    };
                    let exn = st.syms.insert_exn(Path::one(name.clone()), param);
                    let info = ValInfo {
                        ty_scheme: TyScheme::zero(ty),
                        id_status: IdStatus::Exn(exn),
                        def: None,
                        disallow: None,
                    };
                    ve = List::Cons((name.clone(), info), Box::new(ve));
                }
            },
            ExBind::Copy(name, path) => {
                let found = match get_path(&cx.env, path) {
                    Some(info) => match info.id_status {
                        IdStatus::Exn(_) => Some(info.clone()),
                        _ => None,
                    },
                    None => None,
                };
                match found {
                    Some(info) => {
                        ve = List::Cons((name.clone(), info), Box::new(ve));
                    },
                    None => {
                        st.err(Idx::Dec(d), ErrorKind::Undefined);
                    },
                }
            },
        }
        i += 1;
    }
    ve
}

fn get_seq(
    st: &mut St,
    cx: &Cx,
    ars: &Arenas,
    decs: &Vec<DecIdx>,
    from: usize,
    acc: Env,
    fuel: u64,
) -> (r: Env)
    requires
        old(st).subst.wf(),
    ensures
        (final(st)@, r) == seq_spec(
            ars.nodes(),
            old(st)@,
            cx.env,
            decs@,
            from as int,
            acc,
            fuel as nat,
        ),
        final(st).subst.wf(),
    decreases fuel, 2 + decs.len() - from,
{
    if from >= decs.len() {
        return acc;
    }
    let mut cx2 = cx.clone();
    cx2.env.extend(clone_env(&acc));
    let one = get(st, &cx2, ars, decs[from], fuel);
    let mut acc = acc;
    acc.extend(one);
    get_seq(st, cx, ars, decs, from + 1, acc, fuel)
}

/// What a declaration brings into scope, in at most `fuel` nested steps.
pub fn get(st: &mut St, cx: &Cx, ars: &Arenas, dec: DecIdx, fuel: u64) -> (r: Env)
    requires
        old(st).subst.wf(),
    ensures
        (final(st)@, r) == dec_spec(ars.nodes(), old(st)@, cx.env, dec, fuel as nat),
        final(st).subst.wf(),
    decreases fuel, 0nat,
{
    if fuel == 0 {
        return Env::new();
    }
    let d = match dec {
        None => {
            return Env::new();
        },
        Some(d) => d,
    };
    let node = match dec_at(&ars.dec, d) {
        None => {
            return Env::new();
        },
        Some(node) => node,
    };
    let f = fuel - 1;
    match node {
        Dec::Val(_, binds) => val_dec(st, cx, ars, binds, d, f),
        Dec::Exception(binds) => {
            let ve = ex_binds(st, cx, ars, binds, d, f);
            Env { str_env: StrEnv::Nil, ty_env: Box::new(List::Nil), val_env: Box::new(ve) }
        },
        Dec::Local(local, body) => {
            let inner = get(st, cx, ars, *local, f);
            let mut cx2 = cx.clone();
            cx2.env.extend(inner);
            get(st, &cx2, ars, *body, f)
        },
        Dec::Sequence(decs) => get_seq(st, cx, ars, decs, 0, Env::new(), f),
        Dec::Ty(binds) => crate::statics::datatype::ty_dec(st, cx, ars, binds, f),
        Dec::Datatype(dats, with_type) => crate::statics::datatype::dat_dec(
            st,
            cx,
            ars,
            dats,
            with_type,
            d,
            f,
        ),
        Dec::DatatypeCopy(name, path) => crate::statics::datatype::dat_copy(st, cx, name, path, d),
        Dec::Abstype(dats, with_type, inner) => {
            let types = crate::statics::datatype::dat_dec(st, cx, ars, dats, with_type, d, f);
            let mut cx2 = cx.clone();
            cx2.env.extend(clone_env(&types));
            let body = get(st, &cx2, ars, *inner, f);
            let Env { str_env: _, ty_env, val_env: _ } = types;
            let mut out = Env { str_env: StrEnv::Nil, ty_env, val_env: Box::new(List::Nil) };
            out.extend(body);
            out
        },
        Dec::Open(_) => {
            st.err(Idx::Dec(d), ErrorKind::Unsupported);
            Env::new()
        },
    }
}

} // verus!

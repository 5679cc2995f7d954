//! The types of patterns, and the names that they bind.

use crate::hir::{lab_less, pat_at, Arenas, Idx, Lab, Name, Nodes, Pat as HirPat, PatIdx, Path, SCon};
use crate::list::List;
use crate::statics::env::{env_at, get_val, lookup_val, Cx, Env, ValEnv};
use crate::statics::error::ErrorKind;
use crate::statics::info::{position, IdStatus, ValInfo};
use crate::statics::pat_match::{Head, Pat};
use crate::statics::sym::{Syms, SymsView};
use crate::statics::st::{bump_meta, with_error, with_subst, St, StView};
use crate::statics::ty::ty_spec;
use crate::statics::types::rows_in_order;
use crate::statics::types::{
    is_solved, set_entry, BasicOverload, MetaTyVar, Overload, SubstEntry, Sym, Ty, TyScheme,
    TyVarKind, SYM_EXN,
};
use crate::statics::unify::{unify, unify_st};
use crate::statics::util::{instantiate, instantiate_spec};
use vstd::prelude::*;

verus! {

/// A fresh meta variable: the state afterwards, and the variable as a type.
pub open spec fn fresh(st: StView) -> (StView, Ty) {
    (bump_meta(st), Ty::MetaVar(MetaTyVar { id: st.next_meta }))
}

/// The overload of a special constant.
pub open spec fn scon_overload(c: SCon) -> BasicOverload {
    match c {
        SCon::Int(_) => BasicOverload::Int,
        SCon::Real(_) => BasicOverload::Real,
        SCon::Word(_) => BasicOverload::Word,
        SCon::Char(_) => BasicOverload::Char,
        SCon::String(_) => BasicOverload::String,
    }
}

/// The type of a special constant: a fresh meta variable that stands for
/// one of the types of the overload of the constant.
pub open spec fn scon_spec(st: StView, c: SCon) -> (StView, Ty) {
    let mv = MetaTyVar { id: st.next_meta };
    (
        if is_solved(st.subst, mv) {
            bump_meta(st)
        } else {
            with_subst(
                bump_meta(st),
                set_entry(
                    st.subst,
                    mv,
                    Some(
                        SubstEntry::Kind(
                            TyVarKind::Overloaded(Overload::Basic(scon_overload(c))),
                        ),
                    ),
                ),
            )
        },
        Ty::MetaVar(mv),
    )
}

/// What a path stands for in an environment.
pub open spec fn lookup_path(env: Env, path: Path) -> Option<ValInfo> {
    match env_at(env, path.structures) {
        None => None,
        Some(e) => lookup_val(*e.val_env, path.last@),
    }
}

/// The rows with one more row, in the order of labels; nothing when a row
/// has the label already.
pub open spec fn insert_row<T>(rows: List<(Lab, T)>, lab: Lab, ty: T) -> Option<List<(Lab, T)>>
    decreases rows,
{
    match rows {
        List::Nil => Some(List::Cons((lab, ty), Box::new(List::Nil))),
        List::Cons(h, t) => if h.0@ == lab@ {
            None
        } else if lab_less(lab@, h.0@) {
            Some(List::Cons((lab, ty), Box::new(rows)))
        } else {
            match insert_row(*t, lab, ty) {
                None => None,
                Some(r) => Some(List::Cons(h, Box::new(r))),
            }
        },
    }
}

/// Binding a name of a pattern to a type. A name that the pattern binds
/// already is an error.
pub open spec fn bind_var(st: StView, ve: ValEnv, name: Name, ty: Ty, idx: Idx) -> (
    StView,
    ValEnv,
    Ty,
) {
    if lookup_val(ve, name@) is Some {
        (with_error(st, idx, ErrorKind::Redefined), ve, ty)
    } else {
        (
            st,
            List::Cons(
                (
                    name,
                    ValInfo {
                        ty_scheme: TyScheme { bound_vars: List::Nil, ty },
                        id_status: IdStatus::Val,
                        def: None,
                        disallow: None,
                    },
                ),
                Box::new(ve),
            ),
            ty,
        )
    }
}

/// The type that a type constructs: the type itself, or the result of a
/// function type.
pub open spec fn result_sym(ty: Ty) -> Option<Sym> {
    match ty {
        Ty::Con(_, sym) => Some(sym),
        Ty::Fn(_, res) => match *res {
            Ty::Con(_, sym) => Some(sym),
            _ => None,
        },
        _ => None,
    }
}

/// The head of a constructor pattern: an exception by its number; a
/// constructor of a datatype by its place among the constructors of the
/// datatype, which the symbols know; else no more than the name.
pub open spec fn con_head(syms: SymsView, status: IdStatus, name: Name, ty: Ty) -> Head {
    match status {
        IdStatus::Exn(e) => Head::Exn(e),
        _ => match result_sym(ty) {
            Some(sym) => if syms.has(sym) {
                let cons = syms.infos[sym.idx()].cons;
                match position(cons, name@) {
                    Some(i) => if cons.len() <= u32::MAX {
                        Head::Dat { idx: i as u32, span: cons.len() as u32 }
                    } else {
                        Head::Open(name)
                    },
                    None => Head::Open(name),
                }
            } else {
                Head::Open(name)
            },
            None => Head::Open(name),
        },
    }
}

/// The patterns of the rows, without the labels.
pub open spec fn row_pats(rows: List<(Lab, (Ty, Pat))>) -> List<Pat>
    decreases rows,
{
    match rows {
        List::Nil => List::Nil,
        List::Cons(h, t) => List::Cons(h.1.1, Box::new(row_pats(*t))),
    }
}

/// The rows with their types alone.
pub open spec fn row_tys(rows: List<(Lab, (Ty, Pat))>) -> List<(Lab, Ty)>
    decreases rows,
{
    match rows {
        List::Nil => List::Nil,
        List::Cons(h, t) => List::Cons((h.0, h.1.0), Box::new(row_tys(*t))),
    }
}

/// A pattern with a head and no parts.
pub open spec fn leaf(head: Head) -> Pat {
    Pat::Con(head, Box::new(List::Nil))
}

/// The type of a pattern in an environment, in at most `fuel` nested steps:
/// the state afterwards, the names that the pattern binds in front of `ve`,
/// the type, and the pattern as the match checks see it.
///
/// A missing pattern has the unknown type. A name that stands for no
/// constructor is bound to a fresh meta variable; a constructor has an
/// instance of its type, and takes an argument exactly when that is a
/// function type. A record pattern has the record type of its rows; one that
/// allows other rows and an or-pattern are not supported. A pattern with a
/// type annotation is unified with the type, which is then its type. A
/// pattern that is in error matches anything.
pub open spec fn pat_spec(n: Nodes, st: StView, env: Env, ve: ValEnv, pat: PatIdx, fuel: nat) -> (
    StView,
    ValEnv,
    Ty,
    Pat,
)
    decreases fuel, 0nat,
{
    if fuel == 0 || pat is None || pat->0 >= n.pats.len() {
        (st, ve, Ty::Unknown, Pat::Any)
    } else {
        let idx = Idx::Pat(pat->0);
        match n.pats[pat->0 as int] {
            HirPat::Wild => {
                let (st1, ty) = fresh(st);
                (st1, ve, ty, Pat::Any)
            },
            HirPat::SCon(c) => if c is Real {
                (with_error(st, idx, ErrorKind::RealPat), ve, Ty::Unknown, Pat::Any)
            } else {
                let (st1, ty) = scon_spec(st, c);
                (st1, ve, ty, leaf(Head::Lit(c)))
            },
            HirPat::Con(path, arg) => {
                let info = lookup_path(env, path);
                if info is Some && !(info->0.id_status is Val) {
                    let (st1, ty) = instantiate_spec(st, info->0.ty_scheme);
                    let head = con_head(st.syms, info->0.id_status, path.last, ty);
                    match arg {
                        None => if ty is Fn {
                            (
                                with_error(st1, idx, ErrorKind::PatMustHaveArg),
                                ve,
                                Ty::Unknown,
                                Pat::Any,
                            )
                        } else {
                            (st1, ve, ty, leaf(head))
                        },
                        Some(a) => {
                            let (st2, ve2, arg_ty, arg_pat) = pat_spec(
                                n,
                                st1,
                                env,
                                ve,
                                a,
                                (fuel - 1) as nat,
                            );
                            match ty {
                                Ty::Fn(param, res) => {
                                    let (st3, want, got) = unify_st(st2, *param, arg_ty, idx);
                                    (
                                        st3,
                                        ve2,
                                        *res,
                                        Pat::Con(
                                            head,
                                            Box::new(List::Cons(arg_pat, Box::new(List::Nil))),
                                        ),
                                    )
                                },
                                _ => (
                                    with_error(st2, idx, ErrorKind::PatMustNotHaveArg),
                                    ve2,
                                    Ty::Unknown,
                                    Pat::Any,
                                ),
                            }
                        },
                    }
                } else if !(path.structures is Nil) {
                    (with_error(st, idx, ErrorKind::Undefined), ve, Ty::Unknown, Pat::Any)
                } else if arg is Some {
                    (with_error(st, idx, ErrorKind::PatValIdStatus), ve, Ty::Unknown, Pat::Any)
                } else {
                    let (st1, ty) = fresh(st);
                    let (st2, ve2, ty2) = bind_var(st1, ve, path.last, ty, idx);
                    (st2, ve2, ty2, Pat::Any)
                }
            },
            HirPat::Record { rows, allows_other } => if allows_other {
                (with_error(st, idx, ErrorKind::Unsupported), ve, Ty::Unknown, Pat::Any)
            } else {
                pat_rows_spec(n, st, env, ve, rows@, 0, List::Nil, pat->0, (fuel - 1) as nat)
            },
            HirPat::Typed(inner, ty) => {
                let (st1, ve1, got, p) = pat_spec(n, st, env, ve, inner, (fuel - 1) as nat);
                let (st2, want) = ty_spec(n, st1, env, ty, (fuel - 1) as nat);
                let (st3, want2, _g) = unify_st(st2, want, got, idx);
                (st3, ve1, want2, p)
            },
            HirPat::As(name, inner) => {
                let (st1, ve1, ty, p) = pat_spec(n, st, env, ve, inner, (fuel - 1) as nat);
                let (st2, ve2, ty2) = bind_var(st1, ve1, name, ty, idx);
                (st2, ve2, ty2, p)
            },
            HirPat::Or(_) => (with_error(st, idx, ErrorKind::Unsupported), ve, Ty::Unknown, Pat::Any),
        }
    }
}

/// The record type and the record pattern of the rows `rows[from..]` of a
/// record pattern, with the rows `acc`. A label that comes twice is an
/// error, and its second row is left out.
pub open spec fn pat_rows_spec(
    n: Nodes,
    st: StView,
    env: Env,
    ve: ValEnv,
    rows: Seq<(Lab, PatIdx)>,
    from: int,
    acc: List<(Lab, (Ty, Pat))>,
    p: u32,
    fuel: nat,
) -> (StView, ValEnv, Ty, Pat)
    decreases fuel, 1 + rows.len() - from,
{
    if from < 0 || from >= rows.len() {
        (
            st,
            ve,
            Ty::Record(Box::new(row_tys(acc))),
            Pat::Con(Head::Record, Box::new(row_pats(acc))),
        )
    } else {
        let (st1, ve1, ty, sub) = pat_spec(n, st, env, ve, rows[from].1, fuel);
        match insert_row(acc, rows[from].0, (ty, sub)) {
            Some(acc2) => pat_rows_spec(n, st1, env, ve1, rows, from + 1, acc2, p, fuel),
            None => pat_rows_spec(
                n,
                with_error(st1, Idx::Pat(p), ErrorKind::DuplicateLab(rows[from].0)),
                env,
                ve1,
                rows,
                from + 1,
                acc,
                p,
                fuel,
            ),
        }
    }
}

/// The type of a special constant.
pub fn get_scon(st: &mut St, c: &SCon) -> (r: Ty)
    requires
        old(st).subst.wf(),
    ensures
        (final(st)@, r) == scon_spec(old(st)@, *c),
        final(st).subst.wf(),
        final(st).syms == old(st).syms,
{
    let basic = match c {
        SCon::Int(_) => BasicOverload::Int,
        SCon::Real(_) => BasicOverload::Real,
        SCon::Word(_) => BasicOverload::Word,
        SCon::Char(_) => BasicOverload::Char,
        SCon::String(_) => BasicOverload::String,
    };
    let mv = st.gen_meta_var();
    let solved = match st.subst.get(mv) {
        Some(SubstEntry::Solved(_)) => true,
        _ => false,
    };
    if !solved {
        st.subst.set_kind(mv, TyVarKind::Overloaded(Overload::Basic(basic)));
    }
    Ty::MetaVar(mv)
}

/// What a path stands for in an environment.
pub fn get_path<'a>(env: &'a Env, path: &Path) -> (r: Option<&'a ValInfo>)
    ensures
        match r {
            Some(v) => lookup_path(*env, *path) == Some(*v),
            None => lookup_path(*env, *path) is None,
        },
{
    match env.get(path.structures()) {
        None => None,
        Some(e) => get_val(&e.val_env, path.last()),
    }
}

/// Putting a row among rows that are in order keeps them in order; the
/// first row is then the new one or the first one of before.
pub proof fn lemma_insert_row_in_order<T>(rows: List<(Lab, T)>, lab: Lab, item: T)
    requires
        rows_in_order(rows),
    ensures
        insert_row(rows, lab, item) matches Some(r) ==> rows_in_order(r) && (r matches List::Cons(
            first,
            _,
        ) && (first.0@ == lab@ || (rows matches List::Cons(old, _) && first.0@ == old.0@))),
    decreases rows,
{
    match rows {
        List::Nil => {},
        List::Cons(h, t) => {
            crate::hir::lemma_lab_trichotomy(lab@, h.0@);
            if h.0@ != lab@ && !lab_less(lab@, h.0@) {
                lemma_insert_row_in_order(*t, lab, item);
            }
        },
    }
}

/// The rows with one more row, in the order of labels; nothing when a row
/// has the label already.
pub fn add_row<T>(rows: List<(Lab, T)>, lab: &Lab, ty: T) -> (r: Result<
    List<(Lab, T)>,
    (List<(Lab, T)>, T),
>)
    ensures
        match insert_row(rows, *lab, ty) {
            Some(x) => r == Ok::<List<(Lab, T)>, (List<(Lab, T)>, T)>(x),
            None => r == Err::<List<(Lab, T)>, (List<(Lab, T)>, T)>((rows, ty)),
        },
        rows_in_order(rows) ==> (r matches Ok(x) ==> rows_in_order(x)),
    decreases rows,
{
    proof {
        if rows_in_order(rows) {
            lemma_insert_row_in_order(rows, *lab, ty);
        }
    }
    match rows {
        List::Nil => Ok(List::Cons((lab.clone(), ty), Box::new(List::Nil))),
        List::Cons(h, t) => if h.0.same(lab) {
            Err((List::Cons(h, t), ty))
        } else if lab.less(&h.0) {
            Ok(List::Cons((lab.clone(), ty), Box::new(List::Cons(h, t))))
        } else {
            match add_row(*t, lab, ty) {
                Err((t2, ty)) => Err((List::Cons(h, Box::new(t2)), ty)),
                Ok(r) => Ok(List::Cons(h, Box::new(r))),
            }
        },
    }
}

/// A fresh meta variable, as a type.
pub fn fresh_ty(st: &mut St) -> (r: Ty)
    ensures
        (final(st)@, r) == fresh(old(st)@),
        final(st).subst == old(st).subst,
        final(st).syms == old(st).syms,
{
    Ty::MetaVar(st.gen_meta_var())
}

fn bind(st: &mut St, ve: &mut ValEnv, name: &Name, ty: Ty, idx: Idx) -> (r: Ty)
    ensures
        (final(st)@, *final(ve), r) == bind_var(old(st)@, *old(ve), *name, ty, idx),
        final(st).subst == old(st).subst,
        final(st).syms == old(st).syms,
{
    if get_val(ve, name).is_some() {
        st.err(idx, ErrorKind::Redefined);
        ty
    } else {
        let info = ValInfo {
            ty_scheme: TyScheme::zero(ty.clone()),
            id_status: IdStatus::Val,
            def: None,
            disallow: None,
        };
        let mut old_ve = List::Nil;
        std::mem::swap(&mut old_ve, ve);
        *ve = List::Cons((name.clone(), info), Box::new(old_ve));
        ty
    }
}

fn sym_of(ty: &Ty) -> (r: Option<Sym>)
    ensures
        r == result_sym(*ty),
{
    match ty {
        Ty::Con(_, sym) => Some(*sym),
        Ty::Fn(_, res) => match &**res {
            Ty::Con(_, sym) => Some(*sym),
            _ => None,
        },
        _ => None,
    }
}

fn head_of(syms: &Syms, status: IdStatus, name: &Name, ty: &Ty) -> (r: Head)
    ensures
        r == con_head(syms@, status, *name, *ty),
{
    match status {
        IdStatus::Exn(e) => Head::Exn(e),
        _ => match sym_of(ty) {
            Some(sym) => {
                let infos = syms.iter_syms();
                if sym.raw != SYM_EXN && ((sym.raw - 1) as usize) < infos.len() {
                    let cons = &infos[(sym.raw - 1) as usize].ty_info.val_env;
                    match cons.index_of(name) {
                        Some(i) => if cons.len() <= u32::MAX as usize {
                            Head::Dat { idx: i as u32, span: cons.len() as u32 }
                        } else {
                            Head::Open(name.clone())
                        },
                        None => Head::Open(name.clone()),
                    }
                } else {
                    Head::Open(name.clone())
                }
            },
            None => Head::Open(name.clone()),
        },
    }
}

fn split_rows(rows: List<(Lab, (Ty, Pat))>) -> (r: (List<(Lab, Ty)>, List<Pat>))
    ensures
        r.0 == row_tys(rows),
        r.1 == row_pats(rows),
    decreases rows,
{
    match rows {
        List::Nil => (List::Nil, List::Nil),
        List::Cons(h, t) => {
            let (tys, pats) = split_rows(*t);
            (List::Cons((h.0, h.1.0), Box::new(tys)), List::Cons(h.1.1, Box::new(pats)))
        },
    }
}

/// The type of a pattern, in at most `fuel` nested steps, and the pattern
/// as the match checks see it. The names that the pattern binds are put in
/// front of `ve`.
pub fn get(st: &mut St, cx: &Cx, ars: &Arenas, ve: &mut ValEnv, pat: PatIdx, fuel: u64) -> (r: (
    Ty,
    Pat,
))
    requires
        old(st).subst.wf(),
    ensures
        (final(st)@, *final(ve), r.0, r.1) == pat_spec(
            ars.nodes(),
            old(st)@,
            cx.env,
            *old(ve),
            pat,
            fuel as nat,
        ),
        final(st).subst.wf(),
    decreases fuel, 0nat,
{
    if fuel == 0 {
        return (Ty::Unknown, Pat::Any);
    }
    let p = match pat {
        None => {
            return (Ty::Unknown, Pat::Any);
        },
        Some(p) => p,
    };
    let node = match pat_at(&ars.pat, p) {
        None => {
            return (Ty::Unknown, Pat::Any);
        },
        Some(node) => node,
    };
    let idx = Idx::Pat(p);
    match node {
        HirPat::Wild => (fresh_ty(st), Pat::Any),
        HirPat::SCon(c) => match c {
            SCon::Real(_) => {
                st.err(idx, ErrorKind::RealPat);
                (Ty::Unknown, Pat::Any)
            },
            _ => (get_scon(st, c), Pat::Con(Head::Lit(c.clone()), Box::new(List::Nil))),
        },
        HirPat::Con(path, arg) => {
            let con = match get_path(&cx.env, path) {
                Some(info) => match info.id_status {
                    IdStatus::Val => None,
                    _ => Some(info),
                },
                None => None,
            };
            match con {
                Some(info) => {
                    let ghost syms0 = st.syms@;
                    let ty = instantiate(st, &info.ty_scheme);
                    let head = head_of(&st.syms, info.id_status, path.last(), &ty);
                    match arg {
                        None => match ty {
                            Ty::Fn(_, _) => {
                                st.err(idx, ErrorKind::PatMustHaveArg);
                                (Ty::Unknown, Pat::Any)
                            },
                            _ => (ty, Pat::Con(head, Box::new(List::Nil))),
                        },
                        Some(a) => {
                            let (mut arg_ty, arg_pat) = get(st, cx, ars, ve, *a, fuel - 1);
                            match ty {
                                Ty::Fn(param, res) => {
                                    let mut want = *param;
                                    unify(st, &mut want, &mut arg_ty, idx);
                                    (
                                        *res,
                                        Pat::Con(
                                            head,
                                            Box::new(List::Cons(arg_pat, Box::new(List::Nil))),
                                        ),
                                    )
                                },
                                _ => {
                                    st.err(idx, ErrorKind::PatMustNotHaveArg);
                                    (Ty::Unknown, Pat::Any)
                                },
                            }
                        },
                    }
                },
                None => {
                    if !path.structures().is_empty() {
                        st.err(idx, ErrorKind::Undefined);
                        (Ty::Unknown, Pat::Any)
                    } else if arg.is_some() {
                        st.err(idx, ErrorKind::PatValIdStatus);
                        (Ty::Unknown, Pat::Any)
                    } else {
                        let ty = fresh_ty(st);
                        (bind(st, ve, path.last(), ty, idx), Pat::Any)
                    }
                },
            }
        },
        HirPat::Record { rows, allows_other } => {
            if *allows_other {
                st.err(idx, ErrorKind::Unsupported);
                (Ty::Unknown, Pat::Any)
            } else {
                get_rows(st, cx, ars, ve, rows, 0, List::Nil, p, fuel - 1)
            }
        },
        HirPat::Typed(inner, ty) => {
            let (mut got, p) = get(st, cx, ars, ve, *inner, fuel - 1);
            let mut want = crate::statics::ty::get(st, cx, ars, *ty, fuel - 1);
            unify(st, &mut want, &mut got, idx);
            (want, p)
        },
        HirPat::As(name, inner) => {
            let (ty, p) = get(st, cx, ars, ve, *inner, fuel - 1);
            (bind(st, ve, name, ty, idx), p)
        },
        HirPat::Or(_) => {
            st.err(idx, ErrorKind::Unsupported);
            (Ty::Unknown, Pat::Any)
        },
    }
}

fn get_rows(
    st: &mut St,
    cx: &Cx,
    ars: &Arenas,
    ve: &mut ValEnv,
    rows: &Vec<(Lab, PatIdx)>,
    from: usize,
    acc: List<(Lab, (Ty, Pat))>,
    p: u32,
    fuel: u64,
) -> (r: (Ty, Pat))
    requires
        old(st).subst.wf(),
    ensures
        (final(st)@, *final(ve), r.0, r.1) == pat_rows_spec(
            ars.nodes(),
            old(st)@,
            cx.env,
            *old(ve),
            rows@,
            from as int,
            acc,
            p,
            fuel as nat,
        ),
        final(st).subst.wf(),
    decreases fuel, 1 + rows.len() - from,
{
    if from >= rows.len() {
        let (tys, pats) = split_rows(acc);
        return (Ty::Record(Box::new(tys)), Pat::Con(Head::Record, Box::new(pats)));
    }
    let (ty, sub) = get(st, cx, ars, ve, rows[from].1, fuel);
    match add_row(acc, &rows[from].0, (ty, sub)) {
        Err((acc, _)) => {
            st.err(Idx::Pat(p), ErrorKind::DuplicateLab(rows[from].0.clone()));
            get_rows(st, cx, ars, ve, rows, from + 1, acc, p, fuel)
        },
        Ok(acc2) => get_rows(st, cx, ars, ve, rows, from + 1, acc2, p, fuel),
    }
}

} // verus!

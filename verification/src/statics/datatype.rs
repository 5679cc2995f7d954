//! Declarations of types: abbreviations and datatypes.

use crate::hir::{Arenas, ConBind, DatBind, Idx, Name, Nodes, Path, TyBind, TyVar};
use crate::list::List;
use crate::statics::env::{clone_ty_env, extended, Cx, Env, StrEnv, TyEnv, ValEnv};
use crate::statics::error::ErrorKind;
use crate::statics::info::{position, IdStatus, SymValEnv, TyInfo, ValInfo};
use crate::statics::st::{with_error, St, StView};
use crate::statics::sym::{infos_v, Equality, SymInfoV, SymsView};
use crate::statics::ty::ty_spec;
use crate::statics::types::{FixedTyVar, Sym, Ty, TyScheme, TyVarKind, SYM_EXN};
use crate::statics::util::{bind_all_fixed, bind_fixed, fixed_kinds, kinds_of_fixed, next_pos};
use vstd::prelude::*;

verus! {

/// The type variables `vars[from..]` of a binding, each standing for
/// itself.
pub open spec fn fixed_vars_of(vars: Seq<TyVar>, from: int) -> List<FixedTyVar>
    decreases vars.len() - from,
{
    if from < 0 || from >= vars.len() {
        List::Nil
    } else {
        List::Cons(
            FixedTyVar { id: 0, ty_var: vars[from] },
            Box::new(fixed_vars_of(vars, from + 1)),
        )
    }
}

/// A bound variable for each of the kinds, counted from `from`.
pub open spec fn bound_args(kinds: List<TyVarKind>, from: u32) -> List<Ty>
    decreases kinds,
{
    match kinds {
        List::Nil => List::Nil,
        List::Cons(_, t) => List::Cons(Ty::BoundVar(from), Box::new(bound_args(*t, next_pos(from)))),
    }
}

/// The scheme of a type under the type variables of its binding: the type
/// variables become the bound variables, in order.
pub open spec fn closed_scheme(vars: Seq<TyVar>, ty: Ty) -> TyScheme {
    let fixed = fixed_vars_of(vars, 0);
    TyScheme { bound_vars: fixed_kinds(fixed), ty: bind_fixed(ty, fixed, 0) }
}

/// The type that a datatype makes of its arguments.
pub open spec fn dat_scheme(vars: Seq<TyVar>, sym: Sym) -> TyScheme {
    let kinds = fixed_kinds(fixed_vars_of(vars, 0));
    TyScheme { bound_vars: kinds, ty: Ty::Con(Box::new(bound_args(kinds, 0)), sym) }
}

/// The type abbreviations `binds[from..]`, in front of `te`: each name
/// stands for the type on its right, written in the environment around
/// the declaration.
pub open spec fn ty_binds_spec(
    n: Nodes,
    st: StView,
    env: Env,
    binds: Seq<TyBind>,
    from: int,
    te: TyEnv,
    fuel: nat,
) -> (StView, TyEnv)
    decreases binds.len() - from,
{
    if from < 0 || from >= binds.len() {
        (st, te)
    } else {
        let (st1, ty) = ty_spec(n, st, env, binds[from].ty, fuel);
        ty_binds_spec(
            n,
            st1,
            env,
            binds,
            from + 1,
            List::Cons(
                (binds[from].name, closed_scheme(binds[from].ty_vars@, ty)),
                Box::new(te),
            ),
            fuel,
        )
    }
}

/// What the table of symbols knows of a datatype before its constructors
/// were checked.
pub open spec fn started(name: Name) -> SymInfoV {
    SymInfoV {
        path: Path { structures: List::Nil, last: name },
        ty_scheme: TyScheme { bound_vars: List::Nil, ty: Ty::Unknown },
        cons: Seq::empty(),
        def: None,
        disallow: None,
        equality: Equality::Sometimes,
    }
}

/// A new symbol for a datatype, unless the symbols have run out.
pub open spec fn start_spec(st: StView, name: Name) -> (StView, Option<Sym>) {
    if st.syms.infos.len() < u32::MAX {
        (
            StView {
                syms: SymsView { infos: st.syms.infos.push(started(name)), ..st.syms },
                ..st
            },
            Some(Sym { raw: (st.syms.infos.len() + 1) as u32 }),
        )
    } else {
        (st, None)
    }
}

/// A new symbol for each of the datatypes `dats[from..]`, and the types
/// that their names stand for. A datatype for which no symbol is left is
/// not supported.
pub open spec fn starts_spec(st: StView, dats: Seq<DatBind>, from: int, d: u32) -> (
    StView,
    List<Option<Sym>>,
    TyEnv,
)
    decreases dats.len() - from,
{
    if from < 0 || from >= dats.len() {
        (st, List::Nil, List::Nil)
    } else {
        let (st1, sym) = start_spec(st, dats[from].name);
        let st2 = if sym is None {
            with_error(st1, Idx::Dec(d), ErrorKind::Unsupported)
        } else {
            st1
        };
        let (st3, rest, te) = starts_spec(st2, dats, from + 1, d);
        (
            st3,
            List::Cons(sym, Box::new(rest)),
            match sym {
                Some(s) => List::Cons(
                    (dats[from].name, dat_scheme(dats[from].ty_vars@, s)),
                    Box::new(te),
                ),
                None => te,
            },
        )
    }
}

/// The constructors with one more: a new name goes behind the others, a
/// known name keeps its place and gets the new value.
pub open spec fn env_insert(acc: Seq<(Name, ValInfo)>, name: Name, info: ValInfo) -> Seq<
    (Name, ValInfo),
> {
    match position(acc, name@) {
        None => acc.push((name, info)),
        Some(i) => acc.update(i, (acc[i].0, info)),
    }
}

/// The constructors `cons[from..]` of a datatype: a constructor without
/// argument has the type of the datatype, one with an argument is a
/// function from the type of the argument to the type of the datatype.
/// `acc` are the constructors so far as the datatype knows them, `ve` as
/// the declaration brings them into scope.
pub open spec fn cons_spec(
    n: Nodes,
    st: StView,
    env: Env,
    cons: Seq<ConBind>,
    from: int,
    vars: Seq<TyVar>,
    sym: Sym,
    acc: Seq<(Name, ValInfo)>,
    ve: ValEnv,
    fuel: nat,
) -> (StView, Seq<(Name, ValInfo)>, ValEnv)
    decreases cons.len() - from,
{
    if from < 0 || from >= cons.len() {
        (st, acc, ve)
    } else {
        let c = cons[from];
        let whole = dat_scheme(vars, sym);
        let (st1, ty) = match c.ty {
            None => (st, whole.ty),
            Some(t) => {
                let (s1, arg) = ty_spec(n, st, env, t, fuel);
                (
                    s1,
                    Ty::Fn(
                        Box::new(bind_fixed(arg, fixed_vars_of(vars, 0), 0)),
                        Box::new(whole.ty),
                    ),
                )
            },
        };
        let info = ValInfo {
            ty_scheme: TyScheme { bound_vars: whole.bound_vars, ty },
            id_status: IdStatus::Con,
            def: None,
            disallow: None,
        };
        cons_spec(
            n,
            st1,
            env,
            cons,
            from + 1,
            vars,
            sym,
            env_insert(acc, c.name, info),
            List::Cons((c.name, info), Box::new(ve)),
            fuel,
        )
    }
}

/// The table of symbols after a datatype was checked: the symbol knows its
/// type and its constructors.
pub open spec fn finish_spec(
    st: StView,
    sym: Sym,
    scheme: TyScheme,
    cons: Seq<(Name, ValInfo)>,
) -> StView {
    if st.syms.has(sym) {
        StView {
            syms: SymsView {
                infos: st.syms.infos.update(
                    sym.idx(),
                    SymInfoV {
                        path: st.syms.infos[sym.idx()].path,
                        ty_scheme: scheme,
                        cons,
                        def: None,
                        disallow: None,
                        equality: Equality::Sometimes,
                    },
                ),
                ..st.syms
            },
            ..st
        }
    } else {
        st
    }
}

/// The constructors of the datatypes `dats[from..]`, whose symbols are
/// `syms`, in front of `ve`.
pub open spec fn dats_spec(
    n: Nodes,
    st: StView,
    env: Env,
    dats: Seq<DatBind>,
    from: int,
    syms: List<Option<Sym>>,
    ve: ValEnv,
    fuel: nat,
) -> (StView, ValEnv)
    decreases dats.len() - from,
{
    if from < 0 || from >= dats.len() {
        (st, ve)
    } else {
        match syms {
            List::Nil => (st, ve),
            List::Cons(sym, rest) => match sym {
                None => dats_spec(n, st, env, dats, from + 1, *rest, ve, fuel),
                Some(s) => {
                    let vars = dats[from].ty_vars@;
                    let (st1, cons, ve1) = cons_spec(
                        n,
                        st,
                        env,
                        dats[from].cons@,
                        0,
                        vars,
                        s,
                        Seq::empty(),
                        ve,
                        fuel,
                    );
                    dats_spec(
                        n,
                        finish_spec(st1, s, dat_scheme(vars, s), cons),
                        env,
                        dats,
                        from + 1,
                        *rest,
                        ve1,
                        fuel,
                    )
                },
            },
        }
    }
}

/// The environment that holds these types and nothing else.
pub open spec fn env_of_tys(te: TyEnv) -> Env {
    Env { str_env: StrEnv::Nil, ty_env: Box::new(te), val_env: Box::new(List::Nil) }
}

/// A declaration of type abbreviations: what it brings into scope.
pub open spec fn ty_dec_spec(n: Nodes, st: StView, env: Env, binds: Seq<TyBind>, fuel: nat) -> (
    StView,
    Env,
) {
    let (st1, te) = ty_binds_spec(n, st, env, binds, 0, List::Nil, fuel);
    (st1, env_of_tys(te))
}

/// A declaration of datatypes: every datatype gets a new symbol, and its
/// name stands for the type of that symbol. The types of the constructors
/// are written in the environment around the declaration with the new
/// types in it, so that a datatype may speak of itself and of the others.
/// The types behind `withtype` are abbreviations in that environment. The
/// declaration brings the types and the constructors into scope.
pub open spec fn dat_dec_spec(
    n: Nodes,
    st: StView,
    env: Env,
    dats: Seq<DatBind>,
    with_type: Seq<TyBind>,
    d: u32,
    fuel: nat,
) -> (StView, Env) {
    let (st1, syms, te) = starts_spec(st, dats, 0, d);
    let inner = extended(env, env_of_tys(te));
    let (st2, ve) = dats_spec(n, st1, inner, dats, 0, syms, List::Nil, fuel);
    let (st3, te2) = ty_binds_spec(n, st2, inner, with_type, 0, te, fuel);
    (st3, Env { str_env: StrEnv::Nil, ty_env: Box::new(te2), val_env: Box::new(ve) })
}

/// The constructors `cons[from..]` as values in scope, in order.
pub open spec fn cons_list(cons: Seq<(Name, ValInfo)>, from: int) -> ValEnv
    decreases cons.len() - from,
{
    if from < 0 || from >= cons.len() {
        List::Nil
    } else {
        List::Cons(cons[from], Box::new(cons_list(cons, from + 1)))
    }
}

/// The constructors of the datatype that a type scheme is the type of;
/// none where the type is no datatype of the table of symbols.
pub open spec fn cons_of_scheme(syms: SymsView, scheme: TyScheme) -> ValEnv {
    match scheme.ty {
        Ty::Con(_, sym) => if syms.has(sym) {
            cons_list(syms.infos[sym.idx()].cons, 0)
        } else {
            List::Nil
        },
        _ => List::Nil,
    }
}

/// A copy of a datatype: the name stands for the type that the path stands
/// for, and the constructors of that type come into scope. A path that
/// stands for no type is an error.
pub open spec fn dat_copy_spec(st: StView, env: Env, name: Name, path: Path, d: u32) -> (
    StView,
    Env,
) {
    match crate::statics::ty::lookup_ty_path(env, path) {
        None => (
            with_error(st, Idx::Dec(d), ErrorKind::Undefined),
            Env {
                str_env: StrEnv::Nil,
                ty_env: Box::new(List::Nil),
                val_env: Box::new(List::Nil),
            },
        ),
        Some(scheme) => (
            st,
            Env {
                str_env: StrEnv::Nil,
                ty_env: Box::new(List::Cons((name, scheme), Box::new(List::Nil))),
                val_env: Box::new(cons_of_scheme(st.syms, scheme)),
            },
        ),
    }
}

fn list_of_cons(cons: &Vec<(Name, ValInfo)>, from: usize) -> (r: ValEnv)
    ensures
        r == cons_list(cons@, from as int),
    decreases cons.len() - from,
{
    if from >= cons.len() {
        List::Nil
    } else {
        List::Cons(
            (cons[from].0.clone(), cons[from].1.clone()),
            Box::new(list_of_cons(cons, from + 1)),
        )
    }
}

/// What a copy of a datatype brings into scope.
pub fn dat_copy(st: &mut St, cx: &Cx, name: &Name, path: &Path, d: u32) -> (r: Env)
    ensures
        (final(st)@, r) == dat_copy_spec(old(st)@, cx.env, *name, *path, d),
        final(st).subst == old(st).subst,
{
    match crate::statics::ty::get_ty_path(&cx.env, path) {
        None => {
            st.err(Idx::Dec(d), ErrorKind::Undefined);
            Env { str_env: StrEnv::Nil, ty_env: Box::new(List::Nil), val_env: Box::new(List::Nil) }
        },
        Some(scheme) => {
            let ve = match &scheme.ty {
                Ty::Con(_, sym) => {
                    let infos = st.syms.iter_syms();
                    if sym.raw != SYM_EXN && ((sym.raw - 1) as usize) < infos.len() {
                        list_of_cons(infos[(sym.raw - 1) as usize].ty_info.val_env.iter(), 0)
                    } else {
                        List::Nil
                    }
                },
                _ => List::Nil,
            };
            Env {
                str_env: StrEnv::Nil,
                ty_env: Box::new(List::Cons((name.clone(), scheme.clone()), Box::new(List::Nil))),
                val_env: Box::new(ve),
            }
        },
    }
}

fn fixed_vars(vars: &Vec<TyVar>, from: usize) -> (r: List<FixedTyVar>)
    ensures
        r == fixed_vars_of(vars@, from as int),
    decreases vars.len() - from,
{
    if from >= vars.len() {
        List::Nil
    } else {
        List::Cons(
            FixedTyVar { id: 0, ty_var: vars[from].clone() },
            Box::new(fixed_vars(vars, from + 1)),
        )
    }
}

fn args_of(kinds: &List<TyVarKind>, from: u32) -> (r: List<Ty>)
    ensures
        r == bound_args(*kinds, from),
    decreases *kinds,
{
    match kinds {
        List::Nil => List::Nil,
        List::Cons(_, t) => {
            let next = if from < u32::MAX {
                from + 1
            } else {
                from
            };
            List::Cons(Ty::BoundVar(from), Box::new(args_of(t, next)))
        },
    }
}

fn close(vars: &Vec<TyVar>, ty: Ty) -> (r: TyScheme)
    ensures
        r == closed_scheme(vars@, ty),
{
    let fixed = fixed_vars(vars, 0);
    let bound_vars = kinds_of_fixed(&fixed);
    TyScheme { bound_vars, ty: bind_all_fixed(ty, &fixed, 0) }
}

fn scheme_of(vars: &Vec<TyVar>, sym: Sym) -> (r: TyScheme)
    ensures
        r == dat_scheme(vars@, sym),
{
    let fixed = fixed_vars(vars, 0);
    let kinds = kinds_of_fixed(&fixed);
    let args = args_of(&kinds, 0);
    TyScheme { bound_vars: kinds, ty: Ty::Con(Box::new(args), sym) }
}

fn ty_binds(
    st: &mut St,
    cx: &Cx,
    ars: &Arenas,
    binds: &Vec<TyBind>,
    from: usize,
    te: TyEnv,
    fuel: u64,
) -> (r: TyEnv)
    ensures
        (final(st)@, r) == ty_binds_spec(
            ars.nodes(),
            old(st)@,
            cx.env,
            binds@,
            from as int,
            te,
            fuel as nat,
        ),
        final(st).subst == old(st).subst,
        final(st).syms == old(st).syms,
    decreases binds.len() - from,
{
    if from >= binds.len() {
        return te;
    }
    let ty = crate::statics::ty::get(st, cx, ars, binds[from].ty, fuel);
    let scheme = close(&binds[from].ty_vars, ty);
    let te = List::Cons((binds[from].name.clone(), scheme), Box::new(te));
    ty_binds(st, cx, ars, binds, from + 1, te, fuel)
}

/// What a declaration of type abbreviations brings into scope.
pub fn ty_dec(st: &mut St, cx: &Cx, ars: &Arenas, binds: &Vec<TyBind>, fuel: u64) -> (r: Env)
    ensures
        (final(st)@, r) == ty_dec_spec(ars.nodes(), old(st)@, cx.env, binds@, fuel as nat),
        final(st).subst == old(st).subst,
{
    let te = ty_binds(st, cx, ars, binds, 0, List::Nil, fuel);
    Env { str_env: StrEnv::Nil, ty_env: Box::new(te), val_env: Box::new(List::Nil) }
}

fn start(st: &mut St, name: &Name) -> (r: Option<Sym>)
    ensures
        (final(st)@, r) == start_spec(old(st)@, *name),
        final(st).subst == old(st).subst,
{
    if st.syms.iter_syms().len() < u32::MAX as usize {
        let ghost before = st.syms.infos();
        let s = st.syms.start(Path::one(name.clone()));
        let sym = s.sym();
        st.syms.finish(
            s,
            TyInfo {
                ty_scheme: TyScheme::zero(Ty::Unknown),
                val_env: SymValEnv::new(),
                def: None,
                disallow: None,
            },
            Equality::Sometimes,
        );
        proof {
            let after = st.syms.infos();
            assert(after.len() == before.len() + 1);
            assert forall|i: int| 0 <= i < after.len() implies #[trigger] infos_v(after)[i]
                == infos_v(before).push(started(*name))[i] by {
                if i < before.len() {
                    assert(after[i] == before[i]);
                }
            }
            assert(infos_v(after) =~= infos_v(before).push(started(*name)));
        }
        Some(sym)
    } else {
        None
    }
}

fn starts(st: &mut St, dats: &Vec<DatBind>, from: usize, d: u32) -> (r: (List<Option<Sym>>, TyEnv))
    ensures
        (final(st)@, r.0, r.1) == starts_spec(old(st)@, dats@, from as int, d),
        final(st).subst == old(st).subst,
    decreases dats.len() - from,
{
    if from >= dats.len() {
        return (List::Nil, List::Nil);
    }
    let sym = start(st, &dats[from].name);
    if sym.is_none() {
        st.err(Idx::Dec(d), ErrorKind::Unsupported);
    }
    let (rest, te) = starts(st, dats, from + 1, d);
    let te = match sym {
        Some(s) => List::Cons(
            (dats[from].name.clone(), scheme_of(&dats[from].ty_vars, s)),
            Box::new(te),
        ),
        None => te,
    };
    (List::Cons(sym, Box::new(rest)), te)
}

fn cons_of(
    st: &mut St,
    cx: &Cx,
    ars: &Arenas,
    cons: &Vec<ConBind>,
    from: usize,
    vars: &Vec<TyVar>,
    sym: Sym,
    acc: SymValEnv,
    ve: ValEnv,
    fuel: u64,
) -> (r: (SymValEnv, ValEnv))
    requires
        acc.wf(),
    ensures
        (final(st)@, r.0@, r.1) == cons_spec(
            ars.nodes(),
            old(st)@,
            cx.env,
            cons@,
            from as int,
            vars@,
            sym,
            acc@,
            ve,
            fuel as nat,
        ),
        r.0.wf(),
        final(st).subst == old(st).subst,
        final(st).syms == old(st).syms,
    decreases cons.len() - from,
{
    if from >= cons.len() {
        return (acc, ve);
    }
    let c = &cons[from];
    let whole = scheme_of(vars, sym);
    let TyScheme { bound_vars, ty: whole_ty } = whole;
    let ty = match c.ty {
        None => whole_ty,
        Some(t) => {
            let arg = crate::statics::ty::get(st, cx, ars, t, fuel);
            let fixed = fixed_vars(vars, 0);
            Ty::Fn(Box::new(bind_all_fixed(arg, &fixed, 0)), Box::new(whole_ty))
        },
    };
    let info = ValInfo {
        ty_scheme: TyScheme { bound_vars, ty },
        id_status: IdStatus::Con,
        def: None,
        disallow: None,
    };
    let mut acc = acc;
    acc.insert(c.name.clone(), info.clone());
    let ve = List::Cons((c.name.clone(), info), Box::new(ve));
    cons_of(st, cx, ars, cons, from + 1, vars, sym, acc, ve, fuel)
}

fn finish(st: &mut St, sym: Sym, scheme: TyScheme, cons: SymValEnv)
    ensures
        final(st)@ == finish_spec(old(st)@, sym, scheme, cons@),
        final(st).subst == old(st).subst,
{
    if sym.raw != SYM_EXN && ((sym.raw - 1) as usize) < st.syms.iter_syms().len() {
        let ghost before = st.syms.infos();
        let s = st.syms.restart(sym);
        st.syms.finish(
            s,
            TyInfo { ty_scheme: scheme, val_env: cons, def: None, disallow: None },
            Equality::Sometimes,
        );
        proof {
            let after = st.syms.infos();
            let want = SymInfoV {
                path: infos_v(before)[sym.idx()].path,
                ty_scheme: scheme,
                cons: cons@,
                def: None,
                disallow: None,
                equality: Equality::Sometimes,
            };
            assert(infos_v(after) =~= infos_v(before).update(sym.idx(), want));
        }
    }
}

fn dats_of(
    st: &mut St,
    cx: &Cx,
    ars: &Arenas,
    dats: &Vec<DatBind>,
    from: usize,
    syms: &List<Option<Sym>>,
    ve: ValEnv,
    fuel: u64,
) -> (r: ValEnv)
    ensures
        (final(st)@, r) == dats_spec(
            ars.nodes(),
            old(st)@,
            cx.env,
            dats@,
            from as int,
            *syms,
            ve,
            fuel as nat,
        ),
        final(st).subst == old(st).subst,
    decreases dats.len() - from,
{
    if from >= dats.len() {
        return ve;
    }
    match syms {
        List::Nil => ve,
        List::Cons(sym, rest) => match sym {
            None => dats_of(st, cx, ars, dats, from + 1, rest, ve, fuel),
            Some(s) => {
                let (cons, ve1) = cons_of(
                    st,
                    cx,
                    ars,
                    &dats[from].cons,
                    0,
                    &dats[from].ty_vars,
                    *s,
                    SymValEnv::new(),
                    ve,
                    fuel,
                );
                finish(st, *s, scheme_of(&dats[from].ty_vars, *s), cons);
                dats_of(st, cx, ars, dats, from + 1, rest, ve1, fuel)
            },
        },
    }
}

/// What a declaration of datatypes brings into scope.
pub fn dat_dec(
    st: &mut St,
    cx: &Cx,
    ars: &Arenas,
    dats: &Vec<DatBind>,
    with_type: &Vec<TyBind>,
    d: u32,
    fuel: u64,
) -> (r: Env)
    ensures
        (final(st)@, r) == dat_dec_spec(
            ars.nodes(),
            old(st)@,
            cx.env,
            dats@,
            with_type@,
            d,
            fuel as nat,
        ),
        final(st).subst == old(st).subst,
{
    let (syms, te) = starts(st, dats, 0, d);
    let mut inner = cx.clone();
    inner.env.extend(
        Env {
            str_env: StrEnv::Nil,
            ty_env: Box::new(clone_ty_env(&te)),
            val_env: Box::new(List::Nil),
        },
    );
    let ve = dats_of(st, &inner, ars, dats, 0, &syms, List::Nil, fuel);
    let te2 = ty_binds(st, &inner, ars, with_type, 0, te, fuel);
    Env { str_env: StrEnv::Nil, ty_env: Box::new(te2), val_env: Box::new(ve) }
}

} // verus!

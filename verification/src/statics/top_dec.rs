//! Declarations at the top of a file and in structures.

use crate::hir::{str_dec_at, Arenas, Idx, Nodes, StrDec, StrDecIdx, TopDec};
use crate::statics::dec::{dec_spec, no_env};
use crate::statics::env::{clone_env, extended, Cx, Env};
use crate::statics::error::ErrorKind;
use crate::statics::st::{with_error, St, StView};
use vstd::prelude::*;

verus! {

/// What a structure-level declaration brings into scope in an environment,
/// in at most `fuel` nested steps. Declarations of structures, signatures
/// and functors are not supported.
pub open spec fn str_dec_spec(n: Nodes, st: StView, env: Env, str_dec: StrDecIdx, fuel: nat) -> (
    StView,
    Env,
)
    decreases fuel, 0nat,
{
    if fuel == 0 || str_dec is None || str_dec->0 >= n.str_decs.len() {
        (st, no_env())
    } else {
        let d = str_dec->0;
        let f = (fuel - 1) as nat;
        match n.str_decs[d as int] {
            StrDec::Dec(dec) => dec_spec(n, st, env, dec, f),
            StrDec::Local(local, body) => {
                let (st1, inner) = str_dec_spec(n, st, env, local, f);
                str_dec_spec(n, st1, extended(env, inner), body, f)
            },
            StrDec::Sequence(decs) => str_seq_spec(n, st, env, decs@, 0, no_env(), f),
            StrDec::Structure(_) | StrDec::Signature(_) | StrDec::Functor(_) => (
                with_error(st, Idx::StrDec(d), ErrorKind::Unsupported),
                no_env(),
            ),
        }
    }
}

/// The declarations `decs[from..]` in sequence: each sees the names of
/// those before it.
pub open spec fn str_seq_spec(
    n: Nodes,
    st: StView,
    env: Env,
    decs: Seq<StrDecIdx>,
    from: int,
    acc: Env,
    fuel: nat,
) -> (StView, Env)
    decreases fuel, 1 + decs.len() - from,
{
    if from < 0 || from >= decs.len() {
        (st, acc)
    } else {
        let (st1, one) = str_dec_spec(n, st, extended(env, acc), decs[from], fuel);
        str_seq_spec(n, st1, env, decs, from + 1, extended(acc, one), fuel)
    }
}

/// What a top-level declaration does to the state and to the environment:
/// what a structure-level declaration brings into scope is added to the
/// environment; signatures and functors are not supported.
pub open spec fn top_dec_spec(n: Nodes, st: StView, env: Env, top_dec: TopDec, idx: Idx, fuel: nat) -> (
    StView,
    Env,
) {
    match top_dec {
        TopDec::Str(str_dec) => {
            let (st1, more) = str_dec_spec(n, st, env, str_dec, fuel);
            (st1, extended(env, more))
        },
        TopDec::Sig(_) | TopDec::Functor(_) => (with_error(st, idx, ErrorKind::Unsupported), env),
    }
}

fn get_seq(
    st: &mut St,
    cx: &Cx,
    ars: &Arenas,
    decs: &Vec<StrDecIdx>,
    from: usize,
    acc: Env,
    fuel: u64,
) -> (r: Env)
    requires
        old(st).subst.wf(),
    ensures
        (final(st)@, r) == str_seq_spec(
            ars.nodes(),
            old(st)@,
            cx.env,
            decs@,
            from as int,
            acc,
            fuel as nat,
        ),
        final(st).subst.wf(),
    decreases fuel, 1 + decs.len() - from,
{
    if from >= decs.len() {
        return acc;
    }
    let mut cx2 = cx.clone();
    cx2.env.extend(clone_env(&acc));
    let one = get_str_dec(st, &cx2, ars, decs[from], fuel);
    let mut acc = acc;
    acc.extend(one);
    get_seq(st, cx, ars, decs, from + 1, acc, fuel)
}

/// What a structure-level declaration brings into scope, in at most `fuel`
/// nested steps.
pub fn get_str_dec(st: &mut St, cx: &Cx, ars: &Arenas, str_dec: StrDecIdx, fuel: u64) -> (r: Env)
    requires
        old(st).subst.wf(),
    ensures
        (final(st)@, r) == str_dec_spec(ars.nodes(), old(st)@, cx.env, str_dec, fuel as nat),
        final(st).subst.wf(),
    decreases fuel, 0nat,
{
    if fuel == 0 {
        return Env::new();
    }
    let d = match str_dec {
        None => {
            return Env::new();
        },
        Some(d) => d,
    };
    let node = match str_dec_at(&ars.str_dec, d) {
        None => {
            return Env::new();
        },
        Some(node) => node,
    };
    let f = fuel - 1;
    match node {
        StrDec::Dec(dec) => crate::statics::dec::get(st, cx, ars, *dec, f),
        StrDec::Local(local, body) => {
            let inner = get_str_dec(st, cx, ars, *local, f);
            let mut cx2 = cx.clone();
            cx2.env.extend(inner);
            get_str_dec(st, &cx2, ars, *body, f)
        },
        StrDec::Sequence(decs) => get_seq(st, cx, ars, decs, 0, Env::new(), f),
        StrDec::Structure(_) | StrDec::Signature(_) | StrDec::Functor(_) => {
            st.err(Idx::StrDec(d), ErrorKind::Unsupported);
            Env::new()
        },
    }
}

/// Checks a top-level declaration, and adds what it brings into scope to
/// the environment of the context.
pub fn get(st: &mut St, cx: &mut Cx, ars: &Arenas, top_dec: &TopDec, idx: Idx, fuel: u64)
    requires
        old(st).subst.wf(),
    ensures
        (final(st)@, final(cx).env) == top_dec_spec(
            ars.nodes(),
            old(st)@,
            old(cx).env,
            *top_dec,
            idx,
            fuel as nat,
        ),
        final(st).subst.wf(),
{
    match top_dec {
        TopDec::Str(str_dec) => {
            let more = get_str_dec(st, cx, ars, *str_dec, fuel);
            cx.env.extend(more);
        },
        TopDec::Sig(_) => st.err(idx, ErrorKind::Unsupported),
        TopDec::Functor(_) => st.err(idx, ErrorKind::Unsupported),
    }
}

} // verus!

//! Stepping a stack machine.

use crate::dynamics::pat_match::{first_arm, first_match, get, match_spec, Program};
use crate::dynamics::types::{
    clone_env, env_at, get_val, has_row, lookup_val, rows_have, Arm, Closure, Con,
    ConKind, Cx, Env, Exception, Frame, FrameKind, St, Step, Val, ValEnv,
};
use crate::hir::{
    clone_names, dec_at, exp_at, pat_at, Dec, DecIdx, Exp, ExpIdx, Lab, LabKey, Name, Pat, PatIdx, ValBind,
};
use crate::list::{list_from_vec, list_of, List};
use crate::statics::info::IdStatus;
use vstd::prelude::*;

verus! {

broadcast use vstd::std_specs::hash::group_hash_axioms;

/// What one step gives: what to work on next, and whether the step shows to
/// the user. Nothing, when the machine has no step for the state it is in.
pub type Outcome = Option<(Step, bool)>;

/// On to an expression, which must be there.
pub open spec fn go_exp(e: ExpIdx, visible: bool) -> Outcome {
    match e {
        None => None,
        Some(i) => Some((Step::Exp(i), visible)),
    }
}

/// On to a declaration, which must be there.
pub open spec fn go_dec(d: DecIdx, visible: bool) -> Outcome {
    match d {
        None => None,
        Some(i) => Some((Step::Dec(i), visible)),
    }
}

/// The state with a frame on the stack.
pub open spec fn push_frame(st: St, frame: Frame) -> St {
    St { env: st.env, frames: List::Cons(frame, Box::new(st.frames)) }
}

/// The state with a frame of the given kind, with the current environment,
/// on the stack.
pub open spec fn push(st: St, kind: FrameKind) -> St {
    push_frame(st, Frame { env: st.env, kind })
}

/// The arms of a matcher, in order.
pub open spec fn arms_of(s: Seq<(PatIdx, ExpIdx)>) -> List<Arm>
    decreases s.len(),
{
    if s.len() == 0 {
        List::Nil
    } else {
        List::Cons(Arm { pat: s[0].0, exp: s[0].1 }, Box::new(arms_of(s.skip(1))))
    }
}

/// Whether the rows are those of a tuple: not one row, and the labels count
/// up from 1.
pub open spec fn is_tuple_spec(rows: Seq<(Lab, ExpIdx)>) -> bool {
    rows.len() != 1 && forall|i: int|
        0 <= i < rows.len() ==> (#[trigger] rows[i]).0@ == LabKey::Num((i + 1) as nat)
}

/// Whether the list holds the name.
pub open spec fn has_name(names: List<Name>, name: Seq<char>) -> bool
    decreases names,
{
    match names {
        List::Nil => false,
        List::Cons(h, t) => h@ == name || has_name(*t, name),
    }
}

/// The list with the name in front, unless it holds the name already.
pub open spec fn insert_name(names: List<Name>, name: Name) -> List<Name> {
    if has_name(names, name@) {
        names
    } else {
        List::Cons(name, Box::new(names))
    }
}

/// The names that the pattern of a recursive binding binds, in front of
/// `ac`, or nothing when the pattern is none that a function can be bound
/// to. Only a pattern below `limit` is looked at.
pub open spec fn rec_names(pats: Seq<Pat>, pat: PatIdx, limit: nat, ac: List<Name>) -> Option<
    List<Name>,
>
    decreases limit,
{
    match pat {
        None => None,
        Some(i) => if i >= limit || i >= pats.len() {
            None
        } else {
            match pats[i as int] {
                Pat::Wild => Some(ac),
                Pat::Con(path, arg) => if arg is Some || !(path.structures is Nil) {
                    None
                } else {
                    Some(insert_name(ac, path.spec_last()))
                },
                Pat::Typed(inner, _) => rec_names(pats, inner, i as nat, ac),
                Pat::As(name, inner) => rec_names(pats, inner, i as nat, insert_name(ac, name)),
                Pat::SCon(_) => None,
                Pat::Record { rows, allows_other } => None,
                Pat::Or(_) => None,
            }
        },
    }
}

/// The values with every name of `names` bound to the closure, in front.
pub open spec fn bind_this(names: List<Name>, clos: Closure, env: ValEnv) -> ValEnv
    decreases names,
{
    match names {
        List::Nil => env,
        List::Cons(n, rest) => bind_this(
            *rest,
            clos,
            List::Cons((n, Val::Closure(Box::new(clos))), Box::new(env)),
        ),
    }
}

/// The environment with the bindings `ac` in front of its values.
pub open spec fn with_vals(env: Env, ac: ValEnv) -> Env {
    Env { str: env.str, val: Box::new(ac.append(*env.val)) }
}

/// The next declaration that the frames on the stack call for. A frame of
/// declarations that has none left is taken off, which shows to the user.
pub open spec fn step_dec_spec(st: St, change: bool) -> (St, Outcome)
    decreases st.frames,
{
    match st.frames {
        List::Nil => (st, Some((Step::DecDone, change))),
        List::Cons(frame, rest) => {
            let popped = St { env: st.env, frames: *rest };
            match frame.kind {
                FrameKind::Let(decs, exp) => match decs {
                    List::Nil => (popped, go_exp(exp, change)),
                    List::Cons(d, ds) => (push(popped, FrameKind::Let(*ds, exp)), go_dec(d, change)),
                },
                FrameKind::Local(locals, ins) => match locals {
                    List::Cons(d, ds) => (
                        push(popped, FrameKind::Local(*ds, ins)),
                        go_dec(d, change),
                    ),
                    List::Nil => match ins {
                        List::Nil => step_dec_spec(popped, true),
                        List::Cons(d, ds) => (push(popped, FrameKind::In(*ds)), go_dec(d, change)),
                    },
                },
                FrameKind::In(decs) => match decs {
                    List::Nil => step_dec_spec(popped, true),
                    List::Cons(d, ds) => (push(popped, FrameKind::In(*ds)), go_dec(d, change)),
                },
                _ => (popped, None),
            }
        },
    }
}

/// One step on an expression.
pub open spec fn exp_spec(p: Program, st: St, e: u32) -> (St, Outcome) {
    if e >= p.exps.len() {
        (st, None)
    } else {
        match p.exps[e as int] {
            Exp::Hole => (st, None),
            Exp::SCon(scon) => (st, Some((Step::Val(Val::SCon(scon)), false))),
            Exp::Path(path) => if !p.exp_status.contains_key(e) {
                (st, None)
            } else {
                match p.exp_status[e] {
                    IdStatus::Con => (
                        st,
                        Some(
                            (
                                Step::Val(
                                    Val::Con(
                                        Con { kind: ConKind::Dat(path.spec_last()), arg: None },
                                    ),
                                ),
                                false,
                            ),
                        ),
                    ),
                    IdStatus::Exn(x) => (
                        st,
                        Some(
                            (
                                Step::Val(
                                    Val::Con(
                                        Con { kind: ConKind::Exn(path.spec_last(), x), arg: None },
                                    ),
                                ),
                                false,
                            ),
                        ),
                    ),
                    IdStatus::Val => match env_at(st.env, path.structures) {
                        None => (st, None),
                        Some(env) => match lookup_val(*env.val, path.spec_last()@) {
                            None => (st, None),
                            Some(v) => (st, Some((Step::Val(v), true))),
                        },
                    },
                }
            },
            Exp::Record(rows) => match list_of(rows@) {
                List::Nil => (st, Some((Step::Val(Val::Record(Box::new(List::Nil))), false))),
                List::Cons(row, rest) => (
                    push(st, FrameKind::Record(is_tuple_spec(rows@), List::Nil, row.0, *rest)),
                    go_exp(row.1, false),
                ),
            },
            Exp::Let(dec, exp) => step_dec_spec(
                push(st, FrameKind::Let(List::Cons(dec, Box::new(List::Nil)), exp)),
                false,
            ),
            Exp::App(func, arg) => (push(st, FrameKind::AppFunc(arg)), go_exp(func, false)),
            Exp::Handle(exp, matcher) => (
                push(st, FrameKind::Handle(arms_of(matcher@))),
                go_exp(exp, false),
            ),
            Exp::Raise(exp) => (
                push_frame(
                    st,
                    Frame {
                        env: Env { str: crate::dynamics::types::StrEnv::Nil, val: Box::new(List::Nil) },
                        kind: FrameKind::Raise,
                    },
                ),
                go_exp(exp, false),
            ),
            Exp::Fn(matcher) => (
                st,
                Some(
                    (
                        Step::Val(
                            Val::Closure(
                                Box::new(
                                    Closure {
                                        env: st.env,
                                        this: List::Nil,
                                        matcher: arms_of(matcher@),
                                    },
                                ),
                            ),
                        ),
                        false,
                    ),
                ),
            ),
            Exp::Typed(exp, _) => (st, go_exp(exp, false)),
        }
    }
}

/// One step on a value: it goes to the innermost frame.
pub open spec fn val_spec(p: Program, st: St, val: Val) -> (St, Outcome) {
    match st.frames {
        List::Nil => (st, Some((Step::Val(val), false))),
        List::Cons(frame, rest) => {
            let popped = St { env: st.env, frames: *rest };
            let resumed = St { env: frame.env, frames: *rest };
            match frame.kind {
                FrameKind::Record(is_tuple, vals, lab, exps) => if has_row(vals, lab) {
                    (popped, None)
                } else {
                    let vals2 = vals.append(List::Cons((lab, val), Box::new(List::Nil)));
                    match exps {
                        List::Nil => (popped, Some((Step::Val(Val::Record(Box::new(vals2))), true))),
                        List::Cons(row, more) => (
                            push(resumed, FrameKind::Record(is_tuple, vals2, row.0, *more)),
                            go_exp(row.1, false),
                        ),
                    }
                },
                FrameKind::AppFunc(arg) => match val {
                    Val::Closure(clos) => (
                        push_frame(
                            resumed,
                            Frame {
                                env: Env {
                                    str: clos.env.str,
                                    val: Box::new(bind_this(clos.this, *clos, *clos.env.val)),
                                },
                                kind: FrameKind::AppClosureArg(clos.matcher),
                            },
                        ),
                        go_exp(arg, false),
                    ),
                    Val::Con(con) => if con.arg is Some {
                        (popped, None)
                    } else {
                        (push(resumed, FrameKind::AppConArg(con.kind)), go_exp(arg, false))
                    },
                    _ => (popped, None),
                },
                FrameKind::AppClosureArg(matcher) => match first_match(p, matcher, val) {
                    Some((exp, ac)) => (
                        St { env: with_vals(frame.env, ac), frames: *rest },
                        go_exp(exp, true),
                    ),
                    None => (popped, Some((Step::Raise(p.match_exn), true))),
                },
                FrameKind::AppConArg(kind) => (
                    popped,
                    Some((Step::Val(Val::Con(Con { kind, arg: Some(Box::new(val)) })), false)),
                ),
                FrameKind::Raise => match val {
                    Val::Con(con) => match con.as_exception() {
                        Some(e) => (popped, Some((Step::Raise(e), false))),
                        None => (popped, None),
                    },
                    _ => (popped, None),
                },
                FrameKind::Handle(_) => (popped, Some((Step::Val(val), true))),
                FrameKind::ValBind(recursive, pat, binds) => {
                    let bound: Option<Option<ValEnv>> = if recursive {
                        match rec_names(p.pats, pat, p.pats.len(), List::Nil) {
                            None => None,
                            Some(this) => match val {
                                Val::Closure(clos) => if clos.this is Nil {
                                    Some(
                                        Some(
                                            bind_this(
                                                this,
                                                Closure {
                                                    env: clos.env,
                                                    this,
                                                    matcher: clos.matcher,
                                                },
                                                List::Nil,
                                            ),
                                        ),
                                    )
                                } else {
                                    None
                                },
                                _ => None,
                            },
                        }
                    } else {
                        Some(match_spec(p, pat, val, p.pats.len(), List::Nil))
                    };
                    match bound {
                        None => (popped, None),
                        Some(None) => (popped, Some((Step::Raise(p.bind_exn), true))),
                        Some(Some(ac)) => {
                            let next = St { env: with_vals(frame.env, ac), frames: *rest };
                            match binds {
                                List::Cons(vb, more) => (
                                    push(next, FrameKind::ValBind(vb.rec, vb.pat, *more)),
                                    go_exp(vb.exp, false),
                                ),
                                List::Nil => step_dec_spec(next, false),
                            }
                        },
                    }
                },
                FrameKind::Let(_, _) | FrameKind::Local(_, _) | FrameKind::In(_) => (popped, None),
            }
        },
    }
}

/// One step on a raised exception: it goes up the stack, one frame a step,
/// until a handler catches it.
pub open spec fn raise_spec(p: Program, st: St, exception: Exception) -> (St, Outcome) {
    match st.frames {
        List::Nil => (st, Some((Step::Raise(exception), true))),
        List::Cons(frame, rest) => {
            let popped = St { env: st.env, frames: *rest };
            match frame.kind {
                FrameKind::Handle(matcher) => match first_match(
                    p,
                    matcher,
                    Val::Con(exception.as_con()),
                ) {
                    Some((exp, ac)) => (
                        St { env: with_vals(frame.env, ac), frames: *rest },
                        go_exp(exp, true),
                    ),
                    None => (popped, Some((Step::Raise(exception), true))),
                },
                _ => (popped, Some((Step::Raise(exception), true))),
            }
        },
    }
}

/// One step on a declaration.
pub open spec fn dec_spec(p: Program, st: St, d: u32) -> (St, Outcome) {
    if d >= p.decs.len() {
        (st, None)
    } else {
        match p.decs[d as int] {
            Dec::Val(_, binds) => match list_of(binds@) {
                List::Nil => (st, None),
                List::Cons(vb, more) => (
                    push(st, FrameKind::ValBind(vb.rec, vb.pat, *more)),
                    go_exp(vb.exp, false),
                ),
            },
            Dec::Ty(_) | Dec::Datatype(_, _) | Dec::DatatypeCopy(_, _) | Dec::Abstype(_, _, _)
            | Dec::Exception(_) | Dec::Open(_) => step_dec_spec(st, false),
            Dec::Local(local, body) => step_dec_spec(
                push(
                    st,
                    FrameKind::Local(
                        List::Cons(local, Box::new(List::Nil)),
                        List::Cons(body, Box::new(List::Nil)),
                    ),
                ),
                false,
            ),
            Dec::Sequence(decs) => step_dec_spec(push(st, FrameKind::In(list_of(decs@))), false),
        }
    }
}

/// One step of the machine: the state afterwards, and the outcome.
pub open spec fn step_spec(p: Program, st: St, s: Step) -> (St, Outcome) {
    match s {
        Step::Exp(e) => exp_spec(p, st, e),
        Step::Val(val) => val_spec(p, st, val),
        Step::Raise(exception) => raise_spec(p, st, exception),
        Step::Dec(d) => dec_spec(p, st, d),
        Step::DecDone => if st.frames is Nil {
            (st, Some((Step::DecDone, false)))
        } else {
            (st, None)
        },
    }
}

fn to_exp(e: ExpIdx, visible: bool) -> (r: Outcome)
    ensures
        r == go_exp(e, visible),
{
    match e {
        None => None,
        Some(i) => Some((Step::Exp(i), visible)),
    }
}

fn to_dec(d: DecIdx, visible: bool) -> (r: Outcome)
    ensures
        r == go_dec(d, visible),
{
    match d {
        None => None,
        Some(i) => Some((Step::Dec(i), visible)),
    }
}

fn arms_from(v: &Vec<(PatIdx, ExpIdx)>) -> (r: List<Arm>)
    ensures
        r == arms_of(v@),
{
    let mut acc: List<Arm> = List::Nil;
    let mut i: usize = v.len();
    assert(v@.skip(i as int) =~= Seq::<(PatIdx, ExpIdx)>::empty());
    while i > 0
        invariant
            i <= v.len(),
            acc == arms_of(v@.skip(i as int)),
        decreases i,
    {
        i -= 1;
        assert(v@.skip(i as int).skip(1) == v@.skip(i + 1));
        acc = List::Cons(Arm { pat: v[i].0, exp: v[i].1 }, Box::new(acc));
    }
    assert(v@.skip(0) == v@);
    acc
}

fn rows_from(v: &Vec<(Lab, ExpIdx)>) -> (r: List<(Lab, ExpIdx)>)
    ensures
        r == list_of(v@),
{
    let mut acc: List<(Lab, ExpIdx)> = List::Nil;
    let mut i: usize = v.len();
    assert(v@.skip(i as int) =~= Seq::<(Lab, ExpIdx)>::empty());
    while i > 0
        invariant
            i <= v.len(),
            acc == list_of(v@.skip(i as int)),
        decreases i,
    {
        i -= 1;
        assert(v@.skip(i as int).skip(1) == v@.skip(i + 1));
        acc = List::Cons((v[i].0.clone(), v[i].1), Box::new(acc));
    }
    assert(v@.skip(0) == v@);
    acc
}

fn is_tuple(rows: &Vec<(Lab, ExpIdx)>) -> (r: bool)
    ensures
        r == is_tuple_spec(rows@),
{
    if rows.len() == 1 {
        return false;
    }
    let mut i: usize = 0;
    while i < rows.len()
        invariant
            i <= rows.len(),
            forall|j: int| 0 <= j < i ==> (#[trigger] rows@[j]).0@ == LabKey::Num((j + 1) as nat),
        decreases rows.len() - i,
    {
        let same = match &rows[i].0 {
            Lab::Num(n) => *n == i + 1,
            Lab::Name(_) => false,
        };
        if !same {
            assert(rows@[i as int].0@ != LabKey::Num((i + 1) as nat));
            return false;
        }
        i += 1;
    }
    true
}

fn names_have(names: &List<Name>, name: &Name) -> (r: bool)
    ensures
        r == has_name(*names, name@),
    decreases *names,
{
    match names {
        List::Nil => false,
        List::Cons(h, t) => *h == *name || names_have(t, name),
    }
}

fn add_name(names: List<Name>, name: &Name) -> (r: List<Name>)
    ensures
        r == insert_name(names, *name),
{
    if names_have(&names, name) {
        names
    } else {
        List::Cons(name.clone(), Box::new(names))
    }
}

fn rec_fn_names_below(cx: &Cx, pat: PatIdx, limit: u64, ac: List<Name>) -> (r: Option<List<Name>>)
    ensures
        r == rec_names(cx.program().pats, pat, limit as nat, ac),
    decreases limit,
{
    let i = match pat {
        None => {
            return None;
        },
        Some(i) => i,
    };
    if i as u64 >= limit {
        return None;
    }
    match pat_at(&cx.ars.pat, i) {
        None => None,
        Some(node) => match node {
            Pat::Wild => Some(ac),
            Pat::Con(path, arg) => if arg.is_some() || !path.structures().is_empty() {
                None
            } else {
                Some(add_name(ac, path.last()))
            },
            Pat::Typed(inner, _) => rec_fn_names_below(cx, *inner, i as u64, ac),
            Pat::As(name, inner) => {
                let ac2 = add_name(ac, name);
                rec_fn_names_below(cx, *inner, i as u64, ac2)
            },
            Pat::SCon(_) => None,
            Pat::Record { rows, allows_other } => None,
            Pat::Or(_) => None,
        },
    }
}

/// The names that the pattern of a recursive binding binds, or nothing when
/// the pattern is none that a function can be bound to.
pub fn rec_fn_names(cx: &Cx, pat: PatIdx) -> (r: Option<List<Name>>)
    ensures
        r == rec_names(cx.program().pats, pat, cx.program().pats.len(), List::Nil),
{
    let n = crate::hir::pat_len(&cx.ars.pat);
    rec_fn_names_below(cx, pat, n as u64, List::Nil)
}

fn bind_names(names: &List<Name>, clos: &Closure, env: ValEnv) -> (r: ValEnv)
    ensures
        r == bind_this(*names, *clos, env),
    decreases *names,
{
    match names {
        List::Nil => env,
        List::Cons(n, rest) => {
            let copy = Closure {
                env: clone_env(&clos.env),
                this: clone_names(&clos.this),
                matcher: crate::list::clone_list(&clos.matcher),
            };
            bind_names(
                rest,
                clos,
                List::Cons((n.clone(), Val::Closure(Box::new(copy))), Box::new(env)),
            )
        },
    }
}

fn env_with_vals(env: Env, ac: ValEnv) -> (r: Env)
    ensures
        r == with_vals(env, ac),
{
    let Env { str, val } = env;
    Env { str, val: Box::new(ac.concat(*val)) }
}

impl St {
    fn push_frame(&mut self, frame: Frame)
        ensures
            *final(self) == push_frame(*old(self), frame),
    {
        let mut frames = List::Nil;
        std::mem::swap(&mut frames, &mut self.frames);
        self.frames = List::Cons(frame, Box::new(frames));
    }
}

/// The next declaration that the frames on the stack call for.
pub fn step_dec(st: &mut St) -> (r: Outcome)
    ensures
        (*final(st), r) == step_dec_spec(*old(st), false),
{
    let mut change = false;
    loop
        invariant
            step_dec_spec(*st, change) == step_dec_spec(*old(st), false),
        decreases st.frames,
    {
        let frame = match st.pop() {
            None => {
                return Some((Step::DecDone, change));
            },
            Some(frame) => frame,
        };
        match frame.kind {
            FrameKind::Let(decs, exp) => match decs {
                List::Nil => {
                    return to_exp(exp, change);
                },
                List::Cons(d, ds) => {
                    st.push_with_cur_env(FrameKind::Let(*ds, exp));
                    return to_dec(d, change);
                },
            },
            FrameKind::Local(locals, ins) => match locals {
                List::Cons(d, ds) => {
                    st.push_with_cur_env(FrameKind::Local(*ds, ins));
                    return to_dec(d, change);
                },
                List::Nil => match ins {
                    List::Nil => {
                        change = true;
                    },
                    List::Cons(d, ds) => {
                        st.push_with_cur_env(FrameKind::In(*ds));
                        return to_dec(d, change);
                    },
                },
            },
            FrameKind::In(decs) => match decs {
                List::Nil => {
                    change = true;
                },
                List::Cons(d, ds) => {
                    st.push_with_cur_env(FrameKind::In(*ds));
                    return to_dec(d, change);
                },
            },
            _ => {
                return None;
            },
        }
    }
}

fn step_exp(st: &mut St, cx: &Cx, e: u32) -> (r: Outcome)
    ensures
        (*final(st), r) == exp_spec(cx.program(), *old(st), e),
{
    let node = match exp_at(&cx.ars.exp, e) {
        None => {
            return None;
        },
        Some(node) => node,
    };
    match node {
        Exp::Hole => None,
        Exp::SCon(scon) => Some((Step::Val(Val::SCon(scon.clone())), false)),
        Exp::Path(path) => {
            let status = match cx.exp.get(&e) {
                None => {
                    return None;
                },
                Some(status) => *status,
            };
            match status {
                IdStatus::Con => Some(
                    (Step::Val(Val::Con(Con::empty(ConKind::Dat(path.last().clone())))), false),
                ),
                IdStatus::Exn(x) => Some(
                    (Step::Val(Val::Con(Con::empty(ConKind::Exn(path.last().clone(), x)))), false),
                ),
                IdStatus::Val => match st.env.get(path.structures()) {
                    None => None,
                    Some(env) => match get_val(&env.val, path.last()) {
                        None => None,
                        Some(v) => Some((Step::Val(v.clone()), true)),
                    },
                },
            }
        },
        Exp::Record(rows) => {
            let tuple = is_tuple(rows);
            match rows_from(rows) {
                List::Nil => Some((Step::Val(Val::Record(Box::new(List::Nil))), false)),
                List::Cons(row, rest) => {
                    st.push_with_cur_env(FrameKind::Record(tuple, List::Nil, row.0, *rest));
                    to_exp(row.1, false)
                },
            }
        },
        Exp::Let(dec, exp) => {
            st.push_with_cur_env(FrameKind::Let(List::Cons(*dec, Box::new(List::Nil)), *exp));
            step_dec(st)
        },
        Exp::App(func, arg) => {
            st.push_with_cur_env(FrameKind::AppFunc(*arg));
            to_exp(*func, false)
        },
        Exp::Handle(exp, matcher) => {
            st.push_with_cur_env(FrameKind::Handle(arms_from(matcher)));
            to_exp(*exp, false)
        },
        Exp::Raise(exp) => {
            st.push_frame(Frame { env: Env::new(), kind: FrameKind::Raise });
            to_exp(*exp, false)
        },
        Exp::Fn(matcher) => {
            let clos = Closure {
                env: clone_env(&st.env),
                this: List::Nil,
                matcher: arms_from(matcher),
            };
            Some((Step::Val(Val::Closure(Box::new(clos))), false))
        },
        Exp::Typed(exp, _) => to_exp(*exp, false),
    }
}

fn step_val(st: &mut St, cx: &Cx, val: Val) -> (r: Outcome)
    ensures
        (*final(st), r) == val_spec(cx.program(), *old(st), val),
{
    let frame = match st.pop() {
        None => {
            return Some((Step::Val(val), false));
        },
        Some(frame) => frame,
    };
    match frame.kind {
        FrameKind::Record(tuple, vals, lab, exps) => {
            if rows_have(&vals, &lab) {
                return None;
            }
            let vals2 = vals.concat(List::Cons((lab, val), Box::new(List::Nil)));
            match exps {
                List::Nil => Some((Step::Val(Val::Record(Box::new(vals2))), true)),
                List::Cons(row, more) => {
                    st.env = frame.env;
                    st.push_with_cur_env(FrameKind::Record(tuple, vals2, row.0, *more));
                    to_exp(row.1, false)
                },
            }
        },
        FrameKind::AppFunc(arg) => match val {
            Val::Closure(clos) => {
                st.env = frame.env;
                let base = clone_env(&clos.env);
                let vals = bind_names(&clos.this, &clos, *base.val);
                let env = Env { str: base.str, val: Box::new(vals) };
                let clos = *clos;
                st.push_frame(Frame { env, kind: FrameKind::AppClosureArg(clos.matcher) });
                to_exp(arg, false)
            },
            Val::Con(con) => {
                if con.arg.is_some() {
                    return None;
                }
                st.env = frame.env;
                st.push_with_cur_env(FrameKind::AppConArg(con.kind));
                to_exp(arg, false)
            },
            _ => None,
        },
        FrameKind::AppClosureArg(matcher) => match first_arm(cx, &matcher, &val) {
            Some((exp, ac)) => {
                st.env = env_with_vals(frame.env, ac);
                to_exp(exp, true)
            },
            None => Some((Step::Raise(cx.match_exn.clone()), true)),
        },
        FrameKind::AppConArg(kind) => Some(
            (Step::Val(Val::Con(Con { kind, arg: Some(Box::new(val)) })), false),
        ),
        FrameKind::Raise => match val {
            Val::Con(con) => match con.into_exception() {
                Some(e) => Some((Step::Raise(e), false)),
                None => None,
            },
            _ => None,
        },
        FrameKind::Handle(_) => Some((Step::Val(val), true)),
        FrameKind::ValBind(recursive, pat, binds) => {
            let bound: Option<Option<ValEnv>> = if recursive {
                match rec_fn_names(cx, pat) {
                    None => None,
                    Some(this) => match val {
                        Val::Closure(clos) => {
                            let clos = *clos;
                            if clos.this.is_empty() {
                                let names = clone_names(&this);
                                let clos2 = Closure {
                                    env: clos.env,
                                    this,
                                    matcher: clos.matcher,
                                };
                                Some(Some(bind_names(&names, &clos2, List::Nil)))
                            } else {
                                None
                            }
                        },
                        _ => None,
                    },
                }
            } else {
                Some(get(cx, pat, &val))
            };
            match bound {
                None => None,
                Some(None) => Some((Step::Raise(cx.bind_exn.clone()), true)),
                Some(Some(ac)) => {
                    st.env = env_with_vals(frame.env, ac);
                    match binds {
                        List::Cons(vb, more) => {
                            st.push_with_cur_env(FrameKind::ValBind(vb.rec, vb.pat, *more));
                            to_exp(vb.exp, false)
                        },
                        List::Nil => step_dec(st),
                    }
                },
            }
        },
        FrameKind::Let(_, _) | FrameKind::Local(_, _) | FrameKind::In(_) => None,
    }
}

fn step_raise(st: &mut St, cx: &Cx, exception: Exception) -> (r: Outcome)
    ensures
        (*final(st), r) == raise_spec(cx.program(), *old(st), exception),
{
    let frame = match st.pop() {
        None => {
            return Some((Step::Raise(exception), true));
        },
        Some(frame) => frame,
    };
    match frame.kind {
        FrameKind::Handle(matcher) => {
            let val = Val::Con(exception.clone().into_con());
            match first_arm(cx, &matcher, &val) {
                Some((exp, ac)) => {
                    st.env = env_with_vals(frame.env, ac);
                    to_exp(exp, true)
                },
                None => Some((Step::Raise(exception), true)),
            }
        },
        _ => Some((Step::Raise(exception), true)),
    }
}

fn step_on_dec(st: &mut St, cx: &Cx, d: u32) -> (r: Outcome)
    ensures
        (*final(st), r) == dec_spec(cx.program(), *old(st), d),
{
    let node = match dec_at(&cx.ars.dec, d) {
        None => {
            return None;
        },
        Some(node) => node,
    };
    match node {
        Dec::Val(_, binds) => match list_from_vec(binds) {
            List::Nil => None,
            List::Cons(vb, more) => {
                st.push_with_cur_env(FrameKind::ValBind(vb.rec, vb.pat, *more));
                to_exp(vb.exp, false)
            },
        },
        Dec::Ty(_) | Dec::Datatype(_, _) | Dec::DatatypeCopy(_, _) | Dec::Abstype(_, _, _)
        | Dec::Exception(_) | Dec::Open(_) => step_dec(st),
        Dec::Local(local, body) => {
            st.push_with_cur_env(
                FrameKind::Local(
                    List::Cons(*local, Box::new(List::Nil)),
                    List::Cons(*body, Box::new(List::Nil)),
                ),
            );
            step_dec(st)
        },
        Dec::Sequence(decs) => {
            st.push_with_cur_env(FrameKind::In(list_from_vec(decs)));
            step_dec(st)
        },
    }
}

/// One step of the machine. It does not recur: one expression, value,
/// exception or declaration is reduced, and what comes next is handed back,
/// with whether the step shows to the user. Nothing is handed back when the
/// machine has no step for the state: the program was not type checked, or
/// the frames do not belong to it.
pub fn step(st: &mut St, cx: &Cx, s: Step) -> (r: Outcome)
    ensures
        (*final(st), r) == step_spec(cx.program(), *old(st), s),
{
    match s {
        Step::Exp(e) => step_exp(st, cx, e),
        Step::Val(val) => step_val(st, cx, val),
        Step::Raise(exception) => step_raise(st, cx, exception),
        Step::Dec(d) => step_on_dec(st, cx, d),
        Step::DecDone => {
            if st.frames.is_empty() {
                Some((Step::DecDone, false))
            } else {
                None
            }
        },
    }
}

} // verus!

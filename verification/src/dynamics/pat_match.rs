//! Matching a value against a pattern.

use crate::dynamics::types::{
    clone_val_env, get_row, row_val, Arm, ConKind, Cx, Exception, Val, ValEnv,
};
use crate::hir::{pat_at, pat_items, Dec, Exp, Lab, Pat, PatIdx};
use crate::list::List;
use crate::statics::info::IdStatus;
use vstd::prelude::*;

verus! {

broadcast use vstd::std_specs::hash::group_hash_axioms;

/// What the machine reads of a program: the nodes by index, the status of
/// path expressions and constructor patterns, and the two exceptions that
/// the machine itself raises.
pub struct Program {
    pub exps: Seq<Exp>,
    pub decs: Seq<Dec>,
    pub pats: Seq<Pat>,
    pub exp_status: Map<u32, IdStatus>,
    pub pat_status: Map<u32, IdStatus>,
    pub match_exn: Exception,
    pub bind_exn: Exception,
}

impl<'a> Cx<'a> {
    /// What the context says of the program.
    pub open spec fn program(&self) -> Program {
        Program {
            exps: crate::hir::exp_items(self.ars.exp),
            decs: crate::hir::dec_items(self.ars.dec),
            pats: pat_items(self.ars.pat),
            exp_status: self.exp@,
            pat_status: self.pat@,
            match_exn: *self.match_exn,
            bind_exn: *self.bind_exn,
        }
    }
}

/// The bindings that matching `val` against the pattern `pat` makes, in
/// front of `ac`, or nothing when the value does not match.
///
/// Only a pattern below `limit` is looked at: the parts of a pattern lie
/// below the pattern itself. A variable binds the value, a constructor
/// matches a value built with it, a record pattern matches a record that has
/// its rows, and of the alternatives of an or-pattern the first that matches
/// counts.
pub open spec fn match_spec(p: Program, pat: PatIdx, val: Val, limit: nat, ac: ValEnv) -> Option<
    ValEnv,
>
    decreases limit, 0nat,
{
    match pat {
        None => None,
        Some(i) => if i >= limit || i >= p.pats.len() {
            None
        } else {
            match p.pats[i as int] {
                Pat::Wild => Some(ac),
                Pat::SCon(c) => match val {
                    Val::SCon(v) => if c@ == v@ {
                        Some(ac)
                    } else {
                        None
                    },
                    _ => None,
                },
                Pat::Con(path, arg) => if !p.pat_status.contains_key(i) {
                    None
                } else {
                    match p.pat_status[i] {
                        IdStatus::Val => Some(
                            List::Cons((path.spec_last(), val), Box::new(ac)),
                        ),
                        IdStatus::Con => match val {
                            Val::Con(con) => match con.kind {
                                ConKind::Dat(name) => if name@ == path.spec_last()@ {
                                    match_arg(p, arg, con.arg, i as nat, ac)
                                } else {
                                    None
                                },
                                ConKind::Exn(_, _) => None,
                            },
                            _ => None,
                        },
                        IdStatus::Exn(e) => match val {
                            Val::Con(con) => match con.kind {
                                ConKind::Exn(_, e2) => if e == e2 {
                                    match_arg(p, arg, con.arg, i as nat, ac)
                                } else {
                                    None
                                },
                                ConKind::Dat(_) => None,
                            },
                            _ => None,
                        },
                    }
                },
                Pat::Record { rows, allows_other } => match val {
                    Val::Record(vals) => match_rows(p, rows@, 0, *vals, i as nat, ac),
                    _ => None,
                },
                Pat::Typed(inner, _) => match_spec(p, inner, val, i as nat, ac),
                Pat::As(name, inner) => match_spec(
                    p,
                    inner,
                    val,
                    i as nat,
                    List::Cons((name, val), Box::new(ac)),
                ),
                Pat::Or(or) => match match_spec(p, or.first, val, i as nat, ac) {
                    Some(r) => Some(r),
                    None => match_any(p, or.rest@, 0, val, i as nat, ac),
                },
            }
        },
    }
}

/// Matching the argument of a constructor: both absent, or both there and
/// matching.
pub open spec fn match_arg(
    p: Program,
    arg: Option<PatIdx>,
    val: Option<Box<Val>>,
    limit: nat,
    ac: ValEnv,
) -> Option<ValEnv>
    decreases limit, 1nat,
{
    match arg {
        None => match val {
            None => Some(ac),
            Some(_) => None,
        },
        Some(pat) => match val {
            None => None,
            Some(v) => match_spec(p, pat, *v, limit, ac),
        },
    }
}

/// Matching the rows `rows[from..]` of a record pattern against the rows of
/// a record value.
pub open spec fn match_rows(
    p: Program,
    rows: Seq<(Lab, PatIdx)>,
    from: int,
    vals: List<(Lab, Val)>,
    limit: nat,
    ac: ValEnv,
) -> Option<ValEnv>
    decreases limit, 1 + rows.len() - from,
{
    if from < 0 || from >= rows.len() {
        Some(ac)
    } else {
        match row_val(vals, rows[from].0) {
            None => None,
            Some(v) => match match_spec(p, rows[from].1, v, limit, ac) {
                None => None,
                Some(ac2) => match_rows(p, rows, from + 1, vals, limit, ac2),
            },
        }
    }
}

/// The bindings of the first of the patterns `pats[from..]` that matches.
pub open spec fn match_any(
    p: Program,
    pats: Seq<PatIdx>,
    from: int,
    val: Val,
    limit: nat,
    ac: ValEnv,
) -> Option<ValEnv>
    decreases limit, 1 + pats.len() - from,
{
    if from < 0 || from >= pats.len() {
        None
    } else {
        match match_spec(p, pats[from], val, limit, ac) {
            Some(r) => Some(r),
            None => match_any(p, pats, from + 1, val, limit, ac),
        }
    }
}

/// The first arm whose pattern matches the value: its expression and the
/// bindings that the match makes.
pub open spec fn first_match(p: Program, arms: List<Arm>, val: Val) -> Option<
    (crate::hir::ExpIdx, ValEnv),
>
    decreases arms,
{
    match arms {
        List::Nil => None,
        List::Cons(arm, rest) => match match_spec(p, arm.pat, val, p.pats.len(), List::Nil) {
            Some(ac) => Some((arm.exp, ac)),
            None => first_match(p, *rest, val),
        },
    }
}

/// Matches `val` against the pattern `pat`, looking only at patterns below
/// `limit`.
pub fn get_below(cx: &Cx, pat: PatIdx, val: &Val, limit: u64, ac: ValEnv) -> (r: Option<ValEnv>)
    ensures
        r == match_spec(cx.program(), pat, *val, limit as nat, ac),
    decreases limit, 0nat,
{
    let i = match pat {
        None => {
            return None;
        },
        Some(i) => i,
    };
    if i as u64 >= limit {
        return None;
    }
    let node = match pat_at(&cx.ars.pat, i) {
        None => {
            return None;
        },
        Some(node) => node,
    };
    match node {
        Pat::Wild => Some(ac),
        Pat::SCon(c) => match val {
            Val::SCon(v) => if c.same(v) {
                Some(ac)
            } else {
                None
            },
            _ => None,
        },
        Pat::Con(path, arg) => {
            let status = match cx.pat.get(&i) {
                None => {
                    return None;
                },
                Some(status) => *status,
            };
            match status {
                IdStatus::Val => Some(
                    List::Cons((path.last().clone(), val.clone()), Box::new(ac)),
                ),
                IdStatus::Con => match val {
                    Val::Con(con) => match &con.kind {
                        ConKind::Dat(name) => if *name == *path.last() {
                            get_arg(cx, arg, &con.arg, i as u64, ac)
                        } else {
                            None
                        },
                        ConKind::Exn(_, _) => None,
                    },
                    _ => None,
                },
                IdStatus::Exn(e) => match val {
                    Val::Con(con) => match &con.kind {
                        ConKind::Exn(_, e2) => if e == *e2 {
                            get_arg(cx, arg, &con.arg, i as u64, ac)
                        } else {
                            None
                        },
                        ConKind::Dat(_) => None,
                    },
                    _ => None,
                },
            }
        },
        Pat::Record { rows, allows_other } => match val {
            Val::Record(vals) => get_rows(cx, rows, 0, vals, i as u64, ac),
            _ => None,
        },
        Pat::Typed(inner, _) => get_below(cx, *inner, val, i as u64, ac),
        Pat::As(name, inner) => get_below(
            cx,
            *inner,
            val,
            i as u64,
            List::Cons((name.clone(), val.clone()), Box::new(ac)),
        ),
        Pat::Or(or) => {
            let again = clone_val_env(&ac);
            match get_below(cx, or.first, val, i as u64, ac) {
                Some(r) => Some(r),
                None => get_any(cx, &or.rest, 0, val, i as u64, again),
            }
        },
    }
}

fn get_arg(cx: &Cx, arg: &Option<PatIdx>, val: &Option<Box<Val>>, limit: u64, ac: ValEnv) -> (r:
    Option<ValEnv>)
    ensures
        r == match_arg(cx.program(), *arg, *val, limit as nat, ac),
    decreases limit, 1nat,
{
    match arg {
        None => match val {
            None => Some(ac),
            Some(_) => None,
        },
        Some(pat) => match val {
            None => None,
            Some(v) => get_below(cx, *pat, v, limit, ac),
        },
    }
}

fn get_rows(
    cx: &Cx,
    rows: &Vec<(Lab, PatIdx)>,
    from: usize,
    vals: &List<(Lab, Val)>,
    limit: u64,
    ac: ValEnv,
) -> (r: Option<ValEnv>)
    ensures
        r == match_rows(cx.program(), rows@, from as int, *vals, limit as nat, ac),
    decreases limit, 1 + rows.len() - from,
{
    if from >= rows.len() {
        return Some(ac);
    }
    match get_row(vals, &rows[from].0) {
        None => None,
        Some(v) => match get_below(cx, rows[from].1, v, limit, ac) {
            None => None,
            Some(ac2) => get_rows(cx, rows, from + 1, vals, limit, ac2),
        },
    }
}

fn get_any(cx: &Cx, pats: &Vec<PatIdx>, from: usize, val: &Val, limit: u64, ac: ValEnv) -> (r:
    Option<ValEnv>)
    ensures
        r == match_any(cx.program(), pats@, from as int, *val, limit as nat, ac),
    decreases limit, 1 + pats.len() - from,
{
    if from >= pats.len() {
        return None;
    }
    let again = clone_val_env(&ac);
    match get_below(cx, pats[from], val, limit, ac) {
        Some(r) => Some(r),
        None => get_any(cx, pats, from + 1, val, limit, again),
    }
}

/// Matches `val` against the pattern `pat`: the bindings that the match
/// makes, or nothing when the value does not match.
pub fn get(cx: &Cx, pat: PatIdx, val: &Val) -> (r: Option<ValEnv>)
    ensures
        r == match_spec(cx.program(), pat, *val, cx.program().pats.len(), List::Nil),
{
    let n = crate::hir::pat_len(&cx.ars.pat);
    get_below(cx, pat, val, n as u64, List::Nil)
}

/// The first arm whose pattern matches the value.
pub fn first_arm(cx: &Cx, arms: &List<Arm>, val: &Val) -> (r: Option<(crate::hir::ExpIdx, ValEnv)>)
    ensures
        r == first_match(cx.program(), *arms, *val),
    decreases *arms,
{
    match arms {
        List::Nil => None,
        List::Cons(arm, rest) => match get(cx, arm.pat, val) {
            Some(ac) => Some((arm.exp, ac)),
            None => first_arm(cx, rest, val),
        },
    }
}

} // verus!

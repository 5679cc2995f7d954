//! Unification of semantic types.

use crate::hir::{lab_less, Idx, Lab};
use crate::list::List;
use crate::statics::equality::{eq_ty, eq_walk, lemma_eq_ty_keeps_solutions, NotEqTy};
use crate::statics::error::{Error, ErrorKind};
use crate::statics::st::{with_error, with_subst, St, StView};
use crate::statics::sym::{Syms, SymsView};
use crate::statics::types::{
    apply, bind, entries_wf, is_solved, lemma_apply_no_solved, lemma_bind_wf, lemma_lookup_bind,
    lookup, no_solved, occurs, occurs_in, set_entry, BasicOverload, Entries, MetaTyVar, Overload,
    Subst,
    SubstEntry, Ty, TyVarKind,
};
use vstd::prelude::*;

verus! {

/// Why two types do not unify.
#[derive(Debug)]
pub enum UnifyError {
    /// The meta variable occurs in the type that it would stand for.
    OccursCheck(MetaTyVar, Ty),
    /// The two types are built differently.
    HeadMismatch,
    /// The type is none of the overload.
    OverloadMismatch(Overload, Ty),
    /// The found record type has a row that the wanted one lacks.
    ExtraRows,
    /// The wanted record type has this row and the found one lacks it.
    MissingRow(Lab),
    /// An equality type variable met a type that is not an equality type.
    NotEquality(Ty, NotEqTy),
}

/// The outcome of unification.
pub type UnifyResult = Result<(), UnifyError>;

/// The kinds of failure, without what they carry.
#[derive(Debug, Clone, Copy, PartialEq, Eq, Structural)]
pub enum FailureKind {
    OccursCheck,
    HeadMismatch,
    OverloadMismatch,
    ExtraRows,
    MissingRow,
    NotEquality,
}

impl UnifyError {
    /// The kind of the failure.
    pub open spec fn spec_kind(self) -> FailureKind {
        match self {
            UnifyError::OccursCheck(_, _) => FailureKind::OccursCheck,
            UnifyError::HeadMismatch => FailureKind::HeadMismatch,
            UnifyError::OverloadMismatch(_, _) => FailureKind::OverloadMismatch,
            UnifyError::ExtraRows => FailureKind::ExtraRows,
            UnifyError::MissingRow(_) => FailureKind::MissingRow,
            UnifyError::NotEquality(_, _) => FailureKind::NotEquality,
        }
    }

    /// The kind of the failure.
    pub fn kind(&self) -> (r: FailureKind)
        ensures
            r == self.spec_kind(),
    {
        match self {
            UnifyError::OccursCheck(_, _) => FailureKind::OccursCheck,
            UnifyError::HeadMismatch => FailureKind::HeadMismatch,
            UnifyError::OverloadMismatch(_, _) => FailureKind::OverloadMismatch,
            UnifyError::ExtraRows => FailureKind::ExtraRows,
            UnifyError::MissingRow(_) => FailureKind::MissingRow,
            UnifyError::NotEquality(_, _) => FailureKind::NotEquality,
        }
    }
}

/// The kind of failure of an outcome, if it is one.
pub open spec fn failure_kind(r: UnifyResult) -> Option<FailureKind> {
    match r {
        Ok(_) => None,
        Err(e) => Some(e.spec_kind()),
    }
}

/// The kind of failure as the other side sees it: a row that one side
/// misses is a row that the other has in excess.
pub open spec fn mirrored(k: Option<FailureKind>) -> Option<FailureKind> {
    match k {
        Some(FailureKind::MissingRow) => Some(FailureKind::ExtraRows),
        Some(FailureKind::ExtraRows) => Some(FailureKind::MissingRow),
        _ => k,
    }
}

/// How many nested steps one unification may take.
pub const FUEL: u64 = 0xffff_ffff_ffff_ffff;

/// Success when `b` holds, a head mismatch when not.
pub open spec fn head_match_spec(b: bool) -> UnifyResult {
    if b {
        Ok(())
    } else {
        Err(UnifyError::HeadMismatch)
    }
}

/// The kind of a meta variable: what its entry says, and `Regular` when it
/// has none.
pub open spec fn kind_of(s: Entries, mv: MetaTyVar) -> TyVarKind {
    match lookup(s, mv) {
        Some(SubstEntry::Kind(k)) => k,
        _ => TyVarKind::Regular,
    }
}

/// Solving the unsolved meta variable `mv` to `ty`, a type that the entries
/// were applied to.
pub open spec fn solve_spec(s: Entries, syms: SymsView, mv: MetaTyVar, ty: Ty) -> (
    Entries,
    UnifyResult,
) {
    if ty == Ty::MetaVar(mv) {
        (s, Ok(()))
    } else if occurs(mv, ty) {
        (s, Err(UnifyError::OccursCheck(mv, ty)))
    } else {
        match kind_of(s, mv) {
            TyVarKind::Regular => (bind(s, mv, ty), Ok(())),
            TyVarKind::Equality => {
                let (s1, r) = eq_ty(s, syms, ty);
                match r {
                    Err(e) => (s1, Err(UnifyError::NotEquality(ty, e))),
                    Ok(_) => (bind(s1, mv, ty), Ok(())),
                }
            },
            TyVarKind::Overloaded(ov) => match ty {
                Ty::Con(_, sym) => if syms.overloads.admits(ov, sym) {
                    (bind(s, mv, ty), Ok(()))
                } else {
                    (s, Err(UnifyError::OverloadMismatch(ov, ty)))
                },
                Ty::MetaVar(mv2) => match kind_of(s, mv2) {
                    TyVarKind::Regular | TyVarKind::Equality => (
                        set_entry(
                            bind(s, mv, ty),
                            mv2,
                            Some(SubstEntry::Kind(TyVarKind::Overloaded(ov))),
                        ),
                        Ok(()),
                    ),
                    TyVarKind::Overloaded(ov2) => match ov.meet(ov2) {
                        None => (s, Err(UnifyError::OverloadMismatch(ov, ty))),
                        Some(o) => (
                            set_entry(
                                bind(s, mv, ty),
                                mv2,
                                Some(SubstEntry::Kind(TyVarKind::Overloaded(o))),
                            ),
                            Ok(()),
                        ),
                    },
                },
                _ => (s, Err(UnifyError::OverloadMismatch(ov, ty))),
            },
        }
    }
}

/// Whether two record types have the same labels, row by row. The first
/// label that only one of them has decides: a row that only the wanted type
/// has is missing, one that only the found type has is extra. The rows of
/// both are taken to be in the order of their labels (`rows_in_order`), as
/// `insert_row` makes them: the walk goes through both by that order.
pub open spec fn match_labels(want: List<(Lab, Ty)>, got: List<(Lab, Ty)>) -> UnifyResult
    decreases want,
{
    match want {
        List::Nil => match got {
            List::Nil => Ok(()),
            List::Cons(_, _) => Err(UnifyError::ExtraRows),
        },
        List::Cons(w, ws) => match got {
            List::Nil => Err(UnifyError::MissingRow(w.0)),
            List::Cons(g, gs) => if w.0@ == g.0@ {
                match_labels(*ws, *gs)
            } else if lab_less(w.0@, g.0@) {
                Err(UnifyError::MissingRow(w.0))
            } else {
                Err(UnifyError::ExtraRows)
            },
        },
    }
}

/// The unification of `want` with `got` under the entries `s`, in at most
/// `fuel` nested steps: the entries afterwards, and the outcome.
///
/// Both types have the entries applied first. An unknown type unifies with
/// everything. A meta variable is solved to the other type, unless it occurs
/// in it, and what was known of the variable must hold of the type. Other
/// types unify when they are built alike and their parts unify, the parts
/// taken from left to right, up to the first failure.
pub open spec fn unify_spec(s: Entries, syms: SymsView, want: Ty, got: Ty, fuel: nat) -> (
    Entries,
    UnifyResult,
)
    decreases fuel, 0nat,
{
    if fuel == 0 {
        (s, Err(UnifyError::HeadMismatch))
    } else {
        let want = apply(s, want);
        let got = apply(s, got);
        match want {
            Ty::Unknown => (s, Ok(())),
            Ty::MetaVar(mv) => match got {
                Ty::Unknown => (s, Ok(())),
                _ => solve_spec(s, syms, mv, got),
            },
            Ty::BoundVar(w) => match got {
                Ty::Unknown => (s, Ok(())),
                Ty::MetaVar(mv) => solve_spec(s, syms, mv, want),
                Ty::BoundVar(g) => (s, head_match_spec(w == g)),
                _ => (s, Err(UnifyError::HeadMismatch)),
            },
            Ty::FixedVar(w) => match got {
                Ty::Unknown => (s, Ok(())),
                Ty::MetaVar(mv) => solve_spec(s, syms, mv, want),
                Ty::FixedVar(g) => (s, head_match_spec(w.same(g))),
                _ => (s, Err(UnifyError::HeadMismatch)),
            },
            Ty::Record(w) => match got {
                Ty::Unknown => (s, Ok(())),
                Ty::MetaVar(mv) => solve_spec(s, syms, mv, want),
                Ty::Record(g) => match match_labels(*w, *g) {
                    Err(e) => (s, Err(e)),
                    Ok(_) => unify_rows_spec(s, syms, *w, *g, (fuel - 1) as nat),
                },
                _ => (s, Err(UnifyError::HeadMismatch)),
            },
            Ty::Con(w, w_sym) => match got {
                Ty::Unknown => (s, Ok(())),
                Ty::MetaVar(mv) => solve_spec(s, syms, mv, want),
                Ty::Con(g, g_sym) => if w_sym == g_sym {
                    unify_tys_spec(s, syms, *w, *g, (fuel - 1) as nat)
                } else {
                    (s, Err(UnifyError::HeadMismatch))
                },
                _ => (s, Err(UnifyError::HeadMismatch)),
            },
            Ty::Fn(w_param, w_res) => match got {
                Ty::Unknown => (s, Ok(())),
                Ty::MetaVar(mv) => solve_spec(s, syms, mv, want),
                Ty::Fn(g_param, g_res) => {
                    let (s1, r) = unify_spec(s, syms, *w_param, *g_param, (fuel - 1) as nat);
                    if r is Err {
                        (s1, r)
                    } else {
                        unify_spec(s1, syms, *w_res, *g_res, (fuel - 1) as nat)
                    }
                },
                _ => (s, Err(UnifyError::HeadMismatch)),
            },
        }
    }
}

/// The unification of the types of two lists, pair by pair. Lists of
/// different lengths do not unify.
pub open spec fn unify_tys_spec(s: Entries, syms: SymsView, want: List<Ty>, got: List<Ty>, fuel: nat) -> (
    Entries,
    UnifyResult,
)
    decreases fuel, 1 + want.len(),
{
    match want {
        List::Nil => match got {
            List::Nil => (s, Ok(())),
            List::Cons(_, _) => (s, Err(UnifyError::HeadMismatch)),
        },
        List::Cons(w, ws) => match got {
            List::Nil => (s, Err(UnifyError::HeadMismatch)),
            List::Cons(g, gs) => {
                let (s1, r) = unify_spec(s, syms, w, g, fuel);
                if r is Err {
                    (s1, r)
                } else {
                    unify_tys_spec(s1, syms, *ws, *gs, fuel)
                }
            },
        },
    }
}

/// The unification of the types of the rows of two records, pair by pair.
pub open spec fn unify_rows_spec(
    s: Entries,
    syms: SymsView,
    want: List<(Lab, Ty)>,
    got: List<(Lab, Ty)>,
    fuel: nat,
) -> (Entries, UnifyResult)
    decreases fuel, 1 + want.len(),
{
    match want {
        List::Nil => match got {
            List::Nil => (s, Ok(())),
            List::Cons(_, _) => (s, Err(UnifyError::HeadMismatch)),
        },
        List::Cons(w, ws) => match got {
            List::Nil => (s, Err(UnifyError::HeadMismatch)),
            List::Cons(g, gs) => {
                let (s1, r) = unify_spec(s, syms, w.1, g.1, fuel);
                if r is Err {
                    (s1, r)
                } else {
                    unify_rows_spec(s1, syms, *ws, *gs, fuel)
                }
            },
        },
    }
}

/// Success when `b` holds, a head mismatch when not.
pub fn head_match(b: bool) -> (r: UnifyResult)
    ensures
        r == head_match_spec(b),
{
    if b {
        Ok(())
    } else {
        Err(UnifyError::HeadMismatch)
    }
}

fn get_kind(subst: &Subst, mv: MetaTyVar) -> (r: TyVarKind)
    ensures
        r == kind_of(subst@, mv),
{
    match subst.get(mv) {
        Some(SubstEntry::Kind(k)) => *k,
        _ => TyVarKind::Regular,
    }
}

fn check_labels(want: &List<(Lab, Ty)>, got: &List<(Lab, Ty)>) -> (r: UnifyResult)
    ensures
        r == match_labels(*want, *got),
    decreases *want,
{
    match want {
        List::Nil => match got {
            List::Nil => Ok(()),
            List::Cons(_, _) => Err(UnifyError::ExtraRows),
        },
        List::Cons(w, ws) => match got {
            List::Nil => Err(UnifyError::MissingRow(w.0.clone())),
            List::Cons(g, gs) => if w.0.same(&g.0) {
                check_labels(ws, gs)
            } else if w.0.less(&g.0) {
                Err(UnifyError::MissingRow(w.0.clone()))
            } else {
                Err(UnifyError::ExtraRows)
            },
        },
    }
}

/// Solving entries keep the solutions of the equality check in place.
proof fn lemma_eq_then_bind(s: Entries, syms: SymsView, mv: MetaTyVar, ty: Ty)
    requires
        entries_wf(s),
        !is_solved(s, mv),
        no_solved(s, ty),
        !occurs(mv, ty),
    ensures
        entries_wf(eq_ty(s, syms, ty).0),
        !is_solved(eq_ty(s, syms, ty).0, mv),
        no_solved(eq_ty(s, syms, ty).0, ty),
{
    lemma_eq_ty_keeps_solutions(s, syms, ty);
}

fn solve(subst: &mut Subst, syms: &Syms, mv: MetaTyVar, ty: Ty) -> (r: UnifyResult)
    requires
        old(subst).wf(),
        !is_solved(old(subst)@, mv),
        no_solved(old(subst)@, ty),
    ensures
        (final(subst)@, r) == solve_spec(old(subst)@, syms@, mv, ty),
        final(subst).wf(),
{
    let same = match &ty {
        Ty::MetaVar(mv2) => *mv2 == mv,
        _ => false,
    };
    if same {
        return Ok(());
    }
    if occurs_in(mv, &ty) {
        return Err(UnifyError::OccursCheck(mv, ty));
    }
    match get_kind(subst, mv) {
        TyVarKind::Regular => {
            subst.bind(mv, ty);
            Ok(())
        },
        TyVarKind::Equality => {
            proof {
                lemma_eq_then_bind(subst@, syms@, mv, ty);
            }
            match eq_walk(subst, syms, &ty) {
                Err(e) => Err(UnifyError::NotEquality(ty, e)),
                Ok(()) => {
                    subst.bind(mv, ty);
                    Ok(())
                },
            }
        },
        TyVarKind::Overloaded(ov) => {
            let other: Option<Option<MetaTyVar>> = match &ty {
                Ty::Con(_, sym) => if syms.overloads().contains(ov, *sym) {
                    Some(None)
                } else {
                    None
                },
                Ty::MetaVar(mv2) => Some(Some(*mv2)),
                _ => None,
            };
            match other {
                None => Err(UnifyError::OverloadMismatch(ov, ty)),
                Some(None) => {
                    subst.bind(mv, ty);
                    Ok(())
                },
                Some(Some(mv2)) => {
                    let kind = match get_kind(subst, mv2) {
                        TyVarKind::Regular | TyVarKind::Equality => Some(ov),
                        TyVarKind::Overloaded(ov2) => ov.unify(ov2),
                    };
                    match kind {
                        None => Err(UnifyError::OverloadMismatch(ov, ty)),
                        Some(o) => {
                            proof {
                                lemma_lookup_bind(subst@, mv, ty, mv2);
                            }
                            subst.bind(mv, ty);
                            subst.set_kind(mv2, TyVarKind::Overloaded(o));
                            Ok(())
                        },
                    }
                },
            }
        },
    }
}

/// Unification keeps well-formed entries well formed.
pub proof fn lemma_unify_wf(s: Entries, syms: SymsView, want: Ty, got: Ty, fuel: nat)
    requires
        entries_wf(s),
    ensures
        entries_wf(unify_spec(s, syms, want, got, fuel).0),
    decreases fuel, 0nat,
{
    if fuel > 0 {
        let w = apply(s, want);
        let g = apply(s, got);
        lemma_apply_no_solved(s, want);
        lemma_apply_no_solved(s, got);
        match w {
            Ty::Unknown => {},
            Ty::MetaVar(mv) => {
                if !(g is Unknown) {
                    lemma_solve_wf(s, syms, mv, g);
                }
            },
            _ => {
                match g {
                    Ty::Unknown => {},
                    Ty::MetaVar(mv) => {
                        lemma_solve_wf(s, syms, mv, w);
                    },
                    _ => {
                        match (w, g) {
                            (Ty::Record(a), Ty::Record(b)) => {
                                lemma_unify_rows_wf(s, syms, *a, *b, (fuel - 1) as nat);
                            },
                            (Ty::Con(a, _), Ty::Con(b, _)) => {
                                lemma_unify_tys_wf(s, syms, *a, *b, (fuel - 1) as nat);
                            },
                            (Ty::Fn(p1, r1), Ty::Fn(p2, r2)) => {
                                lemma_unify_wf(s, syms, *p1, *p2, (fuel - 1) as nat);
                                let (s1, r) = unify_spec(s, syms, *p1, *p2, (fuel - 1) as nat);
                                lemma_unify_wf(s1, syms, *r1, *r2, (fuel - 1) as nat);
                            },
                            _ => {},
                        }
                    },
                }
            },
        }
    }
}

pub proof fn lemma_unify_tys_wf(s: Entries, syms: SymsView, want: List<Ty>, got: List<Ty>, fuel: nat)
    requires
        entries_wf(s),
    ensures
        entries_wf(unify_tys_spec(s, syms, want, got, fuel).0),
    decreases fuel, 1 + want.len(),
{
    match (want, got) {
        (List::Cons(w, ws), List::Cons(g, gs)) => {
            lemma_unify_wf(s, syms, w, g, fuel);
            let (s1, r) = unify_spec(s, syms, w, g, fuel);
            lemma_unify_tys_wf(s1, syms, *ws, *gs, fuel);
        },
        _ => {},
    }
}

pub proof fn lemma_unify_rows_wf(
    s: Entries,
    syms: SymsView,
    want: List<(Lab, Ty)>,
    got: List<(Lab, Ty)>,
    fuel: nat,
)
    requires
        entries_wf(s),
    ensures
        entries_wf(unify_rows_spec(s, syms, want, got, fuel).0),
    decreases fuel, 1 + want.len(),
{
    match (want, got) {
        (List::Cons(w, ws), List::Cons(g, gs)) => {
            lemma_unify_wf(s, syms, w.1, g.1, fuel);
            let (s1, r) = unify_spec(s, syms, w.1, g.1, fuel);
            lemma_unify_rows_wf(s1, syms, *ws, *gs, fuel);
        },
        _ => {},
    }
}

/// Solving keeps well-formed entries well formed.
pub proof fn lemma_solve_wf(s: Entries, syms: SymsView, mv: MetaTyVar, ty: Ty)
    requires
        entries_wf(s),
        !is_solved(s, mv),
        no_solved(s, ty),
    ensures
        entries_wf(solve_spec(s, syms, mv, ty).0),
{
    if ty != Ty::MetaVar(mv) && !occurs(mv, ty) {
        match kind_of(s, mv) {
            TyVarKind::Regular => {
                lemma_bind_wf(s, mv, ty);
            },
            TyVarKind::Equality => {
                lemma_eq_then_bind(s, syms, mv, ty);
                let (s1, r) = eq_ty(s, syms, ty);
                lemma_bind_wf(s1, mv, ty);
            },
            TyVarKind::Overloaded(ov) => {
                lemma_bind_wf(s, mv, ty);
                match ty {
                    Ty::MetaVar(mv2) => {
                        lemma_lookup_bind(s, mv, ty, mv2);
                        let k = match kind_of(s, mv2) {
                            TyVarKind::Overloaded(ov2) => ov.meet(ov2),
                            _ => Some(ov),
                        };
                        if k is Some {
                            crate::statics::types::lemma_set_kind_wf(
                                bind(s, mv, ty),
                                mv2,
                                TyVarKind::Overloaded(k->0),
                            );
                        }
                    },
                    _ => {},
                }
            },
        }
    }
}

/// Unifies `want` with `got`, in at most `fuel` nested steps. Both have the
/// substitution applied upon entry.
pub fn unify_(subst: &mut Subst, syms: &Syms, want: Ty, got: Ty, fuel: u64) -> (r: UnifyResult)
    requires
        old(subst).wf(),
    ensures
        (final(subst)@, r) == unify_spec(old(subst)@, syms@, want, got, fuel as nat),
        final(subst).wf(),
    decreases fuel, 0nat,
{
    if fuel == 0 {
        return Err(UnifyError::HeadMismatch);
    }
    proof {
        lemma_apply_no_solved(subst@, want);
        lemma_apply_no_solved(subst@, got);
    }
    let want = subst.apply(&want);
    let got = subst.apply(&got);
    match want {
        Ty::Unknown => Ok(()),
        Ty::MetaVar(mv) => match got {
            Ty::Unknown => Ok(()),
            _ => solve(subst, syms, mv, got),
        },
        Ty::BoundVar(w) => match got {
            Ty::Unknown => Ok(()),
            Ty::MetaVar(mv) => solve(subst, syms, mv, Ty::BoundVar(w)),
            Ty::BoundVar(g) => head_match(w == g),
            _ => Err(UnifyError::HeadMismatch),
        },
        Ty::FixedVar(w) => match got {
            Ty::Unknown => Ok(()),
            Ty::MetaVar(mv) => solve(subst, syms, mv, Ty::FixedVar(w)),
            Ty::FixedVar(g) => head_match(w.is_same(&g)),
            _ => Err(UnifyError::HeadMismatch),
        },
        Ty::Record(w) => match got {
            Ty::Unknown => Ok(()),
            Ty::MetaVar(mv) => solve(subst, syms, mv, Ty::Record(w)),
            Ty::Record(g) => match check_labels(&w, &g) {
                Err(e) => Err(e),
                Ok(()) => unify_rows(subst, syms, *w, *g, fuel - 1),
            },
            _ => Err(UnifyError::HeadMismatch),
        },
        Ty::Con(w, w_sym) => match got {
            Ty::Unknown => Ok(()),
            Ty::MetaVar(mv) => solve(subst, syms, mv, Ty::Con(w, w_sym)),
            Ty::Con(g, g_sym) => if w_sym == g_sym {
                unify_tys(subst, syms, *w, *g, fuel - 1)
            } else {
                Err(UnifyError::HeadMismatch)
            },
            _ => Err(UnifyError::HeadMismatch),
        },
        Ty::Fn(w_param, w_res) => match got {
            Ty::Unknown => Ok(()),
            Ty::MetaVar(mv) => solve(subst, syms, mv, Ty::Fn(w_param, w_res)),
            Ty::Fn(g_param, g_res) => {
                match unify_(subst, syms, *w_param, *g_param, fuel - 1) {
                    Err(e) => Err(e),
                    Ok(()) => unify_(subst, syms, *w_res, *g_res, fuel - 1),
                }
            },
            _ => Err(UnifyError::HeadMismatch),
        },
    }
}

fn unify_tys(subst: &mut Subst, syms: &Syms, want: List<Ty>, got: List<Ty>, fuel: u64) -> (r:
    UnifyResult)
    requires
        old(subst).wf(),
    ensures
        (final(subst)@, r) == unify_tys_spec(old(subst)@, syms@, want, got, fuel as nat),
        final(subst).wf(),
    decreases fuel, 1 + want.len(),
{
    match want {
        List::Nil => match got {
            List::Nil => Ok(()),
            List::Cons(_, _) => Err(UnifyError::HeadMismatch),
        },
        List::Cons(w, ws) => match got {
            List::Nil => Err(UnifyError::HeadMismatch),
            List::Cons(g, gs) => {
                match unify_(subst, syms, w, g, fuel) {
                    Err(e) => Err(e),
                    Ok(()) => unify_tys(subst, syms, *ws, *gs, fuel),
                }
            },
        },
    }
}

fn unify_rows(
    subst: &mut Subst,
    syms: &Syms,
    want: List<(Lab, Ty)>,
    got: List<(Lab, Ty)>,
    fuel: u64,
) -> (r: UnifyResult)
    requires
        old(subst).wf(),
    ensures
        (final(subst)@, r) == unify_rows_spec(old(subst)@, syms@, want, got, fuel as nat),
        final(subst).wf(),
    decreases fuel, 1 + want.len(),
{
    match want {
        List::Nil => match got {
            List::Nil => Ok(()),
            List::Cons(_, _) => Err(UnifyError::HeadMismatch),
        },
        List::Cons(w, ws) => match got {
            List::Nil => Err(UnifyError::HeadMismatch),
            List::Cons(g, gs) => {
                match unify_(subst, syms, w.1, g.1, fuel) {
                    Err(e) => Err(e),
                    Ok(()) => unify_rows(subst, syms, *ws, *gs, fuel),
                }
            },
        },
    }
}

/// Whether every basic overload of `a` is one of `b`.
pub open spec fn within(a: Overload, b: Overload) -> bool {
    &&& a.has(BasicOverload::Int) ==> b.has(BasicOverload::Int)
    &&& a.has(BasicOverload::Real) ==> b.has(BasicOverload::Real)
    &&& a.has(BasicOverload::Word) ==> b.has(BasicOverload::Word)
    &&& a.has(BasicOverload::String) ==> b.has(BasicOverload::String)
    &&& a.has(BasicOverload::Char) ==> b.has(BasicOverload::Char)
}

/// The overloads of the overloaded meta variables of a type, in the order
/// in which they occur.
pub open spec fn overloads_in(s: Entries, ty: Ty) -> List<Overload>
    decreases ty,
{
    match ty {
        Ty::MetaVar(mv) => match kind_of(s, mv) {
            TyVarKind::Overloaded(o) => List::Cons(o, Box::new(List::Nil)),
            _ => List::Nil,
        },
        Ty::Unknown | Ty::BoundVar(_) | Ty::FixedVar(_) => List::Nil,
        Ty::Record(rows) => overloads_in_rows(s, *rows),
        Ty::Con(args, _) => overloads_in_tys(s, *args),
        Ty::Fn(param, res) => overloads_in(s, *param).append(overloads_in(s, *res)),
    }
}

pub open spec fn overloads_in_tys(s: Entries, tys: List<Ty>) -> List<Overload>
    decreases tys,
{
    match tys {
        List::Nil => List::Nil,
        List::Cons(h, t) => overloads_in(s, h).append(overloads_in_tys(s, *t)),
    }
}

pub open spec fn overloads_in_rows(s: Entries, rows: List<(Lab, Ty)>) -> List<Overload>
    decreases rows,
{
    match rows {
        List::Nil => List::Nil,
        List::Cons(h, t) => overloads_in(s, h.1).append(overloads_in_rows(s, *t)),
    }
}

/// Whether `ov` lies within one of the overloads.
pub open spec fn any_within(l: List<Overload>, ov: Overload) -> bool
    decreases l,
{
    match l {
        List::Nil => false,
        List::Cons(h, t) => within(ov, h) || any_within(*t, ov),
    }
}

/// Whether the wanted type admitted the found type before unification
/// narrowed it: the found type is an overloaded meta variable, and its
/// overload lies within the overload that some meta variable of the wanted
/// type had. `1.1 + 1` is such a case: `+` takes integers too. `1 div 0.5`
/// is none: `div` takes no real numbers.
pub open spec fn admitted(before: Entries, want: Ty, after: Entries, ty: Ty) -> bool {
    match ty {
        Ty::MetaVar(mv) => match kind_of(after, mv) {
            TyVarKind::Overloaded(o) => any_within(overloads_in(before, apply(before, want)), o),
            _ => false,
        },
        _ => false,
    }
}

/// The error that a failed unification of `want` with `got` is reported as.
/// `before` and `after` are the entries before and after the unification.
pub open spec fn error_of(e: UnifyError, want: Ty, got: Ty, before: Entries, after: Entries) -> ErrorKind {
    match e {
        UnifyError::OccursCheck(mv, ty) => ErrorKind::Circularity(mv, ty),
        UnifyError::HeadMismatch => ErrorKind::MismatchedTypes(want, got),
        UnifyError::OverloadMismatch(ov, ty) => ErrorKind::OverloadMismatch(
            ov,
            ty,
            admitted(before, want, after, ty),
        ),
        UnifyError::ExtraRows => ErrorKind::ExtraFields(want, got),
        UnifyError::MissingRow(lab) => ErrorKind::MissingField(lab, want, got),
        UnifyError::NotEquality(ty, e) => ErrorKind::NotEquality(ty, e),
    }
}

/// What `unify` does to the state and to the two types.
pub open spec fn unify_st(st: StView, want: Ty, got: Ty, idx: Idx) -> (StView, Ty, Ty) {
    let (s1, r) = unify_spec(st.subst, st.syms, want, got, FUEL as nat);
    match r {
        Ok(_) => (with_subst(st, s1), want, got),
        Err(e) => (
            with_error(with_subst(st, s1), idx, error_of(e, want, got, st.subst, s1)),
            Ty::Unknown,
            Ty::Unknown,
        ),
    }
}

fn is_within(a: Overload, b: Overload) -> (r: bool)
    ensures
        r == within(a, b),
{
    (!a.contains(BasicOverload::Int) || b.contains(BasicOverload::Int)) && (!a.contains(
        BasicOverload::Real,
    ) || b.contains(BasicOverload::Real)) && (!a.contains(BasicOverload::Word) || b.contains(
        BasicOverload::Word,
    )) && (!a.contains(BasicOverload::String) || b.contains(BasicOverload::String)) && (
    !a.contains(BasicOverload::Char) || b.contains(BasicOverload::Char))
}

fn overload_of(subst: &Subst, mv: MetaTyVar) -> (r: Option<Overload>)
    ensures
        r == (match kind_of(subst@, mv) {
            TyVarKind::Overloaded(o) => Some(o),
            _ => None,
        }),
{
    match subst.get(mv) {
        Some(SubstEntry::Kind(TyVarKind::Overloaded(o))) => Some(*o),
        _ => None,
    }
}

fn overloads(subst: &Subst, ty: &Ty) -> (r: List<Overload>)
    ensures
        r == overloads_in(subst@, *ty),
    decreases *ty,
{
    match ty {
        Ty::MetaVar(mv) => match overload_of(subst, *mv) {
            Some(o) => List::Cons(o, Box::new(List::Nil)),
            None => List::Nil,
        },
        Ty::Unknown | Ty::BoundVar(_) | Ty::FixedVar(_) => List::Nil,
        Ty::Record(rows) => overloads_rows(subst, rows),
        Ty::Con(args, _) => overloads_tys(subst, args),
        Ty::Fn(param, res) => overloads(subst, param).concat(overloads(subst, res)),
    }
}

fn overloads_tys(subst: &Subst, tys: &List<Ty>) -> (r: List<Overload>)
    ensures
        r == overloads_in_tys(subst@, *tys),
    decreases *tys,
{
    match tys {
        List::Nil => List::Nil,
        List::Cons(h, t) => overloads(subst, h).concat(overloads_tys(subst, t)),
    }
}

fn overloads_rows(subst: &Subst, rows: &List<(Lab, Ty)>) -> (r: List<Overload>)
    ensures
        r == overloads_in_rows(subst@, *rows),
    decreases *rows,
{
    match rows {
        List::Nil => List::Nil,
        List::Cons(h, t) => overloads(subst, &h.1).concat(overloads_rows(subst, t)),
    }
}

fn is_any_within(l: &List<Overload>, ov: Overload) -> (r: bool)
    ensures
        r == any_within(*l, ov),
    decreases *l,
{
    match l {
        List::Nil => false,
        List::Cons(h, t) => is_within(ov, *h) || is_any_within(t, ov),
    }
}

/// Unifies `want` with `got`. When they do not unify, an error is recorded
/// at `idx`, and both types become unknown, so that nothing further is
/// reported of them.
pub fn unify(st: &mut St, want: &mut Ty, got: &mut Ty, idx: Idx)
    requires
        old(st).subst.wf(),
    ensures
        final(st).subst.wf(),
        final(st).syms == old(st).syms,
        (final(st)@, *final(want), *final(got)) == unify_st(
            old(st)@,
            *old(want),
            *old(got),
            idx,
        ),
{
    let w = want.clone();
    let g = got.clone();
    let applied = st.subst.apply(want);
    let wide = overloads(&st.subst, &applied);
    match unify_(&mut st.subst, &st.syms, w, g, FUEL) {
        Ok(()) => {},
        Err(e) => {
            let mut w2 = Ty::Unknown;
            let mut g2 = Ty::Unknown;
            std::mem::swap(want, &mut w2);
            std::mem::swap(got, &mut g2);
            let kind = match e {
                UnifyError::OccursCheck(mv, ty) => ErrorKind::Circularity(mv, ty),
                UnifyError::HeadMismatch => ErrorKind::MismatchedTypes(w2, g2),
                UnifyError::OverloadMismatch(ov, ty) => {
                    let found = match &ty {
                        Ty::MetaVar(mv) => overload_of(&st.subst, *mv),
                        _ => None,
                    };
                    let ok = match found {
                        Some(o) => is_any_within(&wide, o),
                        None => false,
                    };
                    ErrorKind::OverloadMismatch(ov, ty, ok)
                },
                UnifyError::ExtraRows => ErrorKind::ExtraFields(w2, g2),
                UnifyError::MissingRow(lab) => ErrorKind::MissingField(lab, w2, g2),
                UnifyError::NotEquality(ty, e) => ErrorKind::NotEquality(ty, e),
            };
            st.errors.push(Error { idx, kind });
        },
    }
}

} // verus!

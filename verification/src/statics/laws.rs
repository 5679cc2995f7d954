//! What holds of unification on all inputs.

use crate::hir::{lemma_lab_trichotomy, Lab};
use crate::list::List;
use crate::statics::sym::{Syms, SymsView};
use crate::statics::equality::{eq_ty, lemma_eq_ty_keeps_solutions};
use crate::statics::types::{
    apply, apply_rows, apply_tys, bind, entries_wf, ground, ground_rows, ground_tys,
    has_unknown, has_unknown_rows, has_unknown_tys, is_solved, lemma_apply_ground,
    lemma_apply_no_solved, lemma_bind_wf, lemma_lookup_bind, lemma_occurs_survives_apply,
    lemma_set_kind_apply, no_solved, occurs, occurs_rows, occurs_tys, replace, replace_rows,
    replace_tys, set_entry, Entries, MetaTyVar, SubstEntry, Ty, TyVarKind,
};
use crate::statics::unify::{
    failure_kind, kind_of, lemma_solve_wf, lemma_unify_wf, match_labels, mirrored, solve_spec,
    unify_rows_spec, unify_spec, unify_tys_spec, UnifyError,
};
use vstd::prelude::*;

verus! {

/// The occurs check: unifying a meta variable that has no solution with a
/// type that holds it, and is not the variable itself, fails with the
/// variable and the type, whichever side the variable stands on, and leaves
/// the entries as they were.
pub proof fn law_occurs_check(s: Entries, syms: SymsView, mv: MetaTyVar, ty: Ty, fuel: nat)
    requires
        fuel > 0,
        !is_solved(s, mv),
        occurs(mv, ty),
        ty != Ty::MetaVar(mv),
    ensures
        unify_spec(s, syms, Ty::MetaVar(mv), ty, fuel) == (
            s,
            Err::<(), UnifyError>(UnifyError::OccursCheck(mv, apply(s, ty))),
        ),
        unify_spec(s, syms, ty, Ty::MetaVar(mv), fuel) == (
            s,
            Err::<(), UnifyError>(UnifyError::OccursCheck(mv, apply(s, ty))),
        ),
{
    lemma_occurs_survives_apply(s, mv, ty);
}

/// Two lists of rows have matching labels from one side exactly when they
/// have from the other, and a row missing from one side is extra from the
/// other.
pub proof fn lemma_match_labels_mirrored(a: List<(Lab, Ty)>, b: List<(Lab, Ty)>)
    ensures
        failure_kind(match_labels(a, b)) == mirrored(failure_kind(match_labels(b, a))),
    decreases a,
{
    match (a, b) {
        (List::Cons(x, xs), List::Cons(y, ys)) => {
            lemma_lab_trichotomy(x.0@, y.0@);
            if x.0@ == y.0@ {
                lemma_match_labels_mirrored(*xs, *ys);
            }
        },
        _ => {},
    }
}

/// Unification is symmetric on types without unsolved meta variables: it
/// succeeds from one side exactly when it succeeds from the other, it fails
/// with the same kind of failure, but that a row missing from one side is
/// extra from the other, and it leaves the entries as they were.
pub proof fn law_unify_symmetric(s: Entries, syms: SymsView, a: Ty, b: Ty, fuel: nat)
    requires
        ground(apply(s, a)),
        ground(apply(s, b)),
    ensures
        failure_kind(unify_spec(s, syms, a, b, fuel).1) == mirrored(
            failure_kind(unify_spec(s, syms, b, a, fuel).1),
        ),
        unify_spec(s, syms, a, b, fuel).0 == s,
        unify_spec(s, syms, b, a, fuel).0 == s,
    decreases fuel, 0nat,
{
    if fuel > 0 {
        let w = apply(s, a);
        let g = apply(s, b);
        match (w, g) {
            (Ty::Record(x), Ty::Record(y)) => {
                lemma_match_labels_mirrored(*x, *y);
                lemma_symmetric_rows(s, syms, *x, *y, (fuel - 1) as nat);
            },
            (Ty::Con(x, _), Ty::Con(y, _)) => {
                lemma_symmetric_tys(s, syms, *x, *y, (fuel - 1) as nat);
            },
            (Ty::Fn(p1, r1), Ty::Fn(p2, r2)) => {
                lemma_apply_ground(s, *p1);
                lemma_apply_ground(s, *p2);
                lemma_apply_ground(s, *r1);
                lemma_apply_ground(s, *r2);
                law_unify_symmetric(s, syms, *p1, *p2, (fuel - 1) as nat);
                law_unify_symmetric(s, syms, *r1, *r2, (fuel - 1) as nat);
            },
            _ => {},
        }
    }
}

proof fn lemma_symmetric_tys(s: Entries, syms: SymsView, a: List<Ty>, b: List<Ty>, fuel: nat)
    requires
        ground_tys(a),
        ground_tys(b),
    ensures
        failure_kind(unify_tys_spec(s, syms, a, b, fuel).1) == mirrored(
            failure_kind(unify_tys_spec(s, syms, b, a, fuel).1),
        ),
        unify_tys_spec(s, syms, a, b, fuel).0 == s,
        unify_tys_spec(s, syms, b, a, fuel).0 == s,
    decreases fuel, 1 + a.len(),
{
    match (a, b) {
        (List::Cons(x, xs), List::Cons(y, ys)) => {
            lemma_apply_ground(s, x);
            lemma_apply_ground(s, y);
            law_unify_symmetric(s, syms, x, y, fuel);
            lemma_symmetric_tys(s, syms, *xs, *ys, fuel);
        },
        _ => {},
    }
}

proof fn lemma_symmetric_rows(
    s: Entries,
    syms: SymsView,
    a: List<(Lab, Ty)>,
    b: List<(Lab, Ty)>,
    fuel: nat,
)
    requires
        ground_rows(a),
        ground_rows(b),
    ensures
        failure_kind(unify_rows_spec(s, syms, a, b, fuel).1) == mirrored(
            failure_kind(unify_rows_spec(s, syms, b, a, fuel).1),
        ),
        unify_rows_spec(s, syms, a, b, fuel).0 == s,
        unify_rows_spec(s, syms, b, a, fuel).0 == s,
    decreases fuel, 1 + a.len(),
{
    match (a, b) {
        (List::Cons(x, xs), List::Cons(y, ys)) => {
            lemma_apply_ground(s, x.1);
            lemma_apply_ground(s, y.1);
            law_unify_symmetric(s, syms, x.1, y.1, fuel);
            lemma_symmetric_rows(s, syms, *xs, *ys, fuel);
        },
        _ => {},
    }
}

/// Whether two types are built alike: the same but for how the text of a
/// label or of a fixed type variable is stored.
pub open spec fn same(a: Ty, b: Ty) -> bool
    decreases a,
{
    match a {
        Ty::Unknown => b is Unknown,
        Ty::BoundVar(i) => b == Ty::BoundVar(i),
        Ty::MetaVar(mv) => b == Ty::MetaVar(mv),
        Ty::FixedVar(x) => b matches Ty::FixedVar(y) && x.same(y),
        Ty::Record(x) => b matches Ty::Record(y) && same_rows(*x, *y),
        Ty::Con(x, x_sym) => b matches Ty::Con(y, y_sym) && x_sym == y_sym && same_tys(*x, *y),
        Ty::Fn(p1, r1) => b matches Ty::Fn(p2, r2) && same(*p1, *p2) && same(*r1, *r2),
    }
}

pub open spec fn same_tys(a: List<Ty>, b: List<Ty>) -> bool
    decreases a,
{
    match a {
        List::Nil => b is Nil,
        List::Cons(x, xs) => b matches List::Cons(y, ys) && same(x, y) && same_tys(*xs, *ys),
    }
}

pub open spec fn same_rows(a: List<(Lab, Ty)>, b: List<(Lab, Ty)>) -> bool
    decreases a,
{
    match a {
        List::Nil => b is Nil,
        List::Cons(x, xs) => b matches List::Cons(y, ys) && x.0@ == y.0@ && same(x.1, y.1)
            && same_rows(*xs, *ys),
    }
}

/// Whether no solution of the entries holds the unknown type.
pub open spec fn known(s: Entries) -> bool {
    forall|mv: MetaTyVar| is_solved(s, mv) ==> !has_unknown(#[trigger] apply(s, Ty::MetaVar(mv)))
}

/// Whether types that the first entries make alike stay alike under the
/// second.
pub open spec fn preserves(s: Entries, s2: Entries) -> bool {
    forall|x: Ty, y: Ty|
        #![trigger apply(s2, x), apply(s2, y)]
        same(apply(s, x), apply(s, y)) ==> same(apply(s2, x), apply(s2, y))
}

/// Whether applying the second entries gives the same after the first were
/// applied.
pub open spec fn extends(s: Entries, s2: Entries) -> bool {
    forall|x: Ty| #[trigger] apply(s2, apply(s, x)) == apply(s2, x)
}

/// Whether the second entries say all that the first say.
pub open spec fn refines(s: Entries, s2: Entries) -> bool {
    preserves(s, s2) && extends(s, s2)
}

proof fn lemma_same_refl(t: Ty)
    ensures
        same(t, t),
    decreases t,
{
    match t {
        Ty::Record(rows) => lemma_same_rows_refl(*rows),
        Ty::Con(args, _) => lemma_same_tys_refl(*args),
        Ty::Fn(p, r) => {
            lemma_same_refl(*p);
            lemma_same_refl(*r);
        },
        _ => {},
    }
}

proof fn lemma_same_tys_refl(t: List<Ty>)
    ensures
        same_tys(t, t),
    decreases t,
{
    match t {
        List::Nil => {},
        List::Cons(h, rest) => {
            lemma_same_refl(h);
            lemma_same_tys_refl(*rest);
        },
    }
}

proof fn lemma_same_rows_refl(t: List<(Lab, Ty)>)
    ensures
        same_rows(t, t),
    decreases t,
{
    match t {
        List::Nil => {},
        List::Cons(h, rest) => {
            lemma_same_refl(h.1);
            lemma_same_rows_refl(*rest);
        },
    }
}

proof fn lemma_replace_same(x: Ty, y: Ty, mv: MetaTyVar, by: Ty)
    requires
        same(x, y),
    ensures
        same(replace(x, mv, by), replace(y, mv, by)),
    decreases x,
{
    match x {
        Ty::MetaVar(_) => {
            lemma_same_refl(by);
        },
        Ty::Record(rows) => {
            lemma_replace_same_rows(*rows, *y->Record_0, mv, by);
        },
        Ty::Con(args, _) => {
            lemma_replace_same_tys(*args, *y->Con_0, mv, by);
        },
        Ty::Fn(p, r) => {
            lemma_replace_same(*p, *y->Fn_0, mv, by);
            lemma_replace_same(*r, *y->Fn_1, mv, by);
        },
        _ => {},
    }
}

proof fn lemma_replace_same_tys(x: List<Ty>, y: List<Ty>, mv: MetaTyVar, by: Ty)
    requires
        same_tys(x, y),
    ensures
        same_tys(replace_tys(x, mv, by), replace_tys(y, mv, by)),
    decreases x,
{
    match x {
        List::Nil => {},
        List::Cons(h, t) => {
            lemma_replace_same(h, y->Cons_0, mv, by);
            lemma_replace_same_tys(*t, *y->Cons_1, mv, by);
        },
    }
}

proof fn lemma_replace_same_rows(x: List<(Lab, Ty)>, y: List<(Lab, Ty)>, mv: MetaTyVar, by: Ty)
    requires
        same_rows(x, y),
    ensures
        same_rows(replace_rows(x, mv, by), replace_rows(y, mv, by)),
    decreases x,
{
    match x {
        List::Nil => {},
        List::Cons(h, t) => {
            lemma_replace_same(h.1, y->Cons_0.1, mv, by);
            lemma_replace_same_rows(*t, *y->Cons_1, mv, by);
        },
    }
}

/// After a meta variable was solved, applying the entries is applying the
/// entries before and then putting the solution in place of the variable.
proof fn lemma_bind_apply(s: Entries, mv: MetaTyVar, by: Ty, t: Ty)
    requires
        !is_solved(s, mv),
    ensures
        apply(bind(s, mv, by), t) == replace(apply(s, t), mv, by),
    decreases t,
{
    match t {
        Ty::MetaVar(m) => {
            lemma_lookup_bind(s, mv, by, m);
        },
        Ty::Record(rows) => lemma_bind_apply_rows(s, mv, by, *rows),
        Ty::Con(args, _) => lemma_bind_apply_tys(s, mv, by, *args),
        Ty::Fn(p, r) => {
            lemma_bind_apply(s, mv, by, *p);
            lemma_bind_apply(s, mv, by, *r);
        },
        _ => {},
    }
}

proof fn lemma_bind_apply_tys(s: Entries, mv: MetaTyVar, by: Ty, t: List<Ty>)
    requires
        !is_solved(s, mv),
    ensures
        apply_tys(bind(s, mv, by), t) == replace_tys(apply_tys(s, t), mv, by),
    decreases t,
{
    match t {
        List::Nil => {},
        List::Cons(h, rest) => {
            lemma_bind_apply(s, mv, by, h);
            lemma_bind_apply_tys(s, mv, by, *rest);
        },
    }
}

proof fn lemma_bind_apply_rows(s: Entries, mv: MetaTyVar, by: Ty, t: List<(Lab, Ty)>)
    requires
        !is_solved(s, mv),
    ensures
        apply_rows(bind(s, mv, by), t) == replace_rows(apply_rows(s, t), mv, by),
    decreases t,
{
    match t {
        List::Nil => {},
        List::Cons(h, rest) => {
            lemma_bind_apply(s, mv, by, h.1);
            lemma_bind_apply_rows(s, mv, by, *rest);
        },
    }
}

/// Replacing a meta variable that does not occur changes nothing.
proof fn lemma_replace_absent(t: Ty, mv: MetaTyVar, by: Ty)
    requires
        !occurs(mv, t),
    ensures
        replace(t, mv, by) == t,
    decreases t,
{
    match t {
        Ty::Record(rows) => lemma_replace_absent_rows(*rows, mv, by),
        Ty::Con(args, _) => lemma_replace_absent_tys(*args, mv, by),
        Ty::Fn(p, r) => {
            lemma_replace_absent(*p, mv, by);
            lemma_replace_absent(*r, mv, by);
        },
        _ => {},
    }
}

proof fn lemma_replace_absent_tys(t: List<Ty>, mv: MetaTyVar, by: Ty)
    requires
        !occurs_tys(mv, t),
    ensures
        replace_tys(t, mv, by) == t,
    decreases t,
{
    match t {
        List::Nil => {},
        List::Cons(h, rest) => {
            lemma_replace_absent(h, mv, by);
            lemma_replace_absent_tys(*rest, mv, by);
        },
    }
}

proof fn lemma_replace_absent_rows(t: List<(Lab, Ty)>, mv: MetaTyVar, by: Ty)
    requires
        !occurs_rows(mv, t),
    ensures
        replace_rows(t, mv, by) == t,
    decreases t,
{
    match t {
        List::Nil => {},
        List::Cons(h, rest) => {
            lemma_replace_absent(h.1, mv, by);
            lemma_replace_absent_rows(*rest, mv, by);
        },
    }
}

/// Applying entries to a type without solved meta variables changes
/// nothing.
proof fn lemma_apply_identity(s: Entries, t: Ty)
    requires
        no_solved(s, t),
    ensures
        apply(s, t) == t,
    decreases t,
{
    match t {
        Ty::MetaVar(mv) => {
            assert(occurs(mv, t));
        },
        Ty::Record(rows) => {
            assert forall|m: MetaTyVar| occurs_rows(m, *rows) implies !is_solved(s, m) by {
                assert(occurs(m, t));
            }
            lemma_apply_identity_rows(s, *rows);
        },
        Ty::Con(args, _) => {
            assert forall|m: MetaTyVar| occurs_tys(m, *args) implies !is_solved(s, m) by {
                assert(occurs(m, t));
            }
            lemma_apply_identity_tys(s, *args);
        },
        Ty::Fn(p, r) => {
            assert forall|m: MetaTyVar| occurs(m, *p) implies !is_solved(s, m) by {
                assert(occurs(m, t));
            }
            assert forall|m: MetaTyVar| occurs(m, *r) implies !is_solved(s, m) by {
                assert(occurs(m, t));
            }
            lemma_apply_identity(s, *p);
            lemma_apply_identity(s, *r);
        },
        _ => {},
    }
}

proof fn lemma_apply_identity_tys(s: Entries, t: List<Ty>)
    requires
        forall|m: MetaTyVar| occurs_tys(m, t) ==> !is_solved(s, m),
    ensures
        apply_tys(s, t) == t,
    decreases t,
{
    match t {
        List::Nil => {},
        List::Cons(h, rest) => {
            assert forall|m: MetaTyVar| occurs(m, h) implies !is_solved(s, m) by {
                assert(occurs_tys(m, t));
            }
            assert forall|m: MetaTyVar| occurs_tys(m, *rest) implies !is_solved(s, m) by {
                assert(occurs_tys(m, t));
            }
            lemma_apply_identity(s, h);
            lemma_apply_identity_tys(s, *rest);
        },
    }
}

proof fn lemma_apply_identity_rows(s: Entries, t: List<(Lab, Ty)>)
    requires
        forall|m: MetaTyVar| occurs_rows(m, t) ==> !is_solved(s, m),
    ensures
        apply_rows(s, t) == t,
    decreases t,
{
    match t {
        List::Nil => {},
        List::Cons(h, rest) => {
            assert forall|m: MetaTyVar| occurs(m, h.1) implies !is_solved(s, m) by {
                assert(occurs_rows(m, t));
            }
            assert forall|m: MetaTyVar| occurs_rows(m, *rest) implies !is_solved(s, m) by {
                assert(occurs_rows(m, t));
            }
            lemma_apply_identity(s, h.1);
            lemma_apply_identity_rows(s, *rest);
        },
    }
}

/// Applying well-formed entries twice is applying them once.
proof fn lemma_apply_idempotent(s: Entries, t: Ty)
    requires
        entries_wf(s),
    ensures
        apply(s, apply(s, t)) == apply(s, t),
{
    lemma_apply_no_solved(s, t);
    lemma_apply_identity(s, apply(s, t));
}

proof fn lemma_apply_known(s: Entries, t: Ty)
    requires
        known(s),
        !has_unknown(t),
    ensures
        !has_unknown(apply(s, t)),
    decreases t,
{
    match t {
        Ty::MetaVar(mv) => {
            if is_solved(s, mv) {
                assert(!has_unknown(apply(s, Ty::MetaVar(mv))));
            }
        },
        Ty::Record(rows) => lemma_apply_known_rows(s, *rows),
        Ty::Con(args, _) => lemma_apply_known_tys(s, *args),
        Ty::Fn(p, r) => {
            lemma_apply_known(s, *p);
            lemma_apply_known(s, *r);
        },
        _ => {},
    }
}

proof fn lemma_apply_known_tys(s: Entries, t: List<Ty>)
    requires
        known(s),
        !has_unknown_tys(t),
    ensures
        !has_unknown_tys(apply_tys(s, t)),
    decreases t,
{
    match t {
        List::Nil => {},
        List::Cons(h, rest) => {
            lemma_apply_known(s, h);
            lemma_apply_known_tys(s, *rest);
        },
    }
}

proof fn lemma_apply_known_rows(s: Entries, t: List<(Lab, Ty)>)
    requires
        known(s),
        !has_unknown_rows(t),
    ensures
        !has_unknown_rows(apply_rows(s, t)),
    decreases t,
{
    match t {
        List::Nil => {},
        List::Cons(h, rest) => {
            lemma_apply_known(s, h.1);
            lemma_apply_known_rows(s, *rest);
        },
    }
}

proof fn lemma_replace_known(t: Ty, mv: MetaTyVar, by: Ty)
    requires
        !has_unknown(t),
        !has_unknown(by),
    ensures
        !has_unknown(replace(t, mv, by)),
    decreases t,
{
    match t {
        Ty::Record(rows) => lemma_replace_known_rows(*rows, mv, by),
        Ty::Con(args, _) => lemma_replace_known_tys(*args, mv, by),
        Ty::Fn(p, r) => {
            lemma_replace_known(*p, mv, by);
            lemma_replace_known(*r, mv, by);
        },
        _ => {},
    }
}

proof fn lemma_replace_known_tys(t: List<Ty>, mv: MetaTyVar, by: Ty)
    requires
        !has_unknown_tys(t),
        !has_unknown(by),
    ensures
        !has_unknown_tys(replace_tys(t, mv, by)),
    decreases t,
{
    match t {
        List::Nil => {},
        List::Cons(h, rest) => {
            lemma_replace_known(h, mv, by);
            lemma_replace_known_tys(*rest, mv, by);
        },
    }
}

proof fn lemma_replace_known_rows(t: List<(Lab, Ty)>, mv: MetaTyVar, by: Ty)
    requires
        !has_unknown_rows(t),
        !has_unknown(by),
    ensures
        !has_unknown_rows(replace_rows(t, mv, by)),
    decreases t,
{
    match t {
        List::Nil => {},
        List::Cons(h, rest) => {
            lemma_replace_known(h.1, mv, by);
            lemma_replace_known_rows(*rest, mv, by);
        },
    }
}

proof fn lemma_refines_refl(s: Entries)
    requires
        entries_wf(s),
    ensures
        refines(s, s),
{
    assert forall|x: Ty| #[trigger] apply(s, apply(s, x)) == apply(s, x) by {
        lemma_apply_idempotent(s, x);
    }
}

proof fn lemma_refines_trans(s0: Entries, s1: Entries, s2: Entries)
    requires
        refines(s0, s1),
        refines(s1, s2),
    ensures
        refines(s0, s2),
{
    assert forall|x: Ty, y: Ty|
        #![trigger apply(s2, x), apply(s2, y)]
        same(apply(s0, x), apply(s0, y)) implies same(apply(s2, x), apply(s2, y)) by {
        assert(same(apply(s1, x), apply(s1, y)));
    }
    assert forall|x: Ty| #[trigger] apply(s2, apply(s0, x)) == apply(s2, x) by {
        let x0 = apply(s0, x);
        assert(apply(s2, apply(s1, x0)) == apply(s2, x0));
        assert(apply(s1, apply(s0, x)) == apply(s1, x));
        assert(apply(s2, apply(s1, x)) == apply(s2, x));
    }
}

/// Entries that apply alike refine each other.
proof fn lemma_refines_alike(s: Entries, s1: Entries)
    requires
        entries_wf(s),
        forall|t: Ty| apply(s1, t) == apply(s, t),
    ensures
        refines(s, s1),
        known(s) && (forall|m: MetaTyVar| is_solved(s1, m) == is_solved(s, m)) ==> known(s1),
{
    assert forall|x: Ty| #[trigger] apply(s1, apply(s, x)) == apply(s1, x) by {
        lemma_apply_idempotent(s, x);
    }
    if known(s) && (forall|m: MetaTyVar| is_solved(s1, m) == is_solved(s, m)) {
        assert forall|mv: MetaTyVar| is_solved(s1, mv) implies !has_unknown(
            #[trigger] apply(s1, Ty::MetaVar(mv)),
        ) by {
            assert(is_solved(s, mv));
            assert(!has_unknown(apply(s, Ty::MetaVar(mv))));
        }
    }
}

/// Solving a meta variable refines the entries, and makes the variable and
/// its solution the same type.
proof fn lemma_refines_bind(s: Entries, mv: MetaTyVar, ty: Ty)
    requires
        entries_wf(s),
        !is_solved(s, mv),
        no_solved(s, ty),
        !occurs(mv, ty),
    ensures
        refines(s, bind(s, mv, ty)),
        apply(bind(s, mv, ty), Ty::MetaVar(mv)) == ty,
        apply(bind(s, mv, ty), ty) == ty,
        known(s) && !has_unknown(ty) ==> known(bind(s, mv, ty)),
{
    let s2 = bind(s, mv, ty);
    assert forall|x: Ty, y: Ty|
        #![trigger apply(s2, x), apply(s2, y)]
        same(apply(s, x), apply(s, y)) implies same(apply(s2, x), apply(s2, y)) by {
        lemma_bind_apply(s, mv, ty, x);
        lemma_bind_apply(s, mv, ty, y);
        lemma_replace_same(apply(s, x), apply(s, y), mv, ty);
    }
    assert forall|x: Ty| #[trigger] apply(s2, apply(s, x)) == apply(s2, x) by {
        lemma_bind_apply(s, mv, ty, apply(s, x));
        lemma_bind_apply(s, mv, ty, x);
        lemma_apply_idempotent(s, x);
    }
    lemma_bind_apply(s, mv, ty, Ty::MetaVar(mv));
    lemma_bind_apply(s, mv, ty, ty);
    lemma_apply_identity(s, ty);
    lemma_replace_absent(ty, mv, ty);
    if known(s) && !has_unknown(ty) {
        assert forall|m: MetaTyVar| is_solved(s2, m) implies !has_unknown(
            #[trigger] apply(s2, Ty::MetaVar(m)),
        ) by {
            lemma_lookup_bind(s, mv, ty, m);
            lemma_bind_apply(s, mv, ty, Ty::MetaVar(m));
            if m != mv {
                assert(is_solved(s, m));
                assert(!has_unknown(apply(s, Ty::MetaVar(m))));
                lemma_replace_known(apply(s, Ty::MetaVar(m)), mv, ty);
            }
        }
    }
}

/// A kind for an unsolved meta variable refines the entries.
proof fn lemma_refines_kind(s: Entries, mv: MetaTyVar, kind: TyVarKind)
    requires
        entries_wf(s),
        !is_solved(s, mv),
    ensures
        refines(s, set_entry(s, mv, Some(SubstEntry::Kind(kind)))),
        known(s) ==> known(set_entry(s, mv, Some(SubstEntry::Kind(kind)))),
        forall|t: Ty| apply(set_entry(s, mv, Some(SubstEntry::Kind(kind))), t) == apply(s, t),
{
    lemma_set_kind_apply(s, mv, kind);
    lemma_refines_alike(s, set_entry(s, mv, Some(SubstEntry::Kind(kind))));
}

/// Solving is sound: when it succeeds, the entries afterwards refine those
/// before and make the variable and the type the same.
proof fn lemma_solve_sound(s: Entries, syms: SymsView, mv: MetaTyVar, ty: Ty)
    requires
        entries_wf(s),
        known(s),
        !is_solved(s, mv),
        no_solved(s, ty),
        !has_unknown(ty),
        solve_spec(s, syms, mv, ty).1 is Ok,
    ensures
        refines(s, solve_spec(s, syms, mv, ty).0),
        apply(solve_spec(s, syms, mv, ty).0, Ty::MetaVar(mv)) == apply(
            solve_spec(s, syms, mv, ty).0,
            ty,
        ),
        entries_wf(solve_spec(s, syms, mv, ty).0),
        known(solve_spec(s, syms, mv, ty).0),
{
    lemma_solve_wf(s, syms, mv, ty);
    if ty == Ty::MetaVar(mv) {
        lemma_refines_refl(s);
    } else {
        match kind_of(s, mv) {
            TyVarKind::Regular => {
                lemma_refines_bind(s, mv, ty);
            },
            TyVarKind::Equality => {
                let (s1, r) = eq_ty(s, syms, ty);
                lemma_eq_ty_keeps_solutions(s, syms, ty);
                lemma_refines_alike(s, s1);
                lemma_refines_bind(s1, mv, ty);
                lemma_refines_trans(s, s1, bind(s1, mv, ty));
            },
            TyVarKind::Overloaded(ov) => {
                lemma_refines_bind(s, mv, ty);
                match ty {
                    Ty::MetaVar(mv2) => {
                        let s1 = bind(s, mv, ty);
                        lemma_bind_wf(s, mv, ty);
                        lemma_lookup_bind(s, mv, ty, mv2);
                        let k = match kind_of(s, mv2) {
                            TyVarKind::Overloaded(ov2) => ov.meet(ov2)->0,
                            _ => ov,
                        };
                        assert(occurs(mv2, ty));
                        lemma_refines_kind(s1, mv2, TyVarKind::Overloaded(k));
                        lemma_refines_trans(
                            s,
                            s1,
                            set_entry(s1, mv2, Some(SubstEntry::Kind(TyVarKind::Overloaded(k)))),
                        );
                    },
                    _ => {},
                }
            },
        }
    }
}

/// Unification is sound: when it succeeds on types that hold no unknown
/// type, under well-formed entries whose solutions hold none, the entries
/// afterwards make the two types the same, they refine the entries before,
/// and they are well formed with solutions that hold no unknown type.
pub proof fn law_unify_sound(s: Entries, syms: SymsView, a: Ty, b: Ty, fuel: nat)
    requires
        entries_wf(s),
        known(s),
        !has_unknown(a),
        !has_unknown(b),
        unify_spec(s, syms, a, b, fuel).1 is Ok,
    ensures
        same(
            apply(unify_spec(s, syms, a, b, fuel).0, a),
            apply(unify_spec(s, syms, a, b, fuel).0, b),
        ),
        refines(s, unify_spec(s, syms, a, b, fuel).0),
        entries_wf(unify_spec(s, syms, a, b, fuel).0),
        known(unify_spec(s, syms, a, b, fuel).0),
    decreases fuel, 0nat,
{
    let s2 = unify_spec(s, syms, a, b, fuel).0;
    let w = apply(s, a);
    let g = apply(s, b);
    lemma_unify_wf(s, syms, a, b, fuel);
    lemma_apply_no_solved(s, a);
    lemma_apply_no_solved(s, b);
    lemma_apply_known(s, a);
    lemma_apply_known(s, b);
    lemma_apply_idempotent(s, a);
    lemma_apply_idempotent(s, b);
    let f = (fuel - 1) as nat;
    match w {
        Ty::Unknown => {},
        Ty::MetaVar(mv) => {
            assert(occurs(mv, w));
            lemma_solve_sound(s, syms, mv, g);
        },
        _ => {
            match g {
                Ty::Unknown => {},
                Ty::MetaVar(mv) => {
                    assert(occurs(mv, g));
                    lemma_solve_sound(s, syms, mv, w);
                },
                _ => {
                    match w {
                        Ty::Record(x) => {
                            lemma_sound_rows(s, syms, *x, *g->Record_0, f);
                        },
                        Ty::Con(x, _) => {
                            lemma_sound_tys(s, syms, *x, *g->Con_0, f);
                        },
                        Ty::Fn(p1, r1) => {
                            let p2 = *g->Fn_0;
                            let r2 = *g->Fn_1;
                            law_unify_sound(s, syms, *p1, p2, f);
                            let s1 = unify_spec(s, syms, *p1, p2, f).0;
                            law_unify_sound(s1, syms, *r1, r2, f);
                            lemma_refines_trans(s, s1, s2);
                            assert(same(apply(s2, *p1), apply(s2, p2)));
                        },
                        _ => {
                            lemma_refines_refl(s);
                            lemma_same_refl(w);
                        },
                    }
                },
            }
        },
    }
    assert(apply(s2, apply(s, a)) == apply(s2, a));
    assert(apply(s2, apply(s, b)) == apply(s2, b));
    match w {
        Ty::MetaVar(mv) => {
            lemma_same_refl(apply(s2, w));
        },
        _ => {
            if g is MetaVar {
                lemma_same_refl(apply(s2, w));
            }
        },
    }
}

proof fn lemma_sound_tys(s: Entries, syms: SymsView, a: List<Ty>, b: List<Ty>, fuel: nat)
    requires
        entries_wf(s),
        known(s),
        !has_unknown_tys(a),
        !has_unknown_tys(b),
        unify_tys_spec(s, syms, a, b, fuel).1 is Ok,
    ensures
        same_tys(
            apply_tys(unify_tys_spec(s, syms, a, b, fuel).0, a),
            apply_tys(unify_tys_spec(s, syms, a, b, fuel).0, b),
        ),
        refines(s, unify_tys_spec(s, syms, a, b, fuel).0),
        entries_wf(unify_tys_spec(s, syms, a, b, fuel).0),
        known(unify_tys_spec(s, syms, a, b, fuel).0),
    decreases fuel, 1 + a.len(),
{
    match a {
        List::Nil => {
            lemma_refines_refl(s);
        },
        List::Cons(x, xs) => {
            let y = b->Cons_0;
            let ys = *b->Cons_1;
            law_unify_sound(s, syms, x, y, fuel);
            let s1 = unify_spec(s, syms, x, y, fuel).0;
            lemma_sound_tys(s1, syms, *xs, ys, fuel);
            let s2 = unify_tys_spec(s1, syms, *xs, ys, fuel).0;
            lemma_refines_trans(s, s1, s2);
            assert(same(apply(s2, x), apply(s2, y)));
        },
    }
}

proof fn lemma_sound_rows(
    s: Entries,
    syms: SymsView,
    a: List<(Lab, Ty)>,
    b: List<(Lab, Ty)>,
    fuel: nat,
)
    requires
        entries_wf(s),
        known(s),
        !has_unknown_rows(a),
        !has_unknown_rows(b),
        match_labels(a, b) is Ok,
        unify_rows_spec(s, syms, a, b, fuel).1 is Ok,
    ensures
        same_rows(
            apply_rows(unify_rows_spec(s, syms, a, b, fuel).0, a),
            apply_rows(unify_rows_spec(s, syms, a, b, fuel).0, b),
        ),
        refines(s, unify_rows_spec(s, syms, a, b, fuel).0),
        entries_wf(unify_rows_spec(s, syms, a, b, fuel).0),
        known(unify_rows_spec(s, syms, a, b, fuel).0),
    decreases fuel, 1 + a.len(),
{
    match a {
        List::Nil => {
            lemma_refines_refl(s);
        },
        List::Cons(x, xs) => {
            let y = b->Cons_0;
            let ys = *b->Cons_1;
            law_unify_sound(s, syms, x.1, y.1, fuel);
            let s1 = unify_spec(s, syms, x.1, y.1, fuel).0;
            lemma_sound_rows(s1, syms, *xs, ys, fuel);
            let s2 = unify_rows_spec(s1, syms, *xs, ys, fuel).0;
            lemma_refines_trans(s, s1, s2);
            assert(same(apply(s2, x.1), apply(s2, y.1)));
        },
    }
}

/// The rows of a record expression are put in the order of their labels:
/// the record type of a record expression has its rows in order.
pub proof fn law_exp_rows_in_order(
    n: crate::hir::Nodes,
    st: crate::statics::st::StView,
    env: crate::statics::env::Env,
    rows: Seq<(Lab, crate::hir::ExpIdx)>,
    from: int,
    acc: List<(Lab, Ty)>,
    e: u32,
    fuel: nat,
)
    requires
        0 <= from,
        crate::statics::types::rows_in_order(acc),
    ensures
        crate::statics::exp::exp_rows_spec(n, st, env, rows, from, acc, e, fuel).1 matches Ty::Record(
            r,
        ) && crate::statics::types::rows_in_order(*r),
    decreases rows.len() - from,
{
    if from < rows.len() {
        let (st1, ty) = crate::statics::exp::exp_spec(n, st, env, rows[from].1, fuel);
        crate::statics::pat::lemma_insert_row_in_order(acc, rows[from].0, ty);
        match crate::statics::pat::insert_row(acc, rows[from].0, ty) {
            None => law_exp_rows_in_order(
                n,
                crate::statics::st::with_error(
                    st1,
                    crate::hir::Idx::Exp(e),
                    crate::statics::error::ErrorKind::DuplicateLab(rows[from].0),
                ),
                env,
                rows,
                from + 1,
                acc,
                e,
                fuel,
            ),
            Some(acc2) => law_exp_rows_in_order(n, st1, env, rows, from + 1, acc2, e, fuel),
        }
    }
}

/// The rows of a written record type are put in the order of their labels.
pub proof fn law_ty_rows_in_order(
    n: crate::hir::Nodes,
    st: crate::statics::st::StView,
    env: crate::statics::env::Env,
    rows: Seq<(Lab, crate::hir::TyIdx)>,
    from: int,
    acc: List<(Lab, Ty)>,
    t: u32,
    fuel: nat,
)
    requires
        0 <= from,
        crate::statics::types::rows_in_order(acc),
    ensures
        crate::statics::ty::ty_rows_spec(n, st, env, rows, from, acc, t, fuel).1 matches Ty::Record(
            r,
        ) && crate::statics::types::rows_in_order(*r),
    decreases rows.len() - from,
{
    if from < rows.len() {
        let (st1, ty) = crate::statics::ty::ty_spec(n, st, env, rows[from].1, fuel);
        crate::statics::pat::lemma_insert_row_in_order(acc, rows[from].0, ty);
        match crate::statics::pat::insert_row(acc, rows[from].0, ty) {
            None => law_ty_rows_in_order(
                n,
                crate::statics::st::with_error(
                    st1,
                    crate::hir::Idx::Ty(t),
                    crate::statics::error::ErrorKind::DuplicateLab(rows[from].0),
                ),
                env,
                rows,
                from + 1,
                acc,
                t,
                fuel,
            ),
            Some(acc2) => law_ty_rows_in_order(n, st1, env, rows, from + 1, acc2, t, fuel),
        }
    }
}

/// The rows with their types alone stand in the order in which the rows
/// stand.
pub proof fn lemma_row_tys_in_order(
    rows: List<(Lab, (Ty, crate::statics::pat_match::Pat))>,
)
    requires
        crate::statics::types::rows_in_order(rows),
    ensures
        crate::statics::types::rows_in_order(crate::statics::pat::row_tys(rows)),
    decreases rows,
{
    match rows {
        List::Nil => {},
        List::Cons(h, t) => {
            lemma_row_tys_in_order(*t);
            match *t {
                List::Nil => {},
                List::Cons(next, rest) => {
                    assert(crate::statics::pat::row_tys(*t) == List::Cons(
                        (next.0, next.1.0),
                        Box::new(crate::statics::pat::row_tys(*rest)),
                    ));
                },
            }
        },
    }
}

/// The rows of a record pattern are put in the order of their labels.
pub proof fn law_pat_rows_in_order(
    n: crate::hir::Nodes,
    st: crate::statics::st::StView,
    env: crate::statics::env::Env,
    ve: crate::statics::env::ValEnv,
    rows: Seq<(Lab, crate::hir::PatIdx)>,
    from: int,
    acc: List<(Lab, (Ty, crate::statics::pat_match::Pat))>,
    p: u32,
    fuel: nat,
)
    requires
        0 <= from,
        crate::statics::types::rows_in_order(acc),
    ensures
        crate::statics::pat::pat_rows_spec(n, st, env, ve, rows, from, acc, p, fuel).2 matches Ty::Record(
            r,
        ) && crate::statics::types::rows_in_order(*r),
    decreases rows.len() - from,
{
    if from < rows.len() {
        let (st1, ve1, ty, sub) = crate::statics::pat::pat_spec(n, st, env, ve, rows[from].1, fuel);
        crate::statics::pat::lemma_insert_row_in_order(acc, rows[from].0, (ty, sub));
        match crate::statics::pat::insert_row(acc, rows[from].0, (ty, sub)) {
            Some(acc2) => law_pat_rows_in_order(n, st1, env, ve1, rows, from + 1, acc2, p, fuel),
            None => law_pat_rows_in_order(
                n,
                crate::statics::st::with_error(
                    st1,
                    crate::hir::Idx::Pat(p),
                    crate::statics::error::ErrorKind::DuplicateLab(rows[from].0),
                ),
                env,
                ve1,
                rows,
                from + 1,
                acc,
                p,
                fuel,
            ),
        }
    } else {
        lemma_row_tys_in_order(acc);
    }
}

} // verus!

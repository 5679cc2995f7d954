//! Checking if a type is an equality type.

use crate::hir::{second_byte_is_tick, Lab};
use crate::list::List;
use crate::statics::st::St;
use crate::statics::sym::{Equality, Syms, SymsView};
use crate::statics::types::{
    apply, entries_wf, is_solved, lookup, set_entry, BasicOverload, CompositeOverload, Entries,
    Overload, Subst, SubstEntry, Sym, Ty, TyVarKind, SYM_REAL,
};
use vstd::prelude::*;

verus! {

/// Whether equality type checks are performed.
pub const ENABLED: bool = true;

/// A type that is not equality.
#[derive(Debug, Clone, Copy, PartialEq, Eq, Structural)]
pub enum NotEqTy {
    FixedTyVar,
    Sym(Sym),
    Fn,
}

impl NotEqTy {
    /// What kind of type it is, in words.
    pub open spec fn text(self) -> Seq<char> {
        match self {
            NotEqTy::FixedTyVar => "a fixed non-equality type variable"@,
            NotEqTy::Sym(_) => "a non-equality type constructor"@,
            NotEqTy::Fn => "a function type"@,
        }
    }

    /// What kind of type it is, in words.
    pub fn describe(self) -> (r: String)
        ensures
            r@ == self.text(),
    {
        match self {
            NotEqTy::FixedTyVar => String::from_str("a fixed non-equality type variable"),
            NotEqTy::Sym(_) => String::from_str("a non-equality type constructor"),
            NotEqTy::Fn => String::from_str("a function type"),
        }
    }
}

/// The outcome of an equality check.
pub type EqResult = Result<(), NotEqTy>;

/// The first failure among the results, or success when there is none.
pub open spec fn first_err(results: List<EqResult>) -> EqResult
    decreases results,
{
    match results {
        List::Nil => Ok(()),
        List::Cons(h, t) => if h is Err {
            h
        } else {
            first_err(*t)
        },
    }
}

/// The first failure among the results, or success when there is none.
pub fn all(results: &List<EqResult>) -> (r: EqResult)
    ensures
        r == first_err(*results),
    decreases *results,
{
    match results {
        List::Nil => Ok(()),
        List::Cons(h, t) => match h {
            Err(e) => Err(*e),
            Ok(()) => all(t),
        },
    }
}

/// Whether the types of a basic overload admit equality: all but `real` do.
pub open spec fn basic_eq(ov: BasicOverload) -> EqResult {
    match ov {
        BasicOverload::Int | BasicOverload::Word | BasicOverload::String | BasicOverload::Char => Ok(
            (),
        ),
        BasicOverload::Real => Err(NotEqTy::Sym(Sym { raw: SYM_REAL })),
    }
}

/// Whether every type of an overload admits equality.
pub open spec fn overload_eq(ov: Overload) -> EqResult {
    match ov {
        Overload::Basic(b) => basic_eq(b),
        Overload::Composite(c) => if c.has(BasicOverload::Real) {
            Err(NotEqTy::Sym(Sym { raw: SYM_REAL }))
        } else {
            Ok(())
        },
    }
}

/// The equality check on a type that the substitution was applied to. It
/// gives back the entries as well, because a meta variable of which nothing
/// was known becomes an equality variable.
pub open spec fn eq_ty(s: Entries, syms: SymsView, ty: Ty) -> (Entries, EqResult)
    decreases ty,
{
    match ty {
        Ty::Unknown => (s, Ok(())),
        Ty::BoundVar(_) => (s, Ok(())),
        Ty::MetaVar(mv) => match lookup(s, mv) {
            None | Some(SubstEntry::Kind(TyVarKind::Regular)) => (
                set_entry(s, mv, Some(SubstEntry::Kind(TyVarKind::Equality))),
                Ok(()),
            ),
            Some(SubstEntry::Kind(TyVarKind::Equality)) => (s, Ok(())),
            Some(SubstEntry::Kind(TyVarKind::Overloaded(ov))) => (s, overload_eq(ov)),
            Some(SubstEntry::Solved(_)) => (s, Ok(())),
        },
        Ty::FixedVar(fv) => (
            s,
            if second_byte_is_tick(fv.ty_var@) {
                Ok(())
            } else {
                Err(NotEqTy::FixedTyVar)
            },
        ),
        Ty::Record(rows) => eq_rows(s, syms, *rows),
        Ty::Con(args, sym) => match syms.equality_of(sym) {
            Equality::Always => (s, Ok(())),
            Equality::Sometimes => eq_tys(s, syms, *args),
            Equality::Never => (s, Err(NotEqTy::Sym(sym))),
        },
        Ty::Fn(_, _) => (s, Err(NotEqTy::Fn)),
    }
}

/// The equality check on each type in turn, up to the first failure.
pub open spec fn eq_tys(s: Entries, syms: SymsView, tys: List<Ty>) -> (Entries, EqResult)
    decreases tys,
{
    match tys {
        List::Nil => (s, Ok(())),
        List::Cons(h, t) => {
            let (s1, r) = eq_ty(s, syms, h);
            if r is Err {
                (s1, r)
            } else {
                eq_tys(s1, syms, *t)
            }
        },
    }
}

/// The equality check on the type of each row in turn, up to the first
/// failure.
pub open spec fn eq_rows(s: Entries, syms: SymsView, rows: List<(Lab, Ty)>) -> (Entries, EqResult)
    decreases rows,
{
    match rows {
        List::Nil => (s, Ok(())),
        List::Cons(h, t) => {
            let (s1, r) = eq_ty(s, syms, h.1);
            if r is Err {
                (s1, r)
            } else {
                eq_rows(s1, syms, *t)
            }
        },
    }
}

/// The equality check leaves every solution as it is.
pub proof fn lemma_eq_ty_keeps_solutions(s: Entries, syms: SymsView, ty: Ty)
    requires
        entries_wf(s),
    ensures
        entries_wf(eq_ty(s, syms, ty).0),
        forall|t: Ty| apply(eq_ty(s, syms, ty).0, t) == apply(s, t),
        forall|mv: crate::statics::types::MetaTyVar|
            is_solved(eq_ty(s, syms, ty).0, mv) == is_solved(s, mv),
    decreases ty,
{
    match ty {
        Ty::MetaVar(mv) => {
            match lookup(s, mv) {
                None | Some(SubstEntry::Kind(TyVarKind::Regular)) => {
                    crate::statics::types::lemma_set_kind_wf(s, mv, TyVarKind::Equality);
                    crate::statics::types::lemma_set_kind_apply(s, mv, TyVarKind::Equality);
                },
                _ => {},
            }
        },
        Ty::Record(rows) => {
            lemma_eq_rows_keeps_solutions(s, syms, *rows);
        },
        Ty::Con(args, _) => {
            lemma_eq_tys_keeps_solutions(s, syms, *args);
        },
        _ => {},
    }
}

pub proof fn lemma_eq_tys_keeps_solutions(s: Entries, syms: SymsView, tys: List<Ty>)
    requires
        entries_wf(s),
    ensures
        entries_wf(eq_tys(s, syms, tys).0),
        forall|t: Ty| apply(eq_tys(s, syms, tys).0, t) == apply(s, t),
        forall|mv: crate::statics::types::MetaTyVar|
            is_solved(eq_tys(s, syms, tys).0, mv) == is_solved(s, mv),
    decreases tys,
{
    match tys {
        List::Nil => {},
        List::Cons(h, t) => {
            lemma_eq_ty_keeps_solutions(s, syms, h);
            let (s1, r) = eq_ty(s, syms, h);
            if r is Ok {
                lemma_eq_tys_keeps_solutions(s1, syms, *t);
            }
        },
    }
}

pub proof fn lemma_eq_rows_keeps_solutions(s: Entries, syms: SymsView, rows: List<(Lab, Ty)>)
    requires
        entries_wf(s),
    ensures
        entries_wf(eq_rows(s, syms, rows).0),
        forall|t: Ty| apply(eq_rows(s, syms, rows).0, t) == apply(s, t),
        forall|mv: crate::statics::types::MetaTyVar|
            is_solved(eq_rows(s, syms, rows).0, mv) == is_solved(s, mv),
    decreases rows,
{
    match rows {
        List::Nil => {},
        List::Cons(h, t) => {
            lemma_eq_ty_keeps_solutions(s, syms, h.1);
            let (s1, r) = eq_ty(s, syms, h.1);
            if r is Ok {
                lemma_eq_rows_keeps_solutions(s1, syms, *t);
            }
        },
    }
}

/// The equality check on a type that the substitution was applied to.
pub fn eq_walk(subst: &mut Subst, syms: &Syms, ty: &Ty) -> (r: EqResult)
    requires
        old(subst).wf(),
    ensures
        (final(subst)@, r) == eq_ty(old(subst)@, syms@, *ty),
        final(subst).wf(),
    decreases *ty, 0nat,
{
    proof {
        lemma_eq_ty_keeps_solutions(subst@, syms@, *ty);
    }
    match ty {
        Ty::Unknown => Ok(()),
        Ty::BoundVar(_) => Ok(()),
        Ty::MetaVar(mv) => {
            let kind = match subst.get(*mv) {
                None => Some(TyVarKind::Regular),
                Some(SubstEntry::Kind(k)) => Some(*k),
                Some(SubstEntry::Solved(_)) => None,
            };
            match kind {
                Some(TyVarKind::Regular) => {
                    subst.set_kind(*mv, TyVarKind::Equality);
                    Ok(())
                },
                Some(TyVarKind::Equality) => Ok(()),
                Some(TyVarKind::Overloaded(ov)) => match ov {
                    Overload::Basic(basic) => get_basic_opt(basic),
                    Overload::Composite(comp) => get_composite(comp),
                },
                None => Ok(()),
            }
        },
        Ty::FixedVar(fv) => {
            if fv.ty_var.is_equality() {
                Ok(())
            } else {
                Err(NotEqTy::FixedTyVar)
            }
        },
        Ty::Record(rows) => get_record(subst, syms, rows),
        Ty::Con(args, sym) => get_con(subst, syms, args, *sym),
        Ty::Fn(_, _) => Err(NotEqTy::Fn),
    }
}

/// Whether every row of a record type admits equality.
pub fn get_record(subst: &mut Subst, syms: &Syms, rows: &List<(Lab, Ty)>) -> (r: EqResult)
    requires
        old(subst).wf(),
    ensures
        (final(subst)@, r) == eq_rows(old(subst)@, syms@, *rows),
        final(subst).wf(),
    decreases *rows, 0nat,
{
    proof {
        lemma_eq_rows_keeps_solutions(subst@, syms@, *rows);
    }
    match rows {
        List::Nil => Ok(()),
        List::Cons(h, t) => {
            match eq_walk(subst, syms, &h.1) {
                Err(e) => Err(e),
                Ok(()) => get_record(subst, syms, t),
            }
        },
    }
}

fn get_args(subst: &mut Subst, syms: &Syms, tys: &List<Ty>) -> (r: EqResult)
    requires
        old(subst).wf(),
    ensures
        (final(subst)@, r) == eq_tys(old(subst)@, syms@, *tys),
        final(subst).wf(),
    decreases *tys, 0nat,
{
    proof {
        lemma_eq_tys_keeps_solutions(subst@, syms@, *tys);
    }
    match tys {
        List::Nil => Ok(()),
        List::Cons(h, t) => {
            match eq_walk(subst, syms, h) {
                Err(e) => Err(e),
                Ok(()) => get_args(subst, syms, t),
            }
        },
    }
}

/// Whether the types of a basic overload admit equality.
pub fn get_basic(st: &mut St, ov: BasicOverload) -> (r: EqResult)
    ensures
        r == basic_eq(ov),
        *final(st) == *old(st),
{
    get_basic_opt(ov)
}

/// Whether the types of a basic overload admit equality, by the overload
/// alone.
pub fn get_basic_opt(ov: BasicOverload) -> (r: EqResult)
    ensures
        r == basic_eq(ov),
{
    match ov {
        BasicOverload::Int | BasicOverload::Word | BasicOverload::String | BasicOverload::Char => Ok(
            (),
        ),
        BasicOverload::Real => Err(NotEqTy::Sym(Sym { raw: SYM_REAL })),
    }
}

fn get_composite(comp: CompositeOverload) -> (r: EqResult)
    ensures
        r == overload_eq(Overload::Composite(comp)),
{
    let word = get_basic_opt(BasicOverload::Word);
    let rest: List<EqResult> = match comp {
        CompositeOverload::WordInt => List::Cons(
            get_basic_opt(BasicOverload::Int),
            Box::new(List::Nil),
        ),
        CompositeOverload::RealInt => List::Cons(
            get_basic_opt(BasicOverload::Real),
            Box::new(List::Nil),
        ),
        CompositeOverload::Num => List::Cons(
            get_basic_opt(BasicOverload::Real),
            Box::new(List::Cons(get_basic_opt(BasicOverload::Int), Box::new(List::Nil))),
        ),
        CompositeOverload::NumTxt => List::Cons(
            get_basic_opt(BasicOverload::Real),
            Box::new(List::Cons(get_basic_opt(BasicOverload::Int), Box::new(List::Nil))),
        ),
    };
    let results = List::Cons(word, Box::new(rest));
    proof {
        reveal_with_fuel(first_err, 4);
    }
    all(&results)
}

/// The first symbol of the list that never admits equality, as a failure.
pub open spec fn first_never(syms: SymsView, list: Seq<Sym>) -> EqResult
    decreases list.len(),
{
    if list.len() == 0 {
        Ok(())
    } else if syms.equality_of(list[0]) == Equality::Never {
        Err(NotEqTy::Sym(list[0]))
    } else {
        first_never(syms, list.skip(1))
    }
}

/// Whether the types of a basic overload admit equality, by the symbols that
/// the overload resolves to.
pub fn get_basic_naive(st: &mut St, ov: BasicOverload) -> (r: EqResult)
    ensures
        r == first_never(old(st).syms@, old(st).syms@.overloads.syms(ov)),
        *final(st) == *old(st),
{
    let list = st.syms.overloads().index(ov);
    let mut i: usize = 0;
    assert(list@.skip(0) == list@);
    while i < list.len()
        invariant
            i <= list.len(),
            list@ == st.syms.spec_overloads().syms(ov),
            first_never(st.syms@, list@) == first_never(st.syms@, list@.skip(i as int)),
        decreases list.len() - i,
    {
        assert(list@.skip(i as int).skip(1) == list@.skip(i + 1));
        match st.syms.equality(list[i]) {
            Equality::Never => {
                return Err(NotEqTy::Sym(list[i]));
            },
            _ => {},
        }
        i += 1;
    }
    Ok(())
}

/// Whether a type constructor applied to arguments admits equality.
pub fn get_con(subst: &mut Subst, syms: &Syms, args: &List<Ty>, sym: Sym) -> (r: EqResult)
    requires
        old(subst).wf(),
    ensures
        (final(subst)@, r) == eq_ty(old(subst)@, syms@, Ty::Con(Box::new(*args), sym)),
        final(subst).wf(),
    decreases *args, 1nat,
{
    match syms.equality(sym) {
        Equality::Always => Ok(()),
        Equality::Sometimes => get_args(subst, syms, args),
        Equality::Never => Err(NotEqTy::Sym(sym)),
    }
}

/// Returns whether `ty` admits equality. That is:
///
/// - If it **is** an equality type, returns Ok.
/// - If it **is not** an equality type, returns Err with the first kind of
///   type contained in it that makes it not an equality type.
///
/// Also sets any non-constrained meta type variables to be equality type
/// variables.
///
/// The type must be one of an expression or a pattern: it holds no bound
/// variable, which only the type of a scheme has.
pub fn get_ty(st: &mut St, ty: &Ty) -> (r: EqResult)
    requires
        old(st).subst.wf(),
        !crate::statics::types::has_bound(apply(old(st).subst@, *ty)),
    ensures
        (final(st).subst@, r) == eq_ty(
            old(st).subst@,
            old(st).syms@,
            apply(old(st).subst@, *ty),
        ),
        final(st).subst.wf(),
        final(st).syms == old(st).syms,
        final(st).errors == old(st).errors,
        final(st).next_meta == old(st).next_meta,
{
    let applied = st.subst.apply(ty);
    eq_walk(&mut st.subst, &st.syms, &applied)
}

} // verus!

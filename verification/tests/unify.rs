use millet::hir::{Lab, Name, TyVar};
use millet::list::List;
use millet::statics::basis::symbols;
use millet::statics::equality::{get_ty, NotEqTy};
use millet::statics::st::St;
use millet::statics::types::{
    occurs_in, BasicOverload, CompositeOverload, FixedTyVar, MetaTyVar, Overload, SubstEntry, Sym,
    Ty, TyVarKind, SYM_BOOL, SYM_INT, SYM_LIST, SYM_REAL, SYM_STRING,
};
use millet::statics::unify::{unify_, FailureKind, UnifyError, FUEL};

fn list<T>(items: Vec<T>) -> List<T> {
    let mut out = List::Nil;
    for item in items.into_iter().rev() {
        out = List::Cons(item, Box::new(out));
    }
    out
}

fn con(raw: u32) -> Ty {
    Ty::Con(Box::new(List::Nil), Sym { raw })
}

fn list_of(t: Ty) -> Ty {
    Ty::Con(Box::new(list(vec![t])), Sym { raw: SYM_LIST })
}

fn fun(a: Ty, b: Ty) -> Ty {
    Ty::Fn(Box::new(a), Box::new(b))
}

fn record(rows: Vec<(Lab, Ty)>) -> Ty {
    Ty::Record(Box::new(list(rows)))
}

fn named(s: &str) -> Lab {
    Lab::Name(Name::new(s))
}

fn meta(id: u32) -> Ty {
    Ty::MetaVar(MetaTyVar { id })
}

fn st() -> St {
    St::new(symbols())
}

fn unify(st: &mut St, want: &Ty, got: &Ty) -> Result<(), UnifyError> {
    unify_(&mut st.subst, &st.syms, want.clone(), got.clone(), FUEL)
}

fn kind(r: Result<(), UnifyError>) -> Option<FailureKind> {
    r.err().map(|e| e.kind())
}

/// Structural equality of types, labels and fixed variables by their text.
fn same(a: &Ty, b: &Ty) -> bool {
    match (a, b) {
        (Ty::Unknown, Ty::Unknown) => true,
        (Ty::BoundVar(x), Ty::BoundVar(y)) => x == y,
        (Ty::MetaVar(x), Ty::MetaVar(y)) => x == y,
        (Ty::FixedVar(x), Ty::FixedVar(y)) => x.is_same(y),
        (Ty::Record(x), Ty::Record(y)) => same_rows(x, y),
        (Ty::Con(x, xs), Ty::Con(y, ys)) => xs == ys && same_tys(x, y),
        (Ty::Fn(p1, r1), Ty::Fn(p2, r2)) => same(p1, p2) && same(r1, r2),
        _ => false,
    }
}

fn same_tys(a: &List<Ty>, b: &List<Ty>) -> bool {
    match (a, b) {
        (List::Nil, List::Nil) => true,
        (List::Cons(x, xs), List::Cons(y, ys)) => same(x, y) && same_tys(xs, ys),
        _ => false,
    }
}

fn same_rows(a: &List<(Lab, Ty)>, b: &List<(Lab, Ty)>) -> bool {
    match (a, b) {
        (List::Nil, List::Nil) => true,
        (List::Cons(x, xs), List::Cons(y, ys)) => {
            x.0.same(&y.0) && same(&x.1, &y.1) && same_rows(xs, ys)
        }
        _ => false,
    }
}

#[test]
fn unify_is_symmetric_on_ground_types() {
    let tys = vec![
        con(SYM_INT),
        con(SYM_REAL),
        list_of(con(SYM_INT)),
        list_of(con(SYM_REAL)),
        fun(con(SYM_INT), con(SYM_BOOL)),
        fun(con(SYM_INT), con(SYM_INT)),
        record(vec![]),
        record(vec![(named("a"), con(SYM_INT))]),
        record(vec![(named("a"), con(SYM_INT)), (named("b"), con(SYM_INT))]),
        record(vec![(named("b"), con(SYM_INT))]),
        record(vec![(Lab::Num(1), con(SYM_INT)), (Lab::Num(2), con(SYM_STRING))]),
        Ty::BoundVar(0),
        Ty::BoundVar(1),
        Ty::FixedVar(FixedTyVar { id: 0, ty_var: TyVar::new("'a") }),
        Ty::FixedVar(FixedTyVar { id: 1, ty_var: TyVar::new("'b") }),
        Ty::Unknown,
    ];
    for a in &tys {
        for b in &tys {
            let one = kind(unify(&mut st(), a, b));
            let other = kind(unify(&mut st(), b, a));
            let mirrored = match other {
                Some(FailureKind::MissingRow) => Some(FailureKind::ExtraRows),
                Some(FailureKind::ExtraRows) => Some(FailureKind::MissingRow),
                k => k,
            };
            assert_eq!(one, mirrored, "{:?} and {:?}", a, b);
        }
    }
}

#[test]
fn unify_rows_missing_and_extra() {
    let ab = record(vec![(named("a"), con(SYM_INT)), (named("b"), con(SYM_INT))]);
    let a = record(vec![(named("a"), con(SYM_INT))]);
    match unify(&mut st(), &ab, &a) {
        Err(UnifyError::MissingRow(lab)) => assert!(lab.same(&named("b"))),
        r => panic!("{:?}", r),
    }
    assert_eq!(kind(unify(&mut st(), &a, &ab)), Some(FailureKind::ExtraRows));
    // the smallest label that only one side has decides
    let x = record(vec![(named("x"), con(SYM_INT))]);
    let y = record(vec![(named("y"), con(SYM_INT))]);
    assert_eq!(kind(unify(&mut st(), &x, &y)), Some(FailureKind::MissingRow));
    assert_eq!(kind(unify(&mut st(), &y, &x)), Some(FailureKind::ExtraRows));
}

#[test]
fn unify_makes_both_sides_the_same() {
    let cases = vec![
        (fun(meta(0), meta(1)), fun(con(SYM_INT), list_of(meta(0)))),
        (list_of(meta(0)), list_of(list_of(meta(1)))),
        (
            record(vec![(named("a"), meta(0)), (named("b"), meta(1))]),
            record(vec![(named("a"), meta(1)), (named("b"), con(SYM_STRING))]),
        ),
        (fun(meta(0), meta(0)), fun(meta(1), con(SYM_BOOL))),
        (meta(0), meta(1)),
        (fun(fun(meta(0), meta(1)), meta(2)), fun(meta(2), fun(meta(3), con(SYM_INT)))),
    ];
    for (a, b) in cases {
        let mut st = st();
        assert!(unify(&mut st, &a, &b).is_ok(), "{:?} and {:?}", a, b);
        let x = st.subst.apply(&a);
        let y = st.subst.apply(&b);
        assert!(same(&x, &y), "{:?} and {:?}", x, y);
    }
}

#[test]
fn unify_solves_to_the_expected_types() {
    let mut st = st();
    let a = fun(meta(0), meta(1));
    let b = fun(con(SYM_INT), list_of(meta(0)));
    unify(&mut st, &a, &b).unwrap();
    assert!(same(&st.subst.apply(&meta(0)), &con(SYM_INT)));
    assert!(same(&st.subst.apply(&meta(1)), &list_of(con(SYM_INT))));
}

#[test]
fn unify_unknown_unifies_with_everything() {
    let mut st = st();
    assert!(unify(&mut st, &Ty::Unknown, &con(SYM_INT)).is_ok());
    assert!(unify(&mut st, &fun(con(SYM_INT), Ty::Unknown), &fun(con(SYM_INT), con(SYM_REAL)))
        .is_ok());
    // nothing was solved
    assert!(st.subst.get(MetaTyVar { id: 0 }).is_none());
}

#[test]
fn unify_occurs_check() {
    for ty in [
        fun(meta(0), con(SYM_INT)),
        list_of(meta(0)),
        record(vec![(named("a"), meta(0))]),
        fun(con(SYM_INT), list_of(list_of(meta(0)))),
    ] {
        assert!(occurs_in(MetaTyVar { id: 0 }, &ty));
        let mut st = st();
        match unify(&mut st, &meta(0), &ty) {
            Err(UnifyError::OccursCheck(mv, t)) => {
                assert_eq!(mv, MetaTyVar { id: 0 });
                assert!(same(&t, &ty));
            }
            r => panic!("{:?}", r),
        }
        assert_eq!(kind(unify(&mut st, &ty, &meta(0))), Some(FailureKind::OccursCheck));
        assert!(st.subst.get(MetaTyVar { id: 0 }).is_none());
    }
    // the variable itself is no failure
    assert!(unify(&mut st(), &meta(0), &meta(0)).is_ok());
}

#[test]
fn unify_head_mismatch() {
    assert_eq!(
        kind(unify(&mut st(), &con(SYM_INT), &con(SYM_REAL))),
        Some(FailureKind::HeadMismatch)
    );
    assert_eq!(
        kind(unify(&mut st(), &con(SYM_INT), &fun(con(SYM_INT), con(SYM_INT)))),
        Some(FailureKind::HeadMismatch)
    );
    // arities differ
    let two = Ty::Con(Box::new(list(vec![con(SYM_INT), con(SYM_INT)])), Sym { raw: SYM_LIST });
    assert_eq!(
        kind(unify(&mut st(), &list_of(con(SYM_INT)), &two)),
        Some(FailureKind::HeadMismatch)
    );
    // out of fuel
    let mut s = st();
    let r = unify_(&mut s.subst, &s.syms, con(SYM_INT), con(SYM_INT), 0);
    assert_eq!(kind(r), Some(FailureKind::HeadMismatch));
}

fn overloaded(st: &mut St, id: u32, ov: Overload) -> Ty {
    st.subst.set_kind(MetaTyVar { id }, TyVarKind::Overloaded(ov));
    meta(id)
}

#[test]
fn unify_overload_with_con() {
    let num = Overload::Composite(CompositeOverload::Num);
    let mut s = st();
    let a = overloaded(&mut s, 0, num);
    assert!(unify(&mut s, &a, &con(SYM_REAL)).is_ok());
    assert!(same(&s.subst.apply(&a), &con(SYM_REAL)));
    let mut s = st();
    let a = overloaded(&mut s, 0, num);
    match unify(&mut s, &a, &con(SYM_STRING)) {
        Err(UnifyError::OverloadMismatch(ov, ty)) => {
            assert_eq!(ov, num);
            assert!(same(&ty, &con(SYM_STRING)));
        }
        r => panic!("{:?}", r),
    }
    // no record, no function is of an overload
    let mut s = st();
    let a = overloaded(&mut s, 0, num);
    assert_eq!(kind(unify(&mut s, &a, &record(vec![]))), Some(FailureKind::OverloadMismatch));
}

fn kind_of(st: &St, id: u32) -> Option<TyVarKind> {
    match st.subst.get(MetaTyVar { id }) {
        Some(SubstEntry::Kind(k)) => Some(*k),
        _ => None,
    }
}

#[test]
fn unify_overload_fusion_is_the_intersection() {
    let all = [
        Overload::Basic(BasicOverload::Int),
        Overload::Basic(BasicOverload::Real),
        Overload::Basic(BasicOverload::Word),
        Overload::Basic(BasicOverload::String),
        Overload::Basic(BasicOverload::Char),
        Overload::Composite(CompositeOverload::WordInt),
        Overload::Composite(CompositeOverload::RealInt),
        Overload::Composite(CompositeOverload::Num),
        Overload::Composite(CompositeOverload::NumTxt),
    ];
    let basics = [
        BasicOverload::Int,
        BasicOverload::Real,
        BasicOverload::Word,
        BasicOverload::String,
        BasicOverload::Char,
    ];
    for &o1 in &all {
        for &o2 in &all {
            let mut s = st();
            let a = overloaded(&mut s, 0, o1);
            let b = overloaded(&mut s, 1, o2);
            let shared: Vec<_> =
                basics.iter().filter(|&&x| o1.contains(x) && o2.contains(x)).collect();
            match unify(&mut s, &a, &b) {
                Ok(()) => {
                    assert!(!shared.is_empty());
                    let fused = match kind_of(&s, 1) {
                        Some(TyVarKind::Overloaded(o)) => o,
                        k => panic!("{:?}", k),
                    };
                    for &x in &basics {
                        assert_eq!(fused.contains(x), o1.contains(x) && o2.contains(x));
                    }
                    assert_eq!(o1.unify(o2), Some(fused));
                    assert!(same(&s.subst.apply(&a), &b));
                }
                Err(e) => {
                    assert!(shared.is_empty());
                    assert_eq!(e.kind(), FailureKind::OverloadMismatch);
                    assert_eq!(o1.unify(o2), None);
                }
            }
        }
    }
    // the composite case, spelled out
    assert_eq!(
        Overload::Composite(CompositeOverload::WordInt)
            .unify(Overload::Composite(CompositeOverload::RealInt)),
        Some(Overload::Basic(BasicOverload::Int))
    );
    assert_eq!(
        Overload::Composite(CompositeOverload::Num)
            .unify(Overload::Composite(CompositeOverload::WordInt)),
        Some(Overload::Composite(CompositeOverload::WordInt))
    );
}

#[test]
fn unify_equality_variable_with_a_type() {
    let mut s = st();
    s.subst.set_kind(MetaTyVar { id: 0 }, TyVarKind::Equality);
    match unify(&mut s, &meta(0), &list_of(con(SYM_REAL))) {
        Err(UnifyError::NotEquality(ty, why)) => {
            assert!(same(&ty, &list_of(con(SYM_REAL))));
            assert_eq!(why, NotEqTy::Sym(Sym { raw: SYM_REAL }));
        }
        r => panic!("{:?}", r),
    }
    let mut s = st();
    s.subst.set_kind(MetaTyVar { id: 0 }, TyVarKind::Equality);
    assert!(unify(&mut s, &meta(0), &list_of(meta(1))).is_ok());
    assert_eq!(kind_of(&s, 1), Some(TyVarKind::Equality));
}

#[test]
fn equality_admission() {
    let int = con(SYM_INT);
    let real = con(SYM_REAL);
    let mut s = st();
    assert_eq!(get_ty(&mut s, &real), Err(NotEqTy::Sym(Sym { raw: SYM_REAL })));
    assert_eq!(get_ty(&mut s, &int), Ok(()));
    let pair = record(vec![(Lab::Num(1), con(SYM_INT)), (Lab::Num(2), con(SYM_STRING))]);
    assert_eq!(get_ty(&mut s, &pair), Ok(()));
    assert_eq!(get_ty(&mut s, &fun(meta(5), meta(6))), Err(NotEqTy::Fn));
    assert_eq!(get_ty(&mut s, &list_of(con(SYM_INT))), Ok(()));
    assert_eq!(get_ty(&mut s, &list_of(con(SYM_REAL))), Err(NotEqTy::Sym(Sym { raw: SYM_REAL })));
    assert_eq!(kind_of(&s, 0), None);
    assert_eq!(get_ty(&mut s, &list_of(meta(0))), Ok(()));
    assert_eq!(kind_of(&s, 0), Some(TyVarKind::Equality));
    // the first failure counts, and what came before it was marked
    let mixed = record(vec![(named("a"), meta(1)), (named("b"), real), (named("c"), meta(2))]);
    assert_eq!(get_ty(&mut s, &mixed), Err(NotEqTy::Sym(Sym { raw: SYM_REAL })));
    assert_eq!(kind_of(&s, 1), Some(TyVarKind::Equality));
    assert_eq!(kind_of(&s, 2), None);
    assert_eq!(get_ty(&mut s, &Ty::Unknown), Ok(()));
}

#[test]
fn equality_of_fixed_variables_and_overloads() {
    let mut s = st();
    let plain = Ty::FixedVar(FixedTyVar { id: 0, ty_var: TyVar::new("'a") });
    let eq = Ty::FixedVar(FixedTyVar { id: 1, ty_var: TyVar::new("''a") });
    assert_eq!(get_ty(&mut s, &plain), Err(NotEqTy::FixedTyVar));
    assert_eq!(get_ty(&mut s, &eq), Ok(()));
    let a = overloaded(&mut s, 0, Overload::Composite(CompositeOverload::WordInt));
    assert_eq!(get_ty(&mut s, &a), Ok(()));
    let b = overloaded(&mut s, 1, Overload::Composite(CompositeOverload::Num));
    assert_eq!(get_ty(&mut s, &b), Err(NotEqTy::Sym(Sym { raw: SYM_REAL })));
    let c = overloaded(&mut s, 2, Overload::Basic(BasicOverload::Real));
    assert_eq!(get_ty(&mut s, &c), Err(NotEqTy::Sym(Sym { raw: SYM_REAL })));
    assert_eq!(NotEqTy::Fn.describe(), "a function type");
    assert_eq!(NotEqTy::FixedTyVar.describe(), "a fixed non-equality type variable");
    assert_eq!(NotEqTy::Sym(Sym { raw: 3 }).describe(), "a non-equality type constructor");
}

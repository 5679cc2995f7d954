use millet::hir::{Lab, Name, TyVar};
use millet::list::List;
use millet::statics::basis::symbols;
use millet::statics::display::{meta_var_idx, record_meta_var, Incompatible, MetaVarNames};
use millet::statics::equality::NotEqTy;
use millet::statics::error::ErrorKind;
use millet::statics::sym::Syms;
use millet::statics::types::{
    BasicOverload, CompositeOverload, FixedTyVar, MetaTyVar, Overload, Subst, Sym, Ty, TyScheme,
    TyVarKind, SYM_BOOL, SYM_EXN, SYM_INT, SYM_LIST, SYM_REAL, SYM_STRING,
};

fn list<T>(items: Vec<T>) -> List<T> {
    let mut out = List::Nil;
    for item in items.into_iter().rev() {
        out = List::Cons(item, Box::new(out));
    }
    out
}

fn con(raw: u32) -> Ty {
    Ty::Con(Box::new(List::Nil), Sym { raw })
}

fn app(args: Vec<Ty>, raw: u32) -> Ty {
    Ty::Con(Box::new(list(args)), Sym { raw })
}

fn fun(a: Ty, b: Ty) -> Ty {
    Ty::Fn(Box::new(a), Box::new(b))
}

fn tuple(tys: Vec<Ty>) -> Ty {
    Ty::Record(Box::new(list(
        tys.into_iter().enumerate().map(|(i, t)| (Lab::tuple(i), t)).collect(),
    )))
}

fn record(rows: Vec<(&str, Ty)>) -> Ty {
    Ty::Record(Box::new(list(
        rows.into_iter().map(|(l, t)| (Lab::Name(Name::new(l)), t)).collect(),
    )))
}

fn meta(id: u32) -> Ty {
    Ty::MetaVar(MetaTyVar { id })
}

fn show(subst: &Subst, syms: &Syms, ty: &Ty) -> String {
    let mut names = MetaVarNames::new(subst);
    names.extend_for(ty);
    ty.display(&names, syms)
}

#[test]
fn display_types() {
    let syms = symbols();
    let s = Subst::new();
    let int = || con(SYM_INT);
    let cases = vec![
        (Ty::Unknown, "_"),
        (int(), "int"),
        (con(SYM_EXN), "exn"),
        (tuple(vec![]), "unit"),
        (app(vec![int()], SYM_LIST), "int list"),
        (app(vec![app(vec![int()], SYM_LIST)], SYM_LIST), "int list list"),
        (app(vec![int(), con(SYM_BOOL)], SYM_LIST), "(int, bool) list"),
        (fun(int(), int()), "int -> int"),
        (fun(int(), fun(int(), int())), "int -> int -> int"),
        (fun(fun(int(), int()), int()), "(int -> int) -> int"),
        (tuple(vec![int(), con(SYM_STRING)]), "int * string"),
        (tuple(vec![int(), tuple(vec![int(), int()])]), "int * (int * int)"),
        (tuple(vec![fun(int(), int()), int()]), "(int -> int) * int"),
        (fun(tuple(vec![int(), int()]), int()), "int * int -> int"),
        (app(vec![tuple(vec![int(), int()])], SYM_LIST), "(int * int) list"),
        (app(vec![fun(int(), int())], SYM_LIST), "(int -> int) list"),
        (record(vec![("a", int()), ("b", con(SYM_REAL))]), "{ a : int, b : real }"),
        // one numbered row is no tuple
        (tuple(vec![int()]), "{ 1 : int }"),
        (
            Ty::FixedVar(FixedTyVar { id: 0, ty_var: TyVar::new("''k") }),
            "''k",
        ),
        (fun(meta(7), fun(meta(3), meta(7))), "?a -> ?b -> ?a"),
    ];
    for (ty, want) in cases {
        assert_eq!(show(&s, &syms, &ty), want);
    }
}

#[test]
fn display_meta_variables_by_kind() {
    let syms = symbols();
    let mut s = Subst::new();
    s.set_kind(MetaTyVar { id: 1 }, TyVarKind::Equality);
    s.set_kind(MetaTyVar { id: 2 }, TyVarKind::Overloaded(Overload::Basic(BasicOverload::Word)));
    s.set_kind(
        MetaTyVar { id: 3 },
        TyVarKind::Overloaded(Overload::Composite(CompositeOverload::WordInt)),
    );
    s.bind(MetaTyVar { id: 4 }, con(SYM_INT));
    let ty = tuple(vec![meta(0), meta(1), meta(2), meta(3), meta(4), meta(1)]);
    assert_eq!(show(&s, &syms, &ty), "?a * ??b * word * <wordint> * int * ??b");
    // a variable that was given no name
    let names = MetaVarNames::new(&s);
    assert_eq!(meta(0).display(&names, &syms), "?");
    assert_eq!(meta(1).display(&names, &syms), "??");
    let mut names = MetaVarNames::new(&s);
    names.extend_for(&meta(1));
    names.clear();
    names.extend_for(&meta(0));
    assert_eq!(meta(0).display(&names, &syms), "?a");
}

#[test]
fn display_names_of_variables() {
    for (idx, want) in [(0, "a"), (1, "b"), (25, "z"), (26, "aa"), (27, "bb"), (52, "aaa")] {
        let mut s = String::new();
        meta_var_idx(&mut s, idx, "?");
        assert_eq!(s, format!("?{}", want));
    }
}

#[test]
fn display_type_schemes() {
    let syms = symbols();
    let s = Subst::new();
    let names = MetaVarNames::new(&s);
    let scheme = TyScheme {
        bound_vars: list(vec![TyVarKind::Regular, TyVarKind::Equality]),
        ty: fun(Ty::BoundVar(0), app(vec![Ty::BoundVar(1)], SYM_LIST)),
    };
    assert_eq!(scheme.display(&names, &syms), "'a -> ''b list");
    assert_eq!(Ty::BoundVar(1).display(&names, &syms), "'b");
}

#[test]
fn display_unresolved_record() {
    let syms = symbols();
    let s = Subst::new();
    let names = MetaVarNames::new(&s);
    let rows = list(vec![
        (Lab::Name(Name::new("a")), con(SYM_INT)),
        (Lab::Num(2), con(SYM_BOOL)),
    ]);
    assert_eq!(record_meta_var(&names, &syms, &rows), "{ a : int, 2 : bool, ... }");
    assert_eq!(record_meta_var(&names, &syms, &List::Nil), "{ ... }");
}

#[test]
fn display_incompatible() {
    let syms = symbols();
    let s = Subst::new();
    let fv = |id, s| FixedTyVar { id, ty_var: TyVar::new(s) };
    let rows = || list(vec![
        (Lab::Name(Name::new("a")), meta(0)),
        (Lab::Name(Name::new("b")), con(SYM_INT)),
    ]);
    let wordint = Overload::Composite(CompositeOverload::WordInt);
    let cases = vec![
        (Incompatible::FixedTyVar(fv(0, "'a"), fv(1, "'b")), "`'a` and `'b` are different type variables"),
        (Incompatible::MissingRow(Lab::Name(Name::new("x"))), "record type is missing field: `x`"),
        (Incompatible::ExtraRows(rows()), "record type has extra fields: a, b"),
        (
            Incompatible::Con(Sym { raw: SYM_INT }, Sym { raw: SYM_LIST }),
            "`int` and `list` are different type constructors",
        ),
        (
            Incompatible::Head(fun(meta(0), con(SYM_INT)), tuple(vec![])),
            "`?a -> int` is a function type, but `unit` is a record or tuple type",
        ),
        (
            Incompatible::OverloadCon(wordint, Sym { raw: SYM_REAL }),
            "`real` is not compatible with the `<wordint>` overload",
        ),
        (
            Incompatible::OverloadUnify(wordint, Overload::Basic(BasicOverload::String)),
            "`<wordint>` and `string` are incompatible overloads",
        ),
        (
            Incompatible::OverloadRecord(wordint, rows()),
            "record types are not compatible with the `<wordint>` overload",
        ),
        (
            Incompatible::OverloadHeadMismatch(wordint, fun(meta(0), meta(1))),
            "`<wordint>` is not compatible with `?a -> ?b`, which is a function type",
        ),
        (
            Incompatible::UnresolvedRecordMissingRow(Lab::Num(3)),
            "unresolved record type is missing field: `3`",
        ),
        (
            Incompatible::UnresolvedRecordHeadMismatch(rows(), con(SYM_INT)),
            "unresolved record type is not compatible with `int`, which is a constructor type",
        ),
        (
            Incompatible::NotEqTy(app(vec![con(SYM_REAL)], SYM_LIST), NotEqTy::Sym(Sym { raw: SYM_REAL })),
            "not an equality type because it contains a non-equality type constructor: `real list`",
        ),
    ];
    for (reason, want) in cases {
        let mut names = MetaVarNames::new(&s);
        reason.extend_meta_var_names(&mut names);
        assert_eq!(reason.display(&names, &syms), want);
    }
}

#[test]
fn display_error_messages() {
    let syms = symbols();
    let s = Subst::new();
    let lab = || Lab::Name(Name::new("x"));
    let cases = vec![
        (ErrorKind::Unsupported, "unsupported language construct"),
        (ErrorKind::Undefined, "undefined identifier"),
        (ErrorKind::Redefined, "duplicate identifier"),
        (
            ErrorKind::Circularity(MetaTyVar { id: 4 }, fun(meta(4), meta(5))),
            "circular type: `?a` occurs in `?a -> ?b`",
        ),
        (
            ErrorKind::MismatchedTypes(con(SYM_INT), fun(meta(1), meta(0))),
            "mismatched types: expected int, found ?a -> ?b",
        ),
        (
            ErrorKind::MissingField(lab(), con(SYM_INT), con(SYM_REAL)),
            "missing field `x`: expected int, found real",
        ),
        (ErrorKind::ExtraFields(con(SYM_INT), con(SYM_REAL)), "extra fields: expected int, found real"),
        (ErrorKind::DuplicateLab(lab()), "duplicate label: x"),
        (ErrorKind::RealPat, "real literal used as a pattern"),
        (ErrorKind::UnreachablePattern, "unreachable pattern"),
        (ErrorKind::NonExhaustiveMatch, "non-exhaustive match"),
        (ErrorKind::NonExhaustiveBinding, "non-exhaustive binding"),
        (ErrorKind::PatValIdStatus, "value binding used as a pattern"),
        (ErrorKind::PatMustNotHaveArg, "unexpected argument for constructor pattern"),
        (ErrorKind::PatMustHaveArg, "missing argument for constructor pattern"),
        (
            ErrorKind::OverloadMismatch(Overload::Basic(BasicOverload::Int), con(SYM_REAL), false),
            "int is not compatible with real",
        ),
        (ErrorKind::TyNameEscape, "type name escapes its scope"),
        (ErrorKind::ValRecExpNotFn, "the expression for a `val rec` was not a function"),
        (
            ErrorKind::NotEquality(fun(meta(0), meta(0)), NotEqTy::Fn),
            "not an equality type because it contains a function type: `?a -> ?a`",
        ),
    ];
    for (kind, want) in cases {
        assert_eq!(kind.message(&s, &syms), want);
    }
    assert_eq!(con(SYM_INT).desc(), "a constructor type");
    assert_eq!(Ty::Unknown.desc(), "an unknown type");
}

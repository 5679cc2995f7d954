//! The minimal standard basis: the built-in types, the overloads, and the
//! values that every program may name.

use crate::hir::{Lab, Name, Path};
use crate::list::List;
use crate::statics::env::{closed_vals, lookup_ty, lookup_val, Cx, Env, StrEnv, TyEnv, ValEnv};
use crate::statics::types::{ground, ground_rows, ground_tys};
use crate::statics::info::{Exn, IdStatus, TyInfo, ValInfo};
use crate::statics::st::St;
use crate::statics::sym::{Equality, ExnInfo, OverloadsView, SymInfo, SymInfoV, Syms, SymsView};
use crate::statics::types::{
    BasicOverload, CompositeOverload, Overload, Sym, Ty, TyScheme, TyVarKind, SYM_BOOL, SYM_CHAR,
    SYM_EXN, SYM_INT, SYM_LIST, SYM_REAL, SYM_REF, SYM_STRING, SYM_VECTOR, SYM_WORD,
};
use vstd::prelude::*;

verus! {

/// The type of a type constructor without arguments.
pub open spec fn con0(raw: u32) -> Ty {
    Ty::Con(Box::new(List::Nil), Sym { raw })
}

/// The type of a type constructor with one argument.
pub open spec fn con1(arg: Ty, raw: u32) -> Ty {
    Ty::Con(Box::new(List::Cons(arg, Box::new(List::Nil))), Sym { raw })
}

/// The type of pairs.
pub open spec fn pair(a: Ty, b: Ty) -> Ty {
    Ty::Record(
        Box::new(
            List::Cons(
                (Lab::Num(1), a),
                Box::new(List::Cons((Lab::Num(2), b), Box::new(List::Nil))),
            ),
        ),
    )
}

/// A function type.
pub open spec fn fun(param: Ty, res: Ty) -> Ty {
    Ty::Fn(Box::new(param), Box::new(res))
}

/// A scheme with one bound variable of a kind.
pub open spec fn scheme1(kind: TyVarKind, ty: Ty) -> TyScheme {
    TyScheme { bound_vars: List::Cons(kind, Box::new(List::Nil)), ty }
}

/// A value of the basis with a type scheme and a status.
pub open spec fn val(ty_scheme: TyScheme, id_status: IdStatus) -> ValInfo {
    ValInfo { ty_scheme, id_status, def: None, disallow: None }
}

/// The scheme of an overloaded operator on two operands that gives an
/// operand.
pub open spec fn binary(ov: CompositeOverload) -> TyScheme {
    scheme1(
        TyVarKind::Overloaded(Overload::Composite(ov)),
        fun(pair(Ty::BoundVar(0), Ty::BoundVar(0)), Ty::BoundVar(0)),
    )
}

/// The scheme of an overloaded comparison.
pub open spec fn comparison() -> TyScheme {
    scheme1(
        TyVarKind::Overloaded(Overload::Composite(CompositeOverload::NumTxt)),
        fun(pair(Ty::BoundVar(0), Ty::BoundVar(0)), con0(SYM_BOOL)),
    )
}

/// The scheme of equality and inequality.
pub open spec fn equality() -> TyScheme {
    scheme1(TyVarKind::Equality, fun(pair(Ty::BoundVar(0), Ty::BoundVar(0)), con0(SYM_BOOL)))
}

/// The scheme of an overloaded operator on one operand.
pub open spec fn unary() -> TyScheme {
    scheme1(
        TyVarKind::Overloaded(Overload::Composite(CompositeOverload::RealInt)),
        fun(Ty::BoundVar(0), Ty::BoundVar(0)),
    )
}

/// The scheme that binds nothing.
pub open spec fn mono(ty: Ty) -> TyScheme {
    TyScheme { bound_vars: List::Nil, ty }
}

/// What a name stands for in the minimal basis.
pub open spec fn basis_val(n: Seq<char>) -> Option<ValInfo> {
    if n == "Bind"@ {
        Some(val(mono(con0(SYM_EXN)), IdStatus::Exn(Exn { raw: 1 })))
    } else if n == "Match"@ {
        Some(val(mono(con0(SYM_EXN)), IdStatus::Exn(Exn { raw: 0 })))
    } else if n == "<>"@ {
        Some(val(equality(), IdStatus::Val))
    } else if n == "="@ {
        Some(val(equality(), IdStatus::Val))
    } else if n == ">="@ {
        Some(val(comparison(), IdStatus::Val))
    } else if n == "<="@ {
        Some(val(comparison(), IdStatus::Val))
    } else if n == ">"@ {
        Some(val(comparison(), IdStatus::Val))
    } else if n == "<"@ {
        Some(val(comparison(), IdStatus::Val))
    } else if n == "abs"@ {
        Some(val(unary(), IdStatus::Val))
    } else if n == "~"@ {
        Some(val(unary(), IdStatus::Val))
    } else if n == "/"@ {
        Some(
            val(
                mono(fun(pair(con0(SYM_REAL), con0(SYM_REAL)), con0(SYM_REAL))),
                IdStatus::Val,
            ),
        )
    } else if n == "mod"@ {
        Some(val(binary(CompositeOverload::WordInt), IdStatus::Val))
    } else if n == "div"@ {
        Some(val(binary(CompositeOverload::WordInt), IdStatus::Val))
    } else if n == "*"@ {
        Some(val(binary(CompositeOverload::Num), IdStatus::Val))
    } else if n == "-"@ {
        Some(val(binary(CompositeOverload::Num), IdStatus::Val))
    } else if n == "+"@ {
        Some(val(binary(CompositeOverload::Num), IdStatus::Val))
    } else if n == "::"@ {
        Some(
            val(
                scheme1(
                    TyVarKind::Regular,
                    fun(
                        pair(Ty::BoundVar(0), con1(Ty::BoundVar(0), SYM_LIST)),
                        con1(Ty::BoundVar(0), SYM_LIST),
                    ),
                ),
                IdStatus::Con,
            ),
        )
    } else if n == "nil"@ {
        Some(val(scheme1(TyVarKind::Regular, con1(Ty::BoundVar(0), SYM_LIST)), IdStatus::Con))
    } else if n == "false"@ {
        Some(val(mono(con0(SYM_BOOL)), IdStatus::Con))
    } else if n == "true"@ {
        Some(val(mono(con0(SYM_BOOL)), IdStatus::Con))
    } else {
        None
    }
}

/// The type that a name makes in the minimal basis: the built-in types by
/// their names, and `unit` for the record without fields.
pub open spec fn basis_ty(n: Seq<char>) -> Option<TyScheme> {
    if n == "unit"@ {
        Some(mono(Ty::Record(Box::new(List::Nil))))
    } else if n == "exn"@ {
        Some(basis_scheme(SYM_EXN))
    } else if n == "vector"@ {
        Some(basis_scheme(SYM_VECTOR))
    } else if n == "ref"@ {
        Some(basis_scheme(SYM_REF))
    } else if n == "list"@ {
        Some(basis_scheme(SYM_LIST))
    } else if n == "bool"@ {
        Some(basis_scheme(SYM_BOOL))
    } else if n == "string"@ {
        Some(basis_scheme(SYM_STRING))
    } else if n == "char"@ {
        Some(basis_scheme(SYM_CHAR))
    } else if n == "real"@ {
        Some(basis_scheme(SYM_REAL))
    } else if n == "word"@ {
        Some(basis_scheme(SYM_WORD))
    } else if n == "int"@ {
        Some(basis_scheme(SYM_INT))
    } else {
        None
    }
}

/// How the built-in type with the given symbol admits equality.
pub open spec fn basis_equality(raw: u32) -> Equality {
    if raw == SYM_REAL {
        Equality::Never
    } else if raw == SYM_LIST || raw == SYM_VECTOR {
        Equality::Sometimes
    } else {
        Equality::Always
    }
}

/// The name of the built-in type with the given symbol.
pub open spec fn basis_name(raw: u32) -> Seq<char> {
    if raw == SYM_INT {
        "int"@
    } else if raw == SYM_WORD {
        "word"@
    } else if raw == SYM_REAL {
        "real"@
    } else if raw == SYM_CHAR {
        "char"@
    } else if raw == SYM_STRING {
        "string"@
    } else if raw == SYM_BOOL {
        "bool"@
    } else if raw == SYM_LIST {
        "list"@
    } else if raw == SYM_REF {
        "ref"@
    } else {
        "vector"@
    }
}

/// The overloads of the minimal basis: each resolves to its built-in type.
pub open spec fn basis_overloads() -> OverloadsView {
    OverloadsView {
        ints: seq![Sym { raw: SYM_INT }],
        reals: seq![Sym { raw: SYM_REAL }],
        words: seq![Sym { raw: SYM_WORD }],
        strings: seq![Sym { raw: SYM_STRING }],
        chars: seq![Sym { raw: SYM_CHAR }],
    }
}

/// The type scheme of the built-in type with the given symbol: lists,
/// references and vectors take one argument.
pub open spec fn basis_scheme(raw: u32) -> TyScheme {
    if raw == SYM_LIST || raw == SYM_REF || raw == SYM_VECTOR {
        scheme1(TyVarKind::Regular, con1(Ty::BoundVar(0), raw))
    } else {
        mono(con0(raw))
    }
}

/// The names of the constructors of the built-in type with the given
/// symbol, in order.
pub open spec fn basis_cons(raw: u32) -> Seq<Seq<char>> {
    if raw == SYM_BOOL {
        seq!["true"@, "false"@]
    } else if raw == SYM_LIST {
        seq!["nil"@, "::"@]
    } else {
        Seq::empty()
    }
}

/// Whether `cons` holds the constructors with the names `names`, each as
/// the minimal basis has it.
pub open spec fn cons_are(cons: Seq<(Name, ValInfo)>, names: Seq<Seq<char>>) -> bool {
    &&& cons.len() == names.len()
    &&& forall|j: int|
        0 <= j < names.len() ==> (#[trigger] cons[j]).0@ == names[j] && Some(cons[j].1)
            == basis_val(names[j])
}

/// Whether `info` is what the minimal basis knows of the built-in type with
/// the given symbol.
pub open spec fn is_basis_info(info: SymInfoV, raw: u32) -> bool {
    &&& info.path.text() == basis_name(raw)
    &&& info.equality == basis_equality(raw)
    &&& info.ty_scheme == basis_scheme(raw)
    &&& cons_are(info.cons, basis_cons(raw))
    &&& info.def is None
    &&& info.disallow is None
}

/// Whether a table of symbols is that of the minimal basis: the nine
/// built-in types, each with its name, its equality, its type scheme and
/// its constructors, the overloads, and the exceptions `Match` and `Bind`.
pub open spec fn is_basis(syms: SymsView) -> bool {
    &&& syms.infos.len() == 9
    &&& forall|i: int| 0 <= i < 9 ==> is_basis_info(#[trigger] syms.infos[i], (i + 1) as u32)
    &&& syms.overloads == basis_overloads()
    &&& syms.exns.len() == 2
    &&& syms.exns[0].path.text() == "Match"@
    &&& syms.exns[0].param is None
    &&& syms.exns[1].path.text() == "Bind"@
    &&& syms.exns[1].param is None
}

fn with_ty(te: TyEnv, name: &str, raw: u32) -> (r: TyEnv)
    requires
        name@.len() > 0,
    ensures
        forall|n: Seq<char>|
            #[trigger] lookup_ty(r, n) == (if n == name@ {
                Some(basis_scheme(raw))
            } else {
                lookup_ty(te, n)
            }),
{
    let sym = Sym { raw };
    let scheme = if raw == SYM_LIST || raw == SYM_REF || raw == SYM_VECTOR {
        TyScheme {
            bound_vars: List::Cons(TyVarKind::Regular, Box::new(List::Nil)),
            ty: Ty::Con(Box::new(List::Cons(Ty::BoundVar(0), Box::new(List::Nil))), sym),
        }
    } else {
        TyScheme { bound_vars: List::Nil, ty: Ty::Con(Box::new(List::Nil), sym) }
    };
    List::Cons((Name::new(name), scheme), Box::new(te))
}

/// The type constructors of the minimal basis.
pub fn types() -> (r: TyEnv)
    ensures
        forall|n: Seq<char>| #[trigger] lookup_ty(r, n) == basis_ty(n),
{
    proof {
        reveal_strlit("int");
        reveal_strlit("word");
        reveal_strlit("real");
        reveal_strlit("char");
        reveal_strlit("string");
        reveal_strlit("bool");
        reveal_strlit("list");
        reveal_strlit("ref");
        reveal_strlit("vector");
        reveal_strlit("exn");
        reveal_strlit("unit");
    }
    let te: TyEnv = List::Nil;
    let te = with_ty(te, "int", SYM_INT);
    let te = with_ty(te, "word", SYM_WORD);
    let te = with_ty(te, "real", SYM_REAL);
    let te = with_ty(te, "char", SYM_CHAR);
    let te = with_ty(te, "string", SYM_STRING);
    let te = with_ty(te, "bool", SYM_BOOL);
    let te = with_ty(te, "list", SYM_LIST);
    let te = with_ty(te, "ref", SYM_REF);
    let te = with_ty(te, "vector", SYM_VECTOR);
    let te = with_ty(te, "exn", SYM_EXN);
    let unit = TyScheme { bound_vars: List::Nil, ty: Ty::Record(Box::new(List::Nil)) };
    let r = List::Cons((Name::new("unit"), unit), Box::new(te));
    assert forall|n: Seq<char>| #[trigger] lookup_ty(r, n) == basis_ty(n) by {
        assert(lookup_ty(r, n) == (if n == "unit"@ {
            Some(unit)
        } else {
            lookup_ty(te, n)
        }));
    }
    r
}

fn with_val(ve: ValEnv, name: &str, info: ValInfo) -> (r: ValEnv)
    requires
        name@.len() > 0,
        ground(info.ty_scheme.ty),
        closed_vals(ve),
    ensures
        closed_vals(r),
        forall|n: Seq<char>|
            #[trigger] lookup_val(r, n) == (if n == name@ {
                Some(info)
            } else {
                lookup_val(ve, n)
            }),
{
    List::Cons((Name::new(name), info), Box::new(ve))
}

fn add_sym(syms: &mut Syms, name: &str, cons: crate::statics::info::SymValEnv)
    requires
        name@.len() > 0,
        old(syms)@.infos.len() < 100,
        name@ == basis_name((old(syms)@.infos.len() + 1) as u32),
        cons_are(cons@, basis_cons((old(syms)@.infos.len() + 1) as u32)),
    ensures
        final(syms)@.infos.len() == old(syms)@.infos.len() + 1,
        forall|i: int|
            0 <= i < old(syms)@.infos.len() ==> final(syms)@.infos[i] == old(syms)@.infos[i],
        is_basis_info(final(syms)@.infos.last(), final(syms)@.infos.len() as u32),
        final(syms)@.exns == old(syms)@.exns,
        final(syms)@.overloads == old(syms)@.overloads,
{
    let ghost before = syms@.infos;
    let started = syms.start(Path::one(Name::new(name)));
    let sym = started.sym();
    let raw = sym.raw;
    let unary = raw == SYM_LIST || raw == SYM_REF || raw == SYM_VECTOR;
    let equality = if raw == SYM_REAL {
        Equality::Never
    } else if raw == SYM_LIST || raw == SYM_VECTOR {
        Equality::Sometimes
    } else {
        Equality::Always
    };
    let ty = if unary {
        Ty::Con(Box::new(List::Cons(Ty::BoundVar(0), Box::new(List::Nil))), sym)
    } else {
        Ty::Con(Box::new(List::Nil), sym)
    };
    let bound_vars = if unary {
        List::Cons(TyVarKind::Regular, Box::new(List::Nil))
    } else {
        List::Nil
    };
    let ty_info = TyInfo {
        ty_scheme: TyScheme { bound_vars, ty },
        val_env: cons,
        def: None,
        disallow: None,
    };
    assert(syms@.infos.take(before.len() as int) == before);
    assert forall|i: int| 0 <= i < before.len() implies syms@.infos[i] == before[i] by {
        assert(syms@.infos.take(before.len() as int)[i] == syms@.infos[i]);
    }
    syms.finish(started, ty_info, equality);
    assert(dotted(List::<Name>::Nil) + name@ =~= name@);
}

fn no_cons() -> (r: crate::statics::info::SymValEnv)
    ensures
        r@ == Seq::<(Name, ValInfo)>::empty(),
{
    crate::statics::info::SymValEnv::new()
}

fn two_cons(a: &str, a_info: ValInfo, b: &str, b_info: ValInfo) -> (r: crate::statics::info::SymValEnv)
    requires
        a@.len() > 0,
        b@.len() > 0,
        a@ != b@,
    ensures
        r@.len() == 2,
        r@[0].0@ == a@,
        r@[0].1 == a_info,
        r@[1].0@ == b@,
        r@[1].1 == b_info,
{
    let mut r = crate::statics::info::SymValEnv::new();
    proof {
        crate::statics::info::lemma_position(r@, a@);
    }
    r.insert(Name::new(a), a_info);
    proof {
        crate::statics::info::lemma_position(r@, b@);
    }
    r.insert(Name::new(b), b_info);
    r
}

use crate::hir::dotted;

fn pair_of(a: Ty, b: Ty) -> (r: Ty)
    ensures
        r == pair(a, b),
{
    Ty::Record(
        Box::new(
            List::Cons(
                (Lab::Num(1), a),
                Box::new(List::Cons((Lab::Num(2), b), Box::new(List::Nil))),
            ),
        ),
    )
}

fn c0(raw: u32) -> (r: Ty)
    ensures
        r == con0(raw),
{
    Ty::Con(Box::new(List::Nil), Sym { raw })
}

fn list_of_var() -> (r: Ty)
    ensures
        r == con1(Ty::BoundVar(0), SYM_LIST),
{
    Ty::Con(Box::new(List::Cons(Ty::BoundVar(0), Box::new(List::Nil))), Sym { raw: SYM_LIST })
}

fn arrow(param: Ty, res: Ty) -> (r: Ty)
    ensures
        r == fun(param, res),
{
    Ty::Fn(Box::new(param), Box::new(res))
}

fn info(bound: Option<TyVarKind>, ty: Ty, id_status: IdStatus) -> (r: ValInfo)
    ensures
        r == val(
            match bound {
                Some(k) => scheme1(k, ty),
                None => mono(ty),
            },
            id_status,
        ),
{
    let bound_vars = match bound {
        Some(k) => List::Cons(k, Box::new(List::Nil)),
        None => List::Nil,
    };
    ValInfo { ty_scheme: TyScheme { bound_vars, ty }, id_status, def: None, disallow: None }
}

fn binary_info(ov: CompositeOverload) -> (r: ValInfo)
    ensures
        r == val(binary(ov), IdStatus::Val),
{
    info(
        Some(TyVarKind::Overloaded(Overload::Composite(ov))),
        arrow(pair_of(Ty::BoundVar(0), Ty::BoundVar(0)), Ty::BoundVar(0)),
        IdStatus::Val,
    )
}

fn comparison_info(kind: TyVarKind) -> (r: ValInfo)
    ensures
        r == val(
            scheme1(kind, fun(pair(Ty::BoundVar(0), Ty::BoundVar(0)), con0(SYM_BOOL))),
            IdStatus::Val,
        ),
{
    info(
        Some(kind),
        arrow(pair_of(Ty::BoundVar(0), Ty::BoundVar(0)), c0(SYM_BOOL)),
        IdStatus::Val,
    )
}

fn unary_info() -> (r: ValInfo)
    ensures
        r == val(unary(), IdStatus::Val),
{
    info(
        Some(TyVarKind::Overloaded(Overload::Composite(CompositeOverload::RealInt))),
        arrow(Ty::BoundVar(0), Ty::BoundVar(0)),
        IdStatus::Val,
    )
}

/// The table of symbols of the minimal basis.
pub fn symbols() -> (r: Syms)
    ensures
        is_basis(r@),
{
    proof {
        reveal_strlit("int");
        reveal_strlit("word");
        reveal_strlit("real");
        reveal_strlit("char");
        reveal_strlit("string");
        reveal_strlit("bool");
        reveal_strlit("list");
        reveal_strlit("ref");
        reveal_strlit("vector");
        reveal_strlit("Match");
        reveal_strlit("Bind");
        reveal_strlit("true");
        reveal_strlit("false");
        reveal_strlit("nil");
        reveal_strlit("::");
        reveal_strlit("+");
        reveal_strlit("-");
        reveal_strlit("*");
        reveal_strlit("div");
        reveal_strlit("mod");
        reveal_strlit("/");
        reveal_strlit("~");
        reveal_strlit("abs");
        reveal_strlit("<");
        reveal_strlit(">");
        reveal_strlit("<=");
        reveal_strlit(">=");
        reveal_strlit("=");
        reveal_strlit("<>");
    }
    let mut syms = Syms::new();
    add_sym(&mut syms, "int", no_cons());
    add_sym(&mut syms, "word", no_cons());
    add_sym(&mut syms, "real", no_cons());
    add_sym(&mut syms, "char", no_cons());
    add_sym(&mut syms, "string", no_cons());
    assert("true"@.len() != "false"@.len());
    assert("nil"@.len() != "::"@.len());
    let bools = two_cons(
        "true",
        info(None, c0(SYM_BOOL), IdStatus::Con),
        "false",
        info(None, c0(SYM_BOOL), IdStatus::Con),
    );
    assert(cons_are(bools@, basis_cons(SYM_BOOL))) by {
        assert("true"@[0] != "Bind"@[0]);
        assert("true"@.len() != "Match"@.len());
        assert("true"@.len() != "<>"@.len());
        assert("true"@.len() != "="@.len());
        assert("true"@.len() != ">="@.len());
        assert("true"@.len() != "<="@.len());
        assert("true"@.len() != ">"@.len());
        assert("true"@.len() != "<"@.len());
        assert("true"@.len() != "abs"@.len());
        assert("true"@.len() != "~"@.len());
        assert("true"@.len() != "/"@.len());
        assert("true"@.len() != "mod"@.len());
        assert("true"@.len() != "div"@.len());
        assert("true"@.len() != "*"@.len());
        assert("true"@.len() != "-"@.len());
        assert("true"@.len() != "+"@.len());
        assert("true"@.len() != "::"@.len());
        assert("true"@.len() != "nil"@.len());
        assert("true"@.len() != "false"@.len());
        assert("false"@.len() != "Bind"@.len());
        assert("false"@[0] != "Match"@[0]);
        assert("false"@.len() != "<>"@.len());
        assert("false"@.len() != "="@.len());
        assert("false"@.len() != ">="@.len());
        assert("false"@.len() != "<="@.len());
        assert("false"@.len() != ">"@.len());
        assert("false"@.len() != "<"@.len());
        assert("false"@.len() != "abs"@.len());
        assert("false"@.len() != "~"@.len());
        assert("false"@.len() != "/"@.len());
        assert("false"@.len() != "mod"@.len());
        assert("false"@.len() != "div"@.len());
        assert("false"@.len() != "*"@.len());
        assert("false"@.len() != "-"@.len());
        assert("false"@.len() != "+"@.len());
        assert("false"@.len() != "::"@.len());
        assert("false"@.len() != "nil"@.len());
        assert(basis_val("true"@) == Some(bools@[0].1));
        assert(basis_val("false"@) == Some(bools@[1].1));
    }
    add_sym(&mut syms, "bool", bools);
    let lists = two_cons(
        "nil",
        info(Some(TyVarKind::Regular), list_of_var(), IdStatus::Con),
        "::",
        info(
            Some(TyVarKind::Regular),
            arrow(pair_of(Ty::BoundVar(0), list_of_var()), list_of_var()),
            IdStatus::Con,
        ),
    );
    assert(cons_are(lists@, basis_cons(SYM_LIST))) by {
        assert("nil"@.len() != "Bind"@.len());
        assert("nil"@.len() != "Match"@.len());
        assert("nil"@.len() != "<>"@.len());
        assert("nil"@.len() != "="@.len());
        assert("nil"@.len() != ">="@.len());
        assert("nil"@.len() != "<="@.len());
        assert("nil"@.len() != ">"@.len());
        assert("nil"@.len() != "<"@.len());
        assert("nil"@[0] != "abs"@[0]);
        assert("nil"@.len() != "~"@.len());
        assert("nil"@.len() != "/"@.len());
        assert("nil"@[0] != "mod"@[0]);
        assert("nil"@[0] != "div"@[0]);
        assert("nil"@.len() != "*"@.len());
        assert("nil"@.len() != "-"@.len());
        assert("nil"@.len() != "+"@.len());
        assert("nil"@.len() != "::"@.len());
        assert("::"@.len() != "Bind"@.len());
        assert("::"@.len() != "Match"@.len());
        assert("::"@[0] != "<>"@[0]);
        assert("::"@.len() != "="@.len());
        assert("::"@[0] != ">="@[0]);
        assert("::"@[0] != "<="@[0]);
        assert("::"@.len() != ">"@.len());
        assert("::"@.len() != "<"@.len());
        assert("::"@.len() != "abs"@.len());
        assert("::"@.len() != "~"@.len());
        assert("::"@.len() != "/"@.len());
        assert("::"@.len() != "mod"@.len());
        assert("::"@.len() != "div"@.len());
        assert("::"@.len() != "*"@.len());
        assert("::"@.len() != "-"@.len());
        assert("::"@.len() != "+"@.len());
        assert(basis_val("nil"@) == Some(lists@[0].1));
        assert(basis_val("::"@) == Some(lists@[1].1));
    }
    add_sym(&mut syms, "list", lists);
    add_sym(&mut syms, "ref", no_cons());
    add_sym(&mut syms, "vector", no_cons());
    {
        let ovs = syms.overloads_mut();
        ovs.push(BasicOverload::Int, Sym { raw: SYM_INT });
        ovs.push(BasicOverload::Real, Sym { raw: SYM_REAL });
        ovs.push(BasicOverload::Word, Sym { raw: SYM_WORD });
        ovs.push(BasicOverload::String, Sym { raw: SYM_STRING });
        ovs.push(BasicOverload::Char, Sym { raw: SYM_CHAR });
    }
    assert(syms@.overloads.ints =~= seq![Sym { raw: SYM_INT }]);
    assert(syms@.overloads.reals =~= seq![Sym { raw: SYM_REAL }]);
    assert(syms@.overloads.words =~= seq![Sym { raw: SYM_WORD }]);
    assert(syms@.overloads.strings =~= seq![Sym { raw: SYM_STRING }]);
    assert(syms@.overloads.chars =~= seq![Sym { raw: SYM_CHAR }]);
    let m = syms.insert_exn(Path::one(Name::new("Match")), None);
    let b = syms.insert_exn(Path::one(Name::new("Bind")), None);
    assert(dotted(List::<Name>::Nil) + "Match"@ =~= "Match"@);
    assert(dotted(List::<Name>::Nil) + "Bind"@ =~= "Bind"@);
    syms
}

/// The type constructors and the values of the minimal basis.
pub fn values() -> (r: Env)
    ensures
        r.str_env is Nil,
        closed_vals(*r.val_env),
        forall|n: Seq<char>| #[trigger] lookup_ty(*r.ty_env, n) == basis_ty(n),
        forall|n: Seq<char>| #[trigger] lookup_val(*r.val_env, n) == basis_val(n),
{
    proof {
        reveal_strlit("true");
        reveal_strlit("false");
        reveal_strlit("nil");
        reveal_strlit("::");
        reveal_strlit("+");
        reveal_strlit("-");
        reveal_strlit("*");
        reveal_strlit("div");
        reveal_strlit("mod");
        reveal_strlit("/");
        reveal_strlit("~");
        reveal_strlit("abs");
        reveal_strlit("<");
        reveal_strlit(">");
        reveal_strlit("<=");
        reveal_strlit(">=");
        reveal_strlit("=");
        reveal_strlit("<>");
        reveal_strlit("Match");
        reveal_strlit("Bind");
        reveal_with_fuel(ground, 6);
        reveal_with_fuel(ground_tys, 6);
        reveal_with_fuel(ground_rows, 6);
    }
    let ve: ValEnv = List::Nil;
    let ve = with_val(ve, "true", info(None, c0(SYM_BOOL), IdStatus::Con));
    let ve = with_val(ve, "false", info(None, c0(SYM_BOOL), IdStatus::Con));
    let ve = with_val(ve, "nil", info(Some(TyVarKind::Regular), list_of_var(), IdStatus::Con));
    let ve = with_val(
        ve,
        "::",
        info(
            Some(TyVarKind::Regular),
            arrow(pair_of(Ty::BoundVar(0), list_of_var()), list_of_var()),
            IdStatus::Con,
        ),
    );
    let ve = with_val(ve, "+", binary_info(CompositeOverload::Num));
    let ve = with_val(ve, "-", binary_info(CompositeOverload::Num));
    let ve = with_val(ve, "*", binary_info(CompositeOverload::Num));
    let ve = with_val(ve, "div", binary_info(CompositeOverload::WordInt));
    let ve = with_val(ve, "mod", binary_info(CompositeOverload::WordInt));
    let ve = with_val(
        ve,
        "/",
        info(None, arrow(pair_of(c0(SYM_REAL), c0(SYM_REAL)), c0(SYM_REAL)), IdStatus::Val),
    );
    let ve = with_val(ve, "~", unary_info());
    let ve = with_val(ve, "abs", unary_info());
    let numtxt = TyVarKind::Overloaded(Overload::Composite(CompositeOverload::NumTxt));
    let ve = with_val(ve, "<", comparison_info(numtxt));
    let ve = with_val(ve, ">", comparison_info(numtxt));
    let ve = with_val(ve, "<=", comparison_info(numtxt));
    let ve = with_val(ve, ">=", comparison_info(numtxt));
    let ve = with_val(ve, "=", comparison_info(TyVarKind::Equality));
    let ve = with_val(ve, "<>", comparison_info(TyVarKind::Equality));
    let ve = with_val(ve, "Match", info(None, c0(SYM_EXN), IdStatus::Exn(Exn { raw: 0 })));
    let ve = with_val(ve, "Bind", info(None, c0(SYM_EXN), IdStatus::Exn(Exn { raw: 1 })));
    Env { str_env: StrEnv::Nil, ty_env: Box::new(types()), val_env: Box::new(ve) }
}

/// The state and the context that checking starts from: the symbols, the
/// type constructors and the values of the minimal basis, no solved meta variable, no error.
pub fn minimal() -> (r: (St, Cx))
    ensures
        is_basis(r.0@.syms),
        r.0@.subst == Seq::<Option<crate::statics::types::SubstEntry>>::empty(),
        r.0.subst.wf(),
        r.0@.errors == Seq::<crate::statics::error::Error>::empty(),
        r.0@.next_meta == 0,
        r.1.env.str_env is Nil,
        closed_vals(*r.1.env.val_env),
        forall|n: Seq<char>| #[trigger] lookup_ty(*r.1.env.ty_env, n) == basis_ty(n),
        forall|n: Seq<char>| #[trigger] lookup_val(*r.1.env.val_env, n) == basis_val(n),
{
    (St::new(symbols()), Cx { env: values() })
}

} // verus!

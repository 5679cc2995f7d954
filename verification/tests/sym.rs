use millet::hir::{Name, Path};
use millet::list::List;
use millet::statics::basis::{minimal, symbols, values};
use millet::statics::disallow::{Disallow, Error, ErrorKind, Item};
use millet::statics::env::get_val;
use millet::statics::equality::{all, get_basic, get_basic_naive, get_basic_opt, NotEqTy, ENABLED};
use millet::statics::info::{Exn, IdStatus, TyInfo, SymValEnv, ValInfo};
use millet::statics::st::St;
use millet::statics::sym::{Equality, Overloads, Syms, SymsMarker};
use millet::statics::types::{
    BasicOverload, CompositeOverload, Overload, Sym, Ty, TyScheme, TyVarKind, SYM_INT, SYM_REAL,
};
use millet::statics::unify::head_match;
use millet::statics::util::{generalize, instantiate};

fn path(s: &str) -> Path {
    Path::one(Name::new(s))
}

fn ty_info() -> TyInfo {
    TyInfo { ty_scheme: TyScheme::zero(Ty::Unknown), val_env: SymValEnv::new(), def: None, disallow: None }
}

fn val_info(ty: Ty) -> ValInfo {
    ValInfo { ty_scheme: TyScheme::zero(ty), id_status: IdStatus::Val, def: None, disallow: None }
}

#[test]
fn syms_start_and_finish() {
    let mut syms = Syms::new();
    let marker = syms.mark();
    let started = syms.start(path("t"));
    let sym = started.sym();
    assert_eq!(sym.raw, 1);
    assert!(matches!(syms.get(sym).unwrap().equality, Equality::Sometimes));
    syms.finish(started, ty_info(), Equality::Never);
    let info = syms.get(sym).unwrap();
    assert!(matches!(info.equality, Equality::Never));
    assert_eq!(info.path.last().as_str(), "t");
    assert_eq!(syms.equality(sym), Equality::Never);
    assert!(syms.get(Sym::exn_ty()).is_none());
    assert_eq!(syms.equality(Sym::exn_ty()), Equality::Never);
    assert_eq!(syms.equality(Sym { raw: 77 }), Equality::Never);
    assert!(sym.generated_after(marker));
    assert!(!sym.generated_after(syms.mark()));
    assert!(!Sym::exn_ty().generated_after(marker));
    assert!(!Sym::exn_ty().generated_after(SymsMarker { len: 0 }));
    let second = syms.start(path("u"));
    assert_eq!(second.sym().raw, 2);
    syms.finish(second, ty_info(), Equality::Always);
    assert_eq!(syms.iter_syms().len(), 2);
}

#[test]
fn syms_exceptions() {
    let mut syms = Syms::new();
    let a = syms.insert_exn(path("A"), None);
    let b = syms.insert_exn(path("B"), Some(Ty::Unknown));
    assert_eq!((a, b), (Exn { raw: 0 }, Exn { raw: 1 }));
    assert_eq!(syms.get_exn(a).path.last().as_str(), "A");
    assert!(syms.get_exn(a).param.is_none());
    assert!(syms.get_exn(b).param.is_some());
}

#[test]
fn special_syms_have_fixed_numbers() {
    let raws = [
        Sym::exn_ty(),
        Sym::int_ty(),
        Sym::word_ty(),
        Sym::real_ty(),
        Sym::char_ty(),
        Sym::string_ty(),
        Sym::bool_ty(),
        Sym::list_ty(),
        Sym::ref_ty(),
        Sym::vector_ty(),
    ]
    .map(|s| s.raw);
    assert_eq!(raws, [0, 1, 2, 3, 4, 5, 6, 7, 8, 9]);
}

#[test]
fn overloads_of_the_basis() {
    let mut syms = symbols();
    assert_eq!(syms.iter_syms().len(), 9);
    let names: Vec<_> = syms.iter_syms().iter().map(|i| i.path.last().as_str().to_owned()).collect();
    assert_eq!(names, ["int", "word", "real", "char", "string", "bool", "list", "ref", "vector"]);
    assert_eq!(syms.overloads().index(BasicOverload::Int), &vec![Sym { raw: SYM_INT }]);
    assert_eq!(syms.overloads().index(BasicOverload::Real), &vec![Sym { raw: SYM_REAL }]);
    let num = Overload::Composite(CompositeOverload::Num);
    assert!(syms.overloads().contains(num, Sym::int_ty()));
    assert!(syms.overloads().contains(num, Sym::real_ty()));
    assert!(!syms.overloads().contains(num, Sym::string_ty()));
    assert!(!syms.overloads().contains(Overload::Basic(BasicOverload::Int), Sym::word_ty()));
    syms.overloads_mut().push(BasicOverload::Int, Sym { raw: 42 });
    assert!(syms.overloads().contains(Overload::Basic(BasicOverload::Int), Sym { raw: 42 }));
    assert!(Overloads::new().index(BasicOverload::Char).is_empty());
    assert_eq!(syms.equality(Sym::real_ty()), Equality::Never);
    assert_eq!(syms.equality(Sym::list_ty()), Equality::Sometimes);
    assert_eq!(syms.equality(Sym::int_ty()), Equality::Always);
}

#[test]
fn basis_values() {
    let env = values();
    let get = |n: &str| get_val(&env.val_env, &Name::new(n));
    assert!(matches!(get("true").unwrap().id_status, IdStatus::Con));
    assert!(matches!(get("::").unwrap().id_status, IdStatus::Con));
    assert!(matches!(get("+").unwrap().id_status, IdStatus::Val));
    assert!(matches!(get("Bind").unwrap().id_status, IdStatus::Exn(Exn { raw: 1 })));
    assert!(matches!(
        get("div").unwrap().ty_scheme.bound_vars,
        List::Cons(TyVarKind::Overloaded(Overload::Composite(CompositeOverload::WordInt)), _)
    ));
    assert!(matches!(get("=").unwrap().ty_scheme.bound_vars, List::Cons(TyVarKind::Equality, _)));
    assert!(get("nope").is_none());
    let (st, _) = minimal();
    assert_eq!(st.next_meta, 0);
    assert!(st.errors.is_empty());
}

#[test]
fn equality_of_basic_overloads() {
    assert!(ENABLED);
    let mut st = St::new(symbols());
    let real = Err(NotEqTy::Sym(Sym { raw: SYM_REAL }));
    for ov in [BasicOverload::Int, BasicOverload::Word, BasicOverload::String, BasicOverload::Char] {
        assert_eq!(get_basic_opt(ov), Ok(()));
        assert_eq!(get_basic(&mut st, ov), Ok(()));
        assert_eq!(get_basic_naive(&mut st, ov), Ok(()));
    }
    assert_eq!(get_basic_opt(BasicOverload::Real), real);
    assert_eq!(get_basic(&mut st, BasicOverload::Real), real);
    assert_eq!(get_basic_naive(&mut st, BasicOverload::Real), real);
    let results = List::Cons(
        Ok(()),
        Box::new(List::Cons(Err(NotEqTy::Fn), Box::new(List::Cons(real, Box::new(List::Nil))))),
    );
    assert_eq!(all(&results), Err(NotEqTy::Fn));
    assert_eq!(all(&List::Nil), Ok(()));
}

#[test]
fn head_match_of_a_flag() {
    assert!(head_match(true).is_ok());
    assert!(head_match(false).is_err());
}

#[test]
fn id_status_kinds() {
    let e = |raw| IdStatus::Exn(Exn { raw });
    assert!(IdStatus::Con.same_kind_as(IdStatus::Con));
    assert!(IdStatus::Val.same_kind_as(IdStatus::Val));
    assert!(e(1).same_kind_as(e(2)));
    assert!(!IdStatus::Con.same_kind_as(IdStatus::Val));
    assert!(!e(1).same_kind_as(IdStatus::Con));
    assert!(!IdStatus::Val.same_kind_as(e(1)));
}

#[test]
fn val_env_keeps_insertion_order() {
    let mut env = SymValEnv::new();
    assert!(env.insert(Name::new("b"), val_info(Ty::Unknown)));
    assert!(env.insert(Name::new("a"), val_info(Ty::Unknown)));
    assert!(!env.insert(Name::new("b"), val_info(Ty::BoundVar(3))));
    assert!(env.insert(Name::new("c"), val_info(Ty::Unknown)));
    let names: Vec<_> = env.iter().iter().map(|(n, _)| n.as_str().to_owned()).collect();
    assert_eq!(names, ["b", "a", "c"]);
    assert_eq!(env.len(), 3);
    assert!(matches!(env.get(&Name::new("b")).unwrap().ty_scheme.ty, Ty::BoundVar(3)));
    assert!(env.get(&Name::new("z")).is_none());
    assert_eq!(env.index_of(&Name::new("a")), Some(1));
    assert_eq!(env.index_of(&Name::new("z")), None);
    // a value can be changed in place; its name stays
    *env.iter_mut(1) = val_info(Ty::BoundVar(7));
    let names: Vec<_> = env.iter().iter().map(|(n, _)| n.as_str().to_owned()).collect();
    assert_eq!(names, ["b", "a", "c"]);
    assert!(matches!(env.get(&Name::new("a")).unwrap().ty_scheme.ty, Ty::BoundVar(7)));
    assert!(matches!(env.get(&Name::new("b")).unwrap().ty_scheme.ty, Ty::BoundVar(3)));
}

#[test]
fn disallow_words() {
    assert_eq!(Disallow::Directly.describe(), "directly");
    let e = Error::from(ErrorKind::Undefined(Item::Val, Name::new("x")));
    assert!(matches!(e.kind, ErrorKind::Undefined(Item::Val, n) if n.as_str() == "x"));
}

#[test]
fn generalize_and_instantiate() {
    let (mut st, cx) = minimal();
    let a = Ty::MetaVar(st.gen_meta_var());
    let b = Ty::MetaVar(st.gen_meta_var());
    st.subst.set_kind(millet::statics::types::MetaTyVar { id: 1 }, TyVarKind::Equality);
    let ty = Ty::Fn(Box::new(a.clone()), Box::new(b.clone()));
    // nothing of it is free in the environment
    let scheme = generalize(&st.subst, &cx.env, &ty);
    assert!(matches!(
        &scheme.bound_vars,
        List::Cons(TyVarKind::Regular, rest) if matches!(&**rest, List::Cons(TyVarKind::Equality, end) if end.is_empty())
    ));
    assert!(matches!(&scheme.ty, Ty::Fn(p, r) if matches!(**p, Ty::BoundVar(0)) && matches!(**r, Ty::BoundVar(1))));
    // the first variable is free in the environment: it is spared
    let mut env = millet::statics::env::Env::new();
    env.extend(millet::statics::env::Env {
        str_env: millet::statics::env::StrEnv::Nil,
        ty_env: Box::new(List::Nil),
        val_env: Box::new(List::Cons((Name::new("x"), val_info(a.clone())), Box::new(List::Nil))),
    });
    let scheme = generalize(&st.subst, &env, &ty);
    assert!(matches!(&scheme.bound_vars, List::Cons(TyVarKind::Equality, end) if end.is_empty()));
    assert!(matches!(&scheme.ty, Ty::Fn(p, r) if matches!(**p, Ty::MetaVar(m) if m.id == 0) && matches!(**r, Ty::BoundVar(0))));
    // an instance has fresh variables of the same kinds
    let inst = instantiate(&mut st, &scheme);
    assert!(matches!(&inst, Ty::Fn(p, r) if matches!(**p, Ty::MetaVar(m) if m.id == 0) && matches!(**r, Ty::MetaVar(m) if m.id == 2)));
    assert!(matches!(
        st.subst.get(millet::statics::types::MetaTyVar { id: 2 }),
        Some(millet::statics::types::SubstEntry::Kind(TyVarKind::Equality))
    ));
    assert_eq!(st.next_meta, 3);
}

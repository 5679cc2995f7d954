use millet::hir::{Int, Lab, Name, Path, SCon, TyVar};
use millet::list::List;
use millet::lower::{get_lab, get_path, get_scon, name, LabKind, SConKind};
use millet::text::{push_decimal, TextRange};
use num_bigint::BigInt;

fn list<T>(items: Vec<T>) -> List<T> {
    let mut out = List::Nil;
    for item in items.into_iter().rev() {
        out = List::Cons(item, Box::new(out));
    }
    out
}

fn text_of(i: &Int) -> String {
    let mut s = String::new();
    i.write(&mut s);
    s
}

#[test]
fn lab_tuple_counts_from_one() {
    assert!(Lab::tuple(0).same(&Lab::Num(1)));
    assert!(Lab::tuple(41).same(&Lab::Num(42)));
}

#[test]
fn lab_order() {
    let a = Lab::Name(Name::new("a"));
    let ab = Lab::Name(Name::new("ab"));
    let b = Lab::Name(Name::new("b"));
    let one = Lab::Num(1);
    let ten = Lab::Num(10);
    let two = Lab::Num(2);
    let order = [&a, &ab, &b, &one, &two, &ten];
    for (i, x) in order.iter().enumerate() {
        for (j, y) in order.iter().enumerate() {
            assert_eq!(x.less(y), i < j, "{:?} {:?}", x, y);
            assert_eq!(x.same(y), i == j);
        }
    }
    let mut s = String::new();
    ten.write(&mut s);
    ab.write(&mut s);
    assert_eq!(s, "10ab");
}

#[test]
fn name_order_is_by_code_point() {
    let names = ["A", "Z", "a", "ab", "b", "é", "日本"];
    for (i, x) in names.iter().enumerate() {
        for (j, y) in names.iter().enumerate() {
            assert_eq!(Name::new(x).less(&Name::new(y)), i < j, "{} {}", x, y);
            assert_eq!(Name::new(x) == Name::new(y), i == j);
        }
    }
    assert_eq!(Name::new("foo").as_str(), "foo");
    assert_eq!(Name::new("foo").clone().as_str(), "foo");
}

#[test]
fn ty_var_equality_mark() {
    assert!(TyVar::new("''a").is_equality());
    assert!(!TyVar::new("'a").is_equality());
    assert!(!TyVar::new("'").is_equality());
    assert!(!TyVar::new("é'").is_equality());
    assert_eq!(TyVar::new("'a").as_str(), "'a");
    assert_eq!(TyVar::new("'a").as_name().as_str(), "'a");
    assert_eq!(TyVar::new("'b").into_name().as_str(), "'b");
    assert!(TyVar::new("'a").same(&TyVar::new("'a")));
}

#[test]
fn path_functions() {
    let names = || vec![Name::new("A"), Name::new("B"), Name::new("c")];
    let p = Path::try_new(names()).unwrap();
    assert_eq!(p.last().as_str(), "c");
    let structures: Vec<&str> = match p.structures() {
        List::Cons(a, rest) => match &**rest {
            List::Cons(b, end) => {
                assert!(end.is_empty());
                vec![a.as_str(), b.as_str()]
            }
            _ => panic!(),
        },
        _ => panic!(),
    };
    assert_eq!(structures, vec!["A", "B"]);
    let all: Vec<String> = p.all_names().iter().map(|n| n.as_str().to_owned()).collect();
    assert_eq!(all, vec!["A", "B", "c"]);
    let mut s = String::new();
    p.write(&mut s);
    assert_eq!(s, "A.B.c");
    let mut s = String::new();
    p.clone().write(&mut s);
    assert_eq!(s, "A.B.c");
    assert!(Path::try_new(Vec::new()).is_none());
    let one = Path::one(Name::new("x"));
    assert!(one.structures().is_empty());
    assert_eq!(one.last().as_str(), "x");
    let q = Path::new(list(vec![Name::new("S")]), Name::new("t"));
    let mut s = String::new();
    q.write(&mut s);
    assert_eq!(s, "S.t");
}

#[test]
fn int_equality_and_text() {
    let big = |s: &str| Int::Big(s.parse::<BigInt>().unwrap());
    assert!(Int::Finite(5).same(&Int::Finite(5)));
    assert!(!Int::Finite(5).same(&Int::Finite(6)));
    assert!(Int::Finite(5).same(&big("5")));
    assert!(big("5").same(&Int::Finite(5)));
    assert!(!big("123456789012345678901234567890").same(&Int::Finite(5)));
    assert!(big("123456789012345678901234567890").same(&big("123456789012345678901234567890")));
    assert!(!big("123456789012345678901234567890").same(&big("123456789012345678901234567891")));
    assert_eq!(text_of(&Int::Finite(0)), "0");
    assert_eq!(text_of(&Int::Finite(-17)), "-17");
    assert_eq!(text_of(&Int::Finite(i32::MIN)), "-2147483648");
    assert_eq!(text_of(&Int::Finite(i32::MAX)), "2147483647");
    assert_eq!(text_of(&big("-123456789012345678901234567890")), "-123456789012345678901234567890");
    assert_eq!(text_of(&big("99").clone()), "99");
    let c = SCon::Int(big("77")).clone();
    assert!(c.same(&SCon::Int(Int::Finite(77))));
    assert!(SCon::String("a".to_owned()).same(&SCon::String("a".to_owned())));
    assert!(!SCon::String("a".to_owned()).same(&SCon::Char('a')));
    assert!(SCon::Word(3).same(&SCon::Word(3)));
    assert!(SCon::Real("1.5".to_owned()).same(&SCon::Real("1.5".to_owned())));
}

#[test]
fn decimal_text() {
    for (n, want) in [(0u64, "0"), (9, "9"), (10, "10"), (1205, "1205"), (u64::MAX, "18446744073709551615")] {
        let mut s = String::from("x");
        push_decimal(&mut s, n);
        assert_eq!(s, format!("x{}", want));
    }
}

#[test]
fn text_range_within() {
    assert!(TextRange::new(0, 0).is_within(0));
    assert!(TextRange::new(2, 5).is_within(5));
    assert!(!TextRange::new(2, 6).is_within(5));
    assert!(!TextRange::new(3, 2).is_within(5));
}

fn int_of(kind: SConKind, text: &str) -> Option<String> {
    match get_scon(kind, text) {
        Some(SCon::Int(i)) => Some(text_of(&i)),
        Some(c) => panic!("{:?}", c),
        None => None,
    }
}

#[test]
fn lower_integer_constants() {
    let int = |s: &str| int_of(SConKind::IntLit, s);
    assert_eq!(int("0").as_deref(), Some("0"));
    assert_eq!(int("123").as_deref(), Some("123"));
    assert_eq!(int("~123").as_deref(), Some("-123"));
    assert_eq!(int("0x1F").as_deref(), Some("31"));
    assert_eq!(int("~0xff").as_deref(), Some("-255"));
    assert_eq!(int("2147483647").as_deref(), Some("2147483647"));
    assert_eq!(int("2147483648").as_deref(), Some("2147483648"));
    assert_eq!(int("~2147483648").as_deref(), Some("-2147483648"));
    assert_eq!(int("~2147483649").as_deref(), Some("-2147483649"));
    assert_eq!(
        int("123456789012345678901234567890").as_deref(),
        Some("123456789012345678901234567890")
    );
    assert_eq!(
        int("~0xFFFFFFFFFFFFFFFFFF").as_deref(),
        Some("-4722366482869645213695")
    );
    assert!(matches!(get_scon(SConKind::IntLit, "2147483647"), Some(SCon::Int(Int::Finite(_)))));
    assert!(matches!(get_scon(SConKind::IntLit, "2147483648"), Some(SCon::Int(Int::Big(_)))));
    assert!(matches!(get_scon(SConKind::IntLit, "~2147483648"), Some(SCon::Int(Int::Finite(_)))));
    for bad in ["", "~", "0x", "~0x", "12a", "1_000", "-5", "+5", "0xG"] {
        assert_eq!(int(bad), None, "{}", bad);
    }
}

#[test]
fn lower_other_constants() {
    assert!(matches!(get_scon(SConKind::WordLit, "0w17"), Some(SCon::Word(17))));
    assert!(matches!(get_scon(SConKind::WordLit, "0wx1f"), Some(SCon::Word(31))));
    assert!(matches!(
        get_scon(SConKind::WordLit, "0w18446744073709551615"),
        Some(SCon::Word(u64::MAX))
    ));
    for bad in ["0w", "0wx", "17", "0w18446744073709551616", "0w1x"] {
        assert!(get_scon(SConKind::WordLit, bad).is_none(), "{}", bad);
    }
    assert!(matches!(get_scon(SConKind::CharLit, "#\"a\""), Some(SCon::Char('a'))));
    assert!(get_scon(SConKind::CharLit, "#\"ab\"").is_none());
    assert!(matches!(get_scon(SConKind::StringLit, "\"hi\""), Some(SCon::String(s)) if s == "hi"));
    assert!(matches!(get_scon(SConKind::StringLit, "\"\""), Some(SCon::String(s)) if s.is_empty()));
    assert!(get_scon(SConKind::StringLit, "\"").is_none());
    assert!(matches!(get_scon(SConKind::RealLit, "1.5e~3"), Some(SCon::Real(s)) if s == "1.5e~3"));
}

#[test]
fn lower_labels_names_and_paths() {
    assert!(get_lab(LabKind::Name, "foo").unwrap().same(&Lab::Name(Name::new("foo"))));
    assert!(get_lab(LabKind::Name, "").is_none());
    assert!(get_lab(LabKind::IntLit, "12").unwrap().same(&Lab::Num(12)));
    assert!(get_lab(LabKind::IntLit, "0").unwrap().same(&Lab::Num(0)));
    for bad in ["", "1a", "+1", "99999999999999999999999"] {
        assert!(get_lab(LabKind::IntLit, bad).is_none(), "{}", bad);
    }
    match name("x") {
        millet::hir::Pat::Con(path, None) => {
            assert!(path.structures().is_empty());
            assert_eq!(path.last().as_str(), "x");
        }
        p => panic!("{:?}", p),
    }
    let p = get_path(vec![Some(Name::new("A")), Some(Name::new("b"))]).unwrap();
    let mut s = String::new();
    p.write(&mut s);
    assert_eq!(s, "A.b");
    assert!(get_path(vec![Some(Name::new("A")), None]).is_none());
    assert!(get_path(Vec::new()).is_none());
}

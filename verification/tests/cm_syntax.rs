use millet::cm::lower::{get, PathKind};
use millet::cm::path_var::Env;
use millet::cm::types::{Export, Namespace, PathOrMinus, PathOrStdBasis};

/// Like `Export`, but without the range info, and thus able to use `==`.
#[derive(Debug, PartialEq, Eq)]
enum RawExport {
    Name(Namespace, String),
    Library(Option<String>),
    Source(Option<String>),
    Group(Option<String>),
    Union(Vec<RawExport>),
}

fn raw(e: Export) -> RawExport {
    match e {
        Export::Name(ns, n) => RawExport::Name(ns.val, n.val.as_str().to_owned()),
        Export::Library(p) => RawExport::Library(match p.val {
            PathOrStdBasis::Path(p) => Some(p),
            PathOrStdBasis::StdBasis => None,
        }),
        Export::Source(p) => RawExport::Source(match p.val {
            PathOrMinus::Path(p) => Some(p),
            PathOrMinus::Minus => None,
        }),
        Export::Group(p) => RawExport::Group(match p.val {
            PathOrMinus::Path(p) => Some(p),
            PathOrMinus::Minus => None,
        }),
        Export::Union(es) => RawExport::Union(es.into_iter().map(raw).collect()),
    }
}

fn check(s: &str, want_exports: &[RawExport], want_paths: &[(&str, PathKind)]) {
    let file = get(s, &Env::new()).unwrap();
    let want_paths: Vec<_> = want_paths.iter().map(|&(s, kind)| (s.to_owned(), kind)).collect();
    let got_exports: Vec<_> = file.exports.into_iter().map(raw).collect();
    let got_paths: Vec<_> =
        file.paths.into_iter().map(|path| (path.val.path, path.val.kind)).collect();
    assert_eq!(want_exports, got_exports);
    assert_eq!(want_paths, got_paths);
}

fn mk_name(ns: Namespace, name: &str) -> RawExport {
    RawExport::Name(ns, name.to_owned())
}

fn mk_library(name: &str) -> RawExport {
    RawExport::Library(Some(name.to_owned()))
}

#[test]
fn group() {
    check(
        r#"
Group is
  ; comment
  hi.sml
  (*
  uh.sml
  *)
  support.sml
"#,
        &[],
        &[("hi.sml", PathKind::Sml), ("support.sml", PathKind::Sml)],
    );
}

#[test]
fn library() {
    check(
        r#"
Library
  structure A
  functor B
  signature C
is
  a.sml
  b/c/d.sml
  e.fun
  seq.cm
  f.sig
  uh:sml
"#,
        &[
            mk_name(Namespace::Structure, "A"),
            mk_name(Namespace::Functor, "B"),
            mk_name(Namespace::Signature, "C"),
        ],
        &[
            ("a.sml", PathKind::Sml),
            ("b/c/d.sml", PathKind::Sml),
            ("e.fun", PathKind::Sml),
            ("seq.cm", PathKind::Cm),
            ("f.sig", PathKind::Sml),
            ("uh", PathKind::Sml),
        ],
    );
}

#[test]
fn library_export() {
    check(
        r#"
Library
  structure Foo
  library(quz/baz.cm)
  signature BAR
is
  Foo.sml
  Bar/sources.cm
  quz/baz.cm
"#,
        &[
            mk_name(Namespace::Structure, "Foo"),
            mk_library("quz/baz.cm"),
            mk_name(Namespace::Signature, "BAR"),
        ],
        &[
            ("Foo.sml", PathKind::Sml),
            ("Bar/sources.cm", PathKind::Cm),
            ("quz/baz.cm", PathKind::Cm),
        ],
    );
}

#[test]
fn unknown_class() {
    let e = get(r#"Group is foo.sml : succ-ml"#, &Env::new()).unwrap_err();
    assert!(e.message().contains("unsupported class: succ-ml"));
}

fn error_of(s: &str) -> (String, u32, u32) {
    let e = get(s, &Env::new()).unwrap_err();
    (e.message(), e.range.start, e.range.end)
}

#[test]
fn cm_errors() {
    assert_eq!(error_of(""), ("expected `Group` or `Library`".to_owned(), 0, 0));
    assert_eq!(error_of("hello is"), ("expected `Group` or `Library`".to_owned(), 0, 0));
    assert_eq!(error_of("Library is a.sml"), ("invalid empty export list".to_owned(), 11, 16));
    assert_eq!(error_of("Group a.sml"), ("expected an export".to_owned(), 6, 11));
    assert_eq!(error_of("Group structure is"), ("expected a string".to_owned(), 6, 15));
    assert_eq!(error_of("Group structure A"), ("expected `is`".to_owned(), 16, 17));
    assert_eq!(error_of("Group library a.cm) is"), ("expected `(`".to_owned(), 6, 13));
    assert_eq!(error_of("Group library(a.cm is"), ("expected `)`".to_owned(), 14, 18));
    assert_eq!(error_of("Group source() is"), ("expected a regular path or `-`".to_owned(), 12, 13));
    assert_eq!(error_of("Group group($/x.cm) is"), ("expected a regular path or `-`".to_owned(), 12, 18));
    assert_eq!(error_of("Group is a.sml : "), ("expected a string".to_owned(), 15, 16));
    assert_eq!(error_of("Group is a.txt"), ("couldn't determine the kind of file".to_owned(), 9, 14));
    assert_eq!(error_of("Group is $FOO/a.sml"), ("undefined path variable: FOO".to_owned(), 9, 19));
    assert_eq!(error_of("Group (* (* *) is"), ("unclosed block comment".to_owned(), 6, 8));
    assert_eq!(error_of("Group is é.sml : x"), ("unsupported class: x".to_owned(), 18, 19));
}

#[test]
fn cm_source_and_group_exports() {
    check(
        "Group source(-) group(sub/x.cm) GROUP(-) Source(a.sml) is a.sml (* (* nested *) *) b.sml",
        &[
            RawExport::Source(None),
            RawExport::Group(Some("sub/x.cm".to_owned())),
            RawExport::Group(None),
            RawExport::Source(Some("a.sml".to_owned())),
        ],
        &[("a.sml", PathKind::Sml), ("b.sml", PathKind::Sml)],
    );
}

#[test]
fn cm_path_variables() {
    let mut env = Env::new();
    env.insert("LIB".to_owned(), "/usr/lib".to_owned());
    env.insert("X".to_owned(), "ex".to_owned());
    env.insert("LIB".to_owned(), "/other".to_owned());
    let file = get(
        "Library library($/basis.cm) library($SMLNJ-LIB/Util/smlnj-lib.cm) structure S is
           $LIB/a.sml b/$X/c.cm $/basis.cm d.sml:cm $X/e.fun",
        &env,
    )
    .unwrap();
    let exports: Vec<_> = file.exports.into_iter().map(raw).collect();
    assert_eq!(
        exports,
        vec![
            RawExport::Library(None),
            RawExport::Library(None),
            RawExport::Name(Namespace::Structure, "S".to_owned()),
        ]
    );
    let paths: Vec<_> = file.paths.iter().map(|p| (p.val.path.as_str(), p.val.kind)).collect();
    assert_eq!(
        paths,
        vec![
            ("/usr/lib/a.sml", PathKind::Sml),
            ("b/ex/c.cm", PathKind::Cm),
            ("d.sml", PathKind::Cm),
            ("ex/e.fun", PathKind::Sml),
        ]
    );
    assert_eq!(millet::cm::path_var::get("a/$(X)y/$X", &env), Ok("a/exy/ex".to_owned()));
    assert_eq!(millet::cm::path_var::get("$(X", &env), Ok("ex".to_owned()));
    assert_eq!(millet::cm::path_var::get("$(NOPE)/x", &env), Err("NOPE".to_owned()));
    assert_eq!(millet::cm::path_var::get("$/x", &env), Err(String::new()));
    assert_eq!(millet::cm::path_var::get("plain", &env), Ok("plain".to_owned()));
}

#[test]
fn cm_ranges_are_in_bytes() {
    let file = get("Group is\n  é.sml b.sml", &Env::new()).unwrap();
    let ranges: Vec<_> = file.paths.iter().map(|p| (p.range.start, p.range.end)).collect();
    assert_eq!(ranges, vec![(11, 17), (18, 23)]);
}

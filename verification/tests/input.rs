use millet::analysis::PathId;
use millet::cm::lower::PathKind;
use millet::config::{ErrorConfig, PathVar, Root as ConfigRoot, Severity, Workspace, FILE_NAME};
use millet::input::{
    glob_pattern, join_paths, parse_code, ConfigFromFile, EnvEntryKind, Error, ErrorKind,
    FoundPath, GroupPathBuf, GroupPathKind, Root, Walk,
};
use millet::paths::{NotInRoot, Root as PathsRoot};

fn found(path: &str, is_file: bool) -> FoundPath {
    FoundPath { path: path.to_owned(), is_file }
}

fn config(workspace: Option<Workspace>) -> ConfigRoot {
    ConfigRoot { version: 1, workspace, diagnostics: None }
}

fn from_file(
    parsed: Result<ConfigRoot, String>,
    globbed: Result<Vec<Result<FoundPath, String>>, String>,
) -> Result<(ConfigFromFile, Vec<GroupPathBuf>), Error> {
    ConfigFromFile::new("/root", "/root/millet.toml".to_owned(), parsed, globbed)
}

fn ws(root: Option<&str>) -> Workspace {
    Workspace { root: root.map(|s| s.to_owned()), members: None, path_vars: None }
}

#[test]
fn config_file_name() {
    assert_eq!(FILE_NAME, "millet.toml");
}

#[test]
fn join_of_paths() {
    assert_eq!(join_paths("/a", "b"), "/a/b");
    assert_eq!(join_paths("/a/", "b"), "/a/b");
    assert_eq!(join_paths("/a", "/b"), "/b");
    assert_eq!(join_paths("", "b"), "b");
    assert_eq!(join_paths("/a", ""), "/a/");
}

#[test]
fn group_path_by_extension() {
    let kind = |p: &str, f: bool| GroupPathBuf::new(p.to_owned(), f).map(|g| g.kind);
    assert_eq!(kind("/a/sources.cm", true), Some(GroupPathKind::Cm));
    assert_eq!(kind("/a/sources.mlb", true), Some(GroupPathKind::Mlb));
    assert_eq!(kind("/a/sources.cm", false), None);
    assert_eq!(kind("/a/sources.sml", true), None);
    assert_eq!(kind("/a/cm", true), None);
    assert_eq!(kind("/a/.cm", true), None);
    assert_eq!(kind("/a.cm/b", true), None);
    assert_eq!(kind("x.y.cm", true), Some(GroupPathKind::Cm));
    assert_eq!(GroupPathBuf::new("/a/s.cm".to_owned(), true).unwrap().path, "/a/s.cm");
}

#[test]
fn diagnostic_codes() {
    assert_eq!(parse_code("4014"), Some(4014));
    assert_eq!(parse_code("0"), Some(0));
    assert_eq!(parse_code("65535"), Some(65535));
    assert_eq!(parse_code("65536"), None);
    assert_eq!(parse_code("99999999999999999999"), None);
    assert_eq!(parse_code(""), None);
    assert_eq!(parse_code("12a"), None);
    assert_eq!(parse_code("-1"), None);
}

#[test]
fn config_could_not_parse() {
    let e = from_file(Err("expected `=`".to_owned()), Ok(Vec::new())).unwrap_err();
    assert!(matches!(e.kind, ErrorKind::CouldNotParseConfig(m) if m == "expected `=`"));
    assert_eq!(e.path, "/root/millet.toml");
    assert!(e.source.path.is_none());
}

#[test]
fn config_invalid_version() {
    let parsed = ConfigRoot { version: 2, workspace: None, diagnostics: None };
    let e = from_file(Ok(parsed), Ok(Vec::new())).unwrap_err();
    assert!(matches!(e.kind, ErrorKind::InvalidConfigVersion(2)));
}

#[test]
fn config_members_exclude_root_and_path_vars() {
    let members = Some(vec!["a".to_owned()]);
    let with_root = Workspace { root: Some("x.cm".to_owned()), members: members.clone(), path_vars: None };
    let e = from_file(Ok(config(Some(with_root))), Ok(Vec::new())).unwrap_err();
    assert!(matches!(e.kind, ErrorKind::HasMembersButAlsoRootOrPathVars));
    let with_vars = Workspace { root: None, members: members.clone(), path_vars: Some(Vec::new()) };
    let e = from_file(Ok(config(Some(with_vars))), Ok(Vec::new())).unwrap_err();
    assert!(matches!(e.kind, ErrorKind::HasMembersButAlsoRootOrPathVars));
    let alone = Workspace { root: None, members, path_vars: None };
    assert!(from_file(Ok(config(Some(alone))), Ok(Vec::new())).is_ok());
}

#[test]
fn config_root_glob() {
    let parsed = || Ok(config(Some(ws(Some("src/*.cm")))));
    assert_eq!(glob_pattern("/root", &config(Some(ws(Some("src/*.cm"))))).as_deref(), Some("/root/src/*.cm"));
    assert_eq!(glob_pattern("/root", &config(Some(ws(None)))), None);
    assert_eq!(glob_pattern("/root", &config(None)), None);
    let (cff, groups) =
        from_file(parsed(), Ok(vec![Ok(found("src/a.cm", true)), Ok(found("/abs/b.mlb", true))]))
            .unwrap();
    assert_eq!(cff.path, "/root/millet.toml");
    let got: Vec<_> = groups.iter().map(|g| (g.kind, g.path.as_str())).collect();
    assert_eq!(got, vec![(GroupPathKind::Cm, "/root/src/a.cm"), (GroupPathKind::Mlb, "/abs/b.mlb")]);
    let e = from_file(parsed(), Err("bad glob".to_owned())).unwrap_err();
    assert!(matches!(e.kind, ErrorKind::GlobPattern(m) if m == "bad glob"));
    let e = from_file(parsed(), Ok(vec![Err("denied".to_owned())])).unwrap_err();
    assert!(matches!(e.kind, ErrorKind::Io(m) if m == "denied"));
    let e = from_file(parsed(), Ok(vec![Ok(found("src/a.cm", true)), Ok(found("src/b.sml", true))]))
        .unwrap_err();
    assert!(matches!(e.kind, ErrorKind::NotGroup));
    assert_eq!(e.path, "/root/src/b.sml");
    assert_eq!(e.source.path.as_deref(), Some("/root/millet.toml"));
    let e = from_file(parsed(), Ok(Vec::new())).unwrap_err();
    assert!(matches!(e.kind, ErrorKind::EmptyGlob(g) if g == "src/*.cm"));
}

#[test]
fn config_path_vars_and_severities() {
    let workspace = Workspace {
        root: None,
        members: None,
        path_vars: Some(vec![
            ("A".to_owned(), PathVar::Value("plain".to_owned())),
            ("B".to_owned(), PathVar::Path("lib".to_owned())),
            ("C".to_owned(), PathVar::WorkspacePath("w".to_owned())),
        ]),
    };
    let parsed = ConfigRoot {
        version: 1,
        workspace: Some(workspace),
        diagnostics: Some(vec![
            ("5001".to_owned(), ErrorConfig { severity: Some(Severity::Ignore) }),
            ("5002".to_owned(), ErrorConfig { severity: None }),
            ("5003".to_owned(), ErrorConfig { severity: Some(Severity::Warning) }),
            ("5004".to_owned(), ErrorConfig { severity: Some(Severity::Error) }),
        ]),
    };
    let (cff, groups) = from_file(Ok(parsed), Ok(Vec::new())).unwrap();
    assert!(groups.is_empty());
    let vars: Vec<_> =
        cff.config.path_vars.iter().map(|(n, e)| (n.as_str(), e.kind, e.suffix.as_str())).collect();
    assert_eq!(
        vars,
        vec![
            ("A", EnvEntryKind::Value, "plain"),
            ("B", EnvEntryKind::Value, "/root/lib"),
            ("C", EnvEntryKind::WorkspacePath, "w"),
        ]
    );
    assert_eq!(
        cff.config.severities,
        vec![(5001, None), (5003, Some(Severity::Warning)), (5004, Some(Severity::Error))]
    );
    let bad = ConfigRoot {
        version: 1,
        workspace: None,
        diagnostics: Some(vec![("five".to_owned(), ErrorConfig { severity: None })]),
    };
    let e = from_file(Ok(bad), Ok(Vec::new())).unwrap_err();
    assert!(matches!(e.kind, ErrorKind::InvalidErrorCode(c) if c == "five"));
}

#[test]
fn root_from_the_config_file() {
    let named = from_file(Ok(config(Some(ws(Some("a.cm"))))), Ok(vec![Ok(found("a.cm", true))])).unwrap();
    // the directory is not looked at
    let root = Root::new("/root", Some(named), vec![found("/root/b.cm", true)]).unwrap();
    let got: Vec<_> = root.groups.iter().map(|g| g.path.as_str()).collect();
    assert_eq!(got, vec!["/root/a.cm"]);
    assert_eq!(root.source.path.as_deref(), Some("/root/millet.toml"));
}

#[test]
fn root_from_the_directory() {
    let entries = || vec![found("/root/README", true), found("/root/dir.cm", false), found("/root/s.mlb", true)];
    let root = Root::new("/root", None, entries()).unwrap();
    let got: Vec<_> = root.groups.iter().map(|g| (g.kind, g.path.as_str())).collect();
    assert_eq!(got, vec![(GroupPathKind::Mlb, "/root/s.mlb")]);
    assert!(root.source.path.is_none());
    // a config file that names no root: the directory decides
    let unnamed = from_file(Ok(config(None)), Ok(Vec::new())).unwrap();
    assert!(Root::new("/root", Some(unnamed), entries()).is_ok());
}

#[test]
fn root_multiple_roots() {
    let entries = vec![found("/root/a.cm", true), found("/root/x", true), found("/root/b.cm", true)];
    let e = Root::new("/root", None, entries).unwrap_err();
    match e.kind {
        ErrorKind::MultipleRoots(a, b) => {
            assert_eq!(a, "/root/a.cm");
            assert_eq!(b, "/root/b.cm");
        }
        k => panic!("{:?}", k),
    }
    assert_eq!(e.path, "/root/b.cm");
    assert_eq!(e.source.path.as_deref(), Some("/root/a.cm"));
}

#[test]
fn root_no_root() {
    let e = Root::new("/root", None, vec![found("/root/a.sml", true)]).unwrap_err();
    assert!(matches!(e.kind, ErrorKind::NoRoot(false)));
    assert_eq!(e.path, "/root");
    let unnamed = from_file(Ok(config(None)), Ok(Vec::new())).unwrap();
    let e = Root::new("/root", Some(unnamed), Vec::new()).unwrap_err();
    assert!(matches!(e.kind, ErrorKind::NoRoot(true)));
}

#[test]
fn walk_from_group_to_group() {
    let id = |raw| PathId { raw };
    let mut walk = Walk::new(vec![id(1)]);
    assert_eq!(walk.next(), Some(id(1)));
    walk.add(id(1), &vec![(id(10), PathKind::Sml), (id(2), PathKind::Cm), (id(3), PathKind::Cm), (id(11), PathKind::Sml)]);
    // the last dependency first
    assert_eq!(walk.next(), Some(id(3)));
    walk.add(id(3), &vec![(id(2), PathKind::Cm), (id(1), PathKind::Cm)]);
    // group 1 is known: it is passed over
    assert_eq!(walk.next(), Some(id(2)));
    walk.add(id(2), &vec![(id(12), PathKind::Sml)]);
    // group 2 is known by now
    assert_eq!(walk.next(), None);
    let got: Vec<_> = walk
        .groups
        .iter()
        .map(|(g, group)| {
            (
                g.raw,
                group.source_files.iter().map(|p| p.raw).collect::<Vec<_>>(),
                group.dependencies.iter().map(|p| p.raw).collect::<Vec<_>>(),
            )
        })
        .collect();
    assert_eq!(
        got,
        vec![(1, vec![10, 11], vec![2, 3]), (3, vec![], vec![2, 1]), (2, vec![12], vec![])]
    );
}

#[test]
fn paths_store() {
    let mut root = PathsRoot::new("/root".to_owned());
    assert_eq!(root.as_path(), "/root");
    let a = root.get_id("/root/a.sml").unwrap();
    let b = root.get_id("/root/dir/b.sml").unwrap();
    assert_eq!((a.raw, b.raw), (0, 1));
    // the same path, the same id
    assert_eq!(root.get_id("/root/a.sml"), Ok(a));
    assert_eq!(root.get_id("/root/dir/b.sml"), Ok(b));
    assert_eq!(root.get_path(a), "/root/a.sml");
    assert_eq!(root.get_path(b), "/root/dir/b.sml");
    assert_eq!(root.get_id("/root"), Ok(PathId { raw: 2 }));
    // not under the root
    assert_eq!(root.get_id("/other/a.sml"), Err(NotInRoot {}));
    assert_eq!(root.get_id("/rootless"), Err(NotInRoot {}));
    assert_eq!(root.get_id("/roo"), Err(NotInRoot {}));
    assert_eq!(root.get_id("/root/c.sml"), Ok(PathId { raw: 3 }));
    let mut slash = PathsRoot::new("/".to_owned());
    assert_eq!(slash.get_id("/f0.sml"), Ok(PathId { raw: 0 }));
}

#[test]
fn walk_reports_a_cycle() {
    let id = |raw| PathId { raw };
    // group 1 depends on group 3, which depends on group 1
    let mut walk = Walk::new(vec![id(1)]);
    assert_eq!(walk.next(), Some(id(1)));
    walk.add(id(1), &vec![(id(3), PathKind::Cm)]);
    assert_eq!(walk.next(), Some(id(3)));
    walk.add(id(3), &vec![(id(1), PathKind::Cm)]);
    assert_eq!(walk.next(), None);
    assert!(walk.finish().is_err());
    // without a cycle the groups are handed out
    let mut walk = Walk::new(vec![id(1)]);
    assert_eq!(walk.next(), Some(id(1)));
    walk.add(id(1), &vec![(id(3), PathKind::Cm), (id(7), PathKind::Sml)]);
    assert_eq!(walk.next(), Some(id(3)));
    walk.add(id(3), &vec![]);
    assert_eq!(walk.next(), None);
    let groups = walk.finish().unwrap();
    let ids: Vec<u32> = groups.iter().map(|g| g.0.raw).collect();
    assert_eq!(ids, vec![1, 3]);
}

#[test]
fn glob_patterns() {
    assert!(millet::input::glob_match("sources.cm", "sources.cm"));
    assert!(!millet::input::glob_match("sources.cm", "sources.mlb"));
    assert!(millet::input::glob_match("*.cm", "sources.cm"));
    assert!(millet::input::glob_match("*", ""));
    assert!(millet::input::glob_match("s*s.c?", "sources.cm"));
    assert!(millet::input::glob_match("*.*", "a.b.c"));
    assert!(!millet::input::glob_match("*.cm", "sources.cmx"));
    assert!(!millet::input::glob_match("?", ""));
    assert!(!millet::input::glob_match("a?c", "ac"));
    assert!(millet::input::glob_match("a?c", "abc"));
    // wildcards stay within one name
    assert!(!millet::input::glob_match("*.cm", "dir/sources.cm"));
    assert!(!millet::input::glob_match("a?b", "a/b"));
    assert!(millet::input::glob_match("dir/*.cm", "dir/sources.cm"));
}

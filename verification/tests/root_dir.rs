use millet::analysis::input::{config_path, Config, FoundConfig, Root, RootGroupPath};
use millet::config::{PathVar, Root as ConfigRoot, Workspace};
use millet::input::{EnvEntryKind, ErrorKind, FoundPath, GroupPathKind};

fn entry(path: &str, is_file: bool) -> FoundPath {
    FoundPath { path: path.to_owned(), is_file }
}

fn parsed(root: Option<&str>, path_vars: Option<Vec<(String, PathVar)>>) -> ConfigRoot {
    ConfigRoot {
        version: 1,
        workspace: Some(Workspace { root: root.map(|s| s.to_owned()), members: None, path_vars }),
        diagnostics: None,
    }
}

fn found_config(parsed: Result<ConfigRoot, String>, root_is_file: bool) -> Option<FoundConfig> {
    Some(FoundConfig { path: "/w/millet.toml".to_owned(), parsed, root_is_file })
}

#[test]
fn root_from_a_directory() {
    let mut root = Root::from_path("/w".to_owned(), false, "/".to_owned());
    assert_eq!(root.as_paths().as_path(), "/w");
    assert_eq!(config_path(&root), "/w/millet.toml");
    let id = root.as_mut_paths().get_id("/w/a.sml").unwrap();
    assert_eq!(id.raw, 0);
    assert_eq!(root.as_paths().get_path(id), "/w/a.sml");
    let root = Root::from_canonical_dir("/x/y".to_owned());
    assert_eq!(root.as_paths().as_path(), "/x/y");
}

#[test]
fn root_from_a_group_file() {
    let mut root = Root::from_path("/w/sources.cm".to_owned(), true, "/w".to_owned());
    assert_eq!(root.as_paths().as_path(), "/w");
    // the group file is the root group, whatever the directory holds
    let entries = vec![entry("/w/other.cm", true), entry("/w/more.mlb", true)];
    let got = RootGroupPath::new(&mut root, None, entries).unwrap();
    assert_eq!(got.kind, GroupPathKind::Cm);
    assert_eq!(root.as_paths().get_path(got.path), "/w/sources.cm");
    assert!(got.path_vars.is_empty());
    // a file that is no group file is a root directory of its own
    let root = Root::from_path("/w/a.sml".to_owned(), true, "/w".to_owned());
    assert_eq!(root.as_paths().as_path(), "/w/a.sml");
    // a directory with the name of a group file is a directory
    let root = Root::from_path("/w/sources.cm".to_owned(), false, "/w".to_owned());
    assert_eq!(root.as_paths().as_path(), "/w/sources.cm");
}

#[test]
fn root_group_from_the_directory() {
    let mut root = Root::from_canonical_dir("/w".to_owned());
    let entries = vec![entry("/w/a.sml", true), entry("/w/b.mlb", true), entry("/w/c.cm", false)];
    let got = RootGroupPath::new(&mut root, None, entries).unwrap();
    assert_eq!(got.kind, GroupPathKind::Mlb);
    assert_eq!(root.as_paths().get_path(got.path), "/w/b.mlb");

    let mut root = Root::from_canonical_dir("/w".to_owned());
    let e = RootGroupPath::new(&mut root, None, vec![entry("/w/a.sml", true)]).unwrap_err();
    assert!(matches!(e.kind, ErrorKind::NoRoot(false)));
    assert_eq!(e.path, "/w");

    let mut root = Root::from_canonical_dir("/w".to_owned());
    let config = found_config(Ok(parsed(None, None)), false);
    let e = RootGroupPath::new(&mut root, config, vec![entry("/w/a.sml", true)]).unwrap_err();
    assert!(matches!(e.kind, ErrorKind::NoRoot(true)));

    let mut root = Root::from_canonical_dir("/w".to_owned());
    let entries = vec![entry("/w/a.cm", true), entry("/w/b.cm", true)];
    let e = RootGroupPath::new(&mut root, None, entries).unwrap_err();
    match e.kind {
        ErrorKind::MultipleRoots(a, b) => {
            assert_eq!(a, "/w/a.cm");
            assert_eq!(b, "/w/b.cm");
        }
        other => panic!("{other:?}"),
    }
    assert_eq!(e.source.path.as_deref(), Some("/w/a.cm"));
}

#[test]
fn root_group_from_the_config() {
    let mut root = Root::from_canonical_dir("/w".to_owned());
    let vars = vec![
        ("A".to_owned(), PathVar::Value("v".to_owned())),
        ("B".to_owned(), PathVar::Path("lib".to_owned())),
        ("C".to_owned(), PathVar::WorkspacePath("rel".to_owned())),
    ];
    let config = found_config(Ok(parsed(Some("src/main.cm"), Some(vars))), true);
    // the config wins over the directory
    let got = RootGroupPath::new(&mut root, config, vec![entry("/w/other.cm", true)]).unwrap();
    assert_eq!(got.kind, GroupPathKind::Cm);
    assert_eq!(root.as_paths().get_path(got.path), "/w/src/main.cm");
    let vars: Vec<(&str, EnvEntryKind, &str)> =
        got.path_vars.iter().map(|(n, e)| (n.as_str(), e.kind, e.suffix.as_str())).collect();
    assert_eq!(
        vars,
        vec![
            ("A", EnvEntryKind::Value, "v"),
            ("B", EnvEntryKind::Value, "/w/lib"),
            ("C", EnvEntryKind::WorkspacePath, "rel"),
        ]
    );
}

#[test]
fn root_group_of_the_config_must_be_a_group_file() {
    let mut root = Root::from_canonical_dir("/w".to_owned());
    let config = found_config(Ok(parsed(Some("src/main.sml"), None)), true);
    let e = RootGroupPath::new(&mut root, config, Vec::new()).unwrap_err();
    assert!(matches!(e.kind, ErrorKind::NotGroup));
    assert_eq!(e.path, "/w/src/main.sml");
    assert_eq!(e.source.path.as_deref(), Some("/w/millet.toml"));

    let mut root = Root::from_canonical_dir("/w".to_owned());
    let config = found_config(Ok(parsed(Some("src/main.cm"), None)), false);
    let e = RootGroupPath::new(&mut root, config, Vec::new()).unwrap_err();
    assert!(matches!(e.kind, ErrorKind::NotGroup));
}

#[test]
fn root_group_outside_the_root() {
    let mut root = Root::from_canonical_dir("/w".to_owned());
    let config = found_config(Ok(parsed(Some("/elsewhere/main.cm"), None)), true);
    let e = RootGroupPath::new(&mut root, config, Vec::new()).unwrap_err();
    assert!(matches!(e.kind, ErrorKind::NotInRoot));
    assert_eq!(e.path, "/elsewhere/main.cm");
    assert_eq!(e.source.path.as_deref(), Some("/w/millet.toml"));
}

#[test]
fn root_config_checks() {
    let root = Root::from_canonical_dir("/w".to_owned());
    let path = || "/w/millet.toml".to_owned();
    let e = Config::new(&root, path(), Err("bad toml".to_owned()), false).unwrap_err();
    assert!(matches!(e.kind, ErrorKind::CouldNotParseConfig(m) if m == "bad toml"));
    assert_eq!(e.path, "/w/millet.toml");
    let two = ConfigRoot { version: 2, workspace: None, diagnostics: None };
    let e = Config::new(&root, path(), Ok(two), false).unwrap_err();
    assert!(matches!(e.kind, ErrorKind::InvalidConfigVersion(2)));
    let none = ConfigRoot { version: 1, workspace: None, diagnostics: None };
    let c = Config::new(&root, path(), Ok(none), false).unwrap();
    assert!(c.root_group.is_none());
    assert!(c.path_vars.is_empty());
    assert_eq!(c.path, "/w/millet.toml");
    let both = ConfigRoot {
        version: 1,
        workspace: Some(Workspace {
            root: Some("a.cm".to_owned()),
            members: Some(vec!["m".to_owned()]),
            path_vars: None,
        }),
        diagnostics: None,
    };
    let e = Config::new(&root, path(), Ok(both), true).unwrap_err();
    assert!(matches!(e.kind, ErrorKind::HasMembersButAlsoRootOrPathVars));
    let c = Config::new(&root, path(), Ok(parsed(Some("a.mlb"), None)), true).unwrap();
    let g = c.root_group.unwrap();
    assert_eq!(g.kind, GroupPathKind::Mlb);
    assert_eq!(g.path, "/w/a.mlb");
    // a root that was given as a group file keeps it
    let root = Root::from_path("/w/sources.cm".to_owned(), true, "/w".to_owned());
    let c = Config::new(&root, path(), Ok(parsed(Some("a.sml"), None)), true).unwrap();
    assert!(c.root_group.is_none());
}

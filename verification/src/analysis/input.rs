//! The root of a workspace that is given as a directory or as a group
//! file, and the choice of its root group.
//!
//! The file system is the caller's: whether a path is a file, the directory
//! that holds it, what the config file parsed to and what the root
//! directory holds come in as plain values.

use crate::analysis::PathId;
use crate::config::FILE_NAME;
use crate::input::{
    dir_root, dir_root_spec, group_path, join, join_paths, path_vars, path_vars_spec, plain_error,
    var_keys, EnvEntry, Error, ErrorKey, ErrorKind, ErrorKindKey, ErrorSource, FoundPath,
    GroupPathBuf, GroupPathKind, VarKey,
};
use crate::paths::under;
use vstd::prelude::*;

verus! {

/// The root, in which every path is contained.
#[derive(Debug)]
pub struct Root {
    paths: crate::paths::Root,
    group_path: Option<GroupPathBuf>,
}

/// A group file, apart from how its path is stored.
pub type GroupKey = (GroupPathKind, Seq<char>);

impl Root {
    /// The store of the paths under the root.
    pub closed spec fn store(self) -> crate::paths::Root {
        self.paths
    }

    /// The root group file, when it is known.
    pub closed spec fn group(self) -> Option<GroupKey> {
        match self.group_path {
            Some(g) => Some((g.kind, g.path@)),
            None => None,
        }
    }

    /// Given a canonical path to either a group file or a directory, return
    /// the root for it: the directory, or the directory `parent` that holds
    /// the group file.
    pub fn from_path(path: String, is_file: bool, parent: String) -> (r: Root)
        ensures
            r.group() == group_path(path@, is_file),
            r.store().dir() == (if group_path(path@, is_file) is Some {
                parent@
            } else {
                path@
            }),
            r.store().paths() == Seq::<Seq<char>>::empty(),
            r.store().wf(),
    {
        let dir = path.clone();
        match GroupPathBuf::new(path, is_file) {
            None => Root { paths: crate::paths::Root::new(dir), group_path: None },
            Some(g) => Root { paths: crate::paths::Root::new(parent), group_path: Some(g) },
        }
    }

    /// Get this from a canonical root dir.
    pub fn from_canonical_dir(path: String) -> (r: Root)
        ensures
            r.group() is None,
            r.store().dir() == path@,
            r.store().paths() == Seq::<Seq<char>>::empty(),
            r.store().wf(),
    {
        Root { paths: crate::paths::Root::new(path), group_path: None }
    }

    /// Returns this as a paths root.
    pub fn as_paths(&self) -> (r: &crate::paths::Root)
        ensures
            *r == self.store(),
    {
        &self.paths
    }

    /// Returns this as a mutable paths root.
    pub fn as_mut_paths(&mut self) -> (r: &mut crate::paths::Root)
        ensures
            *r == old(self).store(),
            final(self).store() == *final(r),
            final(self).group() == old(self).group(),
    {
        &mut self.paths
    }
}

/// What the config file says of the root group and of the path variables.
#[derive(Debug)]
pub struct Config {
    pub path: String,
    pub path_vars: Vec<(String, EnvEntry)>,
    pub root_group: Option<GroupPathBuf>,
}

/// The check of a config file for a root in the directory `dir`. The file
/// must parse and have version 1. Members exclude a root and path
/// variables. When the root has no group file yet and the file names one,
/// that must be a group file: `root_is_file` says whether it is a file.
pub open spec fn config_spec(
    dir: Seq<char>,
    has_group: bool,
    config_path: Seq<char>,
    parsed: Result<crate::config::Root, String>,
    root_is_file: bool,
) -> Result<(Seq<VarKey>, Option<GroupKey>), ErrorKey> {
    let plain = |kind: ErrorKindKey| ErrorKey { range: None, source: None, path: config_path, kind };
    match parsed {
        Err(e) => Err(plain(ErrorKindKey::CouldNotParseConfig(e@))),
        Ok(parsed) => if parsed.version != 1 {
            Err(plain(ErrorKindKey::InvalidConfigVersion(parsed.version)))
        } else {
            match parsed.workspace {
                None => Ok((Seq::empty(), None)),
                Some(ws) => if ws.members is Some && (ws.root is Some || ws.path_vars is Some) {
                    Err(plain(ErrorKindKey::HasMembersButAlsoRootOrPathVars))
                } else {
                    let vars = match ws.path_vars {
                        None => Seq::empty(),
                        Some(vars) => path_vars_spec(dir, vars@, 0, Seq::empty()),
                    };
                    match ws.root {
                        None => Ok((vars, None)),
                        Some(p) => if has_group {
                            Ok((vars, None))
                        } else {
                            match group_path(join(dir, p@), root_is_file) {
                                Some(g) => Ok((vars, Some(g))),
                                None => Err(
                                    ErrorKey { range: None,
                                        source: Some(config_path),
                                        path: join(dir, p@),
                                        kind: ErrorKindKey::NotGroup,
                                    },
                                ),
                            }
                        },
                    }
                },
            }
        },
    }
}

impl Config {
    /// Checks a config file: `parsed` is what parsing its text gave, and
    /// `root_is_file` whether the root group that it names is a file.
    pub fn new(
        root: &Root,
        config_path: String,
        parsed: Result<crate::config::Root, String>,
        root_is_file: bool,
    ) -> (r: Result<Config, Error>)
        ensures
            match config_spec(
                root.store().dir(),
                root.group() is Some,
                config_path@,
                parsed,
                root_is_file,
            ) {
                Err(e) => r is Err && r->Err_0@ == e,
                Ok((vars, group)) => r is Ok && r->Ok_0.path@ == config_path@ && var_keys(
                    r->Ok_0.path_vars@,
                ) == vars && (match r->Ok_0.root_group {
                    Some(g) => Some((g.kind, g.path@)),
                    None => None,
                }) == group,
            },
    {
        let mut ret = Config { path: config_path, path_vars: Vec::new(), root_group: None };
        assert(var_keys(ret.path_vars@) =~= Seq::<VarKey>::empty());
        let parsed = match parsed {
            Err(e) => {
                return Err(plain_error(ret.path, ErrorKind::CouldNotParseConfig(e)));
            },
            Ok(p) => p,
        };
        if parsed.version != 1 {
            return Err(plain_error(ret.path, ErrorKind::InvalidConfigVersion(parsed.version)));
        }
        let ws = match parsed.workspace {
            None => {
                return Ok(ret);
            },
            Some(ws) => ws,
        };
        if ws.members.is_some() && (ws.root.is_some() || ws.path_vars.is_some()) {
            return Err(plain_error(ret.path, ErrorKind::HasMembersButAlsoRootOrPathVars));
        }
        let dir = root.paths.as_path();
        if let Some(vars) = &ws.path_vars {
            ret.path_vars = path_vars(dir, vars);
        }
        if let Some(p) = &ws.root {
            if root.group_path.is_none() {
                let path = join_paths(dir, p.as_str());
                match GroupPathBuf::new(path, root_is_file) {
                    Some(g) => {
                        ret.root_group = Some(g);
                    },
                    None => {
                        return Err(
                            Error {
                                source: ErrorSource { path: Some(ret.path), range: None },
                                path: join_paths(dir, p.as_str()),
                                kind: ErrorKind::NotGroup,
                            },
                        );
                    },
                }
            }
        }
        Ok(ret)
    }
}

/// The root group of a workspace: its id, its kind, and the path variables
/// of the config file.
#[derive(Debug)]
pub struct RootGroupPath {
    pub path: PathId,
    pub kind: GroupPathKind,
    pub path_vars: Vec<(String, EnvEntry)>,
}

/// A config file as the caller found it: its path, what parsing its text
/// gave, and whether the root group that it names is a file.
pub struct FoundConfig {
    pub path: String,
    pub parsed: Result<crate::config::Root, String>,
    pub root_is_file: bool,
}

/// The path of the config file of a root directory.
pub open spec fn config_path_spec(dir: Seq<char>) -> Seq<char> {
    join(dir, FILE_NAME@)
}

/// The choice of the root group: the group file that the config file
/// names, else the one that the root was given as, else the one group file
/// among the entries of the root directory; no group file at all is an
/// error, which says whether there was a config file. It gives the group, the path
/// variables, and the path of the config file if that named the group.
pub open spec fn pick_spec(
    group: Option<GroupKey>,
    dir: Seq<char>,
    config: Option<FoundConfig>,
    entries: Seq<FoundPath>,
) -> Result<(GroupKey, Seq<VarKey>, Option<Seq<char>>), ErrorKey> {
    let checked = match config {
        None => Ok((Seq::empty(), None)),
        Some(c) => config_spec(dir, group is Some, c.path@, c.parsed, c.root_is_file),
    };
    match checked {
        Err(e) => Err(e),
        Ok((vars, named)) => match named {
            Some(g) => Ok((g, vars, Some(config->0.path@))),
            None => match group {
                Some(g) => Ok((g, vars, None)),
                None => match dir_root_spec(entries, 0, None) {
                    Err(e) => Err(e),
                    Ok(Some(g)) => Ok((g, vars, None)),
                    Ok(None) => Err(
                        ErrorKey { range: None,
                            source: None,
                            path: dir,
                            kind: ErrorKindKey::NoRoot(config is Some),
                        },
                    ),
                },
            },
        },
    }
}

/// What choosing the root group does to a root, and what it gives.
///
/// Where the choice fails, so does the call, and the store stays as it
/// was. Where a group is chosen, the root remembers it; the group gets its
/// id in the store: the id that its path has, and then the store stays as
/// it was, or the next id, and then its path is the one path more in the
/// store. Where the path is not under the root directory or the ids have
/// run out, the call fails and the store stays as it was.
pub open spec fn picked(
    before: Root,
    after: Root,
    config: Option<FoundConfig>,
    entries: Seq<FoundPath>,
    r: Result<RootGroupPath, Error>,
) -> bool {
    let dir = before.store().dir();
    let old_paths = before.store().paths();
    let new_paths = after.store().paths();
    match pick_spec(before.group(), dir, config, entries) {
        Err(e) => r is Err && r->Err_0@ == e && after.store() == before.store(),
        Ok((g, vars, source)) => after.group() == Some(g) && (match r {
            Ok(found) => found.kind == g.0 && var_keys(found.path_vars@) == vars && under(dir, g.1)
                && found.path.raw < new_paths.len() && new_paths[found.path.raw as int] == g.1 && (
            match crate::paths::position(old_paths, g.1, 0) {
                Some(i) => found.path.raw == i && new_paths == old_paths,
                None => found.path.raw == old_paths.len() && new_paths == old_paths.push(g.1),
            }),
            Err(e) => e@ == (ErrorKey { range: None, source, path: g.1, kind: ErrorKindKey::NotInRoot })
                && new_paths == old_paths && (!under(dir, g.1) || old_paths.len() == u32::MAX),
        }),
    }
}

/// The path of the config file of a root.
pub fn config_path(root: &Root) -> (r: String)
    ensures
        r@ == config_path_spec(root.store().dir()),
{
    join_paths(root.paths.as_path(), FILE_NAME)
}

impl RootGroupPath {
    /// Chooses the root group of a root, and gives it an id. `config` is
    /// the config file of the root directory, if it has one that could be
    /// read; `entries` are the entries of the root directory. The root
    /// remembers the group file. A group file that is not under the root
    /// directory is an error.
    pub fn new(root: &mut Root, config: Option<FoundConfig>, entries: Vec<FoundPath>) -> (r: Result<
        RootGroupPath,
        Error,
    >)
        requires
            old(root).store().wf(),
        ensures
            final(root).store().wf(),
            final(root).store().dir() == old(root).store().dir(),
            picked(*old(root), *final(root), config, entries@, r),
    {
        let had_config = config.is_some();
        let mut source = ErrorSource { path: None, range: None };
        let mut vars: Vec<(String, EnvEntry)> = Vec::new();
        assert(var_keys(vars@) =~= Seq::<VarKey>::empty());
        if let Some(found) = config {
            let checked = Config::new(root, found.path, found.parsed, found.root_is_file)?;
            if let Some(g) = checked.root_group {
                root.group_path = Some(g);
                source.path = Some(checked.path);
            }
            vars = checked.path_vars;
        }
        if root.group_path.is_none() {
            match dir_root(entries)? {
                Some(g) => {
                    root.group_path = Some(g);
                },
                None => {
                    return Err(
                        Error {
                            source: ErrorSource { path: None, range: None },
                            path: String::from_str(root.paths.as_path()),
                            kind: ErrorKind::NoRoot(had_config),
                        },
                    );
                },
            }
        }
        let (kind, path) = match &root.group_path {
            Some(g) => (g.kind, g.path.clone()),
            None => {
                return Err(
                    Error {
                        source: ErrorSource { path: None, range: None },
                        path: String::from_str(root.paths.as_path()),
                        kind: ErrorKind::NoRoot(had_config),
                    },
                );
            },
        };
        match root.paths.get_id(path.as_str()) {
            Ok(id) => Ok(RootGroupPath { path: id, kind, path_vars: vars }),
            Err(_) => Err(Error { source, path, kind: ErrorKind::NotInRoot }),
        }
    }
}

} // verus!

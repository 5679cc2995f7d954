//! Getting the root groups of a workspace, and walking from group to group.
//!
//! The file system is the caller's: what it read, listed and matched comes
//! in as plain values.

use crate::analysis::{Group, PathId};
use crate::cm::lower::PathKind;
use crate::cm::path_var::{chars_of, string_of};
use crate::config::{ErrorConfig, PathVar, Severity};
use crate::text::{push_char, push_str, str_eq, TextRange};
use vstd::prelude::*;

verus! {

/// The kind of a group file.
#[derive(Debug, Clone, Copy, PartialEq, Eq, Structural, Hash)]
pub enum GroupPathKind {
    /// A group file of the Compilation Manager.
    Cm,
    /// An ML Basis file.
    Mlb,
}

/// A path to a group file.
#[derive(Debug)]
pub struct GroupPathBuf {
    pub kind: GroupPathKind,
    pub path: String,
}

/// A path that the file system listed or matched, and whether it is a file.
#[derive(Debug)]
pub struct FoundPath {
    pub path: String,
    pub is_file: bool,
}

/// Where an error came from.
#[derive(Debug)]
pub struct ErrorSource {
    pub path: Option<String>,
    pub range: Option<TextRange>,
}

/// What went wrong when getting input.
#[derive(Debug)]
pub enum ErrorKind {
    /// The config file does not parse; the message says why.
    CouldNotParseConfig(String),
    InvalidConfigVersion(u16),
    HasMembersButAlsoRootOrPathVars,
    /// The glob of the config file is no glob; the message says why.
    GlobPattern(String),
    /// A match of the glob could not be read; the message says why.
    Io(String),
    NotGroup,
    /// The glob matched nothing.
    EmptyGlob(String),
    /// A diagnostic code of the config file is no code.
    InvalidErrorCode(String),
    MultipleRoots(String, String),
    /// There is no root group; whether there was a config file.
    NoRoot(bool),
    /// The path is not under the root directory.
    NotInRoot,
}

/// An error when getting input.
#[derive(Debug)]
pub struct Error {
    pub source: ErrorSource,
    pub path: String,
    pub kind: ErrorKind,
}

/// What went wrong, apart from how text is stored.
pub enum ErrorKindKey {
    CouldNotParseConfig(Seq<char>),
    InvalidConfigVersion(u16),
    HasMembersButAlsoRootOrPathVars,
    GlobPattern(Seq<char>),
    Io(Seq<char>),
    NotGroup,
    EmptyGlob(Seq<char>),
    InvalidErrorCode(Seq<char>),
    MultipleRoots(Seq<char>, Seq<char>),
    NoRoot(bool),
    NotInRoot,
}

/// An error, apart from how text is stored: the path of its source, its own
/// path, and its kind.
pub struct ErrorKey {
    /// Where in the source the error is, if known.
    pub range: Option<TextRange>,
    pub source: Option<Seq<char>>,
    pub path: Seq<char>,
    pub kind: ErrorKindKey,
}

impl View for ErrorKind {
    type V = ErrorKindKey;

    open spec fn view(&self) -> ErrorKindKey {
        match self {
            ErrorKind::CouldNotParseConfig(s) => ErrorKindKey::CouldNotParseConfig(s@),
            ErrorKind::InvalidConfigVersion(v) => ErrorKindKey::InvalidConfigVersion(*v),
            ErrorKind::HasMembersButAlsoRootOrPathVars => ErrorKindKey::HasMembersButAlsoRootOrPathVars,
            ErrorKind::GlobPattern(s) => ErrorKindKey::GlobPattern(s@),
            ErrorKind::Io(s) => ErrorKindKey::Io(s@),
            ErrorKind::NotGroup => ErrorKindKey::NotGroup,
            ErrorKind::EmptyGlob(s) => ErrorKindKey::EmptyGlob(s@),
            ErrorKind::InvalidErrorCode(s) => ErrorKindKey::InvalidErrorCode(s@),
            ErrorKind::MultipleRoots(a, b) => ErrorKindKey::MultipleRoots(a@, b@),
            ErrorKind::NoRoot(b) => ErrorKindKey::NoRoot(*b),
            ErrorKind::NotInRoot => ErrorKindKey::NotInRoot,
        }
    }
}

impl View for Error {
    type V = ErrorKey;

    open spec fn view(&self) -> ErrorKey {
        ErrorKey {
            range: self.source.range,
            source: match self.source.path {
                Some(p) => Some(p@),
                None => None,
            },
            path: self.path@,
            kind: self.kind@,
        }
    }
}

/// How a path variable gets its value.
#[derive(Debug, Clone, Copy, PartialEq, Eq, Structural)]
pub enum EnvEntryKind {
    /// The suffix is the value.
    Value,
    /// The suffix is a path, taken from the directory of the group file
    /// that uses the variable.
    WorkspacePath,
}

/// The value of a path variable, yet to be resolved.
#[derive(Debug)]
pub struct EnvEntry {
    pub kind: EnvEntryKind,
    pub suffix: String,
}

/// What the config file says, checked.
#[derive(Debug)]
pub struct Config {
    /// The path variables, in the order of the file.
    pub path_vars: Vec<(String, EnvEntry)>,
    /// The severity of each diagnostic code that the file speaks of, in the
    /// order of the file; none for a code that is ignored.
    pub severities: Vec<(u16, Option<Severity>)>,
}

/// A path variable, apart from how text is stored: name, kind, suffix.
pub type VarKey = (Seq<char>, EnvEntryKind, Seq<char>);

/// What each path variable of a sequence says.
pub open spec fn var_keys(vars: Seq<(String, EnvEntry)>) -> Seq<VarKey> {
    Seq::new(vars.len(), |i: int| (vars[i].0@, vars[i].1.kind, vars[i].1.suffix@))
}

/// What each group path of a sequence says.
pub open spec fn group_keys(paths: Seq<GroupPathBuf>) -> Seq<(GroupPathKind, Seq<char>)> {
    Seq::new(paths.len(), |i: int| (paths[i].kind, paths[i].path@))
}

/// The second path, taken from the first: the second alone when it starts
/// at the root of the file system, else the first, a `/` unless one is
/// there, and the second.
pub open spec fn join(a: Seq<char>, b: Seq<char>) -> Seq<char> {
    if b.len() > 0 && b[0] == '/' {
        b
    } else if a.len() == 0 || a.last() == '/' {
        a + b
    } else {
        a + seq!['/'] + b
    }
}

/// Where the extension of the last name of a path starts: behind the last
/// `.` of `path[..upto]` that stands neither first in the name nor before a
/// `/`.
pub open spec fn extension_start(path: Seq<char>, upto: int) -> Option<int>
    decreases upto,
{
    if upto <= 0 || upto > path.len() || path[upto - 1] == '/' {
        None
    } else if path[upto - 1] == '.' {
        if upto - 1 == 0 || path[upto - 2] == '/' {
            None
        } else {
            Some(upto)
        }
    } else {
        extension_start(path, upto - 1)
    }
}

/// The kind of group file that a path is by its extension.
pub open spec fn group_kind(path: Seq<char>) -> Option<GroupPathKind> {
    match extension_start(path, path.len() as int) {
        None => None,
        Some(i) => {
            let ext = path.subrange(i, path.len() as int);
            if ext == "cm"@ {
                Some(GroupPathKind::Cm)
            } else if ext == "mlb"@ {
                Some(GroupPathKind::Mlb)
            } else {
                None
            }
        },
    }
}

/// The group path that a found path is: it must be a file with the
/// extension of a group file.
pub open spec fn group_path(path: Seq<char>, is_file: bool) -> Option<
    (GroupPathKind, Seq<char>),
> {
    if !is_file {
        None
    } else {
        match group_kind(path) {
            None => None,
            Some(kind) => Some((kind, path)),
        }
    }
}

/// The number that the decimal digits `s[..upto]` stand for.
pub open spec fn digits_value(s: Seq<char>, upto: int) -> nat
    decreases upto,
{
    if upto <= 0 {
        0
    } else {
        digits_value(s, upto - 1) * 10 + ((s[upto - 1] as u32) - 48) as nat
    }
}

/// Whether each of `s[..upto]` is a decimal digit.
pub open spec fn all_digits(s: Seq<char>, upto: int) -> bool
    decreases upto,
{
    if upto <= 0 {
        true
    } else {
        all_digits(s, upto - 1) && '0' <= s[upto - 1] && s[upto - 1] <= '9'
    }
}

/// The diagnostic code that a text stands for: decimal digits, at least
/// one, that stand for a number of 16 bits.
pub open spec fn code_of(s: Seq<char>) -> Option<u16> {
    if s.len() > 0 && all_digits(s, s.len() as int) && digits_value(s, s.len() as int) <= 0xffff {
        Some(digits_value(s, s.len() as int) as u16)
    } else {
        None
    }
}

fn find_extension(path: &Vec<char>) -> (r: Option<usize>)
    ensures
        match r {
            Some(i) => extension_start(path@, path.len() as int) == Some(i as int) && i
                <= path.len(),
            None => extension_start(path@, path.len() as int) is None,
        },
{
    let mut i: usize = path.len();
    while i > 0
        invariant
            i <= path.len(),
            extension_start(path@, path.len() as int) == extension_start(path@, i as int),
        decreases i,
    {
        if path[i - 1] == '/' {
            return None;
        }
        if path[i - 1] == '.' {
            if i - 1 == 0 || path[i - 2] == '/' {
                return None;
            }
            return Some(i);
        }
        i -= 1;
    }
    None
}

fn kind_of(path: &str) -> (r: Option<GroupPathKind>)
    ensures
        r == group_kind(path@),
{
    let chars = chars_of(path);
    match find_extension(&chars) {
        None => None,
        Some(i) => {
            let ext = string_of(&chars, i, chars.len());
            if str_eq(ext.as_str(), "cm") {
                Some(GroupPathKind::Cm)
            } else if str_eq(ext.as_str(), "mlb") {
                Some(GroupPathKind::Mlb)
            } else {
                None
            }
        },
    }
}

/// The second path, taken from the first.
pub fn join_paths(a: &str, b: &str) -> (r: String)
    ensures
        r@ == join(a@, b@),
{
    let ac = chars_of(a);
    let bc = chars_of(b);
    if bc.len() > 0 && bc[0] == '/' {
        return String::from_str(b);
    }
    let mut out = String::from_str(a);
    if !(ac.len() == 0 || ac[ac.len() - 1] == '/') {
        push_char(&mut out, '/');
    }
    push_str(&mut out, b);
    out
}

/// The diagnostic code that a text stands for.
pub fn parse_code(s: &str) -> (r: Option<u16>)
    ensures
        r == code_of(s@),
{
    let chars = chars_of(s);
    if chars.len() == 0 {
        return None;
    }
    let mut value: u32 = 0;
    let mut i: usize = 0;
    while i < chars.len()
        invariant
            i <= chars.len(),
            chars@ == s@,
            all_digits(s@, i as int),
            value == digits_value(s@, i as int),
            value <= 0xffff,
        decreases chars.len() - i,
    {
        let c = chars[i];
        if !('0' <= c && c <= '9') {
            proof {
                lemma_not_all_digits(s@, i as int, s@.len() as int);
            }
            return None;
        }
        let d = (c as u32) - 48;
        let next = value * 10 + d;
        if next > 0xffff {
            proof {
                lemma_digits_grow(s@, i + 1, s@.len() as int);
            }
            return None;
        }
        value = next;
        i += 1;
    }
    Some(value as u16)
}

proof fn lemma_not_all_digits(s: Seq<char>, bad: int, upto: int)
    requires
        0 <= bad < upto <= s.len(),
        !('0' <= s[bad] && s[bad] <= '9'),
    ensures
        !all_digits(s, upto),
    decreases upto,
{
    if bad < upto - 1 {
        lemma_not_all_digits(s, bad, upto - 1);
    }
}

proof fn lemma_digits_grow(s: Seq<char>, from: int, upto: int)
    requires
        0 <= from <= upto <= s.len(),
    ensures
        all_digits(s, upto) ==> digits_value(s, from) <= digits_value(s, upto),
    decreases upto - from,
{
    if from < upto {
        lemma_digits_grow(s, from, upto - 1);
    }
}

impl GroupPathBuf {
    /// The group path that a found path is, if it is one.
    pub fn new(path: String, is_file: bool) -> (r: Option<GroupPathBuf>)
        ensures
            match group_path(path@, is_file) {
                Some(k) => r is Some && (r->0.kind, r->0.path@) == k,
                None => r is None,
            },
    {
        if !is_file {
            return None;
        }
        match kind_of(path.as_str()) {
            None => None,
            Some(kind) => Some(GroupPathBuf { kind, path }),
        }
    }
}

/// Whether the name `name[j..]` matches the pattern `pat[i..]`: `*` stands
/// for any characters but `/`, `?` for one character but `/`, and every
/// other character for itself.
pub open spec fn glob_matches(pat: Seq<char>, i: int, name: Seq<char>, j: int) -> bool
    decreases pat.len() - i, name.len() - j,
{
    if i < 0 || j < 0 || i > pat.len() || j > name.len() {
        false
    } else if i == pat.len() {
        j == name.len()
    } else if pat[i] == '*' {
        glob_matches(pat, i + 1, name, j) || (j < name.len() && name[j] != '/' && glob_matches(
            pat,
            i,
            name,
            j + 1,
        ))
    } else if j == name.len() {
        false
    } else if pat[i] == '?' {
        name[j] != '/' && glob_matches(pat, i + 1, name, j + 1)
    } else {
        pat[i] == name[j] && glob_matches(pat, i + 1, name, j + 1)
    }
}

fn glob_from(pat: &Vec<char>, i: usize, name: &Vec<char>, j: usize) -> (r: bool)
    requires
        i <= pat.len(),
        j <= name.len(),
    ensures
        r == glob_matches(pat@, i as int, name@, j as int),
    decreases pat.len() - i, name.len() - j,
{
    if i == pat.len() {
        j == name.len()
    } else if pat[i] == '*' {
        glob_from(pat, i + 1, name, j) || (j < name.len() && name[j] != '/' && glob_from(
            pat,
            i,
            name,
            j + 1,
        ))
    } else if j == name.len() {
        false
    } else if pat[i] == '?' {
        name[j] != '/' && glob_from(pat, i + 1, name, j + 1)
    } else {
        pat[i] == name[j] && glob_from(pat, i + 1, name, j + 1)
    }
}

/// Whether a name matches a pattern with `*` and `?`.
pub fn glob_match(pat: &str, name: &str) -> (r: bool)
    ensures
        r == glob_matches(pat@, 0, name@, 0),
{
    let p = chars_of(pat);
    let n = chars_of(name);
    glob_from(&p, 0, &n, 0)
}

/// What the config file asks to match: the root glob, taken from the root
/// directory, when the file has the right version and names a root.
pub open spec fn glob_spec(root: Seq<char>, parsed: crate::config::Root) -> Option<Seq<char>> {
    if parsed.version != 1 || parsed.workspace is None || parsed.workspace->0.root is None {
        None
    } else {
        Some(join(root, parsed.workspace->0.root->0@))
    }
}

/// What the config file asks to match.
pub fn glob_pattern(root: &str, parsed: &crate::config::Root) -> (r: Option<String>)
    ensures
        match glob_spec(root@, *parsed) {
            Some(p) => r is Some && r->0@ == p,
            None => r is None,
        },
{
    if parsed.version != 1 {
        return None;
    }
    match &parsed.workspace {
        None => None,
        Some(ws) => match &ws.root {
            None => None,
            Some(glob) => Some(join_paths(root, glob.as_str())),
        },
    }
}

/// The group paths of the matches `found[from..]` of the root glob, behind
/// `acc`: each match is taken from the root directory and must be a group
/// file.
pub open spec fn matches_spec(
    root: Seq<char>,
    config_path: Seq<char>,
    found: Seq<Result<FoundPath, String>>,
    from: int,
    acc: Seq<(GroupPathKind, Seq<char>)>,
) -> Result<Seq<(GroupPathKind, Seq<char>)>, ErrorKey>
    decreases found.len() - from,
{
    if from < 0 || from >= found.len() {
        Ok(acc)
    } else {
        match found[from] {
            Err(e) => Err(ErrorKey { range: None, source: None, path: config_path, kind: ErrorKindKey::Io(e@) }),
            Ok(f) => {
                let path = join(root, f.path@);
                match group_path(path, f.is_file) {
                    None => Err(
                        ErrorKey { range: None, source: Some(config_path), path, kind: ErrorKindKey::NotGroup },
                    ),
                    Some(g) => matches_spec(root, config_path, found, from + 1, acc.push(g)),
                }
            },
        }
    }
}

/// The path variables `vars[from..]` of the config file, behind `acc`: a
/// path is taken from the root directory and becomes a value.
pub open spec fn path_vars_spec(
    root: Seq<char>,
    vars: Seq<(String, PathVar)>,
    from: int,
    acc: Seq<VarKey>,
) -> Seq<VarKey>
    decreases vars.len() - from,
{
    if from < 0 || from >= vars.len() {
        acc
    } else {
        let entry = match vars[from].1 {
            PathVar::Value(v) => (vars[from].0@, EnvEntryKind::Value, v@),
            PathVar::Path(p) => (vars[from].0@, EnvEntryKind::Value, join(root, p@)),
            PathVar::WorkspacePath(p) => (vars[from].0@, EnvEntryKind::WorkspacePath, p@),
        };
        path_vars_spec(root, vars, from + 1, acc.push(entry))
    }
}

/// The severities of the diagnostics `ds[from..]` of the config file,
/// behind `acc`: a code that is none is an error, a diagnostic without a
/// severity is left out, and one to ignore has no severity.
pub open spec fn severities_spec(
    config_path: Seq<char>,
    ds: Seq<(String, ErrorConfig)>,
    from: int,
    acc: Seq<(u16, Option<Severity>)>,
) -> Result<Seq<(u16, Option<Severity>)>, ErrorKey>
    decreases ds.len() - from,
{
    if from < 0 || from >= ds.len() {
        Ok(acc)
    } else {
        match code_of(ds[from].0@) {
            None => Err(
                ErrorKey { range: None,
                    source: None,
                    path: config_path,
                    kind: ErrorKindKey::InvalidErrorCode(ds[from].0@),
                },
            ),
            Some(code) => severities_spec(
                config_path,
                ds,
                from + 1,
                match ds[from].1.severity {
                    None => acc,
                    Some(Severity::Ignore) => acc.push((code, None)),
                    Some(s) => acc.push((code, Some(s))),
                },
            ),
        }
    }
}

/// What a checked config file says, apart from how text is stored: the
/// root groups that it names, its path variables and its severities.
pub struct FromFileKey {
    pub groups: Seq<(GroupPathKind, Seq<char>)>,
    pub path_vars: Seq<VarKey>,
    pub severities: Seq<(u16, Option<Severity>)>,
}

/// The check of a config file. The file must parse and have version 1.
/// Members exclude a root and path variables. Every match of the root glob
/// must be a group file, and there must be a match. Every diagnostic code
/// must be a code.
pub open spec fn from_file_spec(
    root: Seq<char>,
    config_path: Seq<char>,
    parsed: Result<crate::config::Root, String>,
    globbed: Result<Vec<Result<FoundPath, String>>, String>,
) -> Result<FromFileKey, ErrorKey> {
    let plain = |kind: ErrorKindKey| ErrorKey { range: None, source: None, path: config_path, kind };
    match parsed {
        Err(e) => Err(plain(ErrorKindKey::CouldNotParseConfig(e@))),
        Ok(parsed) => if parsed.version != 1 {
            Err(plain(ErrorKindKey::InvalidConfigVersion(parsed.version)))
        } else {
            let ws: Result<(Seq<(GroupPathKind, Seq<char>)>, Seq<VarKey>), ErrorKey> =
                match parsed.workspace {
                None => Ok((Seq::empty(), Seq::empty())),
                Some(ws) => if ws.members is Some && (ws.root is Some || ws.path_vars is Some) {
                    Err(plain(ErrorKindKey::HasMembersButAlsoRootOrPathVars))
                } else {
                    let groups: Result<Seq<(GroupPathKind, Seq<char>)>, ErrorKey> = match ws.root {
                        None => Ok(Seq::empty()),
                        Some(glob) => match globbed {
                            Err(e) => Err(plain(ErrorKindKey::GlobPattern(e@))),
                            Ok(found) => match matches_spec(
                                root,
                                config_path,
                                found@,
                                0,
                                Seq::empty(),
                            ) {
                                Err(e) => Err(e),
                                Ok(gs) => if gs.len() == 0 {
                                    Err(plain(ErrorKindKey::EmptyGlob(glob@)))
                                } else {
                                    Ok(gs)
                                },
                            },
                        },
                    };
                    match groups {
                        Err(e) => Err(e),
                        Ok(gs) => Ok(
                            (
                                gs,
                                match ws.path_vars {
                                    None => Seq::empty(),
                                    Some(vars) => path_vars_spec(root, vars@, 0, Seq::empty()),
                                },
                            ),
                        ),
                    }
                },
            };
            match ws {
                Err(e) => Err(e),
                Ok((groups, path_vars)) => match (match parsed.diagnostics {
                    None => Ok(Seq::empty()),
                    Some(ds) => severities_spec(config_path, ds@, 0, Seq::empty()),
                }) {
                    Err(e) => Err(e),
                    Ok(severities) => Ok(FromFileKey { groups, path_vars, severities }),
                },
            }
        },
    }
}

/// A checked config file.
#[derive(Debug)]
pub struct ConfigFromFile {
    pub path: String,
    pub config: Config,
}

pub(crate) fn plain_error(config_path: String, kind: ErrorKind) -> (r: Error)
    ensures
        r@ == (ErrorKey { range: None, source: None, path: config_path@, kind: kind@ }),
{
    Error { source: ErrorSource { path: None, range: None }, path: config_path, kind }
}

fn matches(root: &str, config_path: &String, found: Vec<Result<FoundPath, String>>) -> (r: Result<
    Vec<GroupPathBuf>,
    Error,
>)
    ensures
        match matches_spec(root@, config_path@, found@, 0, Seq::empty()) {
            Ok(gs) => r is Ok && group_keys(r->Ok_0@) == gs,
            Err(e) => r is Err && r->Err_0@ == e,
        },
{
    let mut out: Vec<GroupPathBuf> = Vec::new();
    assert(group_keys(out@) =~= Seq::<(GroupPathKind, Seq<char>)>::empty());
    let mut i: usize = 0;
    while i < found.len()
        invariant
            i <= found.len(),
            matches_spec(root@, config_path@, found@, 0, Seq::empty()) == matches_spec(
                root@,
                config_path@,
                found@,
                i as int,
                group_keys(out@),
            ),
        decreases found.len() - i,
    {
        match &found[i] {
            Err(e) => {
                return Err(plain_error(config_path.clone(), ErrorKind::Io(e.clone())));
            },
            Ok(f) => {
                let path = join_paths(root, f.path.as_str());
                let ghost p = path@;
                match GroupPathBuf::new(path, f.is_file) {
                    None => {
                        return Err(
                            Error {
                                source: ErrorSource {
                                    path: Some(config_path.clone()),
                                    range: None,
                                },
                                path: join_paths(root, f.path.as_str()),
                                kind: ErrorKind::NotGroup,
                            },
                        );
                    },
                    Some(g) => {
                        let ghost before = group_keys(out@);
                        out.push(g);
                        assert(group_keys(out@) =~= before.push((g.kind, g.path@)));
                    },
                }
            },
        }
        i += 1;
    }
    Ok(out)
}

pub(crate) fn path_vars(root: &str, vars: &Vec<(String, PathVar)>) -> (r: Vec<(String, EnvEntry)>)
    ensures
        var_keys(r@) == path_vars_spec(root@, vars@, 0, Seq::empty()),
{
    let mut out: Vec<(String, EnvEntry)> = Vec::new();
    assert(var_keys(out@) =~= Seq::<VarKey>::empty());
    let mut i: usize = 0;
    while i < vars.len()
        invariant
            i <= vars.len(),
            path_vars_spec(root@, vars@, 0, Seq::empty()) == path_vars_spec(
                root@,
                vars@,
                i as int,
                var_keys(out@),
            ),
        decreases vars.len() - i,
    {
        let (kind, suffix) = match &vars[i].1 {
            PathVar::Value(v) => (EnvEntryKind::Value, v.clone()),
            PathVar::Path(p) => (EnvEntryKind::Value, join_paths(root, p.as_str())),
            PathVar::WorkspacePath(p) => (EnvEntryKind::WorkspacePath, p.clone()),
        };
        let ghost before = var_keys(out@);
        let name = vars[i].0.clone();
        out.push((name, EnvEntry { kind, suffix }));
        assert(var_keys(out@) =~= before.push((vars@[i as int].0@, kind, suffix@)));
        i += 1;
    }
    out
}

fn severities(config_path: &String, ds: &Vec<(String, ErrorConfig)>) -> (r: Result<
    Vec<(u16, Option<Severity>)>,
    Error,
>)
    ensures
        match severities_spec(config_path@, ds@, 0, Seq::empty()) {
            Ok(s) => r is Ok && r->Ok_0@ == s,
            Err(e) => r is Err && r->Err_0@ == e,
        },
{
    let mut out: Vec<(u16, Option<Severity>)> = Vec::new();
    let mut i: usize = 0;
    while i < ds.len()
        invariant
            i <= ds.len(),
            severities_spec(config_path@, ds@, 0, Seq::empty()) == severities_spec(
                config_path@,
                ds@,
                i as int,
                out@,
            ),
        decreases ds.len() - i,
    {
        match parse_code(ds[i].0.as_str()) {
            None => {
                return Err(
                    plain_error(config_path.clone(), ErrorKind::InvalidErrorCode(ds[i].0.clone())),
                );
            },
            Some(code) => match ds[i].1.severity {
                None => {},
                Some(Severity::Ignore) => out.push((code, None)),
                Some(s) => out.push((code, Some(s))),
            },
        }
        i += 1;
    }
    Ok(out)
}

impl ConfigFromFile {
    /// Checks a config file: `parsed` is what parsing its text gave, and
    /// `globbed` what matching `glob_pattern` gave. It hands back the
    /// checked config with the root groups that the file names.
    pub fn new(
        root: &str,
        config_path: String,
        parsed: Result<crate::config::Root, String>,
        globbed: Result<Vec<Result<FoundPath, String>>, String>,
    ) -> (r: Result<(ConfigFromFile, Vec<GroupPathBuf>), Error>)
        ensures
            match from_file_spec(root@, config_path@, parsed, globbed) {
                Err(e) => r is Err && r->Err_0@ == e,
                Ok(k) => r is Ok && r->Ok_0.0.path@ == config_path@ && group_keys(r->Ok_0.1@)
                    == k.groups && var_keys(r->Ok_0.0.config.path_vars@) == k.path_vars
                    && r->Ok_0.0.config.severities@ == k.severities,
            },
    {
        let parsed = match parsed {
            Err(e) => {
                return Err(plain_error(config_path, ErrorKind::CouldNotParseConfig(e)));
            },
            Ok(p) => p,
        };
        if parsed.version != 1 {
            return Err(
                plain_error(config_path, ErrorKind::InvalidConfigVersion(parsed.version)),
            );
        }
        let mut groups: Vec<GroupPathBuf> = Vec::new();
        let mut vars: Vec<(String, EnvEntry)> = Vec::new();
        assert(group_keys(groups@) =~= Seq::<(GroupPathKind, Seq<char>)>::empty());
        assert(var_keys(vars@) =~= Seq::<VarKey>::empty());
        match &parsed.workspace {
            None => {},
            Some(ws) => {
                if ws.members.is_some() && (ws.root.is_some() || ws.path_vars.is_some()) {
                    return Err(
                        plain_error(config_path, ErrorKind::HasMembersButAlsoRootOrPathVars),
                    );
                }
                match &ws.root {
                    None => {},
                    Some(glob) => {
                        let found = match globbed {
                            Err(e) => {
                                return Err(plain_error(config_path, ErrorKind::GlobPattern(e)));
                            },
                            Ok(found) => found,
                        };
                        groups = match matches(root, &config_path, found) {
                            Err(e) => {
                                return Err(e);
                            },
                            Ok(gs) => gs,
                        };
                        if groups.len() == 0 {
                            return Err(
                                plain_error(config_path, ErrorKind::EmptyGlob(glob.clone())),
                            );
                        }
                    },
                }
                match &ws.path_vars {
                    None => {},
                    Some(pv) => {
                        vars = path_vars(root, pv);
                    },
                }
            },
        }
        let sevs = match &parsed.diagnostics {
            None => Vec::new(),
            Some(ds) => match severities(&config_path, ds) {
                Err(e) => {
                    return Err(e);
                },
                Ok(s) => s,
            },
        };
        Ok(
            (
                ConfigFromFile {
                    path: config_path,
                    config: Config { path_vars: vars, severities: sevs },
                },
                groups,
            ),
        )
    }
}

/// The root groups of a workspace and its config.
#[derive(Debug)]
pub struct Root {
    /// The root groups, which the caller has yet to canonicalize and to
    /// give ids.
    pub groups: Vec<GroupPathBuf>,
    /// The config file, when it named the root groups: the source of
    /// errors about them.
    pub source: ErrorSource,
    pub config: Config,
}

/// The one group file among the entries `entries[from..]` of the root
/// directory, if `first` is none; two group files are an error.
pub open spec fn dir_root_spec(
    entries: Seq<FoundPath>,
    from: int,
    first: Option<(GroupPathKind, Seq<char>)>,
) -> Result<Option<(GroupPathKind, Seq<char>)>, ErrorKey>
    decreases entries.len() - from,
{
    if from < 0 || from >= entries.len() {
        Ok(first)
    } else {
        match group_path(entries[from].path@, entries[from].is_file) {
            None => dir_root_spec(entries, from + 1, first),
            Some(g) => match first {
                Some(f) => Err(
                    ErrorKey { range: None,
                        source: Some(f.1),
                        path: entries[from].path@,
                        kind: ErrorKindKey::MultipleRoots(f.1, entries[from].path@),
                    },
                ),
                None => dir_root_spec(entries, from + 1, Some(g)),
            },
        }
    }
}

/// The root groups of a workspace: those that the config file names, or
/// else the one group file in the root directory. It gives the groups and
/// the path of the config file if that named them.
pub open spec fn root_spec(
    root: Seq<char>,
    from_file: Option<(Seq<char>, Seq<(GroupPathKind, Seq<char>)>)>,
    entries: Seq<FoundPath>,
) -> Result<(Seq<(GroupPathKind, Seq<char>)>, Option<Seq<char>>), ErrorKey> {
    let named = match from_file {
        Some(f) => f.1,
        None => Seq::empty(),
    };
    let config_path = match from_file {
        Some(f) => Some(f.0),
        None => None,
    };
    if named.len() > 0 {
        Ok((named, config_path))
    } else {
        match dir_root_spec(entries, 0, None) {
            Err(e) => Err(e),
            Ok(Some(g)) => Ok((seq![g], None)),
            Ok(None) => Err(
                ErrorKey { range: None,
                    source: None,
                    path: root,
                    kind: ErrorKindKey::NoRoot(from_file is Some),
                },
            ),
        }
    }
}

/// The one group file among the entries of a directory, if there is one;
/// two group files are an error.
#[verifier::loop_isolation(false)]
pub fn dir_root(entries: Vec<FoundPath>) -> (r: Result<Option<GroupPathBuf>, Error>)
    ensures
        match dir_root_spec(entries@, 0, None) {
            Err(e) => r is Err && r->Err_0@ == e,
            Ok(Some(g)) => r is Ok && r->Ok_0 is Some && (r->Ok_0->0.kind, r->Ok_0->0.path@) == g,
            Ok(None) => r is Ok && r->Ok_0 is None,
        },
{
    let mut first: Option<GroupPathBuf> = None;
    let mut entries = entries;
    let ghost all = entries@;
    let mut rest: Vec<FoundPath> = Vec::new();
    while entries.len() > 0
        invariant
            all.len() == entries.len() + rest.len(),
            forall|j: int| 0 <= j < entries.len() ==> entries@[j] == all[j],
            forall|j: int| 0 <= j < rest.len() ==> rest@[j] == all[all.len() - 1 - j],
        decreases entries.len(),
    {
        let e = entries.pop().unwrap();
        rest.push(e);
    }
    let mut i: usize = 0;
    while rest.len() > 0
        invariant
            i + rest.len() == all.len(),
            all.len() <= usize::MAX,
            forall|j: int| 0 <= j < rest.len() ==> rest@[j] == all[all.len() - 1 - j],
            dir_root_spec(all, 0, None) == dir_root_spec(
                all,
                i as int,
                match first {
                    Some(f) => Some((f.kind, f.path@)),
                    None => None,
                },
            ),
        decreases rest.len(),
    {
        let entry = rest.pop().unwrap();
        assert(entry == all[i as int]);
        let path = entry.path.clone();
        match GroupPathBuf::new(entry.path, entry.is_file) {
            None => {},
            Some(g) => match &first {
                Some(f) => {
                    return Err(
                        Error {
                            source: ErrorSource { path: Some(f.path.clone()), range: None },
                            path: path.clone(),
                            kind: ErrorKind::MultipleRoots(f.path.clone(), path),
                        },
                    );
                },
                None => {
                    first = Some(g);
                },
            },
        }
        i += 1;
    }
    Ok(first)
}

impl Root {
    /// Finds the root groups of the workspace at `root`. `from_file` is the
    /// checked config file with the root groups that it names, if there is
    /// a config file; `entries` are the entries of the root directory.
    #[verifier::loop_isolation(false)]
    pub fn new(
        root: &str,
        from_file: Option<(ConfigFromFile, Vec<GroupPathBuf>)>,
        entries: Vec<FoundPath>,
    ) -> (r: Result<Root, Error>)
        ensures
            match root_spec(
                root@,
                match from_file {
                    Some(f) => Some((f.0.path@, group_keys(f.1@))),
                    None => None,
                },
                entries@,
            ) {
                Err(e) => r is Err && r->Err_0@ == e,
                Ok((groups, source)) => r is Ok && group_keys(r->Ok_0.groups@) == groups && (
                match r->Ok_0.source.path {
                    Some(p) => Some(p@),
                    None => None,
                }) == source && (match from_file {
                    Some(f) => r->Ok_0.config == f.0.config,
                    None => r->Ok_0.config.path_vars@.len() == 0
                        && r->Ok_0.config.severities@.len() == 0,
                }),
            },
    {
        let had_config_file = from_file.is_some();
        let (config, groups, config_path) = match from_file {
            Some((cff, groups)) => (cff.config, groups, Some(cff.path)),
            None => (
                Config { path_vars: Vec::new(), severities: Vec::new() },
                Vec::new(),
                None,
            ),
        };
        if groups.len() > 0 {
            return Ok(
                Root { groups, source: ErrorSource { path: config_path, range: None }, config },
            );
        }
        let first = dir_root(entries)?;
        match first {
            Some(g) => {
                let mut groups: Vec<GroupPathBuf> = Vec::new();
                let ghost k = (g.kind, g.path@);
                groups.push(g);
                assert(group_keys(groups@) =~= seq![k]);
                Ok(Root { groups, source: ErrorSource { path: None, range: None }, config })
            },
            None => Err(
                Error {
                    source: ErrorSource { path: None, range: None },
                    path: String::from_str(root),
                    kind: ErrorKind::NoRoot(had_config_file),
                },
            ),
        }
    }
}

/// The walk from group to group: the groups that are known, and those
/// whose files are still to be read, the next one last.
#[derive(Debug)]
pub struct Walk {
    pub groups: Vec<(PathId, Group)>,
    pub stack: Vec<PathId>,
}

/// Whether a group with the id is known.
pub open spec fn known(groups: Seq<(PathId, Group)>, id: PathId) -> bool {
    exists|i: int| 0 <= i < groups.len() && (#[trigger] groups[i]).0 == id
}

/// The source files among the members `members[from..]`, behind `acc`.
pub open spec fn sources_of(members: Seq<(PathId, PathKind)>, from: int, acc: Seq<PathId>) -> Seq<
    PathId,
>
    decreases members.len() - from,
{
    if from < 0 || from >= members.len() {
        acc
    } else {
        sources_of(
            members,
            from + 1,
            if members[from].1 == PathKind::Sml {
                acc.push(members[from].0)
            } else {
                acc
            },
        )
    }
}

/// The group files among the members `members[from..]`, behind `acc`.
pub open spec fn deps_of(members: Seq<(PathId, PathKind)>, from: int, acc: Seq<PathId>) -> Seq<
    PathId,
>
    decreases members.len() - from,
{
    if from < 0 || from >= members.len() {
        acc
    } else {
        deps_of(
            members,
            from + 1,
            if members[from].1 == PathKind::Cm {
                acc.push(members[from].0)
            } else {
                acc
            },
        )
    }
}

/// The next group to read, and the stack without it and without what lay
/// above it: the last group on the stack that is not known.
pub open spec fn next_spec(groups: Seq<(PathId, Group)>, stack: Seq<PathId>) -> (
    Option<PathId>,
    Seq<PathId>,
)
    decreases stack.len(),
{
    if stack.len() == 0 {
        (None, stack)
    } else if !known(groups, stack.last()) {
        (Some(stack.last()), stack.drop_last())
    } else {
        next_spec(groups, stack.drop_last())
    }
}

impl Walk {
    /// Ends the walk: the groups that were found, unless they depend on
    /// each other in a cycle, which is the error of the walk.
    pub fn finish(self) -> (r: Result<Vec<(PathId, Group)>, crate::analysis::CycleError>)
        ensures
            match crate::analysis::order_spec(self.groups@, Seq::empty(), self.groups@.len()) {
                Ok(_) => r is Ok && r->Ok_0 == self.groups,
                Err(e) => r == Err::<Vec<(PathId, Group)>, crate::analysis::CycleError>(e),
            },
    {
        match crate::analysis::order(&self.groups) {
            Ok(_) => Ok(self.groups),
            Err(e) => Err(e),
        }
    }

    /// The walk that starts at the root groups.
    pub fn new(roots: Vec<PathId>) -> (r: Walk)
        ensures
            r.groups@.len() == 0,
            r.stack@ == roots@,
    {
        Walk { groups: Vec::new(), stack: roots }
    }

    /// The next group whose file is to be read: the last one on the stack
    /// that is not known yet. Nothing when the walk is over.
    pub fn next(&mut self) -> (r: Option<PathId>)
        ensures
            final(self).groups == old(self).groups,
            (r, final(self).stack@) == next_spec(old(self).groups@, old(self).stack@),
    {
        loop
            invariant
                self.groups == old(self).groups,
                next_spec(old(self).groups@, old(self).stack@) == next_spec(
                    self.groups@,
                    self.stack@,
                ),
            decreases self.stack@.len(),
        {
            let ghost before = self.stack@;
            match self.stack.pop() {
                None => {
                    return None;
                },
                Some(id) => {
                    assert(self.stack@ =~= before.drop_last());
                    if !self.is_known(id) {
                        return Some(id);
                    }
                },
            }
        }
    }

    fn is_known(&self, id: PathId) -> (r: bool)
        ensures
            r == known(self.groups@, id),
    {
        let mut i: usize = 0;
        while i < self.groups.len()
            invariant
                i <= self.groups.len(),
                forall|j: int| 0 <= j < i ==> (#[trigger] self.groups@[j]).0 != id,
            decreases self.groups.len() - i,
        {
            if self.groups[i].0 == id {
                return true;
            }
            i += 1;
        }
        false
    }

    /// Makes the group `id` known, with the members that its file names:
    /// the source files are its files, the group files its dependencies,
    /// and these go on the stack, the last one to be read next.
    pub fn add(&mut self, id: PathId, members: &Vec<(PathId, PathKind)>)
        ensures
            final(self).groups@.len() == old(self).groups@.len() + 1,
            final(self).groups@.take(old(self).groups@.len() as int) == old(self).groups@,
            final(self).groups@.last().0 == id,
            final(self).groups@.last().1.source_files@ == sources_of(members@, 0, Seq::empty()),
            final(self).groups@.last().1.dependencies@ == deps_of(members@, 0, Seq::empty()),
            final(self).stack@ == old(self).stack@ + deps_of(members@, 0, Seq::empty()),
    {
        let mut source_files: Vec<PathId> = Vec::new();
        let mut dependencies: Vec<PathId> = Vec::new();
        let mut i: usize = 0;
        while i < members.len()
            invariant
                i <= members.len(),
                self.groups == old(self).groups,
                sources_of(members@, 0, Seq::empty()) == sources_of(
                    members@,
                    i as int,
                    source_files@,
                ),
                deps_of(members@, 0, Seq::empty()) == deps_of(members@, i as int, dependencies@),
                self.stack@ == old(self).stack@ + dependencies@,
            decreases members.len() - i,
        {
            match members[i].1 {
                PathKind::Sml => source_files.push(members[i].0),
                PathKind::Cm => {
                    dependencies.push(members[i].0);
                    self.stack.push(members[i].0);
                    assert(self.stack@ =~= old(self).stack@ + dependencies@);
                },
            }
            i += 1;
        }
        self.groups.push((id, Group { source_files, dependencies }));
        assert(self.groups@.take(old(self).groups@.len() as int) =~= old(self).groups@);
    }
}

} // verus!

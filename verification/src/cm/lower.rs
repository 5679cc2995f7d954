//! From the syntax tree of a group file to the files it names, each with
//! its kind.

use crate::cm::lex::{lex_spec, offset_of};
use crate::cm::parse::root_spec;
use crate::cm::path_var::{chars_of, Env};
use crate::cm::types::{
    export_keys, Class, ClassKey, Error, ErrorKey, ErrorKind, ErrorKindKey, Export, ExportKey,
    Member, MemberKey, ParseRoot, PathOrStdBasis, RootKey, WithRange,
};
use crate::text::TextRange;
use vstd::prelude::*;

verus! {

/// The kind of a member file.
#[derive(Debug, Clone, Copy, PartialEq, Eq, Structural, Hash)]
pub enum PathKind {
    /// A source file.
    Sml,
    /// A group file.
    Cm,
}

/// A member file: its kind and its path.
#[derive(Debug)]
pub struct ParsedPath {
    pub kind: PathKind,
    pub path: String,
}

/// A processed group file.
#[derive(Debug)]
pub struct CmFile {
    /// The exports.
    pub exports: Vec<Export>,
    /// The member files, in order.
    pub paths: Vec<WithRange<ParsedPath>>,
}

/// A member file, apart from how text is stored: the kind, the path and the
/// range.
pub struct PathKey {
    pub kind: PathKind,
    pub path: Seq<char>,
    pub range: TextRange,
}

/// What each member file of a sequence says.
pub open spec fn path_keys(ps: Seq<WithRange<ParsedPath>>) -> Seq<PathKey> {
    Seq::new(
        ps.len(),
        |i: int| PathKey { kind: ps[i].val.kind, path: ps[i].val.path@, range: ps[i].range },
    )
}

/// Where the extension of a path starts: behind the last `.` of
/// `path[..upto]` that no `/` follows, if there is one.
pub open spec fn extension_start(path: Seq<char>, upto: int) -> Option<int>
    decreases upto,
{
    if upto <= 0 || upto > path.len() {
        None
    } else if path[upto - 1] == '.' {
        Some(upto)
    } else if path[upto - 1] == '/' {
        None
    } else {
        extension_start(path, upto - 1)
    }
}

/// The kind of file that a path is by its extension.
pub open spec fn kind_by_extension(path: Seq<char>) -> Option<PathKind> {
    match extension_start(path, path.len() as int) {
        None => None,
        Some(i) => {
            let ext = path.subrange(i, path.len() as int);
            if ext == "sml"@ || ext == "sig"@ || ext == "fun"@ {
                Some(PathKind::Sml)
            } else if ext == "cm"@ {
                Some(PathKind::Cm)
            } else {
                None
            }
        },
    }
}

/// The member files of `members[from..]`, behind `acc`, or the first error.
/// The class decides the kind of a member; without a class, the extension
/// does. A member that is the standard basis library names no file.
pub open spec fn paths_spec(members: Seq<MemberKey>, from: int, acc: Seq<PathKey>) -> Result<
    Seq<PathKey>,
    ErrorKey,
>
    decreases members.len() - from,
{
    if from < 0 || from >= members.len() {
        Ok(acc)
    } else {
        let m = members[from];
        match m.pathname.val {
            None => paths_spec(members, from + 1, acc),
            Some(path) => {
                let kind: Result<PathKind, ErrorKey> = match m.class {
                    Some(c) => match c.val {
                        ClassKey::Sml => Ok(PathKind::Sml),
                        ClassKey::Cm => Ok(PathKind::Cm),
                        ClassKey::Other(s) => Err(
                            ErrorKey { kind: ErrorKindKey::UnsupportedClass(s), range: c.range },
                        ),
                    },
                    None => match kind_by_extension(path) {
                        Some(k) => Ok(k),
                        None => Err(
                            ErrorKey {
                                kind: ErrorKindKey::CouldNotDetermineKind,
                                range: m.pathname.range,
                            },
                        ),
                    },
                };
                match kind {
                    Err(e) => Err(e),
                    Ok(kind) => paths_spec(
                        members,
                        from + 1,
                        acc.push(PathKey { kind, path, range: m.pathname.range }),
                    ),
                }
            },
        }
    }
}

/// The processed group file of a text: its exports and its member files, or
/// the first error of lexing, parsing or determining the kind of a member.
pub open spec fn get_spec(s: Seq<char>, env: Seq<(Seq<char>, Seq<char>)>) -> Result<
    (Seq<ExportKey>, Seq<PathKey>),
    ErrorKey,
> {
    match lex_spec(s) {
        Err(e) => Err(e),
        Ok(tokens) => match root_spec(tokens, env) {
            Err(e) => Err(e),
            Ok(root) => match paths_spec(root.members, 0, Seq::empty()) {
                Err(e) => Err(e),
                Ok(paths) => Ok((root.exports, paths)),
            },
        },
    }
}

fn find_extension(path: &Vec<char>) -> (r: Option<usize>)
    ensures
        match r {
            Some(i) => extension_start(path@, path.len() as int) == Some(i as int) && i
                <= path.len(),
            None => extension_start(path@, path.len() as int) is None,
        },
{
    let mut i: usize = path.len();
    while i > 0
        invariant
            i <= path.len(),
            extension_start(path@, path.len() as int) == extension_start(path@, i as int),
        decreases i,
    {
        if path[i - 1] == '.' {
            return Some(i);
        }
        if path[i - 1] == '/' {
            return None;
        }
        i -= 1;
    }
    None
}

fn kind_of(path: &str) -> (r: Option<PathKind>)
    ensures
        r == kind_by_extension(path@),
{
    let chars = chars_of(path);
    match find_extension(&chars) {
        None => None,
        Some(i) => {
            let ext = crate::cm::path_var::string_of(&chars, i, chars.len());
            let e = ext.as_str();
            if crate::text::str_eq(e, "sml") || crate::text::str_eq(e, "sig")
                || crate::text::str_eq(e, "fun") {
                Some(PathKind::Sml)
            } else if crate::text::str_eq(e, "cm") {
                Some(PathKind::Cm)
            } else {
                None
            }
        },
    }
}

/// The member files of a parsed group file, with its exports.
pub fn lower(root: ParseRoot) -> (r: Result<CmFile, Error>)
    ensures
        match paths_spec(root@.members, 0, Seq::empty()) {
            Ok(paths) => r is Ok && path_keys(r->Ok_0.paths@) == paths && export_keys(
                r->Ok_0.exports@,
            ) == root@.exports,
            Err(e) => r is Err && r->Err_0@ == e,
        },
{
    let ParseRoot { kind, exports, members } = root;
    let mut members = members;
    let mut paths: Vec<WithRange<ParsedPath>> = Vec::new();
    let ghost all = crate::cm::types::member_keys(members@);
    let n = members.len();
    let mut rest: Vec<Member> = Vec::new();
    // the members are taken from the back, so turn them round first
    while members.len() > 0
        invariant
            n == members.len() + rest.len(),
            forall|j: int|
                0 <= j < members.len() ==> (#[trigger] members@[j])@ == all[j],
            forall|j: int|
                0 <= j < rest.len() ==> (#[trigger] rest@[j])@ == all[n - 1 - j],
            all.len() == n,
        decreases members.len(),
    {
        let m = members.pop().unwrap();
        rest.push(m);
    }
    assert(path_keys(paths@) =~= Seq::<PathKey>::empty());
    let mut i: usize = 0;
    while rest.len() > 0
        invariant
            i + rest.len() == n,
            all.len() == n,
            all == root@.members,
            export_keys(exports@) == root@.exports,
            forall|j: int|
                0 <= j < rest.len() ==> (#[trigger] rest@[j])@ == all[n - 1 - j],
            paths_spec(all, 0, Seq::empty()) == paths_spec(all, i as int, path_keys(paths@)),
        decreases rest.len(),
    {
        let m = rest.pop().unwrap();
        assert(m@ == all[i as int]);
        let ghost before = path_keys(paths@);
        let range = m.pathname.range;
        match m.pathname.val {
            PathOrStdBasis::StdBasis => {},
            PathOrStdBasis::Path(path) => {
                let kind = match m.class {
                    Some(c) => match c.val {
                        Class::Sml => PathKind::Sml,
                        Class::Cm => PathKind::Cm,
                        Class::Other(s) => {
                            return Err(Error::new(ErrorKind::UnsupportedClass(s), c.range));
                        },
                    },
                    None => match kind_of(path.as_str()) {
                        Some(k) => k,
                        None => {
                            return Err(Error::new(ErrorKind::CouldNotDetermineKind, range));
                        },
                    },
                };
                paths.push(WithRange { val: ParsedPath { kind, path }, range });
                assert(path_keys(paths@) =~= before.push(PathKey { kind, path: path@, range }));
            },
        }
        i += 1;
    }
    Ok(CmFile { exports, paths })
}

/// Processes the text of a group file, with the values of path variables.
pub fn get(s: &str, env: &Env) -> (r: Result<CmFile, Error>)
    requires
        offset_of(s@, s@.len() as int) <= u32::MAX,
    ensures
        match get_spec(s@, env@) {
            Ok((exports, paths)) => r is Ok && export_keys(r->Ok_0.exports@) == exports
                && path_keys(r->Ok_0.paths@) == paths,
            Err(e) => r is Err && r->Err_0@ == e,
        },
{
    let tokens = match crate::cm::lex::get(s) {
        Err(e) => {
            return Err(e);
        },
        Ok(tokens) => tokens,
    };
    let root = match crate::cm::parse::get(&tokens, env) {
        Err(e) => {
            return Err(e);
        },
        Ok(root) => root,
    };
    lower(root)
}

} // verus!

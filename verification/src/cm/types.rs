//! The tokens, the syntax tree and the errors of group files.

use crate::hir::Name;
use crate::text::TextRange;
use vstd::prelude::*;

verus! {

/// A value with the range of the source that it came from.
#[derive(Debug, Clone, Copy)]
pub struct WithRange<T> {
    pub val: T,
    pub range: TextRange,
}

/// A token of a group file.
#[derive(Debug)]
pub enum Token {
    Structure,
    Signature,
    Functor,
    FunSig,
    Group,
    Library,
    Source,
    Is,
    LRound,
    RRound,
    Colon,
    Minus,
    String(String),
}

/// A token, apart from how the text of a string is stored.
pub enum TokenKey {
    Structure,
    Signature,
    Functor,
    FunSig,
    Group,
    Library,
    Source,
    Is,
    LRound,
    RRound,
    Colon,
    Minus,
    String(Seq<char>),
}

impl View for Token {
    type V = TokenKey;

    open spec fn view(&self) -> TokenKey {
        match self {
            Token::Structure => TokenKey::Structure,
            Token::Signature => TokenKey::Signature,
            Token::Functor => TokenKey::Functor,
            Token::FunSig => TokenKey::FunSig,
            Token::Group => TokenKey::Group,
            Token::Library => TokenKey::Library,
            Token::Source => TokenKey::Source,
            Token::Is => TokenKey::Is,
            Token::LRound => TokenKey::LRound,
            Token::RRound => TokenKey::RRound,
            Token::Colon => TokenKey::Colon,
            Token::Minus => TokenKey::Minus,
            Token::String(s) => TokenKey::String(s@),
        }
    }
}

/// The tokens that stand for themselves, which the parser may ask for.
#[derive(Debug, Clone, Copy, PartialEq, Eq, Structural)]
pub enum Punct {
    Is,
    LRound,
    RRound,
}

impl Punct {
    /// The token that is asked for.
    pub open spec fn key(self) -> TokenKey {
        match self {
            Punct::Is => TokenKey::Is,
            Punct::LRound => TokenKey::LRound,
            Punct::RRound => TokenKey::RRound,
        }
    }

    /// How the token is written.
    pub open spec fn text(self) -> Seq<char> {
        match self {
            Punct::Is => "is"@,
            Punct::LRound => "("@,
            Punct::RRound => ")"@,
        }
    }
}

/// What kind of thing an exported name stands for.
#[derive(Debug, Clone, Copy, PartialEq, Eq, Structural, Hash)]
pub enum Namespace {
    Structure,
    Signature,
    Functor,
    FunSig,
}

/// Whether the file describes a group or a library.
#[derive(Debug, Clone, Copy, PartialEq, Eq, Structural, Hash)]
pub enum DescKind {
    Group,
    Library,
}

/// A path, or the standard basis library.
#[derive(Debug)]
pub enum PathOrStdBasis {
    Path(String),
    StdBasis,
}

/// A path, or `-`.
#[derive(Debug)]
pub enum PathOrMinus {
    Path(String),
    Minus,
}

/// The class of a member: what kind of file it is.
#[derive(Debug)]
pub enum Class {
    Sml,
    Cm,
    Other(String),
}

/// What a group exports.
#[derive(Debug)]
pub enum Export {
    Name(WithRange<Namespace>, WithRange<Name>),
    Library(WithRange<PathOrStdBasis>),
    Source(WithRange<PathOrMinus>),
    Group(WithRange<PathOrMinus>),
    Union(Vec<Export>),
}

/// A member of a group: a file, with its class if one was written.
#[derive(Debug)]
pub struct Member {
    pub pathname: WithRange<PathOrStdBasis>,
    pub class: Option<WithRange<Class>>,
}

/// A group file as it was written.
#[derive(Debug)]
pub struct ParseRoot {
    pub kind: DescKind,
    pub exports: Vec<Export>,
    pub members: Vec<Member>,
}

/// A path or a marker, apart from how the text is stored: the text of the
/// path, or nothing for the marker.
pub type PathKey = Option<Seq<char>>;

/// The class of a member, apart from how the text is stored.
pub enum ClassKey {
    Sml,
    Cm,
    Other(Seq<char>),
}

/// An export, apart from how text is stored.
pub enum ExportKey {
    Name(WithRange<Namespace>, WithRange<Seq<char>>),
    Library(WithRange<PathKey>),
    Source(WithRange<PathKey>),
    Group(WithRange<PathKey>),
    Union(Seq<ExportKey>),
}

/// A member, apart from how text is stored.
pub struct MemberKey {
    pub pathname: WithRange<PathKey>,
    pub class: Option<WithRange<ClassKey>>,
}

/// A group file, apart from how text is stored.
pub struct RootKey {
    pub kind: DescKind,
    pub exports: Seq<ExportKey>,
    pub members: Seq<MemberKey>,
}

impl View for PathOrStdBasis {
    type V = PathKey;

    open spec fn view(&self) -> PathKey {
        match self {
            PathOrStdBasis::Path(p) => Some(p@),
            PathOrStdBasis::StdBasis => None,
        }
    }
}

impl View for PathOrMinus {
    type V = PathKey;

    open spec fn view(&self) -> PathKey {
        match self {
            PathOrMinus::Path(p) => Some(p@),
            PathOrMinus::Minus => None,
        }
    }
}

impl View for Class {
    type V = ClassKey;

    open spec fn view(&self) -> ClassKey {
        match self {
            Class::Sml => ClassKey::Sml,
            Class::Cm => ClassKey::Cm,
            Class::Other(s) => ClassKey::Other(s@),
        }
    }
}

/// What an export says.
pub open spec fn export_key(e: Export) -> ExportKey
    decreases e,
{
    match e {
        Export::Name(ns, name) => ExportKey::Name(
            ns,
            WithRange { val: name.val@, range: name.range },
        ),
        Export::Library(p) => ExportKey::Library(WithRange { val: p.val@, range: p.range }),
        Export::Source(p) => ExportKey::Source(WithRange { val: p.val@, range: p.range }),
        Export::Group(p) => ExportKey::Group(WithRange { val: p.val@, range: p.range }),
        Export::Union(es) => ExportKey::Union(
            Seq::new(
                es@.len(),
                |i: int|
                    if 0 <= i < es@.len() {
                        export_key(es@[i])
                    } else {
                        ExportKey::Union(Seq::empty())
                    },
            ),
        ),
    }
}

/// What each export of a sequence says.
pub open spec fn export_keys(es: Seq<Export>) -> Seq<ExportKey> {
    Seq::new(es.len(), |i: int| export_key(es[i]))
}

impl View for Member {
    type V = MemberKey;

    open spec fn view(&self) -> MemberKey {
        MemberKey {
            pathname: WithRange { val: self.pathname.val@, range: self.pathname.range },
            class: match self.class {
                None => None,
                Some(c) => Some(WithRange { val: c.val@, range: c.range }),
            },
        }
    }
}

/// What each member of a sequence says.
pub open spec fn member_keys(ms: Seq<Member>) -> Seq<MemberKey> {
    Seq::new(ms.len(), |i: int| ms[i]@)
}

impl View for ParseRoot {
    type V = RootKey;

    open spec fn view(&self) -> RootKey {
        RootKey {
            kind: self.kind,
            exports: export_keys(self.exports@),
            members: member_keys(self.members@),
        }
    }
}

/// What went wrong in a group file.
#[derive(Debug)]
pub enum ErrorKind {
    /// The comment that starts here never ends.
    UnclosedComment,
    ExpectedString,
    Expected(Punct),
    EmptyExportList,
    ExpectedDesc,
    ExpectedExport,
    ExpectedPathOrMinus,
    /// A path names a variable that has no value.
    UndefinedPathVar(String),
    /// The class of a member is none that is supported.
    UnsupportedClass(String),
    /// No class was written, and the path ends in no known extension.
    CouldNotDetermineKind,
}

/// What went wrong, apart from how text is stored.
pub enum ErrorKindKey {
    UnclosedComment,
    ExpectedString,
    Expected(Punct),
    EmptyExportList,
    ExpectedDesc,
    ExpectedExport,
    ExpectedPathOrMinus,
    UndefinedPathVar(Seq<char>),
    UnsupportedClass(Seq<char>),
    CouldNotDetermineKind,
}

impl View for ErrorKind {
    type V = ErrorKindKey;

    open spec fn view(&self) -> ErrorKindKey {
        match self {
            ErrorKind::UnclosedComment => ErrorKindKey::UnclosedComment,
            ErrorKind::ExpectedString => ErrorKindKey::ExpectedString,
            ErrorKind::Expected(p) => ErrorKindKey::Expected(*p),
            ErrorKind::EmptyExportList => ErrorKindKey::EmptyExportList,
            ErrorKind::ExpectedDesc => ErrorKindKey::ExpectedDesc,
            ErrorKind::ExpectedExport => ErrorKindKey::ExpectedExport,
            ErrorKind::ExpectedPathOrMinus => ErrorKindKey::ExpectedPathOrMinus,
            ErrorKind::UndefinedPathVar(s) => ErrorKindKey::UndefinedPathVar(s@),
            ErrorKind::UnsupportedClass(s) => ErrorKindKey::UnsupportedClass(s@),
            ErrorKind::CouldNotDetermineKind => ErrorKindKey::CouldNotDetermineKind,
        }
    }
}

/// An error in a group file, with the range it is about.
#[derive(Debug)]
pub struct Error {
    pub kind: ErrorKind,
    pub range: TextRange,
}

/// An error, apart from how text is stored.
pub struct ErrorKey {
    pub kind: ErrorKindKey,
    pub range: TextRange,
}

impl View for Error {
    type V = ErrorKey;

    open spec fn view(&self) -> ErrorKey {
        ErrorKey { kind: self.kind@, range: self.range }
    }
}

/// The message of an error.
pub open spec fn error_text(kind: ErrorKindKey) -> Seq<char> {
    match kind {
        ErrorKindKey::UnclosedComment => "unclosed block comment"@,
        ErrorKindKey::ExpectedString => "expected a string"@,
        ErrorKindKey::Expected(p) => "expected `"@ + p.text() + "`"@,
        ErrorKindKey::EmptyExportList => "invalid empty export list"@,
        ErrorKindKey::ExpectedDesc => "expected `Group` or `Library`"@,
        ErrorKindKey::ExpectedExport => "expected an export"@,
        ErrorKindKey::ExpectedPathOrMinus => "expected a regular path or `-`"@,
        ErrorKindKey::UndefinedPathVar(v) => "undefined path variable: "@ + v,
        ErrorKindKey::UnsupportedClass(c) => "unsupported class: "@ + c,
        ErrorKindKey::CouldNotDetermineKind => "couldn't determine the kind of file"@,
    }
}

impl Error {
    /// The error of a kind at a range.
    pub fn new(kind: ErrorKind, range: TextRange) -> (r: Error)
        ensures
            r.kind == kind,
            r.range == range,
    {
        Error { kind, range }
    }

    /// The message of the error.
    pub fn message(&self) -> (r: String)
        ensures
            r@ == error_text(self.kind@),
    {
        match &self.kind {
            ErrorKind::UnclosedComment => String::from_str("unclosed block comment"),
            ErrorKind::ExpectedString => String::from_str("expected a string"),
            ErrorKind::Expected(p) => {
                let mut s = String::from_str("expected `");
                match p {
                    Punct::Is => s.append("is"),
                    Punct::LRound => s.append("("),
                    Punct::RRound => s.append(")"),
                }
                s.append("`");
                s
            },
            ErrorKind::EmptyExportList => String::from_str("invalid empty export list"),
            ErrorKind::ExpectedDesc => String::from_str("expected `Group` or `Library`"),
            ErrorKind::ExpectedExport => String::from_str("expected an export"),
            ErrorKind::ExpectedPathOrMinus => String::from_str("expected a regular path or `-`"),
            ErrorKind::UndefinedPathVar(v) => {
                let mut s = String::from_str("undefined path variable: ");
                s.append(v.as_str());
                s
            },
            ErrorKind::UnsupportedClass(c) => {
                let mut s = String::from_str("unsupported class: ");
                s.append(c.as_str());
                s
            },
            ErrorKind::CouldNotDetermineKind => String::from_str(
                "couldn't determine the kind of file",
            ),
        }
    }
}

} // verus!

//! The parser of group files: from tokens to the syntax tree.
//!
//! A file is `Group` or `Library`, then exports, then `is`, then members. An
//! export is a namespace and a name, or `library`, `source` or `group` with
//! an argument in round brackets. A member is a path, with `:` and a class
//! behind it if one is written.

use crate::cm::path_var::{resolve, Env};
use crate::cm::types::{
    Class, ClassKey, DescKind, Error, ErrorKey, ErrorKind, ErrorKindKey, Export, ExportKey,
    Member, MemberKey, Namespace, ParseRoot, PathKey, PathOrMinus, PathOrStdBasis, Punct,
    RootKey, Token, TokenKey, WithRange, export_key, export_keys, member_keys,
};
use crate::hir::Name;
use crate::text::{str_eq, TextRange};
use vstd::prelude::*;

verus! {

/// Where the parser stands: the index of the current token, and the range
/// of the token that it passed last.
#[derive(Debug, Clone, Copy)]
pub struct Parser {
    pub idx: usize,
    pub last_range: TextRange,
}

/// Where the parser stands.
pub struct Cursor {
    pub idx: int,
    pub last: TextRange,
}

/// The tokens of a file.
pub type Tokens = Seq<WithRange<TokenKey>>;

/// What each token of a sequence says.
pub open spec fn token_keys(tokens: Seq<WithRange<Token>>) -> Tokens {
    Seq::new(tokens.len(), |i: int| WithRange { val: tokens[i].val@, range: tokens[i].range })
}

impl Parser {
    /// Where the parser stands.
    pub open spec fn cursor(self) -> Cursor {
        Cursor { idx: self.idx as int, last: self.last_range }
    }
}

/// The current token, if there is one.
pub open spec fn cur_key(tokens: Tokens, c: Cursor) -> Option<TokenKey> {
    if 0 <= c.idx < tokens.len() {
        Some(tokens[c.idx].val)
    } else {
        None
    }
}

/// The cursor behind the current token, if there is one.
pub open spec fn bump_spec(tokens: Tokens, c: Cursor) -> Cursor {
    if 0 <= c.idx < tokens.len() {
        Cursor { idx: c.idx + 1, last: tokens[c.idx].range }
    } else {
        c
    }
}

/// An error at the token that was passed last.
pub open spec fn err_spec(c: Cursor, kind: ErrorKindKey) -> ErrorKey {
    ErrorKey { kind, range: c.last }
}

/// The current token, which must be a string that is not empty.
pub open spec fn string_spec(tokens: Tokens, c: Cursor) -> Result<WithRange<Seq<char>>, ErrorKey> {
    match cur_key(tokens, c) {
        Some(TokenKey::String(s)) => if s.len() > 0 {
            Ok(WithRange { val: s, range: tokens[c.idx].range })
        } else {
            Err(err_spec(c, ErrorKindKey::ExpectedString))
        },
        _ => Err(err_spec(c, ErrorKindKey::ExpectedString)),
    }
}

/// Passes the current token, which must be the one asked for.
pub open spec fn eat_spec(tokens: Tokens, c: Cursor, want: Punct) -> Result<Cursor, ErrorKey> {
    if cur_key(tokens, c) == Some(want.key()) {
        Ok(bump_spec(tokens, c))
    } else {
        Err(err_spec(c, ErrorKindKey::Expected(want)))
    }
}

/// The path that the text stands for with the variables resolved. A variable
/// without a value is an error, but for the two that stand for the standard
/// basis library: the variable without a name, and `SMLNJ-LIB`.
pub open spec fn path_spec(c: Cursor, s: Seq<char>, env: Seq<(Seq<char>, Seq<char>)>) -> Result<
    PathKey,
    ErrorKey,
> {
    match resolve(s, env) {
        Ok(x) => Ok(Some(x)),
        Err(var) => if var == ""@ || var == "SMLNJ-LIB"@ {
            Ok(None)
        } else {
            Err(err_spec(c, ErrorKindKey::UndefinedPathVar(var)))
        },
    }
}

/// The argument of a `source` or `group` export: `-`, or a path that is not
/// the standard basis library.
pub open spec fn arg_spec(tokens: Tokens, c: Cursor, env: Seq<(Seq<char>, Seq<char>)>) -> Result<
    (PathKey, Cursor),
    ErrorKey,
> {
    match cur_key(tokens, c) {
        Some(TokenKey::Minus) => Ok((None, bump_spec(tokens, c))),
        Some(TokenKey::String(s)) => {
            let c1 = bump_spec(tokens, c);
            match path_spec(c1, s, env) {
                Ok(Some(x)) => Ok((Some(x), c1)),
                Ok(None) => Err(err_spec(c1, ErrorKindKey::ExpectedPathOrMinus)),
                Err(e) => Err(e),
            }
        },
        _ => Err(err_spec(c, ErrorKindKey::ExpectedPathOrMinus)),
    }
}

/// The export that starts at the current token, which is there and is not
/// `is`.
pub open spec fn export_spec(tokens: Tokens, c: Cursor, env: Seq<(Seq<char>, Seq<char>)>) -> Result<
    (ExportKey, Cursor),
    ErrorKey,
>
    recommends
        0 <= c.idx < tokens.len(),
{
    let tok = tokens[c.idx];
    let c1 = bump_spec(tokens, c);
    let namespace = match tok.val {
        TokenKey::Structure => Some(Namespace::Structure),
        TokenKey::Signature => Some(Namespace::Signature),
        TokenKey::Functor => Some(Namespace::Functor),
        TokenKey::FunSig => Some(Namespace::FunSig),
        _ => None,
    };
    match namespace {
        Some(ns) => match string_spec(tokens, c1) {
            Err(e) => Err(e),
            Ok(s) => Ok(
                (
                    ExportKey::Name(WithRange { val: ns, range: tok.range }, s),
                    bump_spec(tokens, c1),
                ),
            ),
        },
        None => match tok.val {
            TokenKey::Library => match eat_spec(tokens, c1, Punct::LRound) {
                Err(e) => Err(e),
                Ok(c2) => match string_spec(tokens, c2) {
                    Err(e) => Err(e),
                    Ok(s) => {
                        let c3 = bump_spec(tokens, c2);
                        match path_spec(c3, s.val, env) {
                            Err(e) => Err(e),
                            Ok(p) => match eat_spec(tokens, c3, Punct::RRound) {
                                Err(e) => Err(e),
                                Ok(c4) => Ok(
                                    (ExportKey::Library(WithRange { val: p, range: s.range }), c4),
                                ),
                            },
                        }
                    },
                },
            },
            TokenKey::Source | TokenKey::Group => match eat_spec(tokens, c1, Punct::LRound) {
                Err(e) => Err(e),
                Ok(c2) => match arg_spec(tokens, c2, env) {
                    Err(e) => Err(e),
                    Ok((p, c3)) => match eat_spec(tokens, c3, Punct::RRound) {
                        Err(e) => Err(e),
                        Ok(c4) => Ok(
                            (
                                if tok.val is Source {
                                    ExportKey::Source(WithRange { val: p, range: tok.range })
                                } else {
                                    ExportKey::Group(WithRange { val: p, range: tok.range })
                                },
                                c4,
                            ),
                        ),
                    },
                },
            },
            _ => Err(err_spec(c1, ErrorKindKey::ExpectedExport)),
        },
    }
}

/// The exports from the current token up to `is` or the end, behind `acc`.
pub open spec fn exports_spec(
    tokens: Tokens,
    c: Cursor,
    env: Seq<(Seq<char>, Seq<char>)>,
    acc: Seq<ExportKey>,
) -> Result<(Seq<ExportKey>, Cursor), ErrorKey>
    decreases tokens.len() - c.idx,
{
    if c.idx < 0 || c.idx >= tokens.len() || tokens[c.idx].val is Is {
        Ok((acc, c))
    } else {
        match export_spec(tokens, c, env) {
            Err(e) => Err(e),
            Ok((export, c2)) => if c2.idx > c.idx {
                exports_spec(tokens, c2, env, acc.push(export))
            } else {
                Ok((acc.push(export), c2))
            },
        }
    }
}

/// The class that a word names.
pub open spec fn class_spec(s: Seq<char>) -> ClassKey {
    if s == "sml"@ || s == "sig"@ || s == "fun"@ {
        ClassKey::Sml
    } else if s == "cm"@ || s == "cmfile"@ {
        ClassKey::Cm
    } else {
        ClassKey::Other(s)
    }
}

/// The member that starts at the current token, which is the string `s`.
pub open spec fn member_spec(
    tokens: Tokens,
    c: Cursor,
    s: Seq<char>,
    env: Seq<(Seq<char>, Seq<char>)>,
) -> Result<(MemberKey, Cursor), ErrorKey>
    recommends
        0 <= c.idx < tokens.len(),
{
    let tok = tokens[c.idx];
    let c1 = bump_spec(tokens, c);
    match path_spec(c1, s, env) {
        Err(e) => Err(e),
        Ok(p) => {
            let pathname = WithRange { val: p, range: tok.range };
            if cur_key(tokens, c1) == Some(TokenKey::Colon) {
                let c2 = bump_spec(tokens, c1);
                match string_spec(tokens, c2) {
                    Err(e) => Err(e),
                    Ok(w) => Ok(
                        (
                            MemberKey {
                                pathname,
                                class: Some(WithRange { val: class_spec(w.val), range: w.range }),
                            },
                            bump_spec(tokens, c2),
                        ),
                    ),
                }
            } else {
                Ok((MemberKey { pathname, class: None }, c1))
            }
        },
    }
}

/// The members from the current token on, as long as a string comes, behind
/// `acc`.
pub open spec fn members_spec(
    tokens: Tokens,
    c: Cursor,
    env: Seq<(Seq<char>, Seq<char>)>,
    acc: Seq<MemberKey>,
) -> Result<(Seq<MemberKey>, Cursor), ErrorKey>
    decreases tokens.len() - c.idx,
{
    match cur_key(tokens, c) {
        Some(TokenKey::String(s)) => match member_spec(tokens, c, s, env) {
            Err(e) => Err(e),
            Ok((member, c2)) => if c2.idx > c.idx {
                members_spec(tokens, c2, env, acc.push(member))
            } else {
                Ok((acc.push(member), c2))
            },
        },
        _ => Ok((acc, c)),
    }
}

/// The exports, `is`, and the members.
pub open spec fn exports_and_members_spec(
    tokens: Tokens,
    c: Cursor,
    env: Seq<(Seq<char>, Seq<char>)>,
) -> Result<(Seq<ExportKey>, Seq<MemberKey>, Cursor), ErrorKey> {
    match exports_spec(tokens, c, env, Seq::empty()) {
        Err(e) => Err(e),
        Ok((exports, c1)) => match eat_spec(tokens, c1, Punct::Is) {
            Err(e) => Err(e),
            Ok(c2) => match members_spec(tokens, c2, env, Seq::empty()) {
                Err(e) => Err(e),
                Ok((members, c3)) => Ok((exports, members, c3)),
            },
        },
    }
}

/// The group file that the tokens are, or the first error in them. A
/// library must export something; a group need not.
pub open spec fn root_spec(tokens: Tokens, env: Seq<(Seq<char>, Seq<char>)>) -> Result<
    RootKey,
    ErrorKey,
> {
    let c = Cursor { idx: 0, last: TextRange { start: 0, end: 0 } };
    match cur_key(tokens, c) {
        Some(TokenKey::Group) => match exports_and_members_spec(
            tokens,
            bump_spec(tokens, c),
            env,
        ) {
            Err(e) => Err(e),
            Ok((exports, members, _)) => Ok(RootKey { kind: DescKind::Group, exports, members }),
        },
        Some(TokenKey::Library) => match exports_and_members_spec(
            tokens,
            bump_spec(tokens, c),
            env,
        ) {
            Err(e) => Err(e),
            Ok((exports, members, c2)) => if exports.len() == 0 {
                Err(err_spec(c2, ErrorKindKey::EmptyExportList))
            } else {
                Ok(RootKey { kind: DescKind::Library, exports, members })
            },
        },
        _ => Err(err_spec(c, ErrorKindKey::ExpectedDesc)),
    }
}

/// Whether an exec result says what a spec result says.
pub open spec fn export_agrees(
    r: Result<Export, Error>,
    p: Parser,
    want: Result<(ExportKey, Cursor), ErrorKey>,
) -> bool {
    match want {
        Ok((e, c)) => r is Ok && export_key(r->Ok_0) == e && p.cursor() == c,
        Err(e) => r is Err && r->Err_0@ == e,
    }
}

impl Parser {
    fn err<T>(&self, kind: ErrorKind) -> (r: Result<T, Error>)
        ensures
            r is Err,
            r->Err_0@ == err_spec(self.cursor(), kind@),
    {
        Err(Error::new(kind, self.last_range))
    }

    fn string<'a>(&self, tokens: &'a Vec<WithRange<Token>>) -> (r: Result<
        WithRange<&'a String>,
        Error,
    >)
        ensures
            match string_spec(token_keys(tokens@), self.cursor()) {
                Ok(s) => r is Ok && r->Ok_0.val@ == s.val && r->Ok_0.range == s.range,
                Err(e) => r is Err && r->Err_0@ == e,
            },
    {
        if self.idx < tokens.len() {
            match &tokens[self.idx].val {
                Token::String(s) => if s.as_str().unicode_len() > 0 {
                    Ok(WithRange { val: s, range: tokens[self.idx].range })
                } else {
                    self.err(ErrorKind::ExpectedString)
                },
                _ => self.err(ErrorKind::ExpectedString),
            }
        } else {
            self.err(ErrorKind::ExpectedString)
        }
    }

    fn bump(&mut self, tokens: &Vec<WithRange<Token>>)
        ensures
            final(self).cursor() == bump_spec(token_keys(tokens@), old(self).cursor()),
    {
        if self.idx < tokens.len() {
            self.last_range = tokens[self.idx].range;
            self.idx += 1;
        }
    }

    fn at(&self, tokens: &Vec<WithRange<Token>>, want: Punct) -> (r: bool)
        ensures
            r == (cur_key(token_keys(tokens@), self.cursor()) == Some(want.key())),
    {
        if self.idx < tokens.len() {
            match (&tokens[self.idx].val, want) {
                (Token::Is, Punct::Is) => true,
                (Token::LRound, Punct::LRound) => true,
                (Token::RRound, Punct::RRound) => true,
                _ => false,
            }
        } else {
            false
        }
    }

    fn eat(&mut self, tokens: &Vec<WithRange<Token>>, want: Punct) -> (r: Result<(), Error>)
        ensures
            match eat_spec(token_keys(tokens@), old(self).cursor(), want) {
                Ok(c) => r is Ok && final(self).cursor() == c,
                Err(e) => r is Err && r->Err_0@ == e,
            },
    {
        if self.at(tokens, want) {
            self.bump(tokens);
            Ok(())
        } else {
            self.err(ErrorKind::Expected(want))
        }
    }
}

fn path(p: &Parser, s: &str, env: &Env) -> (r: Result<PathOrStdBasis, Error>)
    ensures
        match path_spec(p.cursor(), s@, env@) {
            Ok(x) => r is Ok && r->Ok_0@ == x,
            Err(e) => r is Err && r->Err_0@ == e,
        },
{
    match crate::cm::path_var::get(s, env) {
        Ok(x) => Ok(PathOrStdBasis::Path(x)),
        Err(var) => {
            if str_eq(var.as_str(), "") || str_eq(var.as_str(), "SMLNJ-LIB") {
                Ok(PathOrStdBasis::StdBasis)
            } else {
                p.err(ErrorKind::UndefinedPathVar(var))
            }
        },
    }
}

fn source_or_group_export_arg(p: &mut Parser, tokens: &Vec<WithRange<Token>>, env: &Env) -> (r:
    Result<PathOrMinus, Error>)
    ensures
        match arg_spec(token_keys(tokens@), old(p).cursor(), env@) {
            Ok((x, c)) => r is Ok && r->Ok_0@ == x && final(p).cursor() == c,
            Err(e) => r is Err && r->Err_0@ == e,
        },
{
    if p.idx < tokens.len() {
        match &tokens[p.idx].val {
            Token::Minus => {
                p.bump(tokens);
                Ok(PathOrMinus::Minus)
            },
            Token::String(s) => {
                p.bump(tokens);
                match path(p, s.as_str(), env) {
                    Ok(PathOrStdBasis::Path(x)) => Ok(PathOrMinus::Path(x)),
                    Ok(PathOrStdBasis::StdBasis) => p.err(ErrorKind::ExpectedPathOrMinus),
                    Err(e) => Err(e),
                }
            },
            _ => p.err(ErrorKind::ExpectedPathOrMinus),
        }
    } else {
        p.err(ErrorKind::ExpectedPathOrMinus)
    }
}

fn name_export(p: &mut Parser, tokens: &Vec<WithRange<Token>>, ns: Namespace) -> (r: Result<
    Export,
    Error,
>)
    requires
        old(p).idx < tokens.len(),
    ensures
        match string_spec(token_keys(tokens@), bump_spec(token_keys(tokens@), old(p).cursor())) {
            Err(e) => r is Err && r->Err_0@ == e,
            Ok(s) => r is Ok && export_key(r->Ok_0) == ExportKey::Name(
                WithRange { val: ns, range: token_keys(tokens@)[old(p).idx as int].range },
                s,
            ) && final(p).cursor() == bump_spec(
                token_keys(tokens@),
                bump_spec(token_keys(tokens@), old(p).cursor()),
            ),
        },
{
    let range = tokens[p.idx].range;
    p.bump(tokens);
    match p.string(tokens) {
        Err(e) => Err(e),
        Ok(s) => {
            let name = Name::new(s.val.as_str());
            p.bump(tokens);
            Ok(Export::Name(WithRange { val: ns, range }, WithRange { val: name, range: s.range }))
        },
    }
}

fn export(p: &mut Parser, tokens: &Vec<WithRange<Token>>, env: &Env) -> (r: Result<Export, Error>)
    requires
        old(p).idx < tokens.len(),
    ensures
        export_agrees(r, *final(p), export_spec(token_keys(tokens@), old(p).cursor(), env@)),
{
    let range = tokens[p.idx].range;
    match &tokens[p.idx].val {
        Token::Structure => name_export(p, tokens, Namespace::Structure),
        Token::Signature => name_export(p, tokens, Namespace::Signature),
        Token::Functor => name_export(p, tokens, Namespace::Functor),
        Token::FunSig => name_export(p, tokens, Namespace::FunSig),
        Token::Library => {
            p.bump(tokens);
            match p.eat(tokens, Punct::LRound) {
                Err(e) => {
                    return Err(e);
                },
                Ok(()) => {},
            }
            let s = match p.string(tokens) {
                Err(e) => {
                    return Err(e);
                },
                Ok(s) => s,
            };
            p.bump(tokens);
            let pathname = match path(p, s.val.as_str(), env) {
                Err(e) => {
                    return Err(e);
                },
                Ok(x) => x,
            };
            match p.eat(tokens, Punct::RRound) {
                Err(e) => {
                    return Err(e);
                },
                Ok(()) => {},
            }
            Ok(Export::Library(WithRange { val: pathname, range: s.range }))
        },
        Token::Source => {
            p.bump(tokens);
            match p.eat(tokens, Punct::LRound) {
                Err(e) => {
                    return Err(e);
                },
                Ok(()) => {},
            }
            let arg = match source_or_group_export_arg(p, tokens, env) {
                Err(e) => {
                    return Err(e);
                },
                Ok(x) => x,
            };
            match p.eat(tokens, Punct::RRound) {
                Err(e) => {
                    return Err(e);
                },
                Ok(()) => {},
            }
            Ok(Export::Source(WithRange { val: arg, range }))
        },
        Token::Group => {
            p.bump(tokens);
            match p.eat(tokens, Punct::LRound) {
                Err(e) => {
                    return Err(e);
                },
                Ok(()) => {},
            }
            let arg = match source_or_group_export_arg(p, tokens, env) {
                Err(e) => {
                    return Err(e);
                },
                Ok(x) => x,
            };
            match p.eat(tokens, Punct::RRound) {
                Err(e) => {
                    return Err(e);
                },
                Ok(()) => {},
            }
            Ok(Export::Group(WithRange { val: arg, range }))
        },
        _ => {
            p.bump(tokens);
            p.err(ErrorKind::ExpectedExport)
        },
    }
}

fn class_of(s: &str) -> (r: Class)
    ensures
        r@ == class_spec(s@),
{
    if str_eq(s, "sml") || str_eq(s, "sig") || str_eq(s, "fun") {
        Class::Sml
    } else if str_eq(s, "cm") || str_eq(s, "cmfile") {
        Class::Cm
    } else {
        Class::Other(String::from_str(s))
    }
}

fn member(p: &mut Parser, tokens: &Vec<WithRange<Token>>, s: &str, env: &Env) -> (r: Result<
    Member,
    Error,
>)
    requires
        old(p).idx < tokens.len(),
    ensures
        match member_spec(token_keys(tokens@), old(p).cursor(), s@, env@) {
            Ok((m, c)) => r is Ok && r->Ok_0@ == m && final(p).cursor() == c,
            Err(e) => r is Err && r->Err_0@ == e,
        },
{
    let range = tokens[p.idx].range;
    p.bump(tokens);
    let pathname = match path(p, s, env) {
        Err(e) => {
            return Err(e);
        },
        Ok(x) => x,
    };
    let colon = p.idx < tokens.len() && match &tokens[p.idx].val {
        Token::Colon => true,
        _ => false,
    };
    let class = if colon {
        p.bump(tokens);
        let w = match p.string(tokens) {
            Err(e) => {
                return Err(e);
            },
            Ok(w) => w,
        };
        let c = class_of(w.val.as_str());
        p.bump(tokens);
        Some(WithRange { val: c, range: w.range })
    } else {
        None
    };
    Ok(Member { pathname: WithRange { val: pathname, range }, class })
}

fn exports_and_members(p: &mut Parser, tokens: &Vec<WithRange<Token>>, env: &Env) -> (r: Result<
    (Vec<Export>, Vec<Member>),
    Error,
>)
    ensures
        match exports_and_members_spec(token_keys(tokens@), old(p).cursor(), env@) {
            Ok((es, ms, c)) => r is Ok && export_keys(r->Ok_0.0@) == es && member_keys(
                r->Ok_0.1@,
            ) == ms && final(p).cursor() == c,
            Err(e) => r is Err && r->Err_0@ == e,
        },
{
    let mut exports: Vec<Export> = Vec::new();
    assert(export_keys(exports@) =~= Seq::<ExportKey>::empty());
    loop
        invariant
            exports_spec(token_keys(tokens@), old(p).cursor(), env@, Seq::empty()) == exports_spec(
                token_keys(tokens@),
                p.cursor(),
                env@,
                export_keys(exports@),
            ),
        ensures
            exports_spec(token_keys(tokens@), old(p).cursor(), env@, Seq::empty()) == Ok::<
                (Seq<ExportKey>, Cursor),
                ErrorKey,
            >((export_keys(exports@), p.cursor())),
        decreases tokens.len() - p.idx,
    {
        if p.idx >= tokens.len() {
            break ;
        }
        let is = match &tokens[p.idx].val {
            Token::Is => true,
            _ => false,
        };
        if is {
            break ;
        }
        let ghost before = export_keys(exports@);
        let start = p.idx;
        match export(p, tokens, env) {
            Err(e) => {
                return Err(e);
            },
            Ok(e) => {
                exports.push(e);
                assert(export_keys(exports@) =~= before.push(export_key(e)));
                if p.idx <= start {
                    break ;
                }
            },
        }
    }
    match p.eat(tokens, Punct::Is) {
        Err(e) => {
            return Err(e);
        },
        Ok(()) => {},
    }
    let ghost middle = p.cursor();
    let mut members: Vec<Member> = Vec::new();
    assert(member_keys(members@) =~= Seq::<MemberKey>::empty());
    loop
        invariant
            exports_and_members_spec(token_keys(tokens@), old(p).cursor(), env@) == (match members_spec(
                token_keys(tokens@),
                middle,
                env@,
                Seq::empty(),
            ) {
                Err(e) => Err::<(Seq<ExportKey>, Seq<MemberKey>, Cursor), ErrorKey>(e),
                Ok((ms, c3)) => Ok((export_keys(exports@), ms, c3)),
            }),
            members_spec(token_keys(tokens@), middle, env@, Seq::empty()) == members_spec(
                token_keys(tokens@),
                p.cursor(),
                env@,
                member_keys(members@),
            ),
        ensures
            members_spec(token_keys(tokens@), middle, env@, Seq::empty()) == Ok::<
                (Seq<MemberKey>, Cursor),
                ErrorKey,
            >((member_keys(members@), p.cursor())),
        decreases tokens.len() - p.idx,
    {
        if p.idx >= tokens.len() {
            break ;
        }
        let s = match &tokens[p.idx].val {
            Token::String(s) => s,
            _ => {
                break ;
            },
        };
        let ghost before = member_keys(members@);
        let start = p.idx;
        match member(p, tokens, s.as_str(), env) {
            Err(e) => {
                return Err(e);
            },
            Ok(m) => {
                members.push(m);
                assert(member_keys(members@) =~= before.push(m@));
                if p.idx <= start {
                    break ;
                }
            },
        }
    }
    Ok((exports, members))
}

fn root(p: &mut Parser, tokens: &Vec<WithRange<Token>>, env: &Env) -> (r: Result<ParseRoot, Error>)
    requires
        old(p).idx == 0,
        old(p).last_range == (TextRange { start: 0, end: 0 }),
    ensures
        match root_spec(token_keys(tokens@), env@) {
            Ok(root) => r is Ok && r->Ok_0@ == root,
            Err(e) => r is Err && r->Err_0@ == e,
        },
{
    let kind = if tokens.len() > 0 {
        match &tokens[0].val {
            Token::Group => Some(DescKind::Group),
            Token::Library => Some(DescKind::Library),
            _ => None,
        }
    } else {
        None
    };
    match kind {
        None => p.err(ErrorKind::ExpectedDesc),
        Some(kind) => {
            p.bump(tokens);
            let (exports, members) = match exports_and_members(p, tokens, env) {
                Err(e) => {
                    return Err(e);
                },
                Ok(x) => x,
            };
            match kind {
                DescKind::Group => Ok(ParseRoot { kind, exports, members }),
                DescKind::Library => {
                    if exports.len() == 0 {
                        return p.err(ErrorKind::EmptyExportList);
                    }
                    Ok(ParseRoot { kind, exports, members })
                },
            }
        },
    }
}

/// Parses the tokens of a group file, with the values of path variables.
pub fn get(tokens: &Vec<WithRange<Token>>, env: &Env) -> (r: Result<ParseRoot, Error>)
    ensures
        match root_spec(token_keys(tokens@), env@) {
            Ok(root) => r is Ok && r->Ok_0@ == root,
            Err(e) => r is Err && r->Err_0@ == e,
        },
{
    let mut p = Parser { idx: 0, last_range: TextRange { start: 0, end: 0 } };
    root(&mut p, tokens, env)
}

} // verus!

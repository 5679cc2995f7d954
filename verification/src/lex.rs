//! The lexer: from the bytes of a program to tokens with their ranges.
//!
//! Every byte of the text belongs to exactly one token: blanks and comments
//! are tokens too. An error never stops the lexer: the token in error is
//! kept, and lexing goes on behind it. A byte that starts no token is a
//! token of its own.

use crate::text::TextRange;
use vstd::prelude::*;

verus! {

/// What a token is.
#[derive(Debug, Clone, Copy, PartialEq, Eq, Structural, Hash)]
pub enum TokenKind {
    Whitespace,
    BlockComment,
    IntLit,
    RealLit,
    WordLit,
    CharLit,
    StringLit,
    TyVar,
    /// An identifier, made of letters or of symbols, that is not reserved.
    Name,
    Abstype,
    And,
    Andalso,
    As,
    Case,
    Datatype,
    Do,
    Else,
    End,
    Eqtype,
    Exception,
    Fn,
    Fun,
    Functor,
    Handle,
    If,
    In,
    Include,
    Infix,
    Infixr,
    Let,
    Local,
    Nonfix,
    Of,
    Op,
    Open,
    Orelse,
    Raise,
    Rec,
    Sharing,
    Sig,
    Signature,
    Struct,
    Structure,
    Then,
    Type,
    Val,
    Where,
    While,
    With,
    Withtype,
    Colon,
    ColonGt,
    Bar,
    Eq,
    EqGt,
    MinusGt,
    Hash,
    /// `*` by itself: a name in expressions, and the sign of tuple types.
    Star,
    LRound,
    RRound,
    LSquare,
    RSquare,
    LCurly,
    RCurly,
    Comma,
    Semicolon,
    Dot,
    DotDotDot,
    Underscore,
    /// A byte that starts no token.
    Invalid,
}

/// A token: what it is, and the bytes that it is made of.
#[derive(Debug, Clone, Copy, PartialEq, Eq, Structural)]
pub struct Token {
    pub kind: TokenKind,
    pub range: TextRange,
}

/// What is wrong with a token.
#[derive(Debug, Clone, Copy, PartialEq, Eq, Structural, Hash)]
pub enum ErrorKind {
    /// The byte starts no token.
    InvalidSource,
    /// The text ends inside a comment.
    UnclosedComment,
    /// A `'` without a name behind it.
    IncompleteTyVar,
    /// A number that lacks digits where it must have some.
    InvalidNumeric,
    /// The line or the text ends inside a string.
    UnclosedString,
    /// A `\` in a string that starts no escape.
    UnknownEscape,
    /// A word literal behind `~`.
    NegativeWord,
    /// A character literal that does not hold exactly one character.
    CharLen,
}

/// An error of the lexer, with the bytes that it is about.
#[derive(Debug, Clone, Copy, PartialEq, Eq, Structural)]
pub struct Error {
    pub kind: ErrorKind,
    pub range: TextRange,
}

/// The tokens of a text, in order, and the errors, in order.
#[derive(Debug)]
pub struct Lex {
    pub tokens: Vec<Token>,
    pub errors: Vec<Error>,
}

/// A class of bytes that a token may be a run of.
#[derive(Debug, Clone, Copy, PartialEq, Eq, Structural)]
pub enum Class {
    Space,
    Digit,
    Hex,
    /// A letter, a digit, `_` or `'`.
    Ident,
    /// One of ``! % & $ # + - / : < = > ? @ \ ~ ` ^ | *``.
    Symbolic,
}

pub const TAB: u8 = 9;

pub const LINE_FEED: u8 = 10;

pub const CARRIAGE_RETURN: u8 = 13;

pub const SPACE: u8 = 32;

pub const QUOTE: u8 = 34;

pub const HASH: u8 = 35;

pub const TICK: u8 = 39;

pub const LROUND: u8 = 40;

pub const RROUND: u8 = 41;

pub const STAR: u8 = 42;

pub const COMMA: u8 = 44;

pub const DOT: u8 = 46;

pub const ZERO: u8 = 48;

pub const NINE: u8 = 57;

pub const SEMICOLON: u8 = 59;

pub const UPPER_A: u8 = 65;

pub const UPPER_E: u8 = 69;

pub const UPPER_F: u8 = 70;

pub const UPPER_Z: u8 = 90;

pub const LSQUARE: u8 = 91;

pub const BACKSLASH: u8 = 92;

pub const RSQUARE: u8 = 93;

pub const CARET: u8 = 94;

pub const UNDERSCORE: u8 = 95;

pub const LOWER_A: u8 = 97;

pub const LOWER_E: u8 = 101;

pub const LOWER_F: u8 = 102;

pub const LOWER_U: u8 = 117;

pub const LOWER_W: u8 = 119;

pub const LOWER_X: u8 = 120;

pub const LOWER_Z: u8 = 122;

pub const LCURLY: u8 = 123;

pub const RCURLY: u8 = 125;

pub const TILDE: u8 = 126;

pub open spec fn is_space(b: u8) -> bool {
    b == SPACE || (TAB <= b && b <= CARRIAGE_RETURN)
}

pub open spec fn is_digit(b: u8) -> bool {
    ZERO <= b && b <= NINE
}

pub open spec fn is_hex(b: u8) -> bool {
    is_digit(b) || (UPPER_A <= b && b <= UPPER_F) || (LOWER_A <= b && b <= LOWER_F)
}

pub open spec fn is_alpha(b: u8) -> bool {
    (UPPER_A <= b && b <= UPPER_Z) || (LOWER_A <= b && b <= LOWER_Z)
}

pub open spec fn is_symbolic(b: u8) -> bool {
    b == 33 || (HASH <= b && b <= 38) || b == STAR || b == 43 || b == 45 || b == 47 || b == 58 || (
    60 <= b && b <= 64) || b == BACKSLASH || b == CARET || b == 96 || b == 124 || b == TILDE
}

/// Whether the byte is of the class.
pub open spec fn class_has(class: Class, b: u8) -> bool {
    match class {
        Class::Space => is_space(b),
        Class::Digit => is_digit(b),
        Class::Hex => is_hex(b),
        Class::Ident => is_alpha(b) || is_digit(b) || b == UNDERSCORE || b == TICK,
        Class::Symbolic => is_symbolic(b),
    }
}

/// The byte at `i`, if the text is that long.
pub open spec fn at(s: Seq<u8>, i: int) -> Option<u8> {
    if 0 <= i < s.len() {
        Some(s[i])
    } else {
        None
    }
}

/// Whether the byte at `i` is `b`.
pub open spec fn at_is(s: Seq<u8>, i: int, b: u8) -> bool {
    at(s, i) == Some(b)
}

/// Whether there is a byte at `i`, and it is of the class.
pub open spec fn at_in(s: Seq<u8>, i: int, class: Class) -> bool {
    0 <= i < s.len() && class_has(class, s[i])
}

/// The first index at or after `from` whose byte is not of the class, or
/// the end of the text.
pub open spec fn span_end(s: Seq<u8>, from: int, class: Class) -> int
    decreases s.len() - from,
{
    if from < 0 || from >= s.len() {
        s.len() as int
    } else if class_has(class, s[from]) {
        span_end(s, from + 1, class)
    } else {
        from
    }
}

/// The index behind the `*)` that closes the comment which is open at
/// `from`, with `depth` more comments open around it; nothing when the text
/// ends before that.
pub open spec fn comment_end(s: Seq<u8>, from: int, depth: nat) -> Option<int>
    decreases s.len() - from,
{
    if from < 0 || from + 1 >= s.len() {
        None
    } else if s[from] == STAR && s[from + 1] == RROUND {
        if depth == 0 {
            Some(from + 2)
        } else {
            comment_end(s, from + 2, (depth - 1) as nat)
        }
    } else if s[from] == LROUND && s[from + 1] == STAR {
        comment_end(s, from + 2, depth + 1)
    } else {
        comment_end(s, from + 1, depth)
    }
}

/// Whether the bytes spell the word, character by character.
pub open spec fn spells(b: Seq<u8>, w: Seq<char>) -> bool {
    b.len() == w.len() && forall|k: int| 0 <= k < b.len() ==> b[k] as u32 == w[k] as u32
}

/// The token that a run of letters, digits, `_` and `'` is: a reserved
/// word, `_`, or a name.
pub open spec fn word_kind(w: Seq<u8>) -> TokenKind {
    if spells(w, "abstype"@) {
        TokenKind::Abstype
    } else if spells(w, "and"@) {
        TokenKind::And
    } else if spells(w, "andalso"@) {
        TokenKind::Andalso
    } else if spells(w, "as"@) {
        TokenKind::As
    } else if spells(w, "case"@) {
        TokenKind::Case
    } else if spells(w, "datatype"@) {
        TokenKind::Datatype
    } else if spells(w, "do"@) {
        TokenKind::Do
    } else if spells(w, "else"@) {
        TokenKind::Else
    } else if spells(w, "end"@) {
        TokenKind::End
    } else if spells(w, "eqtype"@) {
        TokenKind::Eqtype
    } else if spells(w, "exception"@) {
        TokenKind::Exception
    } else if spells(w, "fn"@) {
        TokenKind::Fn
    } else if spells(w, "fun"@) {
        TokenKind::Fun
    } else if spells(w, "functor"@) {
        TokenKind::Functor
    } else if spells(w, "handle"@) {
        TokenKind::Handle
    } else if spells(w, "if"@) {
        TokenKind::If
    } else if spells(w, "in"@) {
        TokenKind::In
    } else if spells(w, "include"@) {
        TokenKind::Include
    } else if spells(w, "infix"@) {
        TokenKind::Infix
    } else if spells(w, "infixr"@) {
        TokenKind::Infixr
    } else if spells(w, "let"@) {
        TokenKind::Let
    } else if spells(w, "local"@) {
        TokenKind::Local
    } else if spells(w, "nonfix"@) {
        TokenKind::Nonfix
    } else if spells(w, "of"@) {
        TokenKind::Of
    } else if spells(w, "op"@) {
        TokenKind::Op
    } else if spells(w, "open"@) {
        TokenKind::Open
    } else if spells(w, "orelse"@) {
        TokenKind::Orelse
    } else if spells(w, "raise"@) {
        TokenKind::Raise
    } else if spells(w, "rec"@) {
        TokenKind::Rec
    } else if spells(w, "sharing"@) {
        TokenKind::Sharing
    } else if spells(w, "sig"@) {
        TokenKind::Sig
    } else if spells(w, "signature"@) {
        TokenKind::Signature
    } else if spells(w, "struct"@) {
        TokenKind::Struct
    } else if spells(w, "structure"@) {
        TokenKind::Structure
    } else if spells(w, "then"@) {
        TokenKind::Then
    } else if spells(w, "type"@) {
        TokenKind::Type
    } else if spells(w, "val"@) {
        TokenKind::Val
    } else if spells(w, "where"@) {
        TokenKind::Where
    } else if spells(w, "while"@) {
        TokenKind::While
    } else if spells(w, "with"@) {
        TokenKind::With
    } else if spells(w, "withtype"@) {
        TokenKind::Withtype
    } else {
        TokenKind::Name
    }
}

/// The token that a run of symbols is: a reserved symbol, or a name.
pub open spec fn symbol_kind(w: Seq<u8>) -> TokenKind {
    if spells(w, ":"@) {
        TokenKind::Colon
    } else if spells(w, ":>"@) {
        TokenKind::ColonGt
    } else if spells(w, "|"@) {
        TokenKind::Bar
    } else if spells(w, "="@) {
        TokenKind::Eq
    } else if spells(w, "=>"@) {
        TokenKind::EqGt
    } else if spells(w, "->"@) {
        TokenKind::MinusGt
    } else if spells(w, "#"@) {
        TokenKind::Hash
    } else if spells(w, "*"@) {
        TokenKind::Star
    } else {
        TokenKind::Name
    }
}

/// The token that a byte is by itself, if it is one.
pub open spec fn punct_kind(b: u8) -> Option<TokenKind> {
    if b == LROUND {
        Some(TokenKind::LRound)
    } else if b == RROUND {
        Some(TokenKind::RRound)
    } else if b == LSQUARE {
        Some(TokenKind::LSquare)
    } else if b == RSQUARE {
        Some(TokenKind::RSquare)
    } else if b == LCURLY {
        Some(TokenKind::LCurly)
    } else if b == RCURLY {
        Some(TokenKind::RCurly)
    } else if b == COMMA {
        Some(TokenKind::Comma)
    } else if b == SEMICOLON {
        Some(TokenKind::Semicolon)
    } else if b == DOT {
        Some(TokenKind::Dot)
    } else if b == UNDERSCORE {
        Some(TokenKind::Underscore)
    } else {
        None
    }
}

/// The token that starts at some index: what it is, where it ends, and
/// what is wrong with it.
pub struct Scan {
    pub kind: TokenKind,
    pub end: int,
    pub err: Option<ErrorKind>,
}

/// The first of two errors: `a` if there is one, else `b`.
pub open spec fn first(a: Option<ErrorKind>, b: Option<ErrorKind>) -> Option<ErrorKind> {
    if a is Some {
        a
    } else {
        b
    }
}

/// `Some(e)` when the condition holds.
pub open spec fn when(cond: bool, e: ErrorKind) -> Option<ErrorKind> {
    if cond {
        Some(e)
    } else {
        None
    }
}

/// The number that starts at `i`, where a digit stands, or `~` in front of
/// a digit.
///
/// `0w` starts a word literal, in hexadecimal behind `0wx`; `0x` starts an
/// integer in hexadecimal. Any other number is a run of digits, a real
/// number when a fraction behind `.` or an exponent behind `e` or `E`
/// follows; the exponent may start with `~`. Behind each of these marks at
/// least one digit must stand.
pub open spec fn number(s: Seq<u8>, i: int) -> Scan {
    let neg = at_is(s, i, TILDE);
    let j = if neg {
        i + 1
    } else {
        i
    };
    if at_is(s, j, ZERO) && at_is(s, j + 1, LOWER_W) {
        let hex = at_is(s, j + 2, LOWER_X);
        let ds = if hex {
            j + 3
        } else {
            j + 2
        };
        let e = span_end(
            s,
            ds,
            if hex {
                Class::Hex
            } else {
                Class::Digit
            },
        );
        Scan {
            kind: TokenKind::WordLit,
            end: e,
            err: first(
                when(e == ds, ErrorKind::InvalidNumeric),
                when(neg, ErrorKind::NegativeWord),
            ),
        }
    } else if at_is(s, j, ZERO) && at_is(s, j + 1, LOWER_X) {
        let e = span_end(s, j + 2, Class::Hex);
        Scan { kind: TokenKind::IntLit, end: e, err: when(e == j + 2, ErrorKind::InvalidNumeric) }
    } else {
        let e1 = span_end(s, j, Class::Digit);
        let frac = at_is(s, e1, DOT);
        let e2 = if frac {
            span_end(s, e1 + 1, Class::Digit)
        } else {
            e1
        };
        let exp = at_is(s, e2, LOWER_E) || at_is(s, e2, UPPER_E);
        let k = if exp {
            if at_is(s, e2 + 1, TILDE) {
                e2 + 2
            } else {
                e2 + 1
            }
        } else {
            e2
        };
        let e3 = if exp {
            span_end(s, k, Class::Digit)
        } else {
            e2
        };
        Scan {
            kind: if frac || exp {
                TokenKind::RealLit
            } else {
                TokenKind::IntLit
            },
            end: e3,
            err: when((frac && e2 == e1 + 1) || (exp && e3 == k), ErrorKind::InvalidNumeric),
        }
    }
}

/// The escape that the `\` at `j` starts: how many bytes it takes, and
/// whether it stands for a character. Nothing when it starts no escape.
///
/// The escapes are `\a \b \t \n \v \f \r \" \\`, `\^` with a byte from `@`
/// to `_`, `\` with three digits, `\u` with four hexadecimal digits, and a
/// gap: blanks between two `\`, which stand for nothing.
pub open spec fn escape(s: Seq<u8>, j: int) -> Option<(int, bool)> {
    match at(s, j + 1) {
        None => None,
        Some(c) => if c == 97 || c == 98 || c == 116 || c == 110 || c == 118 || c == 102 || c
            == 114 || c == QUOTE || c == BACKSLASH {
            Some((2, true))
        } else if c == CARET {
            match at(s, j + 2) {
                Some(d) => if 64 <= d && d <= 95 {
                    Some((3, true))
                } else {
                    None
                },
                None => None,
            }
        } else if c == LOWER_U {
            if at_in(s, j + 2, Class::Hex) && at_in(s, j + 3, Class::Hex) && at_in(
                s,
                j + 4,
                Class::Hex,
            ) && at_in(s, j + 5, Class::Hex) {
                Some((6, true))
            } else {
                None
            }
        } else if is_digit(c) {
            if at_in(s, j + 2, Class::Digit) && at_in(s, j + 3, Class::Digit) {
                Some((4, true))
            } else {
                None
            }
        } else if is_space(c) {
            let e = span_end(s, j + 1, Class::Space);
            if at_is(s, e, BACKSLASH) {
                Some((e + 1 - j, false))
            } else {
                None
            }
        } else {
            None
        },
    }
}

/// Where a string ends, how many characters it holds, and what is wrong
/// with it.
pub struct StrScan {
    pub end: int,
    pub count: nat,
    pub err: Option<ErrorKind>,
}

/// The rest of a string from `j` on, with `count` characters and the error
/// `err` so far. The string ends behind the next `"`. It also ends, unclosed,
/// in front of a line feed and at the end of the text. A `\` that starts no
/// escape is an error, and counts for nothing.
pub open spec fn string_scan(s: Seq<u8>, j: int, count: nat, err: Option<ErrorKind>) -> StrScan
    decreases s.len() - j,
{
    if j < 0 || j >= s.len() {
        StrScan { end: s.len() as int, count, err: first(err, Some(ErrorKind::UnclosedString)) }
    } else if s[j] == QUOTE {
        StrScan { end: j + 1, count, err }
    } else if s[j] == LINE_FEED {
        StrScan { end: j, count, err: first(err, Some(ErrorKind::UnclosedString)) }
    } else if s[j] == BACKSLASH {
        match escape(s, j) {
            Some((n, counts)) => if n > 0 && j + n <= s.len() {
                string_scan(
                    s,
                    j + n,
                    if counts {
                        count + 1
                    } else {
                        count
                    },
                    err,
                )
            } else {
                StrScan { end: s.len() as int, count, err }
            },
            None => string_scan(s, j + 1, count, first(err, Some(ErrorKind::UnknownEscape))),
        }
    } else {
        string_scan(s, j + 1, count + 1, err)
    }
}

/// The token that starts at `i`.
///
/// Blanks make one token, as far as they go. `(*` opens a comment, which
/// runs to the matching `*)`, or to the end of the text when nothing closes
/// it. A letter starts a word, and a digit, or `~` in front of one, a
/// number. `'` starts a type variable, `"` a string, `#"` a character. A
/// symbol starts a run of symbols. `...` is one token, and the brackets, the
/// comma, the semicolon, the dot and `_` are tokens by themselves. Any other
/// byte is invalid.
pub open spec fn next_token(s: Seq<u8>, i: int) -> Scan
    recommends
        0 <= i < s.len(),
{
    let c = s[i];
    if is_space(c) {
        Scan { kind: TokenKind::Whitespace, end: span_end(s, i + 1, Class::Space), err: None }
    } else if c == LROUND && at_is(s, i + 1, STAR) {
        match comment_end(s, i + 2, 0) {
            Some(e) => Scan { kind: TokenKind::BlockComment, end: e, err: None },
            None => Scan {
                kind: TokenKind::BlockComment,
                end: s.len() as int,
                err: Some(ErrorKind::UnclosedComment),
            },
        }
    } else if is_alpha(c) {
        let e = span_end(s, i + 1, Class::Ident);
        Scan { kind: word_kind(s.subrange(i, e)), end: e, err: None }
    } else if is_digit(c) || (c == TILDE && at_in(s, i + 1, Class::Digit)) {
        number(s, i)
    } else if c == TICK {
        let e = span_end(s, i + 1, Class::Ident);
        Scan { kind: TokenKind::TyVar, end: e, err: when(e == i + 1, ErrorKind::IncompleteTyVar) }
    } else if c == QUOTE {
        let r = string_scan(s, i + 1, 0, None);
        Scan { kind: TokenKind::StringLit, end: r.end, err: r.err }
    } else if c == HASH && at_is(s, i + 1, QUOTE) {
        let r = string_scan(s, i + 2, 0, None);
        Scan {
            kind: TokenKind::CharLit,
            end: r.end,
            err: first(r.err, when(r.count != 1, ErrorKind::CharLen)),
        }
    } else if is_symbolic(c) {
        let e = span_end(s, i + 1, Class::Symbolic);
        Scan { kind: symbol_kind(s.subrange(i, e)), end: e, err: None }
    } else if c == DOT && at_is(s, i + 1, DOT) && at_is(s, i + 2, DOT) {
        Scan { kind: TokenKind::DotDotDot, end: i + 3, err: None }
    } else {
        match punct_kind(c) {
            Some(kind) => Scan { kind, end: i + 1, err: None },
            None => Scan { kind: TokenKind::Invalid, end: i + 1, err: Some(ErrorKind::InvalidSource) },
        }
    }
}

/// The bytes that an error in the token from `i` to `end` is about: the
/// token, or the `(*` of a comment that nothing closes.
pub open spec fn error_range(kind: ErrorKind, i: int, end: int) -> TextRange {
    TextRange {
        start: i as u32,
        end: if kind == ErrorKind::UnclosedComment {
            (i + 2) as u32
        } else {
            end as u32
        },
    }
}

/// The errors with that of a token, if it has one.
pub open spec fn with_error(errors: Seq<Error>, scan: Scan, i: int) -> Seq<Error> {
    match scan.err {
        Some(kind) => errors.push(Error { kind, range: error_range(kind, i, scan.end) }),
        None => errors,
    }
}

/// The tokens and the errors of the text from `i` on, behind those that
/// were found before `i`.
pub open spec fn lex_from(s: Seq<u8>, i: int, tokens: Seq<Token>, errors: Seq<Error>) -> (
    Seq<Token>,
    Seq<Error>,
)
    decreases s.len() - i,
{
    if i < 0 || i >= s.len() {
        (tokens, errors)
    } else {
        let scan = next_token(s, i);
        let token = Token { kind: scan.kind, range: TextRange { start: i as u32, end: scan.end as u32 } };
        if i < scan.end <= s.len() {
            lex_from(s, scan.end, tokens.push(token), with_error(errors, scan, i))
        } else {
            (tokens, errors)
        }
    }
}

/// The tokens and the errors of a text.
pub open spec fn lex_spec(s: Seq<u8>) -> (Seq<Token>, Seq<Error>) {
    lex_from(s, 0, Seq::empty(), Seq::empty())
}

/// What an error says.
pub open spec fn error_text(kind: ErrorKind) -> Seq<char> {
    match kind {
        ErrorKind::InvalidSource => "invalid source character"@,
        ErrorKind::UnclosedComment => "unclosed comment"@,
        ErrorKind::IncompleteTyVar => "incomplete type variable"@,
        ErrorKind::InvalidNumeric => "incomplete literal"@,
        ErrorKind::UnclosedString => "unclosed string literal"@,
        ErrorKind::UnknownEscape => "invalid string escape"@,
        ErrorKind::NegativeWord => "negative word literal"@,
        ErrorKind::CharLen => "character literal must have length 1"@,
    }
}

/// The code of an error.
pub open spec fn code_of(kind: ErrorKind) -> u16 {
    match kind {
        ErrorKind::InvalidSource => 2001,
        ErrorKind::UnclosedComment => 2002,
        ErrorKind::IncompleteTyVar => 2003,
        ErrorKind::InvalidNumeric => 2004,
        ErrorKind::UnclosedString => 2005,
        ErrorKind::UnknownEscape => 2006,
        ErrorKind::NegativeWord => 2007,
        ErrorKind::CharLen => 2008,
    }
}

impl ErrorKind {
    /// What the error says.
    pub fn message(&self) -> (r: String)
        ensures
            r@ == error_text(*self),
    {
        match self {
            ErrorKind::InvalidSource => String::from_str("invalid source character"),
            ErrorKind::UnclosedComment => String::from_str("unclosed comment"),
            ErrorKind::IncompleteTyVar => String::from_str("incomplete type variable"),
            ErrorKind::InvalidNumeric => String::from_str("incomplete literal"),
            ErrorKind::UnclosedString => String::from_str("unclosed string literal"),
            ErrorKind::UnknownEscape => String::from_str("invalid string escape"),
            ErrorKind::NegativeWord => String::from_str("negative word literal"),
            ErrorKind::CharLen => String::from_str("character literal must have length 1"),
        }
    }

    /// The code of the error.
    pub fn code(&self) -> (r: u16)
        ensures
            r == code_of(*self),
    {
        match self {
            ErrorKind::InvalidSource => 2001,
            ErrorKind::UnclosedComment => 2002,
            ErrorKind::IncompleteTyVar => 2003,
            ErrorKind::InvalidNumeric => 2004,
            ErrorKind::UnclosedString => 2005,
            ErrorKind::UnknownEscape => 2006,
            ErrorKind::NegativeWord => 2007,
            ErrorKind::CharLen => 2008,
        }
    }
}

/// A run ends at or behind its start, and within the text.
pub proof fn lemma_span_end(s: Seq<u8>, from: int, class: Class)
    requires
        0 <= from <= s.len(),
    ensures
        from <= span_end(s, from, class) <= s.len(),
    decreases s.len() - from,
{
    if from < s.len() && class_has(class, s[from]) {
        lemma_span_end(s, from + 1, class);
    }
}

/// A comment that is closed ends behind its start, and within the text.
pub proof fn lemma_comment_end(s: Seq<u8>, from: int, depth: nat)
    requires
        0 <= from <= s.len(),
    ensures
        comment_end(s, from, depth) matches Some(e) ==> from + 2 <= e <= s.len(),
    decreases s.len() - from,
{
    if from + 1 < s.len() {
        if s[from] == STAR && s[from + 1] == RROUND {
            if depth > 0 {
                lemma_comment_end(s, from + 2, (depth - 1) as nat);
            }
        } else if s[from] == LROUND && s[from + 1] == STAR {
            lemma_comment_end(s, from + 2, depth + 1);
        } else {
            lemma_comment_end(s, from + 1, depth);
        }
    }
}

/// An escape takes at least two bytes, all of the text.
pub proof fn lemma_escape(s: Seq<u8>, j: int)
    requires
        0 <= j < s.len(),
    ensures
        escape(s, j) matches Some((n, _)) ==> 2 <= n && j + n <= s.len(),
{
    if at(s, j + 1) matches Some(c) && is_space(c) {
        lemma_span_end(s, j + 1, Class::Space);
    }
}

/// A string ends at or behind the index from which it is read, and within
/// the text.
pub proof fn lemma_string_scan(s: Seq<u8>, j: int, count: nat, err: Option<ErrorKind>)
    requires
        0 <= j <= s.len(),
    ensures
        j <= string_scan(s, j, count, err).end <= s.len(),
    decreases s.len() - j,
{
    if j < s.len() && s[j] != QUOTE && s[j] != LINE_FEED {
        if s[j] == BACKSLASH {
            lemma_escape(s, j);
            match escape(s, j) {
                Some((n, counts)) => {
                    lemma_string_scan(
                        s,
                        j + n,
                        if counts {
                            count + 1
                        } else {
                            count
                        },
                        err,
                    );
                },
                None => {
                    lemma_string_scan(s, j + 1, count, first(err, Some(ErrorKind::UnknownEscape)));
                },
            }
        } else {
            lemma_string_scan(s, j + 1, count + 1, err);
        }
    }
}

/// A number ends behind its start, and within the text.
pub proof fn lemma_number(s: Seq<u8>, i: int)
    requires
        0 <= i < s.len(),
        is_digit(s[i]) || (s[i] == TILDE && at_in(s, i + 1, Class::Digit)),
    ensures
        i < number(s, i).end <= s.len(),
{
    let neg = at_is(s, i, TILDE);
    let j = if neg {
        i + 1
    } else {
        i
    };
    assert(is_digit(s[j]));
    if at_is(s, j, ZERO) && at_is(s, j + 1, LOWER_W) {
        let hex = at_is(s, j + 2, LOWER_X);
        let ds = if hex {
            j + 3
        } else {
            j + 2
        };
        lemma_span_end(
            s,
            ds,
            if hex {
                Class::Hex
            } else {
                Class::Digit
            },
        );
    } else if at_is(s, j, ZERO) && at_is(s, j + 1, LOWER_X) {
        lemma_span_end(s, j + 2, Class::Hex);
    } else {
        lemma_span_end(s, j + 1, Class::Digit);
        let e1 = span_end(s, j, Class::Digit);
        assert(e1 == span_end(s, j + 1, Class::Digit));
        let frac = at_is(s, e1, DOT);
        if frac {
            lemma_span_end(s, e1 + 1, Class::Digit);
        }
        let e2 = if frac {
            span_end(s, e1 + 1, Class::Digit)
        } else {
            e1
        };
        let exp = at_is(s, e2, LOWER_E) || at_is(s, e2, UPPER_E);
        if exp {
            let k = if at_is(s, e2 + 1, TILDE) {
                e2 + 2
            } else {
                e2 + 1
            };
            lemma_span_end(s, k, Class::Digit);
        }
    }
}

/// Every token ends behind its start, and within the text.
pub proof fn lemma_next_token(s: Seq<u8>, i: int)
    requires
        0 <= i < s.len(),
    ensures
        i < next_token(s, i).end <= s.len(),
        next_token(s, i).err == Some(ErrorKind::UnclosedComment) ==> i + 2 <= s.len(),
{
    let c = s[i];
    if is_space(c) {
        lemma_span_end(s, i + 1, Class::Space);
    } else if c == LROUND && at_is(s, i + 1, STAR) {
        lemma_comment_end(s, i + 2, 0);
    } else if is_alpha(c) {
        lemma_span_end(s, i + 1, Class::Ident);
    } else if is_digit(c) || (c == TILDE && at_in(s, i + 1, Class::Digit)) {
        lemma_number(s, i);
        assert(number(s, i).err != Some(ErrorKind::UnclosedComment));
    } else if c == TICK {
        lemma_span_end(s, i + 1, Class::Ident);
    } else if c == QUOTE {
        lemma_string_scan(s, i + 1, 0, None);
        lemma_string_errors(s, i + 1, 0, None);
    } else if c == HASH && at_is(s, i + 1, QUOTE) {
        lemma_string_scan(s, i + 2, 0, None);
        lemma_string_errors(s, i + 2, 0, None);
    } else if is_symbolic(c) {
        lemma_span_end(s, i + 1, Class::Symbolic);
    } else {
    }
}

/// A string is never in error for a comment.
pub proof fn lemma_string_errors(s: Seq<u8>, j: int, count: nat, err: Option<ErrorKind>)
    requires
        0 <= j <= s.len(),
        err != Some(ErrorKind::UnclosedComment),
    ensures
        string_scan(s, j, count, err).err != Some(ErrorKind::UnclosedComment),
    decreases s.len() - j,
{
    if j < s.len() && s[j] != QUOTE && s[j] != LINE_FEED {
        if s[j] == BACKSLASH {
            lemma_escape(s, j);
            match escape(s, j) {
                Some((n, counts)) => {
                    lemma_string_errors(
                        s,
                        j + n,
                        if counts {
                            count + 1
                        } else {
                            count
                        },
                        err,
                    );
                },
                None => {
                    lemma_string_errors(s, j + 1, count, first(err, Some(ErrorKind::UnknownEscape)));
                },
            }
        } else {
            lemma_string_errors(s, j + 1, count + 1, err);
        }
    }
}

/// Whether the tokens follow each other without a gap from the byte `from`
/// to the byte `to`, and none of them is empty.
pub open spec fn tiles(tokens: Seq<Token>, from: int, to: int) -> bool
    decreases tokens.len(),
{
    if tokens.len() == 0 {
        from == to
    } else {
        let last = tokens.last();
        last.range.end == to && last.range.start < last.range.end && tiles(
            tokens.drop_last(),
            from,
            last.range.start as int,
        )
    }
}

/// Whether every error is about bytes of a text of `len` bytes.
pub open spec fn errors_within(errors: Seq<Error>, len: int) -> bool {
    forall|k: int|
        0 <= k < errors.len() ==> (#[trigger] errors[k]).range.start <= errors[k].range.end
            <= len
}

/// Lexing from `i` on keeps what holds of the tokens and the errors before
/// `i`: the tokens tile the text, and the errors lie within it.
pub proof fn lemma_lex_from(s: Seq<u8>, i: int, tokens: Seq<Token>, errors: Seq<Error>)
    requires
        s.len() <= u32::MAX,
        0 <= i <= s.len(),
        tiles(tokens, 0, i),
        errors_within(errors, s.len() as int),
    ensures
        tiles(lex_from(s, i, tokens, errors).0, 0, s.len() as int),
        errors_within(lex_from(s, i, tokens, errors).1, s.len() as int),
    decreases s.len() - i,
{
    if i < s.len() {
        let scan = next_token(s, i);
        lemma_next_token(s, i);
        let token = Token { kind: scan.kind, range: TextRange { start: i as u32, end: scan.end as u32 } };
        let tokens2 = tokens.push(token);
        assert(tokens2.drop_last() == tokens);
        assert(tiles(tokens2, 0, scan.end));
        let errors2 = with_error(errors, scan, i);
        assert(errors_within(errors2, s.len() as int));
        lemma_lex_from(s, scan.end, tokens2, errors2);
    }
}

/// The tokens of a text tile it: the first token starts at the first byte,
/// each token starts where the one before it ends, the last token ends with
/// the text, and no token is empty.
pub proof fn law_tokens_tile(s: Seq<u8>)
    requires
        s.len() <= u32::MAX,
    ensures
        tiles(lex_spec(s).0, 0, s.len() as int),
{
    lemma_lex_from(s, 0, Seq::empty(), Seq::empty());
}

/// Every error of the lexer is about bytes of the text.
pub proof fn law_errors_within(s: Seq<u8>)
    requires
        s.len() <= u32::MAX,
    ensures
        errors_within(lex_spec(s).1, s.len() as int),
{
    lemma_lex_from(s, 0, Seq::empty(), Seq::empty());
}

fn in_class(class: Class, b: u8) -> (r: bool)
    ensures
        r == class_has(class, b),
{
    let digit = ZERO <= b && b <= NINE;
    let alpha = (UPPER_A <= b && b <= UPPER_Z) || (LOWER_A <= b && b <= LOWER_Z);
    match class {
        Class::Space => b == SPACE || (TAB <= b && b <= CARRIAGE_RETURN),
        Class::Digit => digit,
        Class::Hex => digit || (UPPER_A <= b && b <= UPPER_F) || (LOWER_A <= b && b <= LOWER_F),
        Class::Ident => alpha || digit || b == UNDERSCORE || b == TICK,
        Class::Symbolic => b == 33 || (HASH <= b && b <= 38) || b == STAR || b == 43 || b == 45
            || b == 47 || b == 58 || (60 <= b && b <= 64) || b == BACKSLASH || b == CARET || b
            == 96 || b == 124 || b == TILDE,
    }
}

fn has(s: &[u8], i: usize, b: u8) -> (r: bool)
    ensures
        r == at_is(s@, i as int, b),
{
    i < s.len() && s[i] == b
}

fn has_in(s: &[u8], i: usize, class: Class) -> (r: bool)
    ensures
        r == at_in(s@, i as int, class),
{
    i < s.len() && in_class(class, s[i])
}

fn find_span_end(s: &[u8], from: usize, class: Class) -> (r: usize)
    requires
        from <= s.len(),
    ensures
        r == span_end(s@, from as int, class),
        from <= r <= s.len(),
{
    let mut i: usize = from;
    while i < s.len() && in_class(class, s[i])
        invariant
            from <= i <= s.len(),
            span_end(s@, from as int, class) == span_end(s@, i as int, class),
        decreases s.len() - i,
    {
        i += 1;
    }
    i
}

fn find_comment_end(s: &[u8], from: usize) -> (r: Option<usize>)
    requires
        from <= s.len(),
    ensures
        match r {
            Some(e) => comment_end(s@, from as int, 0) == Some(e as int) && from < e <= s.len(),
            None => comment_end(s@, from as int, 0) is None,
        },
{
    let mut i: usize = from;
    let mut depth: usize = 0;
    while i < s.len() && i + 1 < s.len()
        invariant
            from <= i <= s.len(),
            comment_end(s@, from as int, 0) == comment_end(s@, i as int, depth as nat),
            depth <= i,
        decreases s.len() - i,
    {
        if s[i] == STAR && s[i + 1] == RROUND {
            if depth == 0 {
                return Some(i + 2);
            }
            depth -= 1;
            i += 2;
        } else if s[i] == LROUND && s[i + 1] == STAR {
            depth += 1;
            i += 2;
        } else {
            i += 1;
        }
    }
    None
}

/// Whether the bytes `s[from..to]` spell the word.
pub fn word_is(s: &[u8], from: usize, to: usize, word: &str) -> (r: bool)
    requires
        from <= to <= s.len(),
    ensures
        r == spells(s@.subrange(from as int, to as int), word@),
{
    let n = word.unicode_len();
    if to - from != n {
        return false;
    }
    let ghost sub = s@.subrange(from as int, to as int);
    let mut k: usize = 0;
    while k < n
        invariant
            k <= n,
            n == word@.len(),
            from + n == to,
            to <= s.len(),
            sub == s@.subrange(from as int, to as int),
            forall|j: int| 0 <= j < k ==> sub[j] as u32 == word@[j] as u32,
        decreases n - k,
    {
        if s[from + k] as u32 != word.get_char(k) as u32 {
            assert(sub[k as int] == s@[from + k]);
            return false;
        }
        assert(sub[k as int] == s@[from + k]);
        k += 1;
    }
    true
}

fn word_token(s: &[u8], from: usize, to: usize) -> (r: TokenKind)
    requires
        from <= to <= s.len(),
    ensures
        r == word_kind(s@.subrange(from as int, to as int)),
{
    if word_is(s, from, to, "abstype") {
        TokenKind::Abstype
    } else if word_is(s, from, to, "and") {
        TokenKind::And
    } else if word_is(s, from, to, "andalso") {
        TokenKind::Andalso
    } else if word_is(s, from, to, "as") {
        TokenKind::As
    } else if word_is(s, from, to, "case") {
        TokenKind::Case
    } else if word_is(s, from, to, "datatype") {
        TokenKind::Datatype
    } else if word_is(s, from, to, "do") {
        TokenKind::Do
    } else if word_is(s, from, to, "else") {
        TokenKind::Else
    } else if word_is(s, from, to, "end") {
        TokenKind::End
    } else if word_is(s, from, to, "eqtype") {
        TokenKind::Eqtype
    } else if word_is(s, from, to, "exception") {
        TokenKind::Exception
    } else if word_is(s, from, to, "fn") {
        TokenKind::Fn
    } else if word_is(s, from, to, "fun") {
        TokenKind::Fun
    } else if word_is(s, from, to, "functor") {
        TokenKind::Functor
    } else if word_is(s, from, to, "handle") {
        TokenKind::Handle
    } else if word_is(s, from, to, "if") {
        TokenKind::If
    } else if word_is(s, from, to, "in") {
        TokenKind::In
    } else if word_is(s, from, to, "include") {
        TokenKind::Include
    } else if word_is(s, from, to, "infix") {
        TokenKind::Infix
    } else if word_is(s, from, to, "infixr") {
        TokenKind::Infixr
    } else if word_is(s, from, to, "let") {
        TokenKind::Let
    } else if word_is(s, from, to, "local") {
        TokenKind::Local
    } else if word_is(s, from, to, "nonfix") {
        TokenKind::Nonfix
    } else if word_is(s, from, to, "of") {
        TokenKind::Of
    } else if word_is(s, from, to, "op") {
        TokenKind::Op
    } else if word_is(s, from, to, "open") {
        TokenKind::Open
    } else if word_is(s, from, to, "orelse") {
        TokenKind::Orelse
    } else if word_is(s, from, to, "raise") {
        TokenKind::Raise
    } else if word_is(s, from, to, "rec") {
        TokenKind::Rec
    } else if word_is(s, from, to, "sharing") {
        TokenKind::Sharing
    } else if word_is(s, from, to, "sig") {
        TokenKind::Sig
    } else if word_is(s, from, to, "signature") {
        TokenKind::Signature
    } else if word_is(s, from, to, "struct") {
        TokenKind::Struct
    } else if word_is(s, from, to, "structure") {
        TokenKind::Structure
    } else if word_is(s, from, to, "then") {
        TokenKind::Then
    } else if word_is(s, from, to, "type") {
        TokenKind::Type
    } else if word_is(s, from, to, "val") {
        TokenKind::Val
    } else if word_is(s, from, to, "where") {
        TokenKind::Where
    } else if word_is(s, from, to, "while") {
        TokenKind::While
    } else if word_is(s, from, to, "with") {
        TokenKind::With
    } else if word_is(s, from, to, "withtype") {
        TokenKind::Withtype
    } else {
        TokenKind::Name
    }
}

fn symbol_token(s: &[u8], from: usize, to: usize) -> (r: TokenKind)
    requires
        from <= to <= s.len(),
    ensures
        r == symbol_kind(s@.subrange(from as int, to as int)),
{
    if word_is(s, from, to, ":") {
        TokenKind::Colon
    } else if word_is(s, from, to, ":>") {
        TokenKind::ColonGt
    } else if word_is(s, from, to, "|") {
        TokenKind::Bar
    } else if word_is(s, from, to, "=") {
        TokenKind::Eq
    } else if word_is(s, from, to, "=>") {
        TokenKind::EqGt
    } else if word_is(s, from, to, "->") {
        TokenKind::MinusGt
    } else if word_is(s, from, to, "#") {
        TokenKind::Hash
    } else if word_is(s, from, to, "*") {
        TokenKind::Star
    } else {
        TokenKind::Name
    }
}

fn punct_token(b: u8) -> (r: Option<TokenKind>)
    ensures
        r == punct_kind(b),
{
    if b == LROUND {
        Some(TokenKind::LRound)
    } else if b == RROUND {
        Some(TokenKind::RRound)
    } else if b == LSQUARE {
        Some(TokenKind::LSquare)
    } else if b == RSQUARE {
        Some(TokenKind::RSquare)
    } else if b == LCURLY {
        Some(TokenKind::LCurly)
    } else if b == RCURLY {
        Some(TokenKind::RCurly)
    } else if b == COMMA {
        Some(TokenKind::Comma)
    } else if b == SEMICOLON {
        Some(TokenKind::Semicolon)
    } else if b == DOT {
        Some(TokenKind::Dot)
    } else if b == UNDERSCORE {
        Some(TokenKind::Underscore)
    } else {
        None
    }
}

fn scan_number(s: &[u8], i: usize) -> (r: (TokenKind, usize, Option<ErrorKind>))
    requires
        i < s.len(),
        is_digit(s@[i as int]) || (s@[i as int] == TILDE && at_in(s@, i + 1, Class::Digit)),
    ensures
        r.0 == number(s@, i as int).kind,
        r.1 == number(s@, i as int).end,
        r.2 == number(s@, i as int).err,
        i < r.1 <= s.len(),
{
    proof {
        lemma_number(s@, i as int);
    }
    let neg = s[i] == TILDE;
    let j = if neg {
        i + 1
    } else {
        i
    };
    if has(s, j, ZERO) && has(s, j + 1, LOWER_W) {
        let hex = has(s, j + 2, LOWER_X);
        let ds = if hex {
            j + 3
        } else {
            j + 2
        };
        let e = find_span_end(
            s,
            ds,
            if hex {
                Class::Hex
            } else {
                Class::Digit
            },
        );
        let err = if e == ds {
            Some(ErrorKind::InvalidNumeric)
        } else if neg {
            Some(ErrorKind::NegativeWord)
        } else {
            None
        };
        (TokenKind::WordLit, e, err)
    } else if has(s, j, ZERO) && has(s, j + 1, LOWER_X) {
        let e = find_span_end(s, j + 2, Class::Hex);
        let err = if e == j + 2 {
            Some(ErrorKind::InvalidNumeric)
        } else {
            None
        };
        (TokenKind::IntLit, e, err)
    } else {
        let e1 = find_span_end(s, j, Class::Digit);
        let frac = has(s, e1, DOT);
        let e2 = if frac {
            find_span_end(s, e1 + 1, Class::Digit)
        } else {
            e1
        };
        let exp = has(s, e2, LOWER_E) || has(s, e2, UPPER_E);
        let k = if exp {
            if has(s, e2 + 1, TILDE) {
                e2 + 2
            } else {
                e2 + 1
            }
        } else {
            e2
        };
        let e3 = if exp {
            find_span_end(s, k, Class::Digit)
        } else {
            e2
        };
        let kind = if frac || exp {
            TokenKind::RealLit
        } else {
            TokenKind::IntLit
        };
        let err = if (frac && e2 == e1 + 1) || (exp && e3 == k) {
            Some(ErrorKind::InvalidNumeric)
        } else {
            None
        };
        (kind, e3, err)
    }
}

fn escape_at(s: &[u8], j: usize) -> (r: Option<(usize, bool)>)
    requires
        j < s.len(),
    ensures
        match r {
            Some((n, counts)) => escape(s@, j as int) == Some((n as int, counts)) && 2 <= n && j
                + n <= s.len(),
            None => escape(s@, j as int) is None,
        },
{
    proof {
        lemma_escape(s@, j as int);
    }
    if j + 1 >= s.len() {
        return None;
    }
    let c = s[j + 1];
    if c == 97 || c == 98 || c == 116 || c == 110 || c == 118 || c == 102 || c == 114 || c
        == QUOTE || c == BACKSLASH {
        Some((2, true))
    } else if c == CARET {
        if j + 2 < s.len() && 64 <= s[j + 2] && s[j + 2] <= 95 {
            Some((3, true))
        } else {
            None
        }
    } else if c == LOWER_U {
        if s.len() - j > 5 && has_in(s, j + 2, Class::Hex) && has_in(s, j + 3, Class::Hex)
            && has_in(s, j + 4, Class::Hex) && has_in(s, j + 5, Class::Hex) {
            Some((6, true))
        } else {
            None
        }
    } else if in_class(Class::Digit, c) {
        if s.len() - j > 3 && has_in(s, j + 2, Class::Digit) && has_in(s, j + 3, Class::Digit) {
            Some((4, true))
        } else {
            None
        }
    } else if in_class(Class::Space, c) {
        let e = find_span_end(s, j + 1, Class::Space);
        if has(s, e, BACKSLASH) {
            Some((e + 1 - j, false))
        } else {
            None
        }
    } else {
        None
    }
}

fn scan_string(s: &[u8], from: usize) -> (r: (usize, usize, Option<ErrorKind>))
    requires
        from <= s.len(),
    ensures
        r.0 == string_scan(s@, from as int, 0, None).end,
        r.1 == string_scan(s@, from as int, 0, None).count,
        r.2 == string_scan(s@, from as int, 0, None).err,
        from <= r.0 <= s.len(),
{
    let mut j: usize = from;
    let mut count: usize = 0;
    let mut err: Option<ErrorKind> = None;
    while j < s.len()
        invariant
            from <= j <= s.len(),
            count <= j,
            string_scan(s@, from as int, 0, None) == string_scan(s@, j as int, count as nat, err),
        decreases s.len() - j,
    {
        let c = s[j];
        if c == QUOTE {
            return (j + 1, count, err);
        } else if c == LINE_FEED {
            let err = if err.is_some() {
                err
            } else {
                Some(ErrorKind::UnclosedString)
            };
            return (j, count, err);
        } else if c == BACKSLASH {
            match escape_at(s, j) {
                Some((n, counts)) => {
                    if counts {
                        count += 1;
                    }
                    j += n;
                },
                None => {
                    if err.is_none() {
                        err = Some(ErrorKind::UnknownEscape);
                    }
                    j += 1;
                },
            }
        } else {
            count += 1;
            j += 1;
        }
    }
    let err = if err.is_some() {
        err
    } else {
        Some(ErrorKind::UnclosedString)
    };
    (j, count, err)
}

fn scan(s: &[u8], i: usize) -> (r: (TokenKind, usize, Option<ErrorKind>))
    requires
        i < s.len(),
    ensures
        r.0 == next_token(s@, i as int).kind,
        r.1 == next_token(s@, i as int).end,
        r.2 == next_token(s@, i as int).err,
        i < r.1 <= s.len(),
        r.2 == Some(ErrorKind::UnclosedComment) ==> i + 2 <= s.len(),
{
    proof {
        lemma_next_token(s@, i as int);
    }
    let c = s[i];
    if in_class(Class::Space, c) {
        (TokenKind::Whitespace, find_span_end(s, i + 1, Class::Space), None)
    } else if c == LROUND && has(s, i + 1, STAR) {
        match find_comment_end(s, i + 2) {
            Some(e) => (TokenKind::BlockComment, e, None),
            None => (TokenKind::BlockComment, s.len(), Some(ErrorKind::UnclosedComment)),
        }
    } else if (UPPER_A <= c && c <= UPPER_Z) || (LOWER_A <= c && c <= LOWER_Z) {
        let e = find_span_end(s, i + 1, Class::Ident);
        (word_token(s, i, e), e, None)
    } else if in_class(Class::Digit, c) || (c == TILDE && has_in(s, i + 1, Class::Digit)) {
        scan_number(s, i)
    } else if c == TICK {
        let e = find_span_end(s, i + 1, Class::Ident);
        let err = if e == i + 1 {
            Some(ErrorKind::IncompleteTyVar)
        } else {
            None
        };
        (TokenKind::TyVar, e, err)
    } else if c == QUOTE {
        let (e, _count, err) = scan_string(s, i + 1);
        (TokenKind::StringLit, e, err)
    } else if c == HASH && has(s, i + 1, QUOTE) {
        let (e, count, err) = scan_string(s, i + 2);
        let err = if err.is_some() {
            err
        } else if count != 1 {
            Some(ErrorKind::CharLen)
        } else {
            None
        };
        (TokenKind::CharLit, e, err)
    } else if in_class(Class::Symbolic, c) {
        let e = find_span_end(s, i + 1, Class::Symbolic);
        (symbol_token(s, i, e), e, None)
    } else if c == DOT && has(s, i + 1, DOT) && has(s, i + 2, DOT) {
        (TokenKind::DotDotDot, i + 3, None)
    } else {
        match punct_token(c) {
            Some(kind) => (kind, i + 1, None),
            None => (TokenKind::Invalid, i + 1, Some(ErrorKind::InvalidSource)),
        }
    }
}

/// The tokens and the errors of the bytes of a text.
pub fn get_bytes(s: &[u8]) -> (r: Lex)
    requires
        s.len() <= u32::MAX,
    ensures
        r.tokens@ == lex_spec(s@).0,
        r.errors@ == lex_spec(s@).1,
{
    let mut tokens: Vec<Token> = Vec::new();
    let mut errors: Vec<Error> = Vec::new();
    let mut i: usize = 0;
    while i < s.len()
        invariant
            i <= s.len(),
            s.len() <= u32::MAX,
            lex_spec(s@) == lex_from(s@, i as int, tokens@, errors@),
        decreases s.len() - i,
    {
        let (kind, end, err) = scan(s, i);
        tokens.push(Token { kind, range: TextRange { start: i as u32, end: end as u32 } });
        if let Some(e) = err {
            let stop = match e {
                ErrorKind::UnclosedComment => i + 2,
                _ => end,
            };
            errors.push(Error { kind: e, range: TextRange { start: i as u32, end: stop as u32 } });
        }
        i = end;
    }
    Lex { tokens, errors }
}

/// The tokens and the errors of a text. The ranges are in bytes of the
/// text in UTF-8.
pub fn get(text: &str) -> (r: Lex)
    requires
        vstd::utf8::encode_utf8(text@).len() <= u32::MAX,
    ensures
        r.tokens@ == lex_spec(vstd::utf8::encode_utf8(text@)).0,
        r.errors@ == lex_spec(vstd::utf8::encode_utf8(text@)).1,
{
    get_bytes(text.as_bytes())
}

} // verus!

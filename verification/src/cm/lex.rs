//! The lexer of group files: from text to tokens.
//!
//! Blanks separate tokens. A comment runs from `;` to the end of the line,
//! or from `(*` to the matching `*)`. Round brackets and the colon are
//! tokens of their own. Every other run of characters is a word: a keyword,
//! `-`, or a string.

use crate::cm::path_var::{chars_of, string_of};
use crate::cm::types::{Error, ErrorKey, ErrorKind, ErrorKindKey, Token, TokenKey, WithRange};
use crate::cm::parse::token_keys;
use crate::text::{str_eq, TextRange};
use vstd::prelude::*;

verus! {

/// The number of bytes of a character in UTF-8.
pub open spec fn char_len(c: char) -> nat {
    if (c as u32) < 0x80 {
        1
    } else if (c as u32) < 0x800 {
        2
    } else if (c as u32) < 0x10000 {
        3
    } else {
        4
    }
}

/// The number of bytes of the characters `s[..i]` in UTF-8: the byte offset
/// of the character at `i`.
pub open spec fn offset_of(s: Seq<char>, i: int) -> nat
    decreases i,
{
    if i <= 0 {
        0
    } else {
        offset_of(s, i - 1) + char_len(s[i - 1])
    }
}

/// The range of the characters `s[i..j]`, in bytes.
pub open spec fn range_of(s: Seq<char>, i: int, j: int) -> TextRange {
    TextRange { start: offset_of(s, i) as u32, end: offset_of(s, j) as u32 }
}

pub open spec fn is_space(c: char) -> bool {
    c == ' ' || c == '\t' || c == '\n' || c == '\r' || c == '\x0c'
}

/// Whether the character ends a word.
pub open spec fn is_delim(c: char) -> bool {
    is_space(c) || c == '(' || c == ')' || c == ':' || c == ';'
}

/// The first index at or after `from` that holds a line feed, or the end.
pub open spec fn line_end(s: Seq<char>, from: int) -> int
    decreases s.len() - from,
{
    if from < 0 || from >= s.len() {
        s.len() as int
    } else if s[from] == '\n' {
        from
    } else {
        line_end(s, from + 1)
    }
}

/// The first index at or after `from` that ends a word, or the end.
pub open spec fn word_end(s: Seq<char>, from: int) -> int
    decreases s.len() - from,
{
    if from < 0 || from >= s.len() {
        s.len() as int
    } else if is_delim(s[from]) {
        from
    } else {
        word_end(s, from + 1)
    }
}

/// The index behind the `*)` that closes the comment which is open at
/// `from`, with `depth` more comments open around it; nothing when the text
/// ends before that.
pub open spec fn comment_end(s: Seq<char>, from: int, depth: nat) -> Option<int>
    decreases s.len() - from,
{
    if from < 0 || from + 1 >= s.len() {
        None
    } else if s[from] == '*' && s[from + 1] == ')' {
        if depth == 0 {
            Some(from + 2)
        } else {
            comment_end(s, from + 2, (depth - 1) as nat)
        }
    } else if s[from] == '(' && s[from + 1] == '*' {
        comment_end(s, from + 2, depth + 1)
    } else {
        comment_end(s, from + 1, depth)
    }
}

/// The token that a word is.
pub open spec fn word_key(w: Seq<char>) -> TokenKey {
    if w == "structure"@ {
        TokenKey::Structure
    } else if w == "signature"@ {
        TokenKey::Signature
    } else if w == "functor"@ {
        TokenKey::Functor
    } else if w == "funsig"@ {
        TokenKey::FunSig
    } else if w == "group"@ || w == "Group"@ || w == "GROUP"@ {
        TokenKey::Group
    } else if w == "library"@ || w == "Library"@ || w == "LIBRARY"@ {
        TokenKey::Library
    } else if w == "source"@ || w == "Source"@ || w == "SOURCE"@ {
        TokenKey::Source
    } else if w == "is"@ || w == "IS"@ {
        TokenKey::Is
    } else if w == "-"@ {
        TokenKey::Minus
    } else {
        TokenKey::String(w)
    }
}

/// The tokens of `s[i..]`, behind `acc`, or the first error.
pub open spec fn lex_from(s: Seq<char>, i: int, acc: Seq<WithRange<TokenKey>>) -> Result<
    Seq<WithRange<TokenKey>>,
    ErrorKey,
>
    decreases s.len() - i,
{
    if i < 0 || i >= s.len() {
        Ok(acc)
    } else if is_space(s[i]) {
        lex_from(s, i + 1, acc)
    } else if s[i] == ';' {
        let e = line_end(s, i + 1);
        if i < e <= s.len() {
            lex_from(s, e, acc)
        } else {
            Ok(acc)
        }
    } else if s[i] == '(' && i + 1 < s.len() && s[i + 1] == '*' {
        match comment_end(s, i + 2, 0) {
            None => Err(ErrorKey { kind: ErrorKindKey::UnclosedComment, range: range_of(s, i, i + 2) }),
            Some(e) => if i < e <= s.len() {
                lex_from(s, e, acc)
            } else {
                Ok(acc)
            },
        }
    } else if s[i] == '(' {
        lex_from(s, i + 1, acc.push(WithRange { val: TokenKey::LRound, range: range_of(s, i, i + 1) }))
    } else if s[i] == ')' {
        lex_from(s, i + 1, acc.push(WithRange { val: TokenKey::RRound, range: range_of(s, i, i + 1) }))
    } else if s[i] == ':' {
        lex_from(s, i + 1, acc.push(WithRange { val: TokenKey::Colon, range: range_of(s, i, i + 1) }))
    } else {
        let e = word_end(s, i + 1);
        let tok = WithRange { val: word_key(s.subrange(i, e)), range: range_of(s, i, e) };
        if i < e <= s.len() {
            lex_from(s, e, acc.push(tok))
        } else {
            Ok(acc.push(tok))
        }
    }
}

/// The tokens of a text, or the first error.
pub open spec fn lex_spec(s: Seq<char>) -> Result<Seq<WithRange<TokenKey>>, ErrorKey> {
    lex_from(s, 0, Seq::empty())
}

/// Offsets grow with the index.
pub proof fn lemma_offset_monotonic(s: Seq<char>, i: int, j: int)
    requires
        i <= j,
    ensures
        offset_of(s, i) <= offset_of(s, j),
    decreases j - i,
{
    if i < j {
        lemma_offset_monotonic(s, i, j - 1);
    }
}

fn len_of(c: char) -> (r: u32)
    ensures
        r == char_len(c),
{
    let u = c as u32;
    if u < 0x80 {
        1
    } else if u < 0x800 {
        2
    } else if u < 0x10000 {
        3
    } else {
        4
    }
}

fn offset_to(s: &Vec<char>, from: usize, to: usize, off: u32) -> (r: u32)
    requires
        from <= to <= s.len(),
        off == offset_of(s@, from as int),
        offset_of(s@, s.len() as int) <= u32::MAX,
    ensures
        r == offset_of(s@, to as int),
{
    let mut i: usize = from;
    let mut cur: u32 = off;
    while i < to
        invariant
            from <= i <= to,
            to <= s.len(),
            cur == offset_of(s@, i as int),
            offset_of(s@, s.len() as int) <= u32::MAX,
        decreases to - i,
    {
        proof {
            lemma_offset_monotonic(s@, i + 1, s.len() as int);
        }
        cur = cur + len_of(s[i]);
        i += 1;
    }
    cur
}

fn space(c: char) -> (r: bool)
    ensures
        r == is_space(c),
{
    c == ' ' || c == '\t' || c == '\n' || c == '\r' || c == '\x0c'
}

fn find_line_end(s: &Vec<char>, from: usize) -> (r: usize)
    requires
        from <= s.len(),
    ensures
        r == line_end(s@, from as int),
        from <= r <= s.len(),
{
    let mut i: usize = from;
    while i < s.len() && s[i] != '\n'
        invariant
            from <= i <= s.len(),
            line_end(s@, from as int) == line_end(s@, i as int),
        decreases s.len() - i,
    {
        i += 1;
    }
    i
}

fn find_word_end(s: &Vec<char>, from: usize) -> (r: usize)
    requires
        from <= s.len(),
    ensures
        r == word_end(s@, from as int),
        from <= r <= s.len(),
{
    let mut i: usize = from;
    while i < s.len() && !(space(s[i]) || s[i] == '(' || s[i] == ')' || s[i] == ':' || s[i] == ';')
        invariant
            from <= i <= s.len(),
            word_end(s@, from as int) == word_end(s@, i as int),
        decreases s.len() - i,
    {
        i += 1;
    }
    i
}

fn find_comment_end(s: &Vec<char>, from: usize) -> (r: Option<usize>)
    requires
        from <= s.len(),
    ensures
        match r {
            Some(e) => comment_end(s@, from as int, 0) == Some(e as int) && from < e <= s.len(),
            None => comment_end(s@, from as int, 0) is None,
        },
{
    let mut i: usize = from;
    let mut depth: usize = 0;
    while i < s.len() && i + 1 < s.len()
        invariant
            from <= i <= s.len(),
            comment_end(s@, from as int, 0) == comment_end(s@, i as int, depth as nat),
            depth <= i,
        decreases s.len() - i,
    {
        if s[i] == '*' && s[i + 1] == ')' {
            if depth == 0 {
                return Some(i + 2);
            }
            depth -= 1;
            i += 2;
        } else if s[i] == '(' && s[i + 1] == '*' {
            depth += 1;
            i += 2;
        } else {
            i += 1;
        }
    }
    None
}

fn word_token(w: String) -> (r: Token)
    ensures
        r@ == word_key(w@),
{
    let s = w.as_str();
    if str_eq(s, "structure") {
        Token::Structure
    } else if str_eq(s, "signature") {
        Token::Signature
    } else if str_eq(s, "functor") {
        Token::Functor
    } else if str_eq(s, "funsig") {
        Token::FunSig
    } else if str_eq(s, "group") || str_eq(s, "Group") || str_eq(s, "GROUP") {
        Token::Group
    } else if str_eq(s, "library") || str_eq(s, "Library") || str_eq(s, "LIBRARY") {
        Token::Library
    } else if str_eq(s, "source") || str_eq(s, "Source") || str_eq(s, "SOURCE") {
        Token::Source
    } else if str_eq(s, "is") || str_eq(s, "IS") {
        Token::Is
    } else if str_eq(s, "-") {
        Token::Minus
    } else {
        Token::String(w)
    }
}

/// The tokens of the characters of a text, or the first error. The ranges
/// are in bytes of the text in UTF-8.
pub fn get_chars(s: &Vec<char>) -> (r: Result<Vec<WithRange<Token>>, Error>)
    requires
        offset_of(s@, s.len() as int) <= u32::MAX,
    ensures
        match lex_spec(s@) {
            Ok(keys) => r is Ok && token_keys(r->Ok_0@) == keys,
            Err(e) => r is Err && r->Err_0@ == e,
        },
{
    let mut out: Vec<WithRange<Token>> = Vec::new();
    let mut i: usize = 0;
    let mut off: u32 = 0;
    assert(token_keys(out@) =~= Seq::<WithRange<TokenKey>>::empty());
    while i < s.len()
        invariant
            i <= s.len(),
            off == offset_of(s@, i as int),
            offset_of(s@, s.len() as int) <= u32::MAX,
            lex_spec(s@) == lex_from(s@, i as int, token_keys(out@)),
        decreases s.len() - i,
    {
        let c = s[i];
        let ghost before = token_keys(out@);
        if space(c) {
            off = offset_to(s, i, i + 1, off);
            i += 1;
        } else if c == ';' {
            let e = find_line_end(s, i + 1);
            off = offset_to(s, i, e, off);
            i = e;
        } else if c == '(' && i + 1 < s.len() && s[i + 1] == '*' {
            match find_comment_end(s, i + 2) {
                None => {
                    let end = offset_to(s, i, i + 2, off);
                    return Err(
                        Error::new(ErrorKind::UnclosedComment, TextRange { start: off, end }),
                    );
                },
                Some(e) => {
                    off = offset_to(s, i, e, off);
                    i = e;
                },
            }
        } else if c == '(' || c == ')' || c == ':' {
            let end = offset_to(s, i, i + 1, off);
            let val = if c == '(' {
                Token::LRound
            } else if c == ')' {
                Token::RRound
            } else {
                Token::Colon
            };
            out.push(WithRange { val, range: TextRange { start: off, end } });
            assert(token_keys(out@) =~= before.push(
                WithRange { val: val@, range: TextRange { start: off, end } },
            ));
            off = end;
            i += 1;
        } else {
            let e = find_word_end(s, i + 1);
            let end = offset_to(s, i, e, off);
            let val = word_token(string_of(s, i, e));
            out.push(WithRange { val, range: TextRange { start: off, end } });
            assert(token_keys(out@) =~= before.push(
                WithRange { val: val@, range: TextRange { start: off, end } },
            ));
            off = end;
            i = e;
        }
    }
    Ok(out)
}

/// The tokens of a text, or the first error.
pub fn get(s: &str) -> (r: Result<Vec<WithRange<Token>>, Error>)
    requires
        offset_of(s@, s@.len() as int) <= u32::MAX,
    ensures
        match lex_spec(s@) {
            Ok(keys) => r is Ok && token_keys(r->Ok_0@) == keys,
            Err(e) => r is Err && r->Err_0@ == e,
        },
{
    let chars = chars_of(s);
    get_chars(&chars)
}

} // verus!

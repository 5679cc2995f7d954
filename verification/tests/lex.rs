use la_arena::Arena;
use millet::analysis::{lex_errors, Analysis, Lowered, SourceFile, StdBasis};
use millet::diagnostics::{range, Position, Range};
use millet::hir::Arenas;
use millet::lex::{get, get_bytes, ErrorKind, TokenKind};
use millet::text::TextRange;

/// The kinds of the tokens of a text that are neither blanks nor comments,
/// each with its text.
fn tokens(text: &str) -> Vec<(TokenKind, &str)> {
    get(text)
        .tokens
        .iter()
        .filter(|t| !matches!(t.kind, TokenKind::Whitespace | TokenKind::BlockComment))
        .map(|t| (t.kind, &text[t.range.start as usize..t.range.end as usize]))
        .collect()
}

fn errors(text: &str) -> Vec<(ErrorKind, u32, u32)> {
    get(text).errors.iter().map(|e| (e.kind, e.range.start, e.range.end)).collect()
}

fn no_file() -> Lowered {
    Lowered {
        arenas: Arenas {
            str_dec: Arena::new(),
            str_exp: Arena::new(),
            sig_exp: Arena::new(),
            spec: Arena::new(),
            exp: Arena::new(),
            dec: Arena::new(),
            pat: Arena::new(),
            ty: Arena::new(),
        },
        top_decs: Vec::new(),
        ptrs: Vec::new(),
    }
}

// val _ = 0x
// (**     ^^ incomplete literal *)
#[test]
fn num_constant_lexed() {
    let text = "\nval _ = 0x\n(**     ^^ incomplete literal *)\n";
    let errors = lex_errors(text);
    assert_eq!(errors.len(), 1, "{:?}", errors);
    assert_eq!(errors[0].message, "incomplete literal");
    assert_eq!(errors[0].range, TextRange::new(9, 11));
    let at = range(text.as_bytes(), errors[0].range);
    let want = Range {
        start: Position { line: 1, character: 8 },
        end: Position { line: 1, character: 10 },
    };
    assert_eq!(at, Some(want));
    let file = SourceFile::new(text, Vec::new(), no_file());
    let all = Analysis::new(StdBasis::Minimal).get_one(&file);
    assert_eq!(all.len(), 1, "{:?}", all);
    assert_eq!(all[0].message, "incomplete literal");
    assert_eq!(all[0].code, 2004);
}

// datatype ' guh = no
// (**      ^ incomplete type variable *)
#[test]
fn ty_var_lexed() {
    let text = "\ndatatype ' guh = no\n(**      ^ incomplete type variable *)\n";
    let errors = lex_errors(text);
    assert_eq!(errors.len(), 1, "{:?}", errors);
    assert_eq!(errors[0].message, "incomplete type variable");
    assert_eq!(errors[0].range, TextRange::new(10, 11));
    let at = range(text.as_bytes(), errors[0].range);
    let want = Range {
        start: Position { line: 1, character: 9 },
        end: Position { line: 1, character: 10 },
    };
    assert_eq!(at, Some(want));
    assert_eq!(
        tokens(text),
        vec![
            (TokenKind::Datatype, "datatype"),
            (TokenKind::TyVar, "'"),
            (TokenKind::Name, "guh"),
            (TokenKind::Eq, "="),
            (TokenKind::Name, "no"),
        ]
    );
}

#[test]
fn lex_a_declaration() {
    assert_eq!(
        tokens("val x = f (y, 3) handle _ => []"),
        vec![
            (TokenKind::Val, "val"),
            (TokenKind::Name, "x"),
            (TokenKind::Eq, "="),
            (TokenKind::Name, "f"),
            (TokenKind::LRound, "("),
            (TokenKind::Name, "y"),
            (TokenKind::Comma, ","),
            (TokenKind::IntLit, "3"),
            (TokenKind::RRound, ")"),
            (TokenKind::Handle, "handle"),
            (TokenKind::Underscore, "_"),
            (TokenKind::EqGt, "=>"),
            (TokenKind::LSquare, "["),
            (TokenKind::RSquare, "]"),
        ]
    );
    assert!(errors("val x = f (y, 3) handle _ => []").is_empty());
}

#[test]
fn lex_reserved_words() {
    let words = [
        ("abstype", TokenKind::Abstype),
        ("and", TokenKind::And),
        ("andalso", TokenKind::Andalso),
        ("as", TokenKind::As),
        ("case", TokenKind::Case),
        ("datatype", TokenKind::Datatype),
        ("do", TokenKind::Do),
        ("else", TokenKind::Else),
        ("end", TokenKind::End),
        ("eqtype", TokenKind::Eqtype),
        ("exception", TokenKind::Exception),
        ("fn", TokenKind::Fn),
        ("fun", TokenKind::Fun),
        ("functor", TokenKind::Functor),
        ("handle", TokenKind::Handle),
        ("if", TokenKind::If),
        ("in", TokenKind::In),
        ("include", TokenKind::Include),
        ("infix", TokenKind::Infix),
        ("infixr", TokenKind::Infixr),
        ("let", TokenKind::Let),
        ("local", TokenKind::Local),
        ("nonfix", TokenKind::Nonfix),
        ("of", TokenKind::Of),
        ("op", TokenKind::Op),
        ("open", TokenKind::Open),
        ("orelse", TokenKind::Orelse),
        ("raise", TokenKind::Raise),
        ("rec", TokenKind::Rec),
        ("sharing", TokenKind::Sharing),
        ("sig", TokenKind::Sig),
        ("signature", TokenKind::Signature),
        ("struct", TokenKind::Struct),
        ("structure", TokenKind::Structure),
        ("then", TokenKind::Then),
        ("type", TokenKind::Type),
        ("val", TokenKind::Val),
        ("where", TokenKind::Where),
        ("while", TokenKind::While),
        ("with", TokenKind::With),
        ("withtype", TokenKind::Withtype),
    ];
    for (word, kind) in words {
        assert_eq!(tokens(word), vec![(kind, word)]);
        // a longer word is a name
        let longer = format!("{word}'");
        assert_eq!(tokens(&longer), vec![(TokenKind::Name, longer.as_str())]);
    }
    assert_eq!(tokens("value"), vec![(TokenKind::Name, "value")]);
    assert_eq!(tokens("Val"), vec![(TokenKind::Name, "Val")]);
    assert_eq!(tokens("x_1'"), vec![(TokenKind::Name, "x_1'")]);
}

#[test]
fn lex_symbols() {
    assert_eq!(tokens(":"), vec![(TokenKind::Colon, ":")]);
    assert_eq!(tokens(":>"), vec![(TokenKind::ColonGt, ":>")]);
    assert_eq!(tokens("|"), vec![(TokenKind::Bar, "|")]);
    assert_eq!(tokens("="), vec![(TokenKind::Eq, "=")]);
    assert_eq!(tokens("=>"), vec![(TokenKind::EqGt, "=>")]);
    assert_eq!(tokens("->"), vec![(TokenKind::MinusGt, "->")]);
    assert_eq!(tokens("#"), vec![(TokenKind::Hash, "#")]);
    assert_eq!(tokens("::"), vec![(TokenKind::Name, "::")]);
    assert_eq!(tokens("<="), vec![(TokenKind::Name, "<=")]);
    assert_eq!(tokens("*"), vec![(TokenKind::Star, "*")]);
    assert_eq!(tokens("**"), vec![(TokenKind::Name, "**")]);
    assert_eq!(tokens(":="), vec![(TokenKind::Name, ":=")]);
    assert_eq!(
        tokens("a+b"),
        vec![(TokenKind::Name, "a"), (TokenKind::Name, "+"), (TokenKind::Name, "b")]
    );
    assert_eq!(
        tokens("{a, ...}"),
        vec![
            (TokenKind::LCurly, "{"),
            (TokenKind::Name, "a"),
            (TokenKind::Comma, ","),
            (TokenKind::DotDotDot, "..."),
            (TokenKind::RCurly, "}"),
        ]
    );
    assert_eq!(
        tokens("A.b;"),
        vec![
            (TokenKind::Name, "A"),
            (TokenKind::Dot, "."),
            (TokenKind::Name, "b"),
            (TokenKind::Semicolon, ";"),
        ]
    );
    assert_eq!(tokens("#a"), vec![(TokenKind::Hash, "#"), (TokenKind::Name, "a")]);
}

#[test]
fn lex_numbers() {
    assert_eq!(tokens("0"), vec![(TokenKind::IntLit, "0")]);
    assert_eq!(tokens("123"), vec![(TokenKind::IntLit, "123")]);
    assert_eq!(tokens("~3"), vec![(TokenKind::IntLit, "~3")]);
    assert_eq!(tokens("~ 3"), vec![(TokenKind::Name, "~"), (TokenKind::IntLit, "3")]);
    assert_eq!(tokens("0x1F"), vec![(TokenKind::IntLit, "0x1F")]);
    assert_eq!(tokens("~0xa"), vec![(TokenKind::IntLit, "~0xa")]);
    assert_eq!(tokens("0w12"), vec![(TokenKind::WordLit, "0w12")]);
    assert_eq!(tokens("0wxff"), vec![(TokenKind::WordLit, "0wxff")]);
    assert_eq!(tokens("1.5"), vec![(TokenKind::RealLit, "1.5")]);
    assert_eq!(tokens("1e9"), vec![(TokenKind::RealLit, "1e9")]);
    assert_eq!(tokens("1.5E~3"), vec![(TokenKind::RealLit, "1.5E~3")]);
    assert_eq!(tokens("~1.5"), vec![(TokenKind::RealLit, "~1.5")]);
    for ok in ["0", "123", "~3", "0x1F", "0w12", "0wxff", "1.5", "1e9", "1.5E~3"] {
        assert!(errors(ok).is_empty(), "{ok}");
    }
    assert_eq!(errors("0x"), vec![(ErrorKind::InvalidNumeric, 0, 2)]);
    assert_eq!(errors("0w"), vec![(ErrorKind::InvalidNumeric, 0, 2)]);
    assert_eq!(errors("0wx"), vec![(ErrorKind::InvalidNumeric, 0, 3)]);
    assert_eq!(errors("1."), vec![(ErrorKind::InvalidNumeric, 0, 2)]);
    assert_eq!(errors("1e"), vec![(ErrorKind::InvalidNumeric, 0, 2)]);
    assert_eq!(errors("1e~"), vec![(ErrorKind::InvalidNumeric, 0, 3)]);
    assert_eq!(errors("~0w1"), vec![(ErrorKind::NegativeWord, 0, 4)]);
    assert_eq!(errors("~0w"), vec![(ErrorKind::InvalidNumeric, 0, 3)]);
}

#[test]
fn lex_strings_and_characters() {
    assert_eq!(tokens("\"hi\""), vec![(TokenKind::StringLit, "\"hi\"")]);
    assert_eq!(tokens("\"\""), vec![(TokenKind::StringLit, "\"\"")]);
    assert_eq!(tokens("#\"a\""), vec![(TokenKind::CharLit, "#\"a\"")]);
    assert_eq!(tokens("\"a\\\"b\" c"), vec![(TokenKind::StringLit, "\"a\\\"b\""), (TokenKind::Name, "c")]);
    for ok in [
        "\"hi\"",
        "\"\"",
        "#\"a\"",
        "\"\\n\\t\\\\\\\"\"",
        "\"\\^A\"",
        "\"\\065\"",
        "\"\\u00e9\"",
        "\"a\\   \n  \\b\"",
        "#\"\\n\"",
        "#\"\\065\"",
    ] {
        assert!(errors(ok).is_empty(), "{ok}");
    }
    assert_eq!(errors("\"hi"), vec![(ErrorKind::UnclosedString, 0, 3)]);
    assert_eq!(errors("\"hi\nx"), vec![(ErrorKind::UnclosedString, 0, 3)]);
    assert_eq!(errors("\"\\q\""), vec![(ErrorKind::UnknownEscape, 0, 4)]);
    assert_eq!(errors("\"\\06\""), vec![(ErrorKind::UnknownEscape, 0, 5)]);
    assert_eq!(errors("\"\\u12\""), vec![(ErrorKind::UnknownEscape, 0, 6)]);
    assert_eq!(errors("#\"ab\""), vec![(ErrorKind::CharLen, 0, 5)]);
    assert_eq!(errors("#\"\""), vec![(ErrorKind::CharLen, 0, 3)]);
    // a character is one byte
    assert_eq!(errors("#\"\u{e9}\""), vec![(ErrorKind::CharLen, 0, 5)]);
    assert!(errors("\"\u{e9}\"").is_empty());
}

#[test]
fn lex_comments() {
    assert_eq!(tokens("a (* b *) c"), vec![(TokenKind::Name, "a"), (TokenKind::Name, "c")]);
    assert_eq!(tokens("a (* b (* c *) d *) e"), vec![(TokenKind::Name, "a"), (TokenKind::Name, "e")]);
    assert!(errors("(* (* *) *)").is_empty());
    assert_eq!(errors("x (* y"), vec![(ErrorKind::UnclosedComment, 2, 4)]);
    assert_eq!(errors("(* (* *)"), vec![(ErrorKind::UnclosedComment, 0, 2)]);
    assert_eq!(tokens("(*)"), Vec::new());
    assert_eq!(errors("(*)"), vec![(ErrorKind::UnclosedComment, 0, 2)]);
    assert_eq!(tokens("( * )"), vec![
        (TokenKind::LRound, "("),
        (TokenKind::Star, "*"),
        (TokenKind::RRound, ")"),
    ]);
}

#[test]
fn lex_type_variables() {
    assert_eq!(tokens("'a"), vec![(TokenKind::TyVar, "'a")]);
    assert_eq!(tokens("''a"), vec![(TokenKind::TyVar, "''a")]);
    assert_eq!(tokens("'a_1'"), vec![(TokenKind::TyVar, "'a_1'")]);
    assert!(errors("''a").is_empty());
    assert_eq!(errors("' a"), vec![(ErrorKind::IncompleteTyVar, 0, 1)]);
}

#[test]
fn lex_invalid_bytes() {
    // a character outside ASCII is invalid byte by byte
    let lexed = get("a \u{e9} b");
    let kinds: Vec<TokenKind> = lexed
        .tokens
        .iter()
        .map(|t| t.kind)
        .filter(|k| !matches!(k, TokenKind::Whitespace))
        .collect();
    assert_eq!(
        kinds,
        vec![TokenKind::Name, TokenKind::Invalid, TokenKind::Invalid, TokenKind::Name]
    );
    let at: Vec<(ErrorKind, u32, u32)> =
        lexed.errors.iter().map(|e| (e.kind, e.range.start, e.range.end)).collect();
    assert_eq!(at, vec![(ErrorKind::InvalidSource, 2, 3), (ErrorKind::InvalidSource, 3, 4)]);
    let lexed = get_bytes(&[97, 0, 98]);
    let kinds: Vec<TokenKind> = lexed.tokens.iter().map(|t| t.kind).collect();
    assert_eq!(kinds, vec![TokenKind::Name, TokenKind::Invalid, TokenKind::Name]);
    assert_eq!(lexed.errors.len(), 1);
    assert_eq!(lexed.errors[0].kind, ErrorKind::InvalidSource);
    assert_eq!(lexed.errors[0].range, TextRange::new(1, 2));
}

#[test]
fn lex_error_messages_and_codes() {
    let all = [
        (ErrorKind::InvalidSource, "invalid source character", 2001),
        (ErrorKind::UnclosedComment, "unclosed comment", 2002),
        (ErrorKind::IncompleteTyVar, "incomplete type variable", 2003),
        (ErrorKind::InvalidNumeric, "incomplete literal", 2004),
        (ErrorKind::UnclosedString, "unclosed string literal", 2005),
        (ErrorKind::UnknownEscape, "invalid string escape", 2006),
        (ErrorKind::NegativeWord, "negative word literal", 2007),
        (ErrorKind::CharLen, "character literal must have length 1", 2008),
    ];
    for (kind, message, code) in all {
        assert_eq!(kind.message(), message);
        assert_eq!(kind.code(), code);
    }
}

#[test]
fn tokens_tile_the_text() {
    let text = "fun f 0 = \"a\\\n  | f n = (* c *) #\"x\" ^ f (n - 0w)\n\u{e9} 'a ' 1.e";
    let lexed = get(text);
    let mut at = 0u32;
    for t in &lexed.tokens {
        assert_eq!(t.range.start, at);
        assert!(t.range.start < t.range.end);
        at = t.range.end;
    }
    assert_eq!(at as usize, text.len());
    for e in &lexed.errors {
        assert!(e.range.start <= e.range.end);
        assert!(e.range.end as usize <= text.len());
    }
    assert!(!lexed.errors.is_empty());
    assert!(get("").tokens.is_empty());
    assert!(get("").errors.is_empty());
}

#[test]
fn lex_errors_come_before_the_others() {
    let text = "val x = 0x val 'a";
    let later = millet::analysis::Error {
        range: TextRange::new(11, 14),
        message: "expected a pattern".to_owned(),
        code: 3001,
    };
    let file = SourceFile::new(text, vec![later], no_file());
    let all = Analysis::new(StdBasis::Minimal).get_one(&file);
    let codes: Vec<u16> = all.iter().map(|e| e.code).collect();
    assert_eq!(codes, vec![2004, 3001]);
}

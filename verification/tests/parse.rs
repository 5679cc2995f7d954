use millet::lex::{get as lex, Token, TokenKind};
use millet::list::List;
use millet::parse::{
    get as parse, item, many_sep, must, path, scon, Event, Exited, Item, Parser, SyntaxKind, FUEL,
};
use millet::syntax::{errors, trees, Syntax};

fn parser(text: &str) -> Parser {
    Parser::new(&lex(text).tokens)
}

fn tok(kind: TokenKind) -> SyntaxKind {
    SyntaxKind::Token(kind)
}

/// The tree as text: a node is its kind and its children between round
/// brackets, a token is its text.
fn show(tree: &Syntax, tokens: &[Token], text: &str, out: &mut String) {
    match tree {
        Syntax::Token(i) => {
            let t = tokens[*i];
            out.push_str(&text[t.range.start as usize..t.range.end as usize]);
        }
        Syntax::Node(kind, kids) => {
            out.push('(');
            out.push_str(&format!("{kind:?}"));
            let mut cur: &List<Syntax> = kids;
            while let List::Cons(h, t) = cur {
                out.push(' ');
                show(h, tokens, text, out);
                cur = t;
            }
            out.push(')');
        }
    }
}

/// Parses the text by a rule and shows the trees and the number of errors.
fn run(text: &str, which: Item) -> (String, usize) {
    let mut p = parser(text);
    item(&mut p, which, FUEL);
    let tokens = p.tokens().clone();
    let forest = trees(p.events());
    let errs = errors(p.events(), &tokens, text.len() as u32);
    let mut out = String::new();
    let mut cur = &forest;
    while let List::Cons(h, t) = cur {
        if !out.is_empty() {
            out.push(' ');
        }
        show(h, &tokens, text, &mut out);
        cur = t;
    }
    (out, errs.len())
}

fn ok(text: &str, which: Item) -> String {
    let (tree, errs) = run(text, which);
    assert_eq!(errs, 0, "{text}: {tree}");
    tree
}

#[test]
fn parser_skips_blanks_and_comments() {
    let p = parser(" a (* b *) . c ");
    let kinds: Vec<TokenKind> = p.tokens().iter().map(|t| t.kind).collect();
    assert_eq!(kinds, vec![TokenKind::Name, TokenKind::Dot, TokenKind::Name]);
    assert!(p.events().is_empty());
    assert!(p.at(tok(TokenKind::Name)));
    assert!(!p.at(tok(TokenKind::Dot)));
    assert!(!p.at(SyntaxKind::Path));
    assert!(p.nth_is(1, TokenKind::Dot));
    assert_eq!(p.nth_kind(2), Some(TokenKind::Name));
    assert_eq!(p.nth_kind(3), None);
    assert!(!parser("").at(tok(TokenKind::Name)));
}

#[test]
fn parser_events() {
    let mut p = parser("a b");
    let e = p.enter();
    p.bump();
    p.eat(tok(TokenKind::Dot));
    p.eat(tok(TokenKind::Name));
    p.error();
    // nothing is left to take
    p.bump();
    let done = p.exit(e, SyntaxKind::Root);
    assert_eq!(done, Exited { idx: 0 });
    assert_eq!(
        p.events(),
        &vec![
            Event::Enter(Some(SyntaxKind::Root)),
            Event::Token(0),
            Event::Error(1, Some(tok(TokenKind::Dot))),
            Event::Token(1),
            Event::Error(2, None),
            Event::Exit,
        ]
    );
    assert_eq!(p.pos(), 2);
}

#[test]
fn parse_path() {
    let mut p = parser("A.B.c d");
    let done = path(&mut p);
    assert_eq!(done.idx, 0);
    assert_eq!(
        p.events(),
        &vec![
            Event::Enter(Some(SyntaxKind::Path)),
            Event::Token(0),
            Event::Token(1),
            Event::Token(2),
            Event::Token(3),
            Event::Token(4),
            Event::Exit,
        ]
    );
    assert!(p.at(tok(TokenKind::Name)));
}

#[test]
fn parse_path_with_errors() {
    // a dot without a name behind it
    let mut p = parser("A. = 1");
    path(&mut p);
    assert_eq!(
        p.events(),
        &vec![
            Event::Enter(Some(SyntaxKind::Path)),
            Event::Token(0),
            Event::Token(1),
            Event::Error(2, Some(tok(TokenKind::Name))),
            Event::Exit,
        ]
    );
    assert!(p.at(tok(TokenKind::Eq)));
    // no name at all
    let mut p = parser("= 1");
    path(&mut p);
    assert_eq!(
        p.events(),
        &vec![
            Event::Enter(Some(SyntaxKind::Path)),
            Event::Error(0, Some(tok(TokenKind::Name))),
            Event::Exit,
        ]
    );
}

#[test]
fn parse_scon() {
    for text in ["1", "0w1", "1.5", "\"s\"", "#\"c\""] {
        let mut p = parser(text);
        assert!(scon(&mut p), "{text}");
        assert_eq!(p.events(), &vec![Event::Token(0)]);
    }
    let mut p = parser("x");
    assert!(!scon(&mut p));
    assert!(p.events().is_empty());
    let mut p = parser("");
    assert!(!scon(&mut p));
}

#[test]
fn parse_must() {
    let mut p = parser("x");
    must(&mut p, Some(Exited { idx: 0 }));
    assert!(p.events().is_empty());
    must(&mut p, None);
    assert_eq!(p.events(), &vec![Event::Error(0, None)]);
}

#[test]
fn parse_many_sep() {
    let mut p = parser("1, 2, 3 )");
    many_sep(&mut p, tok(TokenKind::Comma), SyntaxKind::Arg, Item::SCon, FUEL);
    assert_eq!(
        p.events(),
        &vec![
            Event::Enter(Some(SyntaxKind::Arg)),
            Event::Token(0),
            Event::Token(1),
            Event::Exit,
            Event::Enter(Some(SyntaxKind::Arg)),
            Event::Token(2),
            Event::Token(3),
            Event::Exit,
            Event::Enter(Some(SyntaxKind::Arg)),
            Event::Token(4),
            Event::Exit,
        ]
    );
    assert!(p.at(tok(TokenKind::RRound)));
}

#[test]
fn parse_many_sep_of_paths() {
    let mut p = parser("A.b, c");
    many_sep(&mut p, tok(TokenKind::Comma), SyntaxKind::Arg, Item::Path, FUEL);
    assert_eq!(
        p.events(),
        &vec![
            Event::Enter(Some(SyntaxKind::Arg)),
            Event::Enter(Some(SyntaxKind::Path)),
            Event::Token(0),
            Event::Token(1),
            Event::Token(2),
            Event::Exit,
            Event::Token(3),
            Event::Exit,
            Event::Enter(Some(SyntaxKind::Arg)),
            Event::Enter(Some(SyntaxKind::Path)),
            Event::Token(4),
            Event::Exit,
            Event::Exit,
        ]
    );
    // without an item the list is one empty node
    let mut p = parser("");
    many_sep(&mut p, tok(TokenKind::Comma), SyntaxKind::Row, Item::SCon, FUEL);
    assert_eq!(p.events(), &vec![Event::Enter(Some(SyntaxKind::Row)), Event::Exit]);
    let mut p = parser("1");
    item(&mut p, Item::SCon, FUEL);
    assert_eq!(p.events(), &vec![Event::Token(0)]);
}

#[test]
fn parse_types() {
    assert_eq!(ok("int", Item::Ty), "(FnTy (TupleTy (FlatTy (PathTy (Path int)))))");
    assert_eq!(
        ok("'a list -> A.t", Item::Ty),
        "(FnTy (TupleTy (FlatTy (TyVarTy 'a) (PathTy (Path list)))) -> \
         (FnTy (TupleTy (FlatTy (PathTy (Path A . t))))))"
    );
    assert_eq!(
        ok("int * bool", Item::Ty),
        "(FnTy (TupleTy (FlatTy (PathTy (Path int))) * (FlatTy (PathTy (Path bool)))))"
    );
    assert_eq!(
        ok("(int, 'a) t", Item::Ty),
        "(FnTy (TupleTy (FlatTy (ParenTy ( (Arg (FnTy (TupleTy (FlatTy (PathTy (Path int))))) ,) \
         (Arg (FnTy (TupleTy (FlatTy (TyVarTy 'a))))) )) (PathTy (Path t)))))"
    );
    assert_eq!(
        ok("{a: int, 1: bool}", Item::Ty),
        "(FnTy (TupleTy (FlatTy (RecordTy { (Row a : (FnTy (TupleTy (FlatTy (PathTy (Path int))))) ,) \
         (Row 1 : (FnTy (TupleTy (FlatTy (PathTy (Path bool)))))) }))))"
    );
    assert_eq!(ok("{}", Item::Ty), "(FnTy (TupleTy (FlatTy (RecordTy { }))))");
    assert_eq!(run("->", Item::Ty).1, 2);
    assert_eq!(run("int *", Item::Ty).1, 1);
}

#[test]
fn parse_patterns() {
    assert_eq!(ok("_", Item::Pat), "(Pat (FlatPat (WildPat _)))");
    assert_eq!(ok("x", Item::Pat), "(Pat (FlatPat (PathPat (Path x))))");
    assert_eq!(
        ok("SOME x", Item::Pat),
        "(Pat (FlatPat (PathPat (Path SOME)) (PathPat (Path x))))"
    );
    assert_eq!(
        ok("x :: xs", Item::Pat),
        "(Pat (FlatPat (PathPat (Path x)) (PathPat (Path ::)) (PathPat (Path xs))))"
    );
    assert_eq!(
        ok("(x, 1)", Item::Pat),
        "(Pat (FlatPat (ParenPat ( (Arg (Pat (FlatPat (PathPat (Path x)))) ,) \
         (Arg (Pat (FlatPat (SConPat 1)))) ))))"
    );
    assert_eq!(ok("()", Item::Pat), "(Pat (FlatPat (ParenPat ( ))))");
    assert_eq!(ok("[]", Item::Pat), "(Pat (FlatPat (ListPat [ ])))");
    assert_eq!(
        ok("x : int as y", Item::Pat),
        "(Pat (FlatPat (PathPat (Path x))) (TyAnnot : (FnTy (TupleTy (FlatTy (PathTy (Path int)))))) \
         (AsTail as (Pat (FlatPat (PathPat (Path y))))))"
    );
    assert_eq!(
        ok("{a = x, b, ...}", Item::Pat),
        "(Pat (FlatPat (RecordPat { (Row (LabPatRow a = (Pat (FlatPat (PathPat (Path x))))) ,) \
         (Row (NamePatRow b) ,) (Row (RestPatRow ...)) })))"
    );
    assert_eq!(ok("op ::", Item::Pat), "(Pat (FlatPat (PathPat op (Path ::))))");
    assert_eq!(run("=", Item::Pat).1, 1);
}

#[test]
fn parse_expressions() {
    assert_eq!(
        ok("f x", Item::Exp),
        "(HandleExp (OrelseExp (AndalsoExp (TypedExp (FlatExp (PathExp (Path f)) (PathExp (Path x)))))))"
    );
    assert_eq!(
        ok("1 + 2 * 3 = 7", Item::FlatExp),
        "(FlatExp (SConExp 1) (PathExp (Path +)) (SConExp 2) (PathExp *) (SConExp 3) (PathExp =) (SConExp 7))"
    );
    assert_eq!(ok("()", Item::ExpAtom), "(ParenExp ( ))");
    assert_eq!(ok("#1", Item::ExpAtom), "(SelectorExp # 1)");
    assert_eq!(ok("op +", Item::ExpAtom), "(PathExp op (Path +))");
    assert_eq!(ok("[]", Item::ExpAtom), "(ListExp [ ])");
    let one = "(HandleExp (OrelseExp (AndalsoExp (TypedExp (FlatExp (SConExp 1))))))";
    let two = one.replace('1', "2");
    assert_eq!(ok("(1)", Item::ExpAtom), format!("(ParenExp ( {one} ))"));
    assert_eq!(ok("(1, 2)", Item::ExpAtom), format!("(ParenExp ( {one} , {two} ))"));
    assert_eq!(ok("(1; 2)", Item::ExpAtom), format!("(SeqExp ( {one} ; {two} ))"));
    assert_eq!(ok("[1, 2]", Item::ExpAtom), format!("(ListExp [ (Arg {one} ,) (Arg {two}) ])"));
    assert_eq!(ok("{a = 1}", Item::ExpAtom), format!("(RecordExp {{ (Row a = {one}) }})"));
    assert_eq!(ok("raise 1", Item::Exp), format!("(RaiseExp raise {one})"));
    assert_eq!(
        ok("if 1 then 2 else 1", Item::Exp),
        format!("(IfExp if {one} then {two} else {one})")
    );
    assert_eq!(ok("while 1 do 2", Item::Exp), format!("(WhileExp while {one} do {two})"));
    let wild = "(Pat (FlatPat (WildPat _)))";
    assert_eq!(
        ok("fn _ => 1 | _ => 2", Item::Exp),
        format!("(FnExp fn (Matcher (Arm {wild} => {one}) | (Arm {wild} => {two})))")
    );
    assert_eq!(
        ok("case 1 of _ => 2", Item::Exp),
        format!("(CaseExp case {one} of (Matcher (Arm {wild} => {two})))")
    );
    assert_eq!(
        ok("1 handle _ => 2", Item::Exp),
        format!(
            "(HandleExp (OrelseExp (AndalsoExp (TypedExp (FlatExp (SConExp 1))))) \
             (HandleTail handle (Matcher (Arm {wild} => {two}))))"
        )
    );
    assert_eq!(
        ok("1 andalso 2 orelse 1", Item::OrelseExp),
        "(OrelseExp (AndalsoExp (TypedExp (FlatExp (SConExp 1))) andalso (TypedExp (FlatExp (SConExp 2)))) \
         orelse (AndalsoExp (TypedExp (FlatExp (SConExp 1)))))"
    );
    assert_eq!(
        ok("1 orelse raise 2", Item::OrelseExp),
        format!("(OrelseExp (AndalsoExp (TypedExp (FlatExp (SConExp 1)))) orelse (RaiseExp raise {two}))")
    );
    assert_eq!(
        ok("1 : int", Item::TypedExp),
        "(TypedExp (FlatExp (SConExp 1)) (TyAnnot : (FnTy (TupleTy (FlatTy (PathTy (Path int)))))))"
    );
    assert_eq!(
        ok("let val x = 1 in 2 end", Item::ExpAtom),
        format!(
            "(LetExp let (Decs (ValDec val (ValBind (Pat (FlatPat (PathPat (Path x)))) = {one}))) in {two} end)"
        )
    );
    assert_eq!(run("(1", Item::Exp).1, 1);
    assert_eq!(run("if 1 then 2", Item::Exp).1, 2);
    assert_eq!(run(")", Item::Exp).1, 1);
}

#[test]
fn parse_declarations() {
    let one = "(HandleExp (OrelseExp (AndalsoExp (TypedExp (FlatExp (SConExp 1))))))";
    let x = "(Pat (FlatPat (PathPat (Path x))))";
    assert_eq!(
        ok("val x = 1 and rec x = 1", Item::Dec),
        format!("(ValDec val (ValBind {x} = {one} and) (ValBind rec {x} = {one}))")
    );
    assert_eq!(
        ok("val 'a x = 1", Item::Dec),
        format!("(ValDec val (TyVarSeq 'a) (ValBind {x} = {one}))")
    );
    assert_eq!(
        ok("val ('a, 'b) x = 1", Item::Dec),
        format!("(ValDec val (TyVarSeq ( (Arg 'a ,) (Arg 'b) )) (ValBind {x} = {one}))")
    );
    assert_eq!(
        ok("fun f x = 1 | f _ = 1", Item::Dec),
        format!(
            "(FunDec fun (FunBind (Clause (FlatPat (PathPat (Path f)) (PathPat (Path x))) = {one} |) \
             (Clause (FlatPat (PathPat (Path f)) (WildPat _)) = {one})))"
        )
    );
    let int = "(FnTy (TupleTy (FlatTy (PathTy (Path int)))))";
    assert_eq!(ok("type t = int", Item::Dec), format!("(TyDec type (TyBind t = {int}))"));
    assert_eq!(
        ok("datatype 'a t = A | B of int", Item::Dec),
        format!(
            "(DatDec datatype (DatBind (TyVarSeq 'a) t = (ConBind A |) (ConBind B (OfTy of {int}))))"
        )
    );
    assert_eq!(
        ok("datatype t = datatype A.t", Item::Dec),
        "(DatCopyDec datatype t = datatype (Path A . t))"
    );
    assert_eq!(
        ok("exception E and F of int and G = E", Item::Dec),
        format!("(ExDec exception (ExBind E and) (ExBind F (OfTy of {int}) and) (ExBind G = (Path E)))")
    );
    assert_eq!(
        ok("local val x = 1 in val x = 1 end", Item::Dec),
        format!(
            "(LocalDec local (Decs (ValDec val (ValBind {x} = {one}))) in \
             (Decs (ValDec val (ValBind {x} = {one}))) end)"
        )
    );
    assert_eq!(ok("open A B.C", Item::Dec), "(OpenDec open (Path A) (Path B . C))");
    assert_eq!(ok("infixr 5 :: @", Item::Dec), "(InfixDec infixr 5 :: @)");
    assert_eq!(run("val = 1", Item::Dec).1, 1);
    assert_eq!(run("open", Item::Dec).1, 1);
}

#[test]
fn parse_a_file() {
    let one = "(HandleExp (OrelseExp (AndalsoExp (TypedExp (FlatExp (SConExp 1))))))";
    let x = "(Pat (FlatPat (PathPat (Path x))))";
    assert_eq!(
        ok("val x = 1; val x = 1", Item::Root),
        format!("(Root (ValDec val (ValBind {x} = {one})) ; (ValDec val (ValBind {x} = {one})))")
    );
    assert_eq!(ok("", Item::Root), "(Root)");
    // a token that starts no declaration is an error, and parsing goes on
    let (tree, errs) = run(") val x = 1", Item::Root);
    assert_eq!(tree, format!("(Root (Stray )) (ValDec val (ValBind {x} = {one})))"));
    assert_eq!(errs, 1);
    // the events of a file are those of the rule for a file
    let tokens = lex("val x = 1").tokens;
    let mut p = Parser::new(&tokens);
    item(&mut p, Item::Root, FUEL);
    assert_eq!(&parse(&tokens), p.events());
}

#[test]
fn parse_without_fuel() {
    let (tree, errs) = run("1", Item::Exp);
    assert_eq!(errs, 0, "{tree}");
    let mut p = parser("((((1))))");
    item(&mut p, Item::Exp, 8);
    let errs = errors(p.events(), p.tokens(), 9);
    assert!(!errs.is_empty());
    let mut p = parser("1");
    item(&mut p, Item::Exp, 0);
    assert_eq!(p.events(), &vec![Event::Error(0, None)]);
}

#[test]
fn parse_error_messages() {
    let mut p = parser("(1");
    item(&mut p, Item::Exp, FUEL);
    let errs = errors(p.events(), p.tokens(), 2);
    assert_eq!(errs.len(), 1);
    assert_eq!(errs[0].message(), "expected `)`");
    assert_eq!((errs[0].range.start, errs[0].range.end), (2, 2));
    let mut p = parser("val = 1");
    item(&mut p, Item::Dec, FUEL);
    let errs = errors(p.events(), p.tokens(), 7);
    assert_eq!(errs.len(), 1);
    assert_eq!(errs[0].message(), "unexpected syntax");
    assert_eq!((errs[0].range.start, errs[0].range.end), (4, 5));
}

//! The parser: from the tokens of a text to events, from which the syntax
//! tree is built afterwards.
//!
//! A parser is a cursor over the tokens that records what it does as a flat
//! list of events. It enters a node, takes tokens, and exits the node with
//! its kind; an error is an event too, so parsing never fails. Every rule of
//! the grammar is one `Item`, and says what it does to the state of the
//! parser. A rule may nest at most `fuel` rules deep: where the fuel runs
//! out, the rule records an error and takes nothing.

use crate::lex::{Token, TokenKind};
use vstd::prelude::*;

verus! {

/// The kind of a piece of syntax: a token, or a node around tokens and
/// nodes.
#[derive(Debug, Clone, Copy, PartialEq, Eq, Structural)]
pub enum SyntaxKind {
    Token(TokenKind),
    /// A whole file: declarations, and tokens that start none.
    Root,
    /// A token where no declaration starts.
    Stray,
    /// Names with dots between them.
    Path,
    /// An item of a list between brackets, with the comma behind it.
    Arg,
    /// A row of a record, with the comma behind it.
    Row,
    /// A type, with the result type behind `->` if it is a function type.
    FnTy,
    /// Types with `*` between them.
    TupleTy,
    /// A type and the type constructors that are applied to it, one behind
    /// the other.
    FlatTy,
    TyVarTy,
    RecordTy,
    /// Types between round brackets.
    ParenTy,
    PathTy,
    /// `:` and a type.
    TyAnnot,
    /// The type variables in front of a binding.
    TyVarSeq,
    /// A pattern: atoms, a type annotation and `as` with a pattern, each if
    /// it is there.
    Pat,
    /// Atomic patterns, one behind the other: constructors, their
    /// arguments and infix constructors are not told apart yet.
    FlatPat,
    /// `as` and a pattern.
    AsTail,
    WildPat,
    SConPat,
    PathPat,
    RecordPat,
    /// A row `lab = pat`.
    LabPatRow,
    /// A row that is a name, for the field and the variable at once.
    NamePatRow,
    /// The row `...`.
    RestPatRow,
    /// Patterns between round brackets: unit, a pattern, or a tuple.
    ParenPat,
    ListPat,
    /// An expression with its handlers, if it has any.
    HandleExp,
    OrelseExp,
    AndalsoExp,
    /// An expression with its type annotations, if it has any.
    TypedExp,
    /// Atomic expressions, one behind the other: functions, arguments and
    /// infix operators are not told apart yet.
    FlatExp,
    /// `handle` and a matcher.
    HandleTail,
    RaiseExp,
    IfExp,
    WhileExp,
    CaseExp,
    FnExp,
    Matcher,
    Arm,
    SConExp,
    PathExp,
    RecordExp,
    /// `#` and a label.
    SelectorExp,
    /// Expressions between round brackets with commas: unit, an
    /// expression, or a tuple.
    ParenExp,
    /// Expressions between round brackets with semicolons.
    SeqExp,
    ListExp,
    LetExp,
    /// Declarations, one behind the other.
    Decs,
    ValDec,
    ValBind,
    FunDec,
    /// The clauses of one function.
    FunBind,
    Clause,
    TyDec,
    TyBind,
    DatDec,
    /// `withtype` and type bindings.
    WithType,
    DatBind,
    ConBind,
    /// `of` and a type.
    OfTy,
    /// `datatype name = datatype path`.
    DatCopyDec,
    AbstypeDec,
    ExDec,
    ExBind,
    LocalDec,
    OpenDec,
    /// `infix`, `infixr` or `nonfix` with what follows it.
    InfixDec,
}

/// What a parser did.
#[derive(Debug, Clone, Copy, PartialEq, Eq, Structural)]
pub enum Event {
    /// A node was entered. Its kind is known once it was exited.
    Enter(Option<SyntaxKind>),
    /// The token at this place among the tokens was taken.
    Token(usize),
    /// The node that was entered last and not yet exited was exited.
    Exit,
    /// Something else was expected at this place among the tokens: a piece
    /// of syntax of this kind, if known.
    Error(usize, Option<SyntaxKind>),
}

/// A node that was entered, and must be exited.
#[derive(Debug)]
pub struct Entered {
    idx: usize,
}

/// A node that was exited.
#[derive(Debug, Clone, Copy, PartialEq, Eq, Structural)]
pub struct Exited {
    pub idx: usize,
}

/// The state of a parser: the tokens, how many of them were taken, and the
/// events so far.
pub struct State {
    pub tokens: Seq<Token>,
    pub pos: int,
    pub events: Seq<Event>,
}

/// The event parser.
#[derive(Debug)]
pub struct Parser {
    tokens: Vec<Token>,
    pos: usize,
    events: Vec<Event>,
}

/// A rule of the grammar.
#[derive(Debug, Clone, Copy, PartialEq, Eq, Structural)]
pub enum Item {
    Path,
    SCon,
    Ty,
    TupleTy,
    FlatTy,
    TyAtom,
    TyRow,
    TyAnnot,
    TyVarArg,
    Pat,
    FlatPat,
    PatAtom,
    PatRow,
    Exp,
    OrelseExp,
    AndalsoExp,
    /// What may stand behind `orelse`.
    OrelseOperand,
    /// What may stand behind `andalso`.
    AndalsoOperand,
    TypedExp,
    FlatExp,
    ExpAtom,
    ExpRow,
    HandleTail,
    Matcher,
    Arm,
    Decs,
    /// A declaration, or a semicolon between declarations.
    DecOrSemi,
    Dec,
    ValBind,
    FunBind,
    Clause,
    TyBind,
    DatBind,
    ConBind,
    ExBind,
    /// A declaration, a semicolon, or a token that starts no declaration.
    TopItem,
    Root,
}

/// Whether a token is a blank or a comment.
pub open spec fn is_trivia(kind: TokenKind) -> bool {
    kind == TokenKind::Whitespace || kind == TokenKind::BlockComment
}

/// The tokens `tokens[..upto]` without blanks and comments.
pub open spec fn without_trivia(tokens: Seq<Token>, upto: int) -> Seq<Token>
    decreases upto,
{
    if upto <= 0 {
        Seq::empty()
    } else if is_trivia(tokens[upto - 1].kind) {
        without_trivia(tokens, upto - 1)
    } else {
        without_trivia(tokens, upto - 1).push(tokens[upto - 1])
    }
}

/// The kind of the token `n` places behind the next one, if there is one.
pub open spec fn nth(s: State, n: int) -> Option<TokenKind> {
    if 0 <= s.pos + n < s.tokens.len() {
        Some(s.tokens[s.pos + n].kind)
    } else {
        None
    }
}

/// Whether the next token is of the kind.
pub open spec fn at_spec(s: State, kind: SyntaxKind) -> bool {
    0 <= s.pos < s.tokens.len() && SyntaxKind::Token(s.tokens[s.pos].kind) == kind
}

/// Whether the next token is the token.
pub open spec fn at(s: State, kind: TokenKind) -> bool {
    nth(s, 0) == Some(kind)
}

/// How many tokens are left.
pub open spec fn rem(s: State) -> nat {
    if 0 <= s.pos <= s.tokens.len() {
        (s.tokens.len() - s.pos) as nat
    } else {
        0
    }
}

/// Entering a node: the event for it is the last one.
pub open spec fn enter_spec(s: State) -> State {
    State { tokens: s.tokens, pos: s.pos, events: s.events.push(Event::Enter(None)) }
}

/// Exiting the node whose event stands at `idx`: the event gets the kind.
pub open spec fn exit_spec(s: State, idx: int, kind: SyntaxKind) -> State {
    State {
        tokens: s.tokens,
        pos: s.pos,
        events: (if 0 <= idx < s.events.len() {
            s.events.update(idx, Event::Enter(Some(kind)))
        } else {
            s.events
        }).push(Event::Exit),
    }
}

/// The node of the kind that was entered in the state `before`, exited in
/// the state `s`.
pub open spec fn node(before: State, s: State, kind: SyntaxKind) -> State {
    exit_spec(s, before.events.len() as int, kind)
}

/// Taking the next token, if there is one.
pub open spec fn bump_spec(s: State) -> State {
    if 0 <= s.pos < s.tokens.len() {
        State {
            tokens: s.tokens,
            pos: s.pos + 1,
            events: s.events.push(Event::Token(s.pos as usize)),
        }
    } else {
        s
    }
}

/// Recording that something else was expected.
pub open spec fn error_spec(s: State, expected: Option<SyntaxKind>) -> State {
    State {
        tokens: s.tokens,
        pos: s.pos,
        events: s.events.push(Event::Error(s.pos as usize, expected)),
    }
}

/// Taking the next token if it is of the kind; else that kind was expected.
pub open spec fn eat_spec(s: State, kind: SyntaxKind) -> State {
    if at_spec(s, kind) {
        bump_spec(s)
    } else {
        error_spec(s, Some(kind))
    }
}

/// Taking the next token if it is the token; else the token was expected.
pub open spec fn eat(s: State, kind: TokenKind) -> State {
    eat_spec(s, SyntaxKind::Token(kind))
}

/// Taking the next token if it is the token.
pub open spec fn opt(s: State, kind: TokenKind) -> State {
    if at(s, kind) {
        bump_spec(s)
    } else {
        s
    }
}

/// An error unless `got`.
pub open spec fn must_spec(s: State, got: bool) -> State {
    if got {
        s
    } else {
        error_spec(s, None)
    }
}

/// Whether the state `b` may follow the state `a`: the tokens are the same,
/// none was given back, and the events of `a` are still there.
pub open spec fn keeps(a: State, b: State) -> bool {
    &&& b.tokens == a.tokens
    &&& a.pos <= b.pos
    &&& a.events.len() <= b.events.len()
    &&& forall|i: int| 0 <= i < a.events.len() ==> #[trigger] b.events[i] == a.events[i]
}

/// A dot with a name behind it, as often as a dot follows.
pub open spec fn dots_spec(s: State) -> State
    decreases rem(s),
{
    if at(s, TokenKind::Dot) {
        dots_spec(eat(bump_spec(s), TokenKind::Name))
    } else {
        s
    }
}

/// A path: a node around a name and then dots with names behind them.
pub open spec fn path_spec(s: State) -> State {
    node(s, dots_spec(eat(enter_spec(s), TokenKind::Name)), SyntaxKind::Path)
}

/// Whether the token is a special constant.
pub open spec fn is_scon(kind: TokenKind) -> bool {
    kind == TokenKind::IntLit || kind == TokenKind::RealLit || kind == TokenKind::WordLit || kind
        == TokenKind::CharLit || kind == TokenKind::StringLit
}

/// Whether the next token is a special constant.
pub open spec fn at_scon(s: State) -> bool {
    nth(s, 0) matches Some(k) && is_scon(k)
}

/// A special constant, if one is there: it is taken.
pub open spec fn scon_spec(s: State) -> State {
    if at_scon(s) {
        bump_spec(s)
    } else {
        s
    }
}

/// Whether the token starts a declaration.
pub open spec fn starts_dec(kind: TokenKind) -> bool {
    kind == TokenKind::Val || kind == TokenKind::Fun || kind == TokenKind::Type || kind
        == TokenKind::Datatype || kind == TokenKind::Abstype || kind == TokenKind::Exception
        || kind == TokenKind::Local || kind == TokenKind::Open || kind == TokenKind::Infix || kind
        == TokenKind::Infixr || kind == TokenKind::Nonfix
}

/// Whether the token starts an expression that reaches as far to the right
/// as it can.
pub open spec fn starts_far(kind: TokenKind) -> bool {
    kind == TokenKind::Raise || kind == TokenKind::If || kind == TokenKind::While || kind
        == TokenKind::Case || kind == TokenKind::Fn
}

/// Whether the token may start the rule, for the rules that are repeated
/// as long as they may start.
pub open spec fn starts(item: Item, kind: TokenKind) -> bool {
    match item {
        Item::Path => kind == TokenKind::Name,
        Item::TyAtom => kind == TokenKind::TyVar || kind == TokenKind::LCurly || kind
            == TokenKind::LRound || kind == TokenKind::Name,
        Item::TyAnnot => kind == TokenKind::Colon,
        Item::PatAtom => kind == TokenKind::Underscore || is_scon(kind) || kind == TokenKind::Op
            || kind == TokenKind::Name || kind == TokenKind::LCurly || kind == TokenKind::LRound
            || kind == TokenKind::LSquare,
        Item::ExpAtom => is_scon(kind) || kind == TokenKind::Op || kind == TokenKind::Name || kind
            == TokenKind::Eq || kind == TokenKind::Star || kind == TokenKind::LCurly || kind
            == TokenKind::Hash || kind == TokenKind::LRound || kind == TokenKind::LSquare || kind
            == TokenKind::Let,
        Item::HandleTail => kind == TokenKind::Handle,
        Item::DecOrSemi => starts_dec(kind) || kind == TokenKind::Semicolon,
        Item::TopItem => true,
        _ => false,
    }
}

/// Whether the next token may start the rule.
pub open spec fn starts_at(s: State, item: Item) -> bool {
    nth(s, 0) matches Some(k) && starts(item, k)
}


/// Whether the next token may start a declaration.
pub open spec fn at_dec(s: State) -> bool {
    nth(s, 0) matches Some(k) && starts_dec(k)
}

/// Whether the next token starts an expression that reaches as far to the
/// right as it can.
pub open spec fn at_far(s: State) -> bool {
    nth(s, 0) matches Some(k) && starts_far(k)
}

/// A name in an expression: `=` or `*`, or a path.
pub open spec fn name_spec(s: State) -> State {
    if at(s, TokenKind::Eq) || at(s, TokenKind::Star) {
        bump_spec(s)
    } else {
        path_spec(s)
    }
}

/// A label: a name or a number.
pub open spec fn lab_spec(s: State) -> State {
    if at(s, TokenKind::Name) || at(s, TokenKind::IntLit) {
        bump_spec(s)
    } else {
        error_spec(s, Some(SyntaxKind::Token(TokenKind::Name)))
    }
}

/// The names behind `infix`, `infixr` or `nonfix`.
pub open spec fn fix_names_spec(s: State) -> State
    decreases rem(s),
{
    if at(s, TokenKind::Name) || at(s, TokenKind::Eq) || at(s, TokenKind::Star) {
        fix_names_spec(bump_spec(s))
    } else {
        s
    }
}

/// The rule, again and again, as long as the next token may start it and
/// the rule takes a token.
pub open spec fn many_spec(s: State, which: Item, fuel: nat) -> State
    decreases fuel, 3nat, rem(s),
{
    if starts_at(s, which) {
        let s1 = item_spec(s, which, fuel);
        if s1.pos > s.pos && s1.tokens == s.tokens {
            many_spec(s1, which, fuel)
        } else {
            s1
        }
    } else {
        s
    }
}

/// The rule, again and again, at least once: where the next token cannot
/// start it, that is an error.
pub open spec fn some_spec(s: State, which: Item, fuel: nat) -> State
    decreases fuel, 4nat, 0nat,
{
    if starts_at(s, which) {
        many_spec(s, which, fuel)
    } else {
        error_spec(s, None)
    }
}

/// The separator and the rule behind it, as often as the separator
/// follows.
pub open spec fn sep_more_spec(s: State, sep: TokenKind, which: Item, fuel: nat) -> State
    decreases fuel, 3nat, rem(s),
{
    if at(s, sep) {
        let s1 = item_spec(bump_spec(s), which, fuel);
        if s1.pos > s.pos && s1.tokens == s.tokens {
            sep_more_spec(s1, sep, which, fuel)
        } else {
            s1
        }
    } else {
        s
    }
}

/// The rule with separators behind it: every round stands in a node of the
/// kind `wrap`, together with the separator that follows it. The list ends
/// with the first round that no separator follows.
pub open spec fn many_sep_spec(
    s: State,
    sep: SyntaxKind,
    wrap: SyntaxKind,
    which: Item,
    fuel: nat,
) -> State
    decreases fuel, 3nat, rem(s),
{
    let s1 = item_spec(enter_spec(s), which, fuel);
    if at_spec(s1, sep) && 0 <= s.pos <= s1.pos && s1.tokens == s.tokens {
        many_sep_spec(node(s, bump_spec(s1), wrap), sep, wrap, which, fuel)
    } else {
        node(s, s1, wrap)
    }
}

/// The rule with commas behind it, unless the closing bracket is next.
pub open spec fn rows_spec(
    s: State,
    close: TokenKind,
    wrap: SyntaxKind,
    which: Item,
    fuel: nat,
) -> State
    decreases fuel, 4nat, 0nat,
{
    if at(s, close) {
        s
    } else {
        many_sep_spec(s, SyntaxKind::Token(TokenKind::Comma), wrap, which, fuel)
    }
}

/// The type variables in front of a binding, if there are any: one type
/// variable, or type variables between round brackets.
pub open spec fn ty_var_seq_spec(s: State, f: nat) -> State
    decreases f, 4nat, 0nat,
{
    if at(s, TokenKind::TyVar) {
        let s2 = enter_spec(s);
        let s3 = bump_spec(s2);
        node(s, s3, SyntaxKind::TyVarSeq)
    } else {
        if (at(s, TokenKind::LRound) && nth(s, 1) == Some(TokenKind::TyVar)) {
            let s6 = enter_spec(s);
            let s7 = bump_spec(s6);
            let s8 = many_sep_spec(s7, SyntaxKind::Token(TokenKind::Comma), SyntaxKind::Arg, Item::TyVarArg, f);
            let s9 = eat(s8, TokenKind::RRound);
            node(s, s9, SyntaxKind::TyVarSeq)
        } else {
            s
        }
    }
}

/// A type annotation, if `:` is next.
pub open spec fn opt_annot_spec(s: State, f: nat) -> State
    decreases f, 4nat, 0nat,
{
    if at(s, TokenKind::Colon) {
        item_spec(s, Item::TyAnnot, f)
    } else {
        s
    }
}

/// `as` and a pattern, if `as` is next.
pub open spec fn as_tail_spec(s: State, f: nat) -> State
    decreases f, 4nat, 0nat,
{
    if at(s, TokenKind::As) {
        let s2 = enter_spec(s);
        let s3 = bump_spec(s2);
        let s4 = item_spec(s3, Item::Pat, f);
        node(s, s4, SyntaxKind::AsTail)
    } else {
        s
    }
}

/// `of` and a type, if `of` is next.
pub open spec fn of_ty_spec(s: State, f: nat) -> State
    decreases f, 4nat, 0nat,
{
    if at(s, TokenKind::Of) {
        let s2 = enter_spec(s);
        let s3 = bump_spec(s2);
        let s4 = item_spec(s3, Item::Ty, f);
        node(s, s4, SyntaxKind::OfTy)
    } else {
        s
    }
}

/// `withtype` and type bindings, if `withtype` is next.
pub open spec fn with_type_spec(s: State, f: nat) -> State
    decreases f, 4nat, 0nat,
{
    if at(s, TokenKind::Withtype) {
        let s2 = enter_spec(s);
        let s3 = bump_spec(s2);
        let s4 = many_sep_spec(s3, SyntaxKind::Token(TokenKind::And), SyntaxKind::TyBind, Item::TyBind, f);
        node(s, s4, SyntaxKind::WithType)
    } else {
        s
    }
}

/// A type: a tuple type, and behind `->` the type of the result.
pub open spec fn ty_spec(s: State, fuel: nat) -> State
    decreases fuel, 1nat, 0nat,
{
    if fuel == 0 {
        error_spec(s, None)
    } else {
        let f = (fuel - 1) as nat;
        let s1 = enter_spec(s);
        let s2 = item_spec(s1, Item::TupleTy, f);
        let s3 = if at(s2, TokenKind::MinusGt) {
            let s4 = bump_spec(s2);
            item_spec(s4, Item::Ty, f)
        } else {
            s2
        };
        node(s, s3, SyntaxKind::FnTy)
    }
}

/// Types with `*` between them.
pub open spec fn tuple_ty_spec(s: State, fuel: nat) -> State
    decreases fuel, 1nat, 0nat,
{
    if fuel == 0 {
        error_spec(s, None)
    } else {
        let f = (fuel - 1) as nat;
        let s1 = enter_spec(s);
        let s2 = item_spec(s1, Item::FlatTy, f);
        let s3 = sep_more_spec(s2, TokenKind::Star, Item::FlatTy, f);
        node(s, s3, SyntaxKind::TupleTy)
    }
}

/// Atomic types, one behind the other: a type and the type constructors
/// that are applied to it. At least one must be there.
pub open spec fn flat_ty_spec(s: State, fuel: nat) -> State
    decreases fuel, 1nat, 0nat,
{
    if fuel == 0 {
        error_spec(s, None)
    } else {
        let f = (fuel - 1) as nat;
        let s1 = enter_spec(s);
        let s2 = some_spec(s1, Item::TyAtom, f);
        node(s, s2, SyntaxKind::FlatTy)
    }
}

/// An atomic type: a type variable, a record type, types between round
/// brackets, or a path.
pub open spec fn ty_atom_spec(s: State, fuel: nat) -> State
    decreases fuel, 1nat, 0nat,
{
    if fuel == 0 {
        error_spec(s, None)
    } else {
        let f = (fuel - 1) as nat;
        if at(s, TokenKind::TyVar) {
            let s2 = enter_spec(s);
            let s3 = bump_spec(s2);
            node(s, s3, SyntaxKind::TyVarTy)
        } else {
            if at(s, TokenKind::LCurly) {
                let s6 = enter_spec(s);
                let s7 = bump_spec(s6);
                let s8 = rows_spec(s7, TokenKind::RCurly, SyntaxKind::Row, Item::TyRow, f);
                let s9 = eat(s8, TokenKind::RCurly);
                node(s, s9, SyntaxKind::RecordTy)
            } else {
                if at(s, TokenKind::LRound) {
                    let s12 = enter_spec(s);
                    let s13 = bump_spec(s12);
                    let s14 = many_sep_spec(s13, SyntaxKind::Token(TokenKind::Comma), SyntaxKind::Arg, Item::Ty, f);
                    let s15 = eat(s14, TokenKind::RRound);
                    node(s, s15, SyntaxKind::ParenTy)
                } else {
                    if at(s, TokenKind::Name) {
                        let s18 = enter_spec(s);
                        let s19 = path_spec(s18);
                        node(s, s19, SyntaxKind::PathTy)
                    } else {
                        error_spec(s, None)
                    }
                }
            }
        }
    }
}

/// A row of a record type: a label, `:` and a type.
pub open spec fn ty_row_spec(s: State, fuel: nat) -> State
    decreases fuel, 1nat, 0nat,
{
    if fuel == 0 {
        error_spec(s, None)
    } else {
        let f = (fuel - 1) as nat;
        let s1 = if (at(s, TokenKind::Name) || at(s, TokenKind::IntLit)) {
            bump_spec(s)
        } else {
            error_spec(s, Some(SyntaxKind::Token(TokenKind::Name)))
        };
        let s4 = eat(s1, TokenKind::Colon);
        item_spec(s4, Item::Ty, f)
    }
}

/// `:` and a type.
pub open spec fn ty_annot_spec(s: State, fuel: nat) -> State
    decreases fuel, 1nat, 0nat,
{
    if fuel == 0 {
        error_spec(s, None)
    } else {
        let f = (fuel - 1) as nat;
        let s1 = enter_spec(s);
        let s2 = eat(s1, TokenKind::Colon);
        let s3 = item_spec(s2, Item::Ty, f);
        node(s, s3, SyntaxKind::TyAnnot)
    }
}

/// A pattern: atomic patterns, then a type annotation and `as` with a
/// pattern, each if it is there.
pub open spec fn pat_spec(s: State, fuel: nat) -> State
    decreases fuel, 1nat, 0nat,
{
    if fuel == 0 {
        error_spec(s, None)
    } else {
        let f = (fuel - 1) as nat;
        let s1 = enter_spec(s);
        let s2 = item_spec(s1, Item::FlatPat, f);
        let s3 = opt_annot_spec(s2, f);
        let s4 = as_tail_spec(s3, f);
        node(s, s4, SyntaxKind::Pat)
    }
}

/// Atomic patterns, one behind the other. At least one must be there.
pub open spec fn flat_pat_spec(s: State, fuel: nat) -> State
    decreases fuel, 1nat, 0nat,
{
    if fuel == 0 {
        error_spec(s, None)
    } else {
        let f = (fuel - 1) as nat;
        let s1 = enter_spec(s);
        let s2 = some_spec(s1, Item::PatAtom, f);
        node(s, s2, SyntaxKind::FlatPat)
    }
}

/// An atomic pattern: `_`, a special constant, a path with `op` in front
/// or without, a record, patterns between round brackets, or a list.
pub open spec fn pat_atom_spec(s: State, fuel: nat) -> State
    decreases fuel, 1nat, 0nat,
{
    if fuel == 0 {
        error_spec(s, None)
    } else {
        let f = (fuel - 1) as nat;
        if at(s, TokenKind::Underscore) {
            let s2 = enter_spec(s);
            let s3 = bump_spec(s2);
            node(s, s3, SyntaxKind::WildPat)
        } else {
            if at_scon(s) {
                let s6 = enter_spec(s);
                let s7 = bump_spec(s6);
                node(s, s7, SyntaxKind::SConPat)
            } else {
                if (at(s, TokenKind::Op) || at(s, TokenKind::Name)) {
                    let s10 = enter_spec(s);
                    let s11 = opt(s10, TokenKind::Op);
                    let s12 = path_spec(s11);
                    node(s, s12, SyntaxKind::PathPat)
                } else {
                    if at(s, TokenKind::LCurly) {
                        let s15 = enter_spec(s);
                        let s16 = bump_spec(s15);
                        let s17 = rows_spec(s16, TokenKind::RCurly, SyntaxKind::Row, Item::PatRow, f);
                        let s18 = eat(s17, TokenKind::RCurly);
                        node(s, s18, SyntaxKind::RecordPat)
                    } else {
                        if at(s, TokenKind::LRound) {
                            let s21 = enter_spec(s);
                            let s22 = bump_spec(s21);
                            let s23 = rows_spec(s22, TokenKind::RRound, SyntaxKind::Arg, Item::Pat, f);
                            let s24 = eat(s23, TokenKind::RRound);
                            node(s, s24, SyntaxKind::ParenPat)
                        } else {
                            if at(s, TokenKind::LSquare) {
                                let s27 = enter_spec(s);
                                let s28 = bump_spec(s27);
                                let s29 = rows_spec(s28, TokenKind::RSquare, SyntaxKind::Arg, Item::Pat, f);
                                let s30 = eat(s29, TokenKind::RSquare);
                                node(s, s30, SyntaxKind::ListPat)
                            } else {
                                error_spec(s, None)
                            }
                        }
                    }
                }
            }
        }
    }
}

/// A row of a record pattern: `...`, a label with `=` and a pattern, or a
/// name with a type annotation and `as` with a pattern, each if it is
/// there.
pub open spec fn pat_row_spec(s: State, fuel: nat) -> State
    decreases fuel, 1nat, 0nat,
{
    if fuel == 0 {
        error_spec(s, None)
    } else {
        let f = (fuel - 1) as nat;
        if at(s, TokenKind::DotDotDot) {
            let s2 = enter_spec(s);
            let s3 = bump_spec(s2);
            node(s, s3, SyntaxKind::RestPatRow)
        } else {
            if ((at(s, TokenKind::Name) || at(s, TokenKind::IntLit)) && nth(s, 1) == Some(TokenKind::Eq)) {
                let s6 = enter_spec(s);
                let s7 = bump_spec(s6);
                let s8 = bump_spec(s7);
                let s9 = item_spec(s8, Item::Pat, f);
                node(s, s9, SyntaxKind::LabPatRow)
            } else {
                let s11 = enter_spec(s);
                let s12 = eat(s11, TokenKind::Name);
                let s13 = opt_annot_spec(s12, f);
                let s14 = as_tail_spec(s13, f);
                node(s, s14, SyntaxKind::NamePatRow)
            }
        }
    }
}

/// An expression. `raise`, `if`, `while`, `case` and `fn` start an
/// expression that reaches as far to the right as it can; any other
/// expression may have handlers behind it.
pub open spec fn exp_spec(s: State, fuel: nat) -> State
    decreases fuel, 1nat, 0nat,
{
    if fuel == 0 {
        error_spec(s, None)
    } else {
        let f = (fuel - 1) as nat;
        if at(s, TokenKind::Raise) {
            let s2 = enter_spec(s);
            let s3 = bump_spec(s2);
            let s4 = item_spec(s3, Item::Exp, f);
            node(s, s4, SyntaxKind::RaiseExp)
        } else {
            if at(s, TokenKind::If) {
                let s7 = enter_spec(s);
                let s8 = bump_spec(s7);
                let s9 = item_spec(s8, Item::Exp, f);
                let s10 = eat(s9, TokenKind::Then);
                let s11 = item_spec(s10, Item::Exp, f);
                let s12 = eat(s11, TokenKind::Else);
                let s13 = item_spec(s12, Item::Exp, f);
                node(s, s13, SyntaxKind::IfExp)
            } else {
                if at(s, TokenKind::While) {
                    let s16 = enter_spec(s);
                    let s17 = bump_spec(s16);
                    let s18 = item_spec(s17, Item::Exp, f);
                    let s19 = eat(s18, TokenKind::Do);
                    let s20 = item_spec(s19, Item::Exp, f);
                    node(s, s20, SyntaxKind::WhileExp)
                } else {
                    if at(s, TokenKind::Case) {
                        let s23 = enter_spec(s);
                        let s24 = bump_spec(s23);
                        let s25 = item_spec(s24, Item::Exp, f);
                        let s26 = eat(s25, TokenKind::Of);
                        let s27 = item_spec(s26, Item::Matcher, f);
                        node(s, s27, SyntaxKind::CaseExp)
                    } else {
                        if at(s, TokenKind::Fn) {
                            let s30 = enter_spec(s);
                            let s31 = bump_spec(s30);
                            let s32 = item_spec(s31, Item::Matcher, f);
                            node(s, s32, SyntaxKind::FnExp)
                        } else {
                            let s34 = enter_spec(s);
                            let s35 = item_spec(s34, Item::OrelseExp, f);
                            let s36 = many_spec(s35, Item::HandleTail, f);
                            node(s, s36, SyntaxKind::HandleExp)
                        }
                    }
                }
            }
        }
    }
}

/// Expressions with `orelse` between them.
pub open spec fn orelse_exp_spec(s: State, fuel: nat) -> State
    decreases fuel, 1nat, 0nat,
{
    if fuel == 0 {
        error_spec(s, None)
    } else {
        let f = (fuel - 1) as nat;
        let s1 = enter_spec(s);
        let s2 = item_spec(s1, Item::AndalsoExp, f);
        let s3 = sep_more_spec(s2, TokenKind::Orelse, Item::OrelseOperand, f);
        node(s, s3, SyntaxKind::OrelseExp)
    }
}

/// Expressions with `andalso` between them.
pub open spec fn andalso_exp_spec(s: State, fuel: nat) -> State
    decreases fuel, 1nat, 0nat,
{
    if fuel == 0 {
        error_spec(s, None)
    } else {
        let f = (fuel - 1) as nat;
        let s1 = enter_spec(s);
        let s2 = item_spec(s1, Item::TypedExp, f);
        let s3 = sep_more_spec(s2, TokenKind::Andalso, Item::AndalsoOperand, f);
        node(s, s3, SyntaxKind::AndalsoExp)
    }
}

/// What stands behind `orelse`: an expression that reaches far to the
/// right, or expressions with `andalso` between them.
pub open spec fn orelse_operand_spec(s: State, fuel: nat) -> State
    decreases fuel, 1nat, 0nat,
{
    if fuel == 0 {
        error_spec(s, None)
    } else {
        let f = (fuel - 1) as nat;
        if at_far(s) {
            item_spec(s, Item::Exp, f)
        } else {
            item_spec(s, Item::AndalsoExp, f)
        }
    }
}

/// What stands behind `andalso`: an expression that reaches far to the
/// right, or an expression with its type annotations.
pub open spec fn andalso_operand_spec(s: State, fuel: nat) -> State
    decreases fuel, 1nat, 0nat,
{
    if fuel == 0 {
        error_spec(s, None)
    } else {
        let f = (fuel - 1) as nat;
        if at_far(s) {
            item_spec(s, Item::Exp, f)
        } else {
            item_spec(s, Item::TypedExp, f)
        }
    }
}

/// Atomic expressions with the type annotations behind them.
pub open spec fn typed_exp_spec(s: State, fuel: nat) -> State
    decreases fuel, 1nat, 0nat,
{
    if fuel == 0 {
        error_spec(s, None)
    } else {
        let f = (fuel - 1) as nat;
        let s1 = enter_spec(s);
        let s2 = item_spec(s1, Item::FlatExp, f);
        let s3 = many_spec(s2, Item::TyAnnot, f);
        node(s, s3, SyntaxKind::TypedExp)
    }
}

/// Atomic expressions, one behind the other. At least one must be there.
pub open spec fn flat_exp_spec(s: State, fuel: nat) -> State
    decreases fuel, 1nat, 0nat,
{
    if fuel == 0 {
        error_spec(s, None)
    } else {
        let f = (fuel - 1) as nat;
        let s1 = enter_spec(s);
        let s2 = some_spec(s1, Item::ExpAtom, f);
        node(s, s2, SyntaxKind::FlatExp)
    }
}

/// `handle` and a matcher.
pub open spec fn handle_tail_spec(s: State, fuel: nat) -> State
    decreases fuel, 1nat, 0nat,
{
    if fuel == 0 {
        error_spec(s, None)
    } else {
        let f = (fuel - 1) as nat;
        let s1 = enter_spec(s);
        let s2 = eat(s1, TokenKind::Handle);
        let s3 = item_spec(s2, Item::Matcher, f);
        node(s, s3, SyntaxKind::HandleTail)
    }
}

/// The arms of a match, with `|` between them; `|` may also stand in
/// front of the first.
pub open spec fn matcher_spec(s: State, fuel: nat) -> State
    decreases fuel, 1nat, 0nat,
{
    if fuel == 0 {
        error_spec(s, None)
    } else {
        let f = (fuel - 1) as nat;
        let s1 = enter_spec(s);
        let s2 = opt(s1, TokenKind::Bar);
        let s3 = item_spec(s2, Item::Arm, f);
        let s4 = sep_more_spec(s3, TokenKind::Bar, Item::Arm, f);
        node(s, s4, SyntaxKind::Matcher)
    }
}

/// An arm of a match: a pattern, `=>` and an expression.
pub open spec fn arm_spec(s: State, fuel: nat) -> State
    decreases fuel, 1nat, 0nat,
{
    if fuel == 0 {
        error_spec(s, None)
    } else {
        let f = (fuel - 1) as nat;
        let s1 = enter_spec(s);
        let s2 = item_spec(s1, Item::Pat, f);
        let s3 = eat(s2, TokenKind::EqGt);
        let s4 = item_spec(s3, Item::Exp, f);
        node(s, s4, SyntaxKind::Arm)
    }
}

/// An atomic expression: a special constant, a name with `op` in front
/// or without, a record, a selector, expressions between round
/// brackets, a list, or `let`.
pub open spec fn exp_atom_spec(s: State, fuel: nat) -> State
    decreases fuel, 1nat, 0nat,
{
    if fuel == 0 {
        error_spec(s, None)
    } else {
        let f = (fuel - 1) as nat;
        if at_scon(s) {
            let s2 = enter_spec(s);
            let s3 = bump_spec(s2);
            node(s, s3, SyntaxKind::SConExp)
        } else {
            if (at(s, TokenKind::Op) || at(s, TokenKind::Name) || at(s, TokenKind::Eq) || at(s, TokenKind::Star)) {
                let s6 = enter_spec(s);
                let s7 = opt(s6, TokenKind::Op);
                let s8 = name_spec(s7);
                node(s, s8, SyntaxKind::PathExp)
            } else {
                if at(s, TokenKind::LCurly) {
                    let s11 = enter_spec(s);
                    let s12 = bump_spec(s11);
                    let s13 = rows_spec(s12, TokenKind::RCurly, SyntaxKind::Row, Item::ExpRow, f);
                    let s14 = eat(s13, TokenKind::RCurly);
                    node(s, s14, SyntaxKind::RecordExp)
                } else {
                    if at(s, TokenKind::Hash) {
                        let s17 = enter_spec(s);
                        let s18 = bump_spec(s17);
                        let s19 = lab_spec(s18);
                        node(s, s19, SyntaxKind::SelectorExp)
                    } else {
                        if at(s, TokenKind::LRound) {
                            let s22 = enter_spec(s);
                            let s23 = bump_spec(s22);
                            if at(s23, TokenKind::RRound) {
                                let s25 = bump_spec(s23);
                                node(s, s25, SyntaxKind::ParenExp)
                            } else {
                                let s27 = item_spec(s23, Item::Exp, f);
                                if at(s27, TokenKind::Semicolon) {
                                    let s29 = sep_more_spec(s27, TokenKind::Semicolon, Item::Exp, f);
                                    let s30 = eat(s29, TokenKind::RRound);
                                    node(s, s30, SyntaxKind::SeqExp)
                                } else {
                                    let s32 = sep_more_spec(s27, TokenKind::Comma, Item::Exp, f);
                                    let s33 = eat(s32, TokenKind::RRound);
                                    node(s, s33, SyntaxKind::ParenExp)
                                }
                            }
                        } else {
                            if at(s, TokenKind::LSquare) {
                                let s36 = enter_spec(s);
                                let s37 = bump_spec(s36);
                                let s38 = rows_spec(s37, TokenKind::RSquare, SyntaxKind::Arg, Item::Exp, f);
                                let s39 = eat(s38, TokenKind::RSquare);
                                node(s, s39, SyntaxKind::ListExp)
                            } else {
                                if at(s, TokenKind::Let) {
                                    let s42 = enter_spec(s);
                                    let s43 = bump_spec(s42);
                                    let s44 = item_spec(s43, Item::Decs, f);
                                    let s45 = eat(s44, TokenKind::In);
                                    let s46 = item_spec(s45, Item::Exp, f);
                                    let s47 = sep_more_spec(s46, TokenKind::Semicolon, Item::Exp, f);
                                    let s48 = eat(s47, TokenKind::End);
                                    node(s, s48, SyntaxKind::LetExp)
                                } else {
                                    error_spec(s, None)
                                }
                            }
                        }
                    }
                }
            }
        }
    }
}

/// A row of a record expression: a label, `=` and an expression.
pub open spec fn exp_row_spec(s: State, fuel: nat) -> State
    decreases fuel, 1nat, 0nat,
{
    if fuel == 0 {
        error_spec(s, None)
    } else {
        let f = (fuel - 1) as nat;
        let s1 = lab_spec(s);
        let s2 = eat(s1, TokenKind::Eq);
        item_spec(s2, Item::Exp, f)
    }
}

/// Declarations, one behind the other, with semicolons between them or
/// without.
pub open spec fn decs_spec(s: State, fuel: nat) -> State
    decreases fuel, 1nat, 0nat,
{
    if fuel == 0 {
        error_spec(s, None)
    } else {
        let f = (fuel - 1) as nat;
        let s1 = enter_spec(s);
        let s2 = many_spec(s1, Item::DecOrSemi, f);
        node(s, s2, SyntaxKind::Decs)
    }
}

/// A semicolon, or a declaration.
pub open spec fn dec_or_semi_spec(s: State, fuel: nat) -> State
    decreases fuel, 1nat, 0nat,
{
    if fuel == 0 {
        error_spec(s, None)
    } else {
        let f = (fuel - 1) as nat;
        if at(s, TokenKind::Semicolon) {
            bump_spec(s)
        } else {
            item_spec(s, Item::Dec, f)
        }
    }
}

/// A declaration.
pub open spec fn dec_spec(s: State, fuel: nat) -> State
    decreases fuel, 1nat, 0nat,
{
    if fuel == 0 {
        error_spec(s, None)
    } else {
        let f = (fuel - 1) as nat;
        if at(s, TokenKind::Val) {
            let s2 = enter_spec(s);
            let s3 = bump_spec(s2);
            let s4 = ty_var_seq_spec(s3, f);
            let s5 = many_sep_spec(s4, SyntaxKind::Token(TokenKind::And), SyntaxKind::ValBind, Item::ValBind, f);
            node(s, s5, SyntaxKind::ValDec)
        } else {
            if at(s, TokenKind::Fun) {
                let s8 = enter_spec(s);
                let s9 = bump_spec(s8);
                let s10 = ty_var_seq_spec(s9, f);
                let s11 = many_sep_spec(s10, SyntaxKind::Token(TokenKind::And), SyntaxKind::FunBind, Item::FunBind, f);
                node(s, s11, SyntaxKind::FunDec)
            } else {
                if at(s, TokenKind::Type) {
                    let s14 = enter_spec(s);
                    let s15 = bump_spec(s14);
                    let s16 = many_sep_spec(s15, SyntaxKind::Token(TokenKind::And), SyntaxKind::TyBind, Item::TyBind, f);
                    node(s, s16, SyntaxKind::TyDec)
                } else {
                    if (at(s, TokenKind::Datatype) && (nth(s, 1) == Some(TokenKind::Name) && (nth(s, 2) == Some(TokenKind::Eq) && nth(s, 3) == Some(TokenKind::Datatype)))) {
                        let s19 = enter_spec(s);
                        let s20 = bump_spec(s19);
                        let s21 = bump_spec(s20);
                        let s22 = bump_spec(s21);
                        let s23 = bump_spec(s22);
                        let s24 = path_spec(s23);
                        node(s, s24, SyntaxKind::DatCopyDec)
                    } else {
                        if at(s, TokenKind::Datatype) {
                            let s27 = enter_spec(s);
                            let s28 = bump_spec(s27);
                            let s29 = many_sep_spec(s28, SyntaxKind::Token(TokenKind::And), SyntaxKind::DatBind, Item::DatBind, f);
                            let s30 = with_type_spec(s29, f);
                            node(s, s30, SyntaxKind::DatDec)
                        } else {
                            if at(s, TokenKind::Abstype) {
                                let s33 = enter_spec(s);
                                let s34 = bump_spec(s33);
                                let s35 = many_sep_spec(s34, SyntaxKind::Token(TokenKind::And), SyntaxKind::DatBind, Item::DatBind, f);
                                let s36 = with_type_spec(s35, f);
                                let s37 = eat(s36, TokenKind::With);
                                let s38 = item_spec(s37, Item::Decs, f);
                                let s39 = eat(s38, TokenKind::End);
                                node(s, s39, SyntaxKind::AbstypeDec)
                            } else {
                                if at(s, TokenKind::Exception) {
                                    let s42 = enter_spec(s);
                                    let s43 = bump_spec(s42);
                                    let s44 = many_sep_spec(s43, SyntaxKind::Token(TokenKind::And), SyntaxKind::ExBind, Item::ExBind, f);
                                    node(s, s44, SyntaxKind::ExDec)
                                } else {
                                    if at(s, TokenKind::Local) {
                                        let s47 = enter_spec(s);
                                        let s48 = bump_spec(s47);
                                        let s49 = item_spec(s48, Item::Decs, f);
                                        let s50 = eat(s49, TokenKind::In);
                                        let s51 = item_spec(s50, Item::Decs, f);
                                        let s52 = eat(s51, TokenKind::End);
                                        node(s, s52, SyntaxKind::LocalDec)
                                    } else {
                                        if at(s, TokenKind::Open) {
                                            let s55 = enter_spec(s);
                                            let s56 = bump_spec(s55);
                                            let s57 = some_spec(s56, Item::Path, f);
                                            node(s, s57, SyntaxKind::OpenDec)
                                        } else {
                                            if (at(s, TokenKind::Infix) || at(s, TokenKind::Infixr) || at(s, TokenKind::Nonfix)) {
                                                let s60 = enter_spec(s);
                                                let s61 = bump_spec(s60);
                                                let s62 = opt(s61, TokenKind::IntLit);
                                                let s63 = fix_names_spec(s62);
                                                node(s, s63, SyntaxKind::InfixDec)
                                            } else {
                                                error_spec(s, None)
                                            }
                                        }
                                    }
                                }
                            }
                        }
                    }
                }
            }
        }
    }
}

/// A binding of `val`: a pattern, `=` and an expression, behind `rec` or
/// not.
pub open spec fn val_bind_spec(s: State, fuel: nat) -> State
    decreases fuel, 1nat, 0nat,
{
    if fuel == 0 {
        error_spec(s, None)
    } else {
        let f = (fuel - 1) as nat;
        let s1 = opt(s, TokenKind::Rec);
        let s2 = item_spec(s1, Item::Pat, f);
        let s3 = eat(s2, TokenKind::Eq);
        item_spec(s3, Item::Exp, f)
    }
}

/// The clauses of one function, with `|` between them; `|` may also
/// stand in front of the first.
pub open spec fn fun_bind_spec(s: State, fuel: nat) -> State
    decreases fuel, 1nat, 0nat,
{
    if fuel == 0 {
        error_spec(s, None)
    } else {
        let f = (fuel - 1) as nat;
        let s1 = opt(s, TokenKind::Bar);
        many_sep_spec(s1, SyntaxKind::Token(TokenKind::Bar), SyntaxKind::Clause, Item::Clause, f)
    }
}

/// A clause of a function: the name and the arguments as atomic
/// patterns, a type annotation if it is there, `=` and an expression.
pub open spec fn clause_spec(s: State, fuel: nat) -> State
    decreases fuel, 1nat, 0nat,
{
    if fuel == 0 {
        error_spec(s, None)
    } else {
        let f = (fuel - 1) as nat;
        let s1 = item_spec(s, Item::FlatPat, f);
        let s2 = opt_annot_spec(s1, f);
        let s3 = eat(s2, TokenKind::Eq);
        item_spec(s3, Item::Exp, f)
    }
}

/// A binding of `type`: type variables, a name, `=` and a type.
pub open spec fn ty_bind_spec(s: State, fuel: nat) -> State
    decreases fuel, 1nat, 0nat,
{
    if fuel == 0 {
        error_spec(s, None)
    } else {
        let f = (fuel - 1) as nat;
        let s1 = ty_var_seq_spec(s, f);
        let s2 = eat(s1, TokenKind::Name);
        let s3 = eat(s2, TokenKind::Eq);
        item_spec(s3, Item::Ty, f)
    }
}

/// A binding of `datatype`: type variables, a name, `=` and the
/// constructors with `|` between them.
pub open spec fn dat_bind_spec(s: State, fuel: nat) -> State
    decreases fuel, 1nat, 0nat,
{
    if fuel == 0 {
        error_spec(s, None)
    } else {
        let f = (fuel - 1) as nat;
        let s1 = ty_var_seq_spec(s, f);
        let s2 = eat(s1, TokenKind::Name);
        let s3 = eat(s2, TokenKind::Eq);
        let s4 = opt(s3, TokenKind::Bar);
        many_sep_spec(s4, SyntaxKind::Token(TokenKind::Bar), SyntaxKind::ConBind, Item::ConBind, f)
    }
}

/// A constructor: a name, with `op` in front or without, and `of` with a
/// type if it takes an argument.
pub open spec fn con_bind_spec(s: State, fuel: nat) -> State
    decreases fuel, 1nat, 0nat,
{
    if fuel == 0 {
        error_spec(s, None)
    } else {
        let f = (fuel - 1) as nat;
        let s1 = opt(s, TokenKind::Op);
        let s2 = eat(s1, TokenKind::Name);
        of_ty_spec(s2, f)
    }
}

/// A binding of `exception`: a name, and `of` with a type, or `=` with a
/// path.
pub open spec fn ex_bind_spec(s: State, fuel: nat) -> State
    decreases fuel, 1nat, 0nat,
{
    if fuel == 0 {
        error_spec(s, None)
    } else {
        let f = (fuel - 1) as nat;
        let s1 = opt(s, TokenKind::Op);
        let s2 = eat(s1, TokenKind::Name);
        if at(s2, TokenKind::Of) {
            of_ty_spec(s2, f)
        } else {
            if at(s2, TokenKind::Eq) {
                let s6 = bump_spec(s2);
                let s7 = opt(s6, TokenKind::Op);
                path_spec(s7)
            } else {
                s2
            }
        }
    }
}

/// What stands at the top of a file: a semicolon, a declaration, or a
/// token that starts no declaration, which is an error.
pub open spec fn top_item_spec(s: State, fuel: nat) -> State
    decreases fuel, 1nat, 0nat,
{
    if fuel == 0 {
        error_spec(s, None)
    } else {
        let f = (fuel - 1) as nat;
        if at(s, TokenKind::Semicolon) {
            bump_spec(s)
        } else {
            if at_dec(s) {
                item_spec(s, Item::Dec, f)
            } else {
                let s5 = enter_spec(s);
                let s6 = error_spec(s5, None);
                let s7 = bump_spec(s6);
                node(s, s7, SyntaxKind::Stray)
            }
        }
    }
}

/// A whole file.
pub open spec fn root_spec(s: State, fuel: nat) -> State
    decreases fuel, 1nat, 0nat,
{
    if fuel == 0 {
        error_spec(s, None)
    } else {
        let f = (fuel - 1) as nat;
        let s1 = enter_spec(s);
        let s2 = many_spec(s1, Item::TopItem, f);
        node(s, s2, SyntaxKind::Root)
    }
}

/// What a rule of the grammar does to the state of a parser, nesting at
/// most `fuel` rules deep.
pub open spec fn item_spec(s: State, which: Item, fuel: nat) -> State
    decreases fuel, 2nat, 0nat,
{
    match which {
        Item::Path => path_spec(s),
        Item::SCon => scon_spec(s),
        Item::TyVarArg => eat(s, TokenKind::TyVar),
        Item::Ty => ty_spec(s, fuel),
        Item::TupleTy => tuple_ty_spec(s, fuel),
        Item::FlatTy => flat_ty_spec(s, fuel),
        Item::TyAtom => ty_atom_spec(s, fuel),
        Item::TyRow => ty_row_spec(s, fuel),
        Item::TyAnnot => ty_annot_spec(s, fuel),
        Item::Pat => pat_spec(s, fuel),
        Item::FlatPat => flat_pat_spec(s, fuel),
        Item::PatAtom => pat_atom_spec(s, fuel),
        Item::PatRow => pat_row_spec(s, fuel),
        Item::Exp => exp_spec(s, fuel),
        Item::OrelseExp => orelse_exp_spec(s, fuel),
        Item::AndalsoExp => andalso_exp_spec(s, fuel),
        Item::OrelseOperand => orelse_operand_spec(s, fuel),
        Item::AndalsoOperand => andalso_operand_spec(s, fuel),
        Item::TypedExp => typed_exp_spec(s, fuel),
        Item::FlatExp => flat_exp_spec(s, fuel),
        Item::HandleTail => handle_tail_spec(s, fuel),
        Item::Matcher => matcher_spec(s, fuel),
        Item::Arm => arm_spec(s, fuel),
        Item::ExpAtom => exp_atom_spec(s, fuel),
        Item::ExpRow => exp_row_spec(s, fuel),
        Item::Decs => decs_spec(s, fuel),
        Item::DecOrSemi => dec_or_semi_spec(s, fuel),
        Item::Dec => dec_spec(s, fuel),
        Item::ValBind => val_bind_spec(s, fuel),
        Item::FunBind => fun_bind_spec(s, fuel),
        Item::Clause => clause_spec(s, fuel),
        Item::TyBind => ty_bind_spec(s, fuel),
        Item::DatBind => dat_bind_spec(s, fuel),
        Item::ConBind => con_bind_spec(s, fuel),
        Item::ExBind => ex_bind_spec(s, fuel),
        Item::TopItem => top_item_spec(s, fuel),
        Item::Root => root_spec(s, fuel),
    }
}


/// The events of parsing the tokens of a file: those of the rule for a
/// whole file, on the tokens without blanks and comments.
pub open spec fn events_spec(tokens: Seq<Token>) -> Seq<Event> {
    item_spec(
        State {
            tokens: without_trivia(tokens, tokens.len() as int),
            pos: 0,
            events: Seq::empty(),
        },
        Item::Root,
        FUEL as nat,
    ).events
}

/// How deep the rules of the grammar may nest in one file.
pub const FUEL: u64 = 0xffff_ffff_ffff_ffff;

impl View for Parser {
    type V = State;

    closed spec fn view(&self) -> State {
        State { tokens: self.tokens@, pos: self.pos as int, events: self.events@ }
    }
}

impl Parser {
    /// A parser at the start of the tokens, without the blanks and the
    /// comments.
    pub fn new(tokens: &Vec<Token>) -> (r: Parser)
        ensures
            r@.tokens == without_trivia(tokens@, tokens@.len() as int),
            r@.pos == 0,
            r@.events == Seq::<Event>::empty(),
    {
        let mut kept: Vec<Token> = Vec::new();
        let mut i: usize = 0;
        while i < tokens.len()
            invariant
                i <= tokens.len(),
                kept@ == without_trivia(tokens@, i as int),
            decreases tokens.len() - i,
        {
            let t = tokens[i];
            match t.kind {
                TokenKind::Whitespace | TokenKind::BlockComment => {},
                _ => {
                    kept.push(t);
                },
            }
            i += 1;
        }
        Parser { tokens: kept, pos: 0, events: Vec::new() }
    }

    /// The events so far.
    pub fn events(&self) -> (r: &Vec<Event>)
        ensures
            r@ == self@.events,
    {
        &self.events
    }

    /// The tokens that the parser reads.
    pub fn tokens(&self) -> (r: &Vec<Token>)
        ensures
            r@ == self@.tokens,
    {
        &self.tokens
    }

    /// How many tokens were taken.
    pub fn pos(&self) -> (r: usize)
        ensures
            r == self@.pos,
            r <= self@.tokens.len() || self@.tokens.len() < r,
    {
        self.pos
    }

    /// The kind of the token `n` places behind the next one, if there is
    /// one.
    pub fn nth_kind(&self, n: usize) -> (r: Option<TokenKind>)
        ensures
            r == nth(self@, n as int),
    {
        if self.pos < self.tokens.len() && n < self.tokens.len() - self.pos {
            Some(self.tokens[self.pos + n].kind)
        } else {
            None
        }
    }

    /// Whether the token `n` places behind the next one is the token.
    pub fn nth_is(&self, n: usize, kind: TokenKind) -> (r: bool)
        ensures
            r == (nth(self@, n as int) == Some(kind)),
    {
        match self.nth_kind(n) {
            Some(k) => k == kind,
            None => false,
        }
    }

    /// Whether the next token is the token.
    pub fn at_tok(&self, kind: TokenKind) -> (r: bool)
        ensures
            r == at(self@, kind),
    {
        self.nth_is(0, kind)
    }

    /// Whether the next token is of the kind.
    pub fn at(&self, kind: SyntaxKind) -> (r: bool)
        ensures
            r == at_spec(self@, kind),
    {
        match kind {
            SyntaxKind::Token(k) => self.nth_is(0, k),
            _ => false,
        }
    }

    /// Whether the next token is a special constant.
    pub fn at_scon(&self) -> (r: bool)
        ensures
            r == at_scon(self@),
    {
        match self.nth_kind(0) {
            Some(k) => token_is_scon(k),
            None => false,
        }
    }

    /// Whether the next token starts a declaration.
    pub fn at_dec(&self) -> (r: bool)
        ensures
            r == at_dec(self@),
    {
        match self.nth_kind(0) {
            Some(k) => token_starts_dec(k),
            None => false,
        }
    }

    /// Whether the next token starts an expression that reaches as far to
    /// the right as it can.
    pub fn at_far(&self) -> (r: bool)
        ensures
            r == at_far(self@),
    {
        match self.nth_kind(0) {
            Some(k) => k == TokenKind::Raise || k == TokenKind::If || k == TokenKind::While || k
                == TokenKind::Case || k == TokenKind::Fn,
            None => false,
        }
    }

    /// Whether the next token may start the rule.
    pub fn starts(&self, which: Item) -> (r: bool)
        ensures
            r == starts_at(self@, which),
    {
        match self.nth_kind(0) {
            Some(k) => token_starts(which, k),
            None => false,
        }
    }

    /// Enters a node.
    pub fn enter(&mut self) -> (r: Entered)
        ensures
            final(self)@ == enter_spec(old(self)@),
            r.place() == old(self)@.events.len(),
    {
        let idx = self.events.len();
        self.events.push(Event::Enter(None));
        Entered { idx }
    }

    /// Exits a node with its kind.
    pub fn exit(&mut self, entered: Entered, kind: SyntaxKind) -> (r: Exited)
        ensures
            final(self)@ == exit_spec(old(self)@, entered.place(), kind),
            r.idx == entered.place(),
    {
        let idx = entered.idx;
        if idx < self.events.len() {
            self.events.set(idx, Event::Enter(Some(kind)));
        }
        self.events.push(Event::Exit);
        Exited { idx }
    }

    /// Takes the next token, if there is one.
    pub fn bump(&mut self)
        ensures
            final(self)@ == bump_spec(old(self)@),
    {
        if self.pos < self.tokens.len() {
            self.events.push(Event::Token(self.pos));
            self.pos += 1;
        }
    }

    /// Takes the next token if it is of the kind; else records that the
    /// kind was expected.
    pub fn eat(&mut self, kind: SyntaxKind)
        ensures
            final(self)@ == eat_spec(old(self)@, kind),
    {
        if self.at(kind) {
            self.bump();
        } else {
            self.events.push(Event::Error(self.pos, Some(kind)));
        }
    }

    /// Takes the next token if it is the token.
    pub fn opt(&mut self, kind: TokenKind)
        ensures
            final(self)@ == opt(old(self)@, kind),
    {
        if self.at_tok(kind) {
            self.bump();
        }
    }

    /// Records that something else was expected here.
    pub fn error(&mut self)
        ensures
            final(self)@ == error_spec(old(self)@, None),
    {
        self.events.push(Event::Error(self.pos, None));
    }

    /// Records that a piece of syntax of the kind was expected here.
    pub fn expected(&mut self, kind: SyntaxKind)
        ensures
            final(self)@ == error_spec(old(self)@, Some(kind)),
    {
        self.events.push(Event::Error(self.pos, Some(kind)));
    }
}

impl Entered {
    /// Where the event of the node stands.
    pub closed spec fn place(self) -> int {
        self.idx as int
    }
}

fn token_is_scon(k: TokenKind) -> (r: bool)
    ensures
        r == is_scon(k),
{
    k == TokenKind::IntLit || k == TokenKind::RealLit || k == TokenKind::WordLit || k
        == TokenKind::CharLit || k == TokenKind::StringLit
}

fn token_starts_dec(k: TokenKind) -> (r: bool)
    ensures
        r == starts_dec(k),
{
    k == TokenKind::Val || k == TokenKind::Fun || k == TokenKind::Type || k == TokenKind::Datatype
        || k == TokenKind::Abstype || k == TokenKind::Exception || k == TokenKind::Local || k
        == TokenKind::Open || k == TokenKind::Infix || k == TokenKind::Infixr || k
        == TokenKind::Nonfix
}

fn token_starts(which: Item, k: TokenKind) -> (r: bool)
    ensures
        r == starts(which, k),
{
    match which {
        Item::Path => k == TokenKind::Name,
        Item::TyAtom => k == TokenKind::TyVar || k == TokenKind::LCurly || k == TokenKind::LRound
            || k == TokenKind::Name,
        Item::TyAnnot => k == TokenKind::Colon,
        Item::PatAtom => k == TokenKind::Underscore || token_is_scon(k) || k == TokenKind::Op || k
            == TokenKind::Name || k == TokenKind::LCurly || k == TokenKind::LRound || k
            == TokenKind::LSquare,
        Item::ExpAtom => token_is_scon(k) || k == TokenKind::Op || k == TokenKind::Name || k
            == TokenKind::Eq || k == TokenKind::Star || k == TokenKind::LCurly || k
            == TokenKind::Hash || k == TokenKind::LRound || k == TokenKind::LSquare || k
            == TokenKind::Let,
        Item::HandleTail => k == TokenKind::Handle,
        Item::DecOrSemi => token_starts_dec(k) || k == TokenKind::Semicolon,
        Item::TopItem => true,
        _ => false,
    }
}

/// Records an error when a parser that had to parse something gave
/// nothing: `got` is what it gave.
pub fn must(p: &mut Parser, got: Option<Exited>)
    ensures
        final(p)@ == must_spec(old(p)@, got is Some),
{
    if got.is_none() {
        p.error();
    }
}

/// Parses a path: names with dots between them.
pub fn path(p: &mut Parser) -> (r: Exited)
    ensures
        final(p)@.tokens == old(p)@.tokens,
        final(p)@ == path_spec(old(p)@),
        r.idx == old(p)@.events.len(),
{
    let e = p.enter();
    p.eat(SyntaxKind::Token(TokenKind::Name));
    let ghost s1 = p@;
    while p.at_tok(TokenKind::Dot)
        invariant
            dots_spec(s1) == dots_spec(p@),
            p@.tokens == old(p)@.tokens,
        decreases rem(p@),
    {
        p.bump();
        p.eat(SyntaxKind::Token(TokenKind::Name));
    }
    p.exit(e, SyntaxKind::Path)
}

/// Parses a special constant, if one is there.
pub fn scon(p: &mut Parser) -> (r: bool)
    ensures
        final(p)@.tokens == old(p)@.tokens,
        final(p)@ == scon_spec(old(p)@),
        r == at_scon(old(p)@),
{
    if p.at_scon() {
        p.bump();
        true
    } else {
        false
    }
}

fn name(p: &mut Parser)
    ensures
        final(p)@.tokens == old(p)@.tokens,
        final(p)@ == name_spec(old(p)@),
{
    if p.at_tok(TokenKind::Eq) || p.at_tok(TokenKind::Star) {
        p.bump();
    } else {
        path(p);
    }
}

fn lab(p: &mut Parser)
    ensures
        final(p)@.tokens == old(p)@.tokens,
        final(p)@ == lab_spec(old(p)@),
{
    if p.at_tok(TokenKind::Name) || p.at_tok(TokenKind::IntLit) {
        p.bump();
    } else {
        p.expected(SyntaxKind::Token(TokenKind::Name));
    }
}

fn fix_names(p: &mut Parser)
    ensures
        final(p)@.tokens == old(p)@.tokens,
        final(p)@ == fix_names_spec(old(p)@),
{
    while p.at_tok(TokenKind::Name) || p.at_tok(TokenKind::Eq) || p.at_tok(TokenKind::Star)
        invariant
            fix_names_spec(old(p)@) == fix_names_spec(p@),
            p@.tokens == old(p)@.tokens,
        decreases rem(p@),
    {
        p.bump();
    }
}

/// Parses by the rule again and again, as long as the next token may start
/// it and the rule takes a token.
pub fn many(p: &mut Parser, which: Item, fuel: u64)
    ensures
        final(p)@.tokens == old(p)@.tokens,
        final(p)@ == many_spec(old(p)@, which, fuel as nat),
    decreases fuel, 3nat, rem(old(p)@),
{
    loop
        invariant
            many_spec(old(p)@, which, fuel as nat) == many_spec(p@, which, fuel as nat),
            p@.tokens == old(p)@.tokens,
        decreases rem(p@),
    {
        if !p.starts(which) {
            return ;
        }
        let before = p.pos();
        item(p, which, fuel);
        if p.pos() <= before {
            return ;
        }
    }
}

/// Parses by the rule at least once: where the next token cannot start it,
/// that is an error.
pub fn some(p: &mut Parser, which: Item, fuel: u64)
    ensures
        final(p)@.tokens == old(p)@.tokens,
        final(p)@ == some_spec(old(p)@, which, fuel as nat),
    decreases fuel, 4nat, 0nat,
{
    if p.starts(which) {
        many(p, which, fuel);
    } else {
        p.error();
    }
}

/// Parses the separator and the rule behind it, as often as the separator
/// follows.
pub fn sep_more(p: &mut Parser, sep: TokenKind, which: Item, fuel: u64)
    ensures
        final(p)@.tokens == old(p)@.tokens,
        final(p)@ == sep_more_spec(old(p)@, sep, which, fuel as nat),
    decreases fuel, 3nat, rem(old(p)@),
{
    loop
        invariant
            sep_more_spec(old(p)@, sep, which, fuel as nat) == sep_more_spec(
                p@,
                sep,
                which,
                fuel as nat,
            ),
            p@.tokens == old(p)@.tokens,
        decreases rem(p@),
    {
        if !p.at_tok(sep) {
            return ;
        }
        let before = p.pos();
        p.bump();
        item(p, which, fuel);
        if p.pos() <= before {
            return ;
        }
    }
}

/// Parses by the rule with separators behind it, each round in a node of
/// the kind `wrap`. It stops if the separator is not found.
pub fn many_sep(p: &mut Parser, sep: SyntaxKind, wrap: SyntaxKind, which: Item, fuel: u64)
    ensures
        final(p)@.tokens == old(p)@.tokens,
        final(p)@ == many_sep_spec(old(p)@, sep, wrap, which, fuel as nat),
    decreases fuel, 3nat, rem(old(p)@),
{
    loop
        invariant
            many_sep_spec(old(p)@, sep, wrap, which, fuel as nat) == many_sep_spec(
                p@,
                sep,
                wrap,
                which,
                fuel as nat,
            ),
            p@.tokens == old(p)@.tokens,
        decreases rem(p@),
    {
        let before = p.pos();
        let ent = p.enter();
        item(p, which, fuel);
        if p.at(sep) && before <= p.pos() {
            p.bump();
            p.exit(ent, wrap);
        } else {
            p.exit(ent, wrap);
            return ;
        }
    }
}

fn rows(p: &mut Parser, close: TokenKind, wrap: SyntaxKind, which: Item, fuel: u64)
    ensures
        final(p)@.tokens == old(p)@.tokens,
        final(p)@ == rows_spec(old(p)@, close, wrap, which, fuel as nat),
    decreases fuel, 4nat, 0nat,
{
    if !p.at_tok(close) {
        many_sep(p, SyntaxKind::Token(TokenKind::Comma), wrap, which, fuel);
    }
}

fn ty_var_seq(p: &mut Parser, f: u64)
    ensures
        final(p)@.tokens == old(p)@.tokens,
        final(p)@ == ty_var_seq_spec(old(p)@, f as nat),
    decreases f, 4nat, 0nat,
{
    if p.at_tok(TokenKind::TyVar) {
        let e1 = p.enter();
        p.bump();
        p.exit(e1, SyntaxKind::TyVarSeq);
    } else {
        if (p.at_tok(TokenKind::LRound) && p.nth_is(1, TokenKind::TyVar)) {
            let e2 = p.enter();
            p.bump();
            many_sep(p, SyntaxKind::Token(TokenKind::Comma), SyntaxKind::Arg, Item::TyVarArg, f);
            p.eat(SyntaxKind::Token(TokenKind::RRound));
            p.exit(e2, SyntaxKind::TyVarSeq);
        }
    }
}

fn opt_annot(p: &mut Parser, f: u64)
    ensures
        final(p)@.tokens == old(p)@.tokens,
        final(p)@ == opt_annot_spec(old(p)@, f as nat),
    decreases f, 4nat, 0nat,
{
    if p.at_tok(TokenKind::Colon) {
        item(p, Item::TyAnnot, f);
    }
}

fn as_tail(p: &mut Parser, f: u64)
    ensures
        final(p)@.tokens == old(p)@.tokens,
        final(p)@ == as_tail_spec(old(p)@, f as nat),
    decreases f, 4nat, 0nat,
{
    if p.at_tok(TokenKind::As) {
        let e1 = p.enter();
        p.bump();
        item(p, Item::Pat, f);
        p.exit(e1, SyntaxKind::AsTail);
    }
}

fn of_ty(p: &mut Parser, f: u64)
    ensures
        final(p)@.tokens == old(p)@.tokens,
        final(p)@ == of_ty_spec(old(p)@, f as nat),
    decreases f, 4nat, 0nat,
{
    if p.at_tok(TokenKind::Of) {
        let e1 = p.enter();
        p.bump();
        item(p, Item::Ty, f);
        p.exit(e1, SyntaxKind::OfTy);
    }
}

fn with_type(p: &mut Parser, f: u64)
    ensures
        final(p)@.tokens == old(p)@.tokens,
        final(p)@ == with_type_spec(old(p)@, f as nat),
    decreases f, 4nat, 0nat,
{
    if p.at_tok(TokenKind::Withtype) {
        let e1 = p.enter();
        p.bump();
        many_sep(p, SyntaxKind::Token(TokenKind::And), SyntaxKind::TyBind, Item::TyBind, f);
        p.exit(e1, SyntaxKind::WithType);
    }
}

fn ty(p: &mut Parser, fuel: u64)
    ensures
        final(p)@.tokens == old(p)@.tokens,
        final(p)@ == ty_spec(old(p)@, fuel as nat),
    decreases fuel, 1nat, 0nat,
{
    if fuel == 0 {
        p.error();
        return ;
    }
    let f = fuel - 1;
    let e1 = p.enter();
    item(p, Item::TupleTy, f);
    if p.at_tok(TokenKind::MinusGt) {
        p.bump();
        item(p, Item::Ty, f);
    }
    p.exit(e1, SyntaxKind::FnTy);
}

fn tuple_ty(p: &mut Parser, fuel: u64)
    ensures
        final(p)@.tokens == old(p)@.tokens,
        final(p)@ == tuple_ty_spec(old(p)@, fuel as nat),
    decreases fuel, 1nat, 0nat,
{
    if fuel == 0 {
        p.error();
        return ;
    }
    let f = fuel - 1;
    let e1 = p.enter();
    item(p, Item::FlatTy, f);
    sep_more(p, TokenKind::Star, Item::FlatTy, f);
    p.exit(e1, SyntaxKind::TupleTy);
}

fn flat_ty(p: &mut Parser, fuel: u64)
    ensures
        final(p)@.tokens == old(p)@.tokens,
        final(p)@ == flat_ty_spec(old(p)@, fuel as nat),
    decreases fuel, 1nat, 0nat,
{
    if fuel == 0 {
        p.error();
        return ;
    }
    let f = fuel - 1;
    let e1 = p.enter();
    some(p, Item::TyAtom, f);
    p.exit(e1, SyntaxKind::FlatTy);
}

fn ty_atom(p: &mut Parser, fuel: u64)
    ensures
        final(p)@.tokens == old(p)@.tokens,
        final(p)@ == ty_atom_spec(old(p)@, fuel as nat),
    decreases fuel, 1nat, 0nat,
{
    if fuel == 0 {
        p.error();
        return ;
    }
    let f = fuel - 1;
    if p.at_tok(TokenKind::TyVar) {
        let e1 = p.enter();
        p.bump();
        p.exit(e1, SyntaxKind::TyVarTy);
    } else {
        if p.at_tok(TokenKind::LCurly) {
            let e2 = p.enter();
            p.bump();
            rows(p, TokenKind::RCurly, SyntaxKind::Row, Item::TyRow, f);
            p.eat(SyntaxKind::Token(TokenKind::RCurly));
            p.exit(e2, SyntaxKind::RecordTy);
        } else {
            if p.at_tok(TokenKind::LRound) {
                let e3 = p.enter();
                p.bump();
                many_sep(p, SyntaxKind::Token(TokenKind::Comma), SyntaxKind::Arg, Item::Ty, f);
                p.eat(SyntaxKind::Token(TokenKind::RRound));
                p.exit(e3, SyntaxKind::ParenTy);
            } else {
                if p.at_tok(TokenKind::Name) {
                    let e4 = p.enter();
                    path(p);
                    p.exit(e4, SyntaxKind::PathTy);
                } else {
                    p.error();
                }
            }
        }
    }
}

fn ty_row(p: &mut Parser, fuel: u64)
    ensures
        final(p)@.tokens == old(p)@.tokens,
        final(p)@ == ty_row_spec(old(p)@, fuel as nat),
    decreases fuel, 1nat, 0nat,
{
    if fuel == 0 {
        p.error();
        return ;
    }
    let f = fuel - 1;
    if (p.at_tok(TokenKind::Name) || p.at_tok(TokenKind::IntLit)) {
        p.bump();
    } else {
        p.expected(SyntaxKind::Token(TokenKind::Name));
    }
    p.eat(SyntaxKind::Token(TokenKind::Colon));
    item(p, Item::Ty, f);
}

fn ty_annot(p: &mut Parser, fuel: u64)
    ensures
        final(p)@.tokens == old(p)@.tokens,
        final(p)@ == ty_annot_spec(old(p)@, fuel as nat),
    decreases fuel, 1nat, 0nat,
{
    if fuel == 0 {
        p.error();
        return ;
    }
    let f = fuel - 1;
    let e1 = p.enter();
    p.eat(SyntaxKind::Token(TokenKind::Colon));
    item(p, Item::Ty, f);
    p.exit(e1, SyntaxKind::TyAnnot);
}

fn pat(p: &mut Parser, fuel: u64)
    ensures
        final(p)@.tokens == old(p)@.tokens,
        final(p)@ == pat_spec(old(p)@, fuel as nat),
    decreases fuel, 1nat, 0nat,
{
    if fuel == 0 {
        p.error();
        return ;
    }
    let f = fuel - 1;
    let e1 = p.enter();
    item(p, Item::FlatPat, f);
    opt_annot(p, f);
    as_tail(p, f);
    p.exit(e1, SyntaxKind::Pat);
}

fn flat_pat(p: &mut Parser, fuel: u64)
    ensures
        final(p)@.tokens == old(p)@.tokens,
        final(p)@ == flat_pat_spec(old(p)@, fuel as nat),
    decreases fuel, 1nat, 0nat,
{
    if fuel == 0 {
        p.error();
        return ;
    }
    let f = fuel - 1;
    let e1 = p.enter();
    some(p, Item::PatAtom, f);
    p.exit(e1, SyntaxKind::FlatPat);
}

fn pat_atom(p: &mut Parser, fuel: u64)
    ensures
        final(p)@.tokens == old(p)@.tokens,
        final(p)@ == pat_atom_spec(old(p)@, fuel as nat),
    decreases fuel, 1nat, 0nat,
{
    if fuel == 0 {
        p.error();
        return ;
    }
    let f = fuel - 1;
    if p.at_tok(TokenKind::Underscore) {
        let e1 = p.enter();
        p.bump();
        p.exit(e1, SyntaxKind::WildPat);
    } else {
        if p.at_scon() {
            let e2 = p.enter();
            p.bump();
            p.exit(e2, SyntaxKind::SConPat);
        } else {
            if (p.at_tok(TokenKind::Op) || p.at_tok(TokenKind::Name)) {
                let e3 = p.enter();
                p.opt(TokenKind::Op);
                path(p);
                p.exit(e3, SyntaxKind::PathPat);
            } else {
                if p.at_tok(TokenKind::LCurly) {
                    let e4 = p.enter();
                    p.bump();
                    rows(p, TokenKind::RCurly, SyntaxKind::Row, Item::PatRow, f);
                    p.eat(SyntaxKind::Token(TokenKind::RCurly));
                    p.exit(e4, SyntaxKind::RecordPat);
                } else {
                    if p.at_tok(TokenKind::LRound) {
                        let e5 = p.enter();
                        p.bump();
                        rows(p, TokenKind::RRound, SyntaxKind::Arg, Item::Pat, f);
                        p.eat(SyntaxKind::Token(TokenKind::RRound));
                        p.exit(e5, SyntaxKind::ParenPat);
                    } else {
                        if p.at_tok(TokenKind::LSquare) {
                            let e6 = p.enter();
                            p.bump();
                            rows(p, TokenKind::RSquare, SyntaxKind::Arg, Item::Pat, f);
                            p.eat(SyntaxKind::Token(TokenKind::RSquare));
                            p.exit(e6, SyntaxKind::ListPat);
                        } else {
                            p.error();
                        }
                    }
                }
            }
        }
    }
}

fn pat_row(p: &mut Parser, fuel: u64)
    ensures
        final(p)@.tokens == old(p)@.tokens,
        final(p)@ == pat_row_spec(old(p)@, fuel as nat),
    decreases fuel, 1nat, 0nat,
{
    if fuel == 0 {
        p.error();
        return ;
    }
    let f = fuel - 1;
    if p.at_tok(TokenKind::DotDotDot) {
        let e1 = p.enter();
        p.bump();
        p.exit(e1, SyntaxKind::RestPatRow);
    } else {
        if ((p.at_tok(TokenKind::Name) || p.at_tok(TokenKind::IntLit)) && p.nth_is(1, TokenKind::Eq)) {
            let e2 = p.enter();
            p.bump();
            p.bump();
            item(p, Item::Pat, f);
            p.exit(e2, SyntaxKind::LabPatRow);
        } else {
            let e3 = p.enter();
            p.eat(SyntaxKind::Token(TokenKind::Name));
            opt_annot(p, f);
            as_tail(p, f);
            p.exit(e3, SyntaxKind::NamePatRow);
        }
    }
}

fn exp(p: &mut Parser, fuel: u64)
    ensures
        final(p)@.tokens == old(p)@.tokens,
        final(p)@ == exp_spec(old(p)@, fuel as nat),
    decreases fuel, 1nat, 0nat,
{
    if fuel == 0 {
        p.error();
        return ;
    }
    let f = fuel - 1;
    if p.at_tok(TokenKind::Raise) {
        let e1 = p.enter();
        p.bump();
        item(p, Item::Exp, f);
        p.exit(e1, SyntaxKind::RaiseExp);
    } else {
        if p.at_tok(TokenKind::If) {
            let e2 = p.enter();
            p.bump();
            item(p, Item::Exp, f);
            p.eat(SyntaxKind::Token(TokenKind::Then));
            item(p, Item::Exp, f);
            p.eat(SyntaxKind::Token(TokenKind::Else));
            item(p, Item::Exp, f);
            p.exit(e2, SyntaxKind::IfExp);
        } else {
            if p.at_tok(TokenKind::While) {
                let e3 = p.enter();
                p.bump();
                item(p, Item::Exp, f);
                p.eat(SyntaxKind::Token(TokenKind::Do));
                item(p, Item::Exp, f);
                p.exit(e3, SyntaxKind::WhileExp);
            } else {
                if p.at_tok(TokenKind::Case) {
                    let e4 = p.enter();
                    p.bump();
                    item(p, Item::Exp, f);
                    p.eat(SyntaxKind::Token(TokenKind::Of));
                    item(p, Item::Matcher, f);
                    p.exit(e4, SyntaxKind::CaseExp);
                } else {
                    if p.at_tok(TokenKind::Fn) {
                        let e5 = p.enter();
                        p.bump();
                        item(p, Item::Matcher, f);
                        p.exit(e5, SyntaxKind::FnExp);
                    } else {
                        let e6 = p.enter();
                        item(p, Item::OrelseExp, f);
                        many(p, Item::HandleTail, f);
                        p.exit(e6, SyntaxKind::HandleExp);
                    }
                }
            }
        }
    }
}

fn orelse_exp(p: &mut Parser, fuel: u64)
    ensures
        final(p)@.tokens == old(p)@.tokens,
        final(p)@ == orelse_exp_spec(old(p)@, fuel as nat),
    decreases fuel, 1nat, 0nat,
{
    if fuel == 0 {
        p.error();
        return ;
    }
    let f = fuel - 1;
    let e1 = p.enter();
    item(p, Item::AndalsoExp, f);
    sep_more(p, TokenKind::Orelse, Item::OrelseOperand, f);
    p.exit(e1, SyntaxKind::OrelseExp);
}

fn andalso_exp(p: &mut Parser, fuel: u64)
    ensures
        final(p)@.tokens == old(p)@.tokens,
        final(p)@ == andalso_exp_spec(old(p)@, fuel as nat),
    decreases fuel, 1nat, 0nat,
{
    if fuel == 0 {
        p.error();
        return ;
    }
    let f = fuel - 1;
    let e1 = p.enter();
    item(p, Item::TypedExp, f);
    sep_more(p, TokenKind::Andalso, Item::AndalsoOperand, f);
    p.exit(e1, SyntaxKind::AndalsoExp);
}

fn orelse_operand(p: &mut Parser, fuel: u64)
    ensures
        final(p)@.tokens == old(p)@.tokens,
        final(p)@ == orelse_operand_spec(old(p)@, fuel as nat),
    decreases fuel, 1nat, 0nat,
{
    if fuel == 0 {
        p.error();
        return ;
    }
    let f = fuel - 1;
    if p.at_far() {
        item(p, Item::Exp, f);
    } else {
        item(p, Item::AndalsoExp, f);
    }
}

fn andalso_operand(p: &mut Parser, fuel: u64)
    ensures
        final(p)@.tokens == old(p)@.tokens,
        final(p)@ == andalso_operand_spec(old(p)@, fuel as nat),
    decreases fuel, 1nat, 0nat,
{
    if fuel == 0 {
        p.error();
        return ;
    }
    let f = fuel - 1;
    if p.at_far() {
        item(p, Item::Exp, f);
    } else {
        item(p, Item::TypedExp, f);
    }
}

fn typed_exp(p: &mut Parser, fuel: u64)
    ensures
        final(p)@.tokens == old(p)@.tokens,
        final(p)@ == typed_exp_spec(old(p)@, fuel as nat),
    decreases fuel, 1nat, 0nat,
{
    if fuel == 0 {
        p.error();
        return ;
    }
    let f = fuel - 1;
    let e1 = p.enter();
    item(p, Item::FlatExp, f);
    many(p, Item::TyAnnot, f);
    p.exit(e1, SyntaxKind::TypedExp);
}

fn flat_exp(p: &mut Parser, fuel: u64)
    ensures
        final(p)@.tokens == old(p)@.tokens,
        final(p)@ == flat_exp_spec(old(p)@, fuel as nat),
    decreases fuel, 1nat, 0nat,
{
    if fuel == 0 {
        p.error();
        return ;
    }
    let f = fuel - 1;
    let e1 = p.enter();
    some(p, Item::ExpAtom, f);
    p.exit(e1, SyntaxKind::FlatExp);
}

fn handle_tail(p: &mut Parser, fuel: u64)
    ensures
        final(p)@.tokens == old(p)@.tokens,
        final(p)@ == handle_tail_spec(old(p)@, fuel as nat),
    decreases fuel, 1nat, 0nat,
{
    if fuel == 0 {
        p.error();
        return ;
    }
    let f = fuel - 1;
    let e1 = p.enter();
    p.eat(SyntaxKind::Token(TokenKind::Handle));
    item(p, Item::Matcher, f);
    p.exit(e1, SyntaxKind::HandleTail);
}

fn matcher(p: &mut Parser, fuel: u64)
    ensures
        final(p)@.tokens == old(p)@.tokens,
        final(p)@ == matcher_spec(old(p)@, fuel as nat),
    decreases fuel, 1nat, 0nat,
{
    if fuel == 0 {
        p.error();
        return ;
    }
    let f = fuel - 1;
    let e1 = p.enter();
    p.opt(TokenKind::Bar);
    item(p, Item::Arm, f);
    sep_more(p, TokenKind::Bar, Item::Arm, f);
    p.exit(e1, SyntaxKind::Matcher);
}

fn arm(p: &mut Parser, fuel: u64)
    ensures
        final(p)@.tokens == old(p)@.tokens,
        final(p)@ == arm_spec(old(p)@, fuel as nat),
    decreases fuel, 1nat, 0nat,
{
    if fuel == 0 {
        p.error();
        return ;
    }
    let f = fuel - 1;
    let e1 = p.enter();
    item(p, Item::Pat, f);
    p.eat(SyntaxKind::Token(TokenKind::EqGt));
    item(p, Item::Exp, f);
    p.exit(e1, SyntaxKind::Arm);
}

fn exp_atom(p: &mut Parser, fuel: u64)
    ensures
        final(p)@.tokens == old(p)@.tokens,
        final(p)@ == exp_atom_spec(old(p)@, fuel as nat),
    decreases fuel, 1nat, 0nat,
{
    if fuel == 0 {
        p.error();
        return ;
    }
    let f = fuel - 1;
    if p.at_scon() {
        let e1 = p.enter();
        p.bump();
        p.exit(e1, SyntaxKind::SConExp);
    } else {
        if (p.at_tok(TokenKind::Op) || p.at_tok(TokenKind::Name) || p.at_tok(TokenKind::Eq) || p.at_tok(TokenKind::Star)) {
            let e2 = p.enter();
            p.opt(TokenKind::Op);
            name(p);
            p.exit(e2, SyntaxKind::PathExp);
        } else {
            if p.at_tok(TokenKind::LCurly) {
                let e3 = p.enter();
                p.bump();
                rows(p, TokenKind::RCurly, SyntaxKind::Row, Item::ExpRow, f);
                p.eat(SyntaxKind::Token(TokenKind::RCurly));
                p.exit(e3, SyntaxKind::RecordExp);
            } else {
                if p.at_tok(TokenKind::Hash) {
                    let e4 = p.enter();
                    p.bump();
                    lab(p);
                    p.exit(e4, SyntaxKind::SelectorExp);
                } else {
                    if p.at_tok(TokenKind::LRound) {
                        let e5 = p.enter();
                        p.bump();
                        if p.at_tok(TokenKind::RRound) {
                            p.bump();
                            p.exit(e5, SyntaxKind::ParenExp);
                        } else {
                            item(p, Item::Exp, f);
                            if p.at_tok(TokenKind::Semicolon) {
                                sep_more(p, TokenKind::Semicolon, Item::Exp, f);
                                p.eat(SyntaxKind::Token(TokenKind::RRound));
                                p.exit(e5, SyntaxKind::SeqExp);
                            } else {
                                sep_more(p, TokenKind::Comma, Item::Exp, f);
                                p.eat(SyntaxKind::Token(TokenKind::RRound));
                                p.exit(e5, SyntaxKind::ParenExp);
                            }
                        }
                    } else {
                        if p.at_tok(TokenKind::LSquare) {
                            let e6 = p.enter();
                            p.bump();
                            rows(p, TokenKind::RSquare, SyntaxKind::Arg, Item::Exp, f);
                            p.eat(SyntaxKind::Token(TokenKind::RSquare));
                            p.exit(e6, SyntaxKind::ListExp);
                        } else {
                            if p.at_tok(TokenKind::Let) {
                                let e7 = p.enter();
                                p.bump();
                                item(p, Item::Decs, f);
                                p.eat(SyntaxKind::Token(TokenKind::In));
                                item(p, Item::Exp, f);
                                sep_more(p, TokenKind::Semicolon, Item::Exp, f);
                                p.eat(SyntaxKind::Token(TokenKind::End));
                                p.exit(e7, SyntaxKind::LetExp);
                            } else {
                                p.error();
                            }
                        }
                    }
                }
            }
        }
    }
}

fn exp_row(p: &mut Parser, fuel: u64)
    ensures
        final(p)@.tokens == old(p)@.tokens,
        final(p)@ == exp_row_spec(old(p)@, fuel as nat),
    decreases fuel, 1nat, 0nat,
{
    if fuel == 0 {
        p.error();
        return ;
    }
    let f = fuel - 1;
    lab(p);
    p.eat(SyntaxKind::Token(TokenKind::Eq));
    item(p, Item::Exp, f);
}

fn decs(p: &mut Parser, fuel: u64)
    ensures
        final(p)@.tokens == old(p)@.tokens,
        final(p)@ == decs_spec(old(p)@, fuel as nat),
    decreases fuel, 1nat, 0nat,
{
    if fuel == 0 {
        p.error();
        return ;
    }
    let f = fuel - 1;
    let e1 = p.enter();
    many(p, Item::DecOrSemi, f);
    p.exit(e1, SyntaxKind::Decs);
}

fn dec_or_semi(p: &mut Parser, fuel: u64)
    ensures
        final(p)@.tokens == old(p)@.tokens,
        final(p)@ == dec_or_semi_spec(old(p)@, fuel as nat),
    decreases fuel, 1nat, 0nat,
{
    if fuel == 0 {
        p.error();
        return ;
    }
    let f = fuel - 1;
    if p.at_tok(TokenKind::Semicolon) {
        p.bump();
    } else {
        item(p, Item::Dec, f);
    }
}

fn dec(p: &mut Parser, fuel: u64)
    ensures
        final(p)@.tokens == old(p)@.tokens,
        final(p)@ == dec_spec(old(p)@, fuel as nat),
    decreases fuel, 1nat, 0nat,
{
    if fuel == 0 {
        p.error();
        return ;
    }
    let f = fuel - 1;
    if p.at_tok(TokenKind::Val) {
        let e1 = p.enter();
        p.bump();
        ty_var_seq(p, f);
        many_sep(p, SyntaxKind::Token(TokenKind::And), SyntaxKind::ValBind, Item::ValBind, f);
        p.exit(e1, SyntaxKind::ValDec);
    } else {
        if p.at_tok(TokenKind::Fun) {
            let e2 = p.enter();
            p.bump();
            ty_var_seq(p, f);
            many_sep(p, SyntaxKind::Token(TokenKind::And), SyntaxKind::FunBind, Item::FunBind, f);
            p.exit(e2, SyntaxKind::FunDec);
        } else {
            if p.at_tok(TokenKind::Type) {
                let e3 = p.enter();
                p.bump();
                many_sep(p, SyntaxKind::Token(TokenKind::And), SyntaxKind::TyBind, Item::TyBind, f);
                p.exit(e3, SyntaxKind::TyDec);
            } else {
                if (p.at_tok(TokenKind::Datatype) && (p.nth_is(1, TokenKind::Name) && (p.nth_is(2, TokenKind::Eq) && p.nth_is(3, TokenKind::Datatype)))) {
                    let e4 = p.enter();
                    p.bump();
                    p.bump();
                    p.bump();
                    p.bump();
                    path(p);
                    p.exit(e4, SyntaxKind::DatCopyDec);
                } else {
                    if p.at_tok(TokenKind::Datatype) {
                        let e5 = p.enter();
                        p.bump();
                        many_sep(p, SyntaxKind::Token(TokenKind::And), SyntaxKind::DatBind, Item::DatBind, f);
                        with_type(p, f);
                        p.exit(e5, SyntaxKind::DatDec);
                    } else {
                        if p.at_tok(TokenKind::Abstype) {
                            let e6 = p.enter();
                            p.bump();
                            many_sep(p, SyntaxKind::Token(TokenKind::And), SyntaxKind::DatBind, Item::DatBind, f);
                            with_type(p, f);
                            p.eat(SyntaxKind::Token(TokenKind::With));
                            item(p, Item::Decs, f);
                            p.eat(SyntaxKind::Token(TokenKind::End));
                            p.exit(e6, SyntaxKind::AbstypeDec);
                        } else {
                            if p.at_tok(TokenKind::Exception) {
                                let e7 = p.enter();
                                p.bump();
                                many_sep(p, SyntaxKind::Token(TokenKind::And), SyntaxKind::ExBind, Item::ExBind, f);
                                p.exit(e7, SyntaxKind::ExDec);
                            } else {
                                if p.at_tok(TokenKind::Local) {
                                    let e8 = p.enter();
                                    p.bump();
                                    item(p, Item::Decs, f);
                                    p.eat(SyntaxKind::Token(TokenKind::In));
                                    item(p, Item::Decs, f);
                                    p.eat(SyntaxKind::Token(TokenKind::End));
                                    p.exit(e8, SyntaxKind::LocalDec);
                                } else {
                                    if p.at_tok(TokenKind::Open) {
                                        let e9 = p.enter();
                                        p.bump();
                                        some(p, Item::Path, f);
                                        p.exit(e9, SyntaxKind::OpenDec);
                                    } else {
                                        if (p.at_tok(TokenKind::Infix) || p.at_tok(TokenKind::Infixr) || p.at_tok(TokenKind::Nonfix)) {
                                            let e10 = p.enter();
                                            p.bump();
                                            p.opt(TokenKind::IntLit);
                                            fix_names(p);
                                            p.exit(e10, SyntaxKind::InfixDec);
                                        } else {
                                            p.error();
                                        }
                                    }
                                }
                            }
                        }
                    }
                }
            }
        }
    }
}

fn val_bind(p: &mut Parser, fuel: u64)
    ensures
        final(p)@.tokens == old(p)@.tokens,
        final(p)@ == val_bind_spec(old(p)@, fuel as nat),
    decreases fuel, 1nat, 0nat,
{
    if fuel == 0 {
        p.error();
        return ;
    }
    let f = fuel - 1;
    p.opt(TokenKind::Rec);
    item(p, Item::Pat, f);
    p.eat(SyntaxKind::Token(TokenKind::Eq));
    item(p, Item::Exp, f);
}

fn fun_bind(p: &mut Parser, fuel: u64)
    ensures
        final(p)@.tokens == old(p)@.tokens,
        final(p)@ == fun_bind_spec(old(p)@, fuel as nat),
    decreases fuel, 1nat, 0nat,
{
    if fuel == 0 {
        p.error();
        return ;
    }
    let f = fuel - 1;
    p.opt(TokenKind::Bar);
    many_sep(p, SyntaxKind::Token(TokenKind::Bar), SyntaxKind::Clause, Item::Clause, f);
}

fn clause(p: &mut Parser, fuel: u64)
    ensures
        final(p)@.tokens == old(p)@.tokens,
        final(p)@ == clause_spec(old(p)@, fuel as nat),
    decreases fuel, 1nat, 0nat,
{
    if fuel == 0 {
        p.error();
        return ;
    }
    let f = fuel - 1;
    item(p, Item::FlatPat, f);
    opt_annot(p, f);
    p.eat(SyntaxKind::Token(TokenKind::Eq));
    item(p, Item::Exp, f);
}

fn ty_bind(p: &mut Parser, fuel: u64)
    ensures
        final(p)@.tokens == old(p)@.tokens,
        final(p)@ == ty_bind_spec(old(p)@, fuel as nat),
    decreases fuel, 1nat, 0nat,
{
    if fuel == 0 {
        p.error();
        return ;
    }
    let f = fuel - 1;
    ty_var_seq(p, f);
    p.eat(SyntaxKind::Token(TokenKind::Name));
    p.eat(SyntaxKind::Token(TokenKind::Eq));
    item(p, Item::Ty, f);
}

fn dat_bind(p: &mut Parser, fuel: u64)
    ensures
        final(p)@.tokens == old(p)@.tokens,
        final(p)@ == dat_bind_spec(old(p)@, fuel as nat),
    decreases fuel, 1nat, 0nat,
{
    if fuel == 0 {
        p.error();
        return ;
    }
    let f = fuel - 1;
    ty_var_seq(p, f);
    p.eat(SyntaxKind::Token(TokenKind::Name));
    p.eat(SyntaxKind::Token(TokenKind::Eq));
    p.opt(TokenKind::Bar);
    many_sep(p, SyntaxKind::Token(TokenKind::Bar), SyntaxKind::ConBind, Item::ConBind, f);
}

fn con_bind(p: &mut Parser, fuel: u64)
    ensures
        final(p)@.tokens == old(p)@.tokens,
        final(p)@ == con_bind_spec(old(p)@, fuel as nat),
    decreases fuel, 1nat, 0nat,
{
    if fuel == 0 {
        p.error();
        return ;
    }
    let f = fuel - 1;
    p.opt(TokenKind::Op);
    p.eat(SyntaxKind::Token(TokenKind::Name));
    of_ty(p, f);
}

fn ex_bind(p: &mut Parser, fuel: u64)
    ensures
        final(p)@.tokens == old(p)@.tokens,
        final(p)@ == ex_bind_spec(old(p)@, fuel as nat),
    decreases fuel, 1nat, 0nat,
{
    if fuel == 0 {
        p.error();
        return ;
    }
    let f = fuel - 1;
    p.opt(TokenKind::Op);
    p.eat(SyntaxKind::Token(TokenKind::Name));
    if p.at_tok(TokenKind::Of) {
        of_ty(p, f);
    } else {
        if p.at_tok(TokenKind::Eq) {
            p.bump();
            p.opt(TokenKind::Op);
            path(p);
        }
    }
}

fn top_item(p: &mut Parser, fuel: u64)
    ensures
        final(p)@.tokens == old(p)@.tokens,
        final(p)@ == top_item_spec(old(p)@, fuel as nat),
    decreases fuel, 1nat, 0nat,
{
    if fuel == 0 {
        p.error();
        return ;
    }
    let f = fuel - 1;
    if p.at_tok(TokenKind::Semicolon) {
        p.bump();
    } else {
        if p.at_dec() {
            item(p, Item::Dec, f);
        } else {
            let e1 = p.enter();
            p.error();
            p.bump();
            p.exit(e1, SyntaxKind::Stray);
        }
    }
}

fn root(p: &mut Parser, fuel: u64)
    ensures
        final(p)@.tokens == old(p)@.tokens,
        final(p)@ == root_spec(old(p)@, fuel as nat),
    decreases fuel, 1nat, 0nat,
{
    if fuel == 0 {
        p.error();
        return ;
    }
    let f = fuel - 1;
    let e1 = p.enter();
    many(p, Item::TopItem, f);
    p.exit(e1, SyntaxKind::Root);
}

/// Parses by a rule of the grammar, nesting at most `fuel` rules deep.
pub fn item(p: &mut Parser, which: Item, fuel: u64)
    ensures
        final(p)@.tokens == old(p)@.tokens,
        final(p)@ == item_spec(old(p)@, which, fuel as nat),
    decreases fuel, 2nat, 0nat,
{
    match which {
        Item::Path => {
            path(p);
        },
        Item::SCon => {
            scon(p);
        },
        Item::TyVarArg => p.eat(SyntaxKind::Token(TokenKind::TyVar)),
        Item::Ty => ty(p, fuel),
        Item::TupleTy => tuple_ty(p, fuel),
        Item::FlatTy => flat_ty(p, fuel),
        Item::TyAtom => ty_atom(p, fuel),
        Item::TyRow => ty_row(p, fuel),
        Item::TyAnnot => ty_annot(p, fuel),
        Item::Pat => pat(p, fuel),
        Item::FlatPat => flat_pat(p, fuel),
        Item::PatAtom => pat_atom(p, fuel),
        Item::PatRow => pat_row(p, fuel),
        Item::Exp => exp(p, fuel),
        Item::OrelseExp => orelse_exp(p, fuel),
        Item::AndalsoExp => andalso_exp(p, fuel),
        Item::OrelseOperand => orelse_operand(p, fuel),
        Item::AndalsoOperand => andalso_operand(p, fuel),
        Item::TypedExp => typed_exp(p, fuel),
        Item::FlatExp => flat_exp(p, fuel),
        Item::HandleTail => handle_tail(p, fuel),
        Item::Matcher => matcher(p, fuel),
        Item::Arm => arm(p, fuel),
        Item::ExpAtom => exp_atom(p, fuel),
        Item::ExpRow => exp_row(p, fuel),
        Item::Decs => decs(p, fuel),
        Item::DecOrSemi => dec_or_semi(p, fuel),
        Item::Dec => dec(p, fuel),
        Item::ValBind => val_bind(p, fuel),
        Item::FunBind => fun_bind(p, fuel),
        Item::Clause => clause(p, fuel),
        Item::TyBind => ty_bind(p, fuel),
        Item::DatBind => dat_bind(p, fuel),
        Item::ConBind => con_bind(p, fuel),
        Item::ExBind => ex_bind(p, fuel),
        Item::TopItem => top_item(p, fuel),
        Item::Root => root(p, fuel),
    }
}

/// The events of parsing the tokens of a file.
pub fn get(tokens: &Vec<Token>) -> (r: Vec<Event>)
    ensures
        r@ == events_spec(tokens@),
{
    let mut p = Parser::new(tokens);
    item(&mut p, Item::Root, FUEL);
    p.events
}

} // verus!

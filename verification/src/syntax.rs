//! The syntax tree: built from the events of the parser, it holds every
//! token that the parser took, in order, under the nodes that the parser
//! entered.

use crate::lex::{Token, TokenKind};
use crate::list::List;
use crate::parse::{Event, SyntaxKind};
use crate::text::TextRange;
use vstd::prelude::*;

verus! {

/// A piece of syntax: a token, by its place among the tokens without
/// blanks and comments, or a node with its children in order.
#[derive(Debug)]
pub enum Syntax {
    Token(usize),
    Node(SyntaxKind, Box<List<Syntax>>),
}

/// A node that is being built: its kind, and its children so far, the last
/// one first.
#[derive(Debug)]
pub struct Frame {
    pub kind: SyntaxKind,
    pub rev: List<Syntax>,
}

/// The list `l`, the last item first, in front of `acc`.
pub open spec fn rev_onto(l: List<Syntax>, acc: List<Syntax>) -> List<Syntax>
    decreases l,
{
    match l {
        List::Nil => acc,
        List::Cons(h, t) => rev_onto(*t, List::Cons(h, Box::new(acc))),
    }
}

/// The kind of a node by the event that entered it. A node that was never
/// exited has no kind of its own.
pub open spec fn kind_of(k: Option<SyntaxKind>) -> SyntaxKind {
    match k {
        Some(k) => k,
        None => SyntaxKind::Stray,
    }
}

/// The stack with one more child for the node on top.
pub open spec fn add_child(stack: List<Frame>, child: Syntax) -> List<Frame> {
    match stack {
        List::Nil => List::Nil,
        List::Cons(top, rest) => List::Cons(
            Frame { kind: top.kind, rev: List::Cons(child, Box::new(top.rev)) },
            rest,
        ),
    }
}

/// The stack after the node on top was finished: it is a child of the node
/// below. The node at the bottom is never finished.
pub open spec fn close(stack: List<Frame>) -> List<Frame> {
    match stack {
        List::Nil => List::Nil,
        List::Cons(top, rest) => match *rest {
            List::Nil => stack,
            List::Cons(below, more) => List::Cons(
                Frame {
                    kind: below.kind,
                    rev: List::Cons(
                        Syntax::Node(top.kind, Box::new(rev_onto(top.rev, List::Nil))),
                        Box::new(below.rev),
                    ),
                },
                more,
            ),
        },
    }
}

/// The stack after an event.
pub open spec fn step(stack: List<Frame>, ev: Event) -> List<Frame> {
    match ev {
        Event::Enter(k) => List::Cons(Frame { kind: kind_of(k), rev: List::Nil }, Box::new(stack)),
        Event::Token(t) => add_child(stack, Syntax::Token(t)),
        Event::Exit => close(stack),
        Event::Error(_, _) => stack,
    }
}

/// The stack after the events `events[from..]`.
pub open spec fn fold(events: Seq<Event>, from: int, stack: List<Frame>) -> List<Frame>
    decreases events.len() - from,
{
    if from < 0 || from >= events.len() {
        stack
    } else {
        fold(events, from + 1, step(stack, events[from]))
    }
}

/// The stack after every node but the one at the bottom was finished.
pub open spec fn close_all(stack: List<Frame>) -> List<Frame>
    decreases stack.len(),
{
    match stack {
        List::Nil => stack,
        List::Cons(_, rest) => match *rest {
            List::Nil => stack,
            List::Cons(_, more) => {
                if close(stack).len() < stack.len() {
                    close_all(close(stack))
                } else {
                    stack
                }
            },
        },
    }
}

/// The children of the node at the bottom of the stack, in order.
pub open spec fn bottom(stack: List<Frame>) -> List<Syntax> {
    match stack {
        List::Cons(top, _) => rev_onto(top.rev, List::Nil),
        List::Nil => List::Nil,
    }
}

/// The trees of a list of events: entering a node starts its children, a
/// token is a child of the node that was entered last and not yet exited,
/// and exiting a node makes it a child of the node around it. A node that
/// is never exited ends with the events.
pub open spec fn trees_spec(events: Seq<Event>) -> List<Syntax> {
    bottom(
        close_all(
            fold(
                events,
                0,
                List::Cons(Frame { kind: SyntaxKind::Root, rev: List::Nil }, Box::new(List::Nil)),
            ),
        ),
    )
}

/// Closing a node leaves one node less open.
pub proof fn lemma_close_shrinks(stack: List<Frame>)
    requires
        stack matches List::Cons(_, rest) && !(*rest is Nil),
    ensures
        close(stack).len() + 1 == stack.len(),
{
    match stack {
        List::Cons(top, rest) => {
            match *rest {
                List::Cons(below, more) => {
                    assert(rest.len() == 1 + more.len());
                    assert(stack.len() == 1 + rest.len());
                    assert(close(stack).len() == 1 + more.len());
                },
                List::Nil => {},
            }
        },
        List::Nil => {},
    }
}

/// The list, the last item first.
pub fn reversed(l: List<Syntax>) -> (r: List<Syntax>)
    ensures
        r == rev_onto(l, List::Nil),
{
    let mut cur = l;
    let mut acc: List<Syntax> = List::Nil;
    loop
        invariant
            rev_onto(l, List::Nil) == rev_onto(cur, acc),
        decreases cur,
    {
        match cur {
            List::Nil => {
                return acc;
            },
            List::Cons(h, t) => {
                acc = List::Cons(h, Box::new(acc));
                cur = *t;
            },
        }
    }
}

fn with_child(stack: List<Frame>, child: Syntax) -> (r: List<Frame>)
    ensures
        r == add_child(stack, child),
{
    match stack {
        List::Nil => List::Nil,
        List::Cons(top, rest) => List::Cons(
            Frame { kind: top.kind, rev: List::Cons(child, Box::new(top.rev)) },
            rest,
        ),
    }
}

fn closed(stack: List<Frame>) -> (r: List<Frame>)
    ensures
        r == close(stack),
{
    match stack {
        List::Nil => List::Nil,
        List::Cons(top, rest) => match *rest {
            List::Nil => List::Cons(top, Box::new(List::Nil)),
            List::Cons(below, more) => {
                let node = Syntax::Node(top.kind, Box::new(reversed(top.rev)));
                List::Cons(
                    Frame { kind: below.kind, rev: List::Cons(node, Box::new(below.rev)) },
                    more,
                )
            },
        },
    }
}

/// Whether at most the node at the bottom is open.
pub open spec fn single_spec(stack: List<Frame>) -> bool {
    match stack {
        List::Nil => true,
        List::Cons(_, rest) => *rest is Nil,
    }
}

fn single(stack: &List<Frame>) -> (r: bool)
    ensures
        r == single_spec(*stack),
{
    match stack {
        List::Nil => true,
        List::Cons(_, rest) => rest.is_empty(),
    }
}

/// The trees of a list of events.
pub fn trees(events: &Vec<Event>) -> (r: List<Syntax>)
    ensures
        r == trees_spec(events@),
{
    let mut stack: List<Frame> = List::Cons(
        Frame { kind: SyntaxKind::Root, rev: List::Nil },
        Box::new(List::Nil),
    );
    let ghost start = stack;
    let mut i: usize = 0;
    while i < events.len()
        invariant
            i <= events.len(),
            fold(events@, 0, start) == fold(events@, i as int, stack),
        decreases events.len() - i,
    {
        stack = match events[i] {
            Event::Enter(k) => {
                let kind = match k {
                    Some(k) => k,
                    None => SyntaxKind::Stray,
                };
                List::Cons(Frame { kind, rev: List::Nil }, Box::new(stack))
            },
            Event::Token(t) => with_child(stack, Syntax::Token(t)),
            Event::Exit => closed(stack),
            Event::Error(_, _) => stack,
        };
        i += 1;
    }
    let ghost folded = stack;
    loop
        invariant_except_break
            close_all(folded) == close_all(stack),
        ensures
            close_all(folded) == close_all(stack),
            single_spec(stack),
        decreases stack.len(),
    {
        if single(&stack) {
            break ;
        }
        proof {
            lemma_close_shrinks(stack);
        }
        stack = closed(stack);
    }
    assert(close_all(stack) == stack);
    match stack {
        List::Cons(top, _) => reversed(top.rev),
        List::Nil => List::Nil,
    }
}

/// An error of the parser: where something else was expected, and what,
/// if known.
#[derive(Debug, Clone, Copy, PartialEq, Eq, Structural)]
pub struct Error {
    pub range: TextRange,
    pub expected: Option<SyntaxKind>,
}

/// The bytes of the token at a place among the tokens, or the end of the
/// text behind the last token.
pub open spec fn place_range(tokens: Seq<Token>, at: int, len: u32) -> TextRange {
    if 0 <= at < tokens.len() {
        tokens[at].range
    } else {
        TextRange { start: len, end: len }
    }
}

/// The errors among the events `events[..upto]`, in order.
pub open spec fn errors_spec(events: Seq<Event>, upto: int, tokens: Seq<Token>, len: u32) -> Seq<
    Error,
>
    decreases upto,
{
    if upto <= 0 {
        Seq::empty()
    } else {
        let before = errors_spec(events, upto - 1, tokens, len);
        match events[upto - 1] {
            Event::Error(at, expected) => before.push(
                Error { range: place_range(tokens, at as int, len), expected },
            ),
            _ => before,
        }
    }
}

/// The errors among the events, in order: each is about the token that
/// stood where something else was expected, or about the end of a text of
/// `len` bytes.
pub fn errors(events: &Vec<Event>, tokens: &Vec<Token>, len: u32) -> (r: Vec<Error>)
    ensures
        r@ == errors_spec(events@, events@.len() as int, tokens@, len),
{
    let mut out: Vec<Error> = Vec::new();
    let mut i: usize = 0;
    while i < events.len()
        invariant
            i <= events.len(),
            out@ == errors_spec(events@, i as int, tokens@, len),
        decreases events.len() - i,
    {
        match events[i] {
            Event::Error(at, expected) => {
                let range = if at < tokens.len() {
                    tokens[at].range
                } else {
                    TextRange { start: len, end: len }
                };
                out.push(Error { range, expected });
            },
            _ => {},
        }
        i += 1;
    }
    out
}

/// The name of a token in an error.
pub open spec fn token_text(kind: TokenKind) -> Seq<char> {
    match kind {
        TokenKind::Name => "a name"@,
        TokenKind::TyVar => "a type variable"@,
        TokenKind::Eq => "`=`"@,
        TokenKind::EqGt => "`=>`"@,
        TokenKind::Colon => "`:`"@,
        TokenKind::RRound => "`)`"@,
        TokenKind::RSquare => "`]`"@,
        TokenKind::RCurly => "`}`"@,
        TokenKind::Then => "`then`"@,
        TokenKind::Else => "`else`"@,
        TokenKind::Do => "`do`"@,
        TokenKind::Of => "`of`"@,
        TokenKind::In => "`in`"@,
        TokenKind::End => "`end`"@,
        TokenKind::With => "`with`"@,
        TokenKind::Handle => "`handle`"@,
        _ => "a token"@,
    }
}

/// What an error of the parser says.
pub open spec fn error_text(expected: Option<SyntaxKind>) -> Seq<char> {
    match expected {
        Some(SyntaxKind::Token(k)) => "expected "@ + token_text(k),
        _ => "unexpected syntax"@,
    }
}

/// The code of the errors of the parser.
pub const ERROR_CODE: u16 = 3001;

fn token_name(kind: TokenKind) -> (r: &'static str)
    ensures
        r@ == token_text(kind),
{
    match kind {
        TokenKind::Name => "a name",
        TokenKind::TyVar => "a type variable",
        TokenKind::Eq => "`=`",
        TokenKind::EqGt => "`=>`",
        TokenKind::Colon => "`:`",
        TokenKind::RRound => "`)`",
        TokenKind::RSquare => "`]`",
        TokenKind::RCurly => "`}`",
        TokenKind::Then => "`then`",
        TokenKind::Else => "`else`",
        TokenKind::Do => "`do`",
        TokenKind::Of => "`of`",
        TokenKind::In => "`in`",
        TokenKind::End => "`end`",
        TokenKind::With => "`with`",
        TokenKind::Handle => "`handle`",
        _ => "a token",
    }
}

impl Error {
    /// What the error says.
    pub fn message(&self) -> (r: String)
        ensures
            r@ == error_text(self.expected),
    {
        match self.expected {
            Some(SyntaxKind::Token(k)) => {
                let mut out = String::from_str("expected ");
                out.append(token_name(k));
                out
            },
            _ => String::from_str("unexpected syntax"),
        }
    }
}

} // verus!

//! What lowering passes from a piece of syntax to the syntax around it:
//! numbers of tokens and of nodes, never text.

use crate::hir::{DecIdx, ExpIdx, PatIdx, TyIdx, ValBind};
use crate::list::List;
use vstd::prelude::*;

verus! {

/// The tokens of a piece of syntax: the first and the last, by their places
/// among the tokens; nothing for a piece without tokens.
pub type Span = Option<(usize, usize)>;

/// A name that lowering writes itself.
#[derive(Debug, Clone, Copy, PartialEq, Eq, Structural)]
pub enum Word {
    True,
    False,
    Nil,
    Cons,
}

/// Where a name comes from: a token, a word of the language, or a counter,
/// for a name that no program can write. A name that is missing in the
/// text is `_`.
#[derive(Debug, Clone, Copy, PartialEq, Eq, Structural)]
pub enum NameSrc {
    Tok(usize),
    Word(Word),
    Fresh(u32),
    Missing,
}

/// Where a label comes from: a token, or a position in a tuple, counted
/// from 1.
#[derive(Debug, Clone, Copy, PartialEq, Eq, Structural)]
pub enum LabL {
    Tok(usize),
    Num(usize),
    Missing,
}

/// How an infix operator binds: how tightly, and whether to the right.
#[derive(Debug, Clone, Copy, PartialEq, Eq, Structural)]
pub struct Fix {
    pub prec: u8,
    pub right: bool,
}

#[derive(Debug)]
pub struct TyBindL {
    pub vars: List<usize>,
    pub name: NameSrc,
    pub ty: TyIdx,
}

#[derive(Debug, Clone, Copy, PartialEq, Eq, Structural)]
pub struct ConBindL {
    pub name: NameSrc,
    pub ty: Option<TyIdx>,
}

#[derive(Debug)]
pub struct DatBindL {
    pub vars: List<usize>,
    pub name: NameSrc,
    pub cons: List<ConBindL>,
}

#[derive(Debug)]
pub enum ExBindL {
    New(NameSrc, Option<TyIdx>),
    Copy(NameSrc, List<NameSrc>),
}

/// An atomic pattern before it is known what it stands for: a path, which
/// may be a variable, a constructor or an infix constructor, with `op` in
/// front or without; or a pattern that has its node already.
#[derive(Debug)]
pub enum PatAtomL {
    Path(List<NameSrc>, bool, Span),
    Done(PatIdx, Span),
}

/// An item of an expression before infix operators are resolved.
#[derive(Debug, Clone, Copy)]
pub struct ExpItem {
    pub idx: ExpIdx,
    pub fix: Option<Fix>,
    pub span: Span,
}

/// A clause of a function: the atomic patterns of its head, its type
/// annotation, and its body.
#[derive(Debug)]
pub struct ClauseL {
    pub head: List<PatAtomL>,
    pub annots: List<TyIdx>,
    pub body: ExpIdx,
    pub span: Span,
}

/// An atomic type before type constructors are applied: a type, several
/// types between round brackets, or a type constructor.
#[derive(Debug)]
pub enum TyAtomL {
    One(TyIdx, Span),
    Many(List<TyIdx>, Span),
    Con(List<NameSrc>, Span),
}

/// Which rule of lowering a kind of node belongs to.
#[derive(Debug, Clone, Copy, PartialEq, Eq, Structural)]
pub enum Class {
    Wrap,
    Ty,
    Pat,
    Exp,
    Dec,
}

/// The children of a node after lowering, each sort by itself, in the
/// order of the text.
#[derive(Debug)]
pub struct Parts {
    pub toks: List<usize>,
    pub paths: List<List<NameSrc>>,
    pub exps: List<ExpItem>,
    pub pats: List<PatIdx>,
    pub atoms: List<PatAtomL>,
    pub flats: List<List<PatAtomL>>,
    pub tys: List<TyIdx>,
    pub ty_atoms: List<TyAtomL>,
    pub rows: List<(LabL, Option<u32>)>,
    pub rest: bool,
    pub annots: List<TyIdx>,
    pub as_tails: List<PatIdx>,
    pub of_tys: List<TyIdx>,
    pub arms: List<(PatIdx, ExpIdx)>,
    pub matchers: List<(PatIdx, ExpIdx)>,
    pub handlers: List<List<(PatIdx, ExpIdx)>>,
    pub decs: List<DecIdx>,
    pub binds: List<ValBind>,
    pub clauses: List<ClauseL>,
    pub ty_vars: List<usize>,
    pub ty_binds: List<TyBindL>,
    pub with_type: List<TyBindL>,
    pub con_binds: List<ConBindL>,
    pub dat_binds: List<DatBindL>,
    pub ex_binds: List<ExBindL>,
}

/// What a piece of syntax was lowered to.
#[derive(Debug)]
pub enum What {
    Tok(usize),
    Nothing,
    Path(List<NameSrc>),
    Exp(ExpIdx, Option<Fix>),
    Pat(PatIdx),
    PathPat(List<NameSrc>, bool),
    FlatPat(List<PatAtomL>),
    Ty(TyIdx),
    Tys(List<TyIdx>),
    TyCon(List<NameSrc>),
    Row(LabL, Option<u32>),
    RestRow,
    Annot(TyIdx),
    AsTail(PatIdx),
    OfTy(TyIdx),
    Arm(PatIdx, ExpIdx),
    Arms(List<(PatIdx, ExpIdx)>),
    Handler(List<(PatIdx, ExpIdx)>),
    Dec(DecIdx),
    ValBind(ValBind),
    Clause(ClauseL),
    TyVars(List<usize>),
    TyBind(TyBindL),
    WithType(List<TyBindL>),
    ConBind(ConBindL),
    DatBind(DatBindL),
    ExBind(ExBindL),
}

/// A piece of syntax after lowering: its tokens, and what it was lowered
/// to.
#[derive(Debug)]
pub struct Low {
    pub span: Span,
    pub what: What,
}

/// What lowering finds wrong.
#[derive(Debug, Clone, Copy, PartialEq, Eq, Structural)]
pub enum ErrorKind {
    /// What stands in front of `as` is not a name.
    InvalidAsPatName,
    /// An infix operator without an operand on both sides.
    InfixWithoutOperand,
    /// Patterns one behind the other that are no constructor with its
    /// argument.
    PatternApplication,
    /// Types one behind the other that are no type constructor behind its
    /// arguments.
    TypeApplication,
    /// The clauses of a function do not agree in the name or in the number
    /// of arguments, or a clause has no argument.
    FunClauses,
}

/// An error of lowering, with the tokens that it is about.
#[derive(Debug, Clone, Copy)]
pub struct Error {
    pub span: Span,
    pub kind: ErrorKind,
}

/// What an error says.
pub open spec fn error_text(kind: ErrorKind) -> Seq<char> {
    match kind {
        ErrorKind::InvalidAsPatName => "invalid name in `as` pattern"@,
        ErrorKind::InfixWithoutOperand => "infix operator without operands"@,
        ErrorKind::PatternApplication => "invalid pattern application"@,
        ErrorKind::TypeApplication => "invalid type application"@,
        ErrorKind::FunClauses => "invalid function clauses"@,
    }
}

/// The code of an error.
pub open spec fn code_of(kind: ErrorKind) -> u16 {
    match kind {
        ErrorKind::InvalidAsPatName => 4002,
        ErrorKind::InfixWithoutOperand => 4003,
        ErrorKind::PatternApplication => 4004,
        ErrorKind::TypeApplication => 4005,
        ErrorKind::FunClauses => 4006,
    }
}

impl ErrorKind {
    /// What the error says.
    pub fn message(&self) -> (r: String)
        ensures
            r@ == error_text(*self),
    {
        match self {
            ErrorKind::InvalidAsPatName => String::from_str("invalid name in `as` pattern"),
            ErrorKind::InfixWithoutOperand => String::from_str("infix operator without operands"),
            ErrorKind::PatternApplication => String::from_str("invalid pattern application"),
            ErrorKind::TypeApplication => String::from_str("invalid type application"),
            ErrorKind::FunClauses => String::from_str("invalid function clauses"),
        }
    }

    /// The code of the error.
    pub fn code(&self) -> (r: u16)
        ensures
            r == code_of(*self),
    {
        match self {
                ErrorKind::InvalidAsPatName => 4002,
            ErrorKind::InfixWithoutOperand => 4003,
            ErrorKind::PatternApplication => 4004,
            ErrorKind::TypeApplication => 4005,
            ErrorKind::FunClauses => 4006,
        }
    }
}

} // verus!

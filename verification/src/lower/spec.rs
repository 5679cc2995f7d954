//! What lowering does, as a function from the syntax tree to the nodes of
//! the high-level intermediate representation.
//!
//! Lowering goes through the tree from the leaves up, in the order of the
//! text: the children of a node are lowered before the node, and each gets
//! what it needs of its children as numbers of tokens and of nodes. The
//! text of the tokens is read only where a node is made.

use crate::hir::{
    DecIdx, ExpIdx, Idx, LabKey, PatIdx, SConKey, StrDecIdx, TyIdx, ValBind,
};
use crate::lex::{spells, Token, TokenKind};
use crate::list::List;
use crate::lower::low::{
    Class, ClauseL, ConBindL, DatBindL, Error, ErrorKind, ExBindL, ExpItem, Fix, LabL, Low, NameSrc,
    Parts, PatAtomL, Span, TyAtomL, TyBindL, What, Word,
};
use crate::lower::model::{
    ConBindV, DatBindV, DecV, ExBindV, ExpV, PatV, PathV, TyBindV, TyV,
};
use crate::lower::{num_lab, scon_spec, SConKind};
use crate::parse::SyntaxKind;
use crate::syntax::Syntax;
use crate::text::decimal;
use vstd::prelude::*;

verus! {

/// What lowering reads: the tokens without blanks and comments, and the
/// bytes of the text.
pub struct Src {
    pub tokens: Seq<Token>,
    pub text: Seq<u8>,
}

/// What lowering writes: the nodes of each arena, the top-level
/// declarations, the tokens of the syntax that each node came from, the
/// errors, and the counter for names.
pub struct Out {
    pub exps: Seq<ExpV>,
    pub pats: Seq<PatV>,
    pub tys: Seq<TyV>,
    pub decs: Seq<DecV>,
    pub str_decs: Seq<crate::lower::model::StrDecV>,
    /// The structure expressions, the signature expressions and the
    /// specifications: lowering writes none.
    pub str_exps: Seq<crate::hir::StrExp>,
    pub sig_exps: Seq<crate::hir::SigExp>,
    pub specs: Seq<crate::hir::Spec>,
    pub top_decs: Seq<StrDecIdx>,
    pub ptrs: Seq<(Idx, Span)>,
    pub errors: Seq<Error>,
    pub fresh: u32,
}

/// Nothing written yet.
pub open spec fn start() -> Out {
    Out {
        exps: Seq::empty(),
        pats: Seq::empty(),
        tys: Seq::empty(),
        decs: Seq::empty(),
        str_decs: Seq::empty(),
        str_exps: Seq::empty(),
        sig_exps: Seq::empty(),
        specs: Seq::empty(),
        top_decs: Seq::empty(),
        ptrs: Seq::empty(),
        errors: Seq::empty(),
        fresh: 0,
    }
}

/// The characters that the bytes stand for, byte by byte.
pub open spec fn byte_chars(bytes: Seq<u8>) -> Seq<char> {
    Seq::new(bytes.len(), |i: int| bytes[i] as char)
}

/// Whether the token is there and has bytes of the text.
pub open spec fn has_text(src: Src, tok: int) -> bool {
    0 <= tok < src.tokens.len() && src.tokens[tok].range.start < src.tokens[tok].range.end
        <= src.text.len()
}

/// The bytes of a token.
pub open spec fn tok_bytes(src: Src, tok: int) -> Seq<u8> {
    src.text.subrange(src.tokens[tok].range.start as int, src.tokens[tok].range.end as int)
}

/// The text of a token; `_` for a token that is not there.
pub open spec fn tok_text(src: Src, tok: int) -> Seq<char> {
    if has_text(src, tok) {
        byte_chars(tok_bytes(src, tok))
    } else {
        seq!['_']
    }
}

pub open spec fn word_text(w: Word) -> Seq<char> {
    match w {
        Word::True => "true"@,
        Word::False => "false"@,
        Word::Nil => "nil"@,
        Word::Cons => "::"@,
    }
}

/// The text of a name. A name made from the counter starts with `$`, which
/// starts no name of a program.
pub open spec fn name(src: Src, n: NameSrc) -> Seq<char> {
    match n {
        NameSrc::Tok(t) => tok_text(src, t as int),
        NameSrc::Word(w) => word_text(w),
        NameSrc::Fresh(k) => seq!['$'] + decimal(k as nat),
        NameSrc::Missing => seq!['_'],
    }
}

/// The path that starts with the name `first` and goes on with the names
/// `rest`: the last name is the name of the path, the others are the
/// structures.
pub open spec fn path_from(src: Src, first: NameSrc, rest: List<NameSrc>) -> PathV
    decreases rest,
{
    match rest {
        List::Nil => PathV { structures: Seq::empty(), last: name(src, first) },
        List::Cons(h, t) => {
            let p = path_from(src, h, *t);
            PathV { structures: seq![name(src, first)] + p.structures, last: p.last }
        },
    }
}

/// The path of the names. Without names, the path is `_`.
pub open spec fn path(src: Src, l: List<NameSrc>) -> PathV {
    match l {
        List::Nil => PathV { structures: Seq::empty(), last: seq!['_'] },
        List::Cons(h, t) => path_from(src, h, *t),
    }
}

pub open spec fn paths(src: Src, l: List<List<NameSrc>>) -> Seq<PathV>
    decreases l,
{
    match l {
        List::Nil => Seq::empty(),
        List::Cons(h, t) => seq![path(src, h)] + paths(src, *t),
    }
}

/// The kind of a token, if it is there.
pub open spec fn tok_kind(src: Src, tok: usize) -> Option<TokenKind> {
    if tok < src.tokens.len() {
        Some(src.tokens[tok as int].kind)
    } else {
        None
    }
}

/// The label: a number by its token if the token is a number that may be
/// a label, else the text of the token.
pub open spec fn lab(src: Src, l: LabL) -> LabKey {
    match l {
        LabL::Tok(t) => if tok_kind(src, t) == Some(TokenKind::IntLit) {
            match num_lab(tok_text(src, t as int)) {
                Some(n) => LabKey::Num(n as nat),
                None => LabKey::Name(tok_text(src, t as int)),
            }
        } else {
            LabKey::Name(tok_text(src, t as int))
        },
        LabL::Num(n) => LabKey::Num(n as nat),
        LabL::Missing => LabKey::Name(seq!['_']),
    }
}

pub open spec fn rows(src: Src, l: List<(LabL, Option<u32>)>) -> Seq<(LabKey, Option<u32>)>
    decreases l,
{
    match l {
        List::Nil => Seq::empty(),
        List::Cons(h, t) => seq![(lab(src, h.0), h.1)] + rows(src, *t),
    }
}

/// The texts of the tokens, in order.
pub open spec fn texts(src: Src, l: List<usize>) -> Seq<Seq<char>>
    decreases l,
{
    match l {
        List::Nil => Seq::empty(),
        List::Cons(h, t) => seq![tok_text(src, h as int)] + texts(src, *t),
    }
}

/// The kind of special constant that a token is.
pub open spec fn scon_kind(kind: TokenKind) -> Option<SConKind> {
    match kind {
        TokenKind::IntLit => Some(SConKind::IntLit),
        TokenKind::RealLit => Some(SConKind::RealLit),
        TokenKind::WordLit => Some(SConKind::WordLit),
        TokenKind::CharLit => Some(SConKind::CharLit),
        TokenKind::StringLit => Some(SConKind::StringLit),
        _ => None,
    }
}

/// The special constant of a token, if the token is one with a value.
pub open spec fn scon(src: Src, tok: usize) -> Option<SConKey> {
    match tok_kind(src, tok) {
        Some(k) => match scon_kind(k) {
            Some(kind) => if has_text(src, tok as int) {
                scon_spec(kind, tok_text(src, tok as int))
            } else {
                None
            },
            None => None,
        },
        None => None,
    }
}

/// The number of the next node of an arena with `len` nodes.
pub open spec fn next(len: nat) -> u32 {
    (len % 0x1_0000_0000) as u32
}

pub open spec fn push_exp(o: Out, e: ExpV, span: Span) -> (Out, ExpIdx) {
    let idx = next(o.exps.len());
    (Out { exps: o.exps.push(e), ptrs: o.ptrs.push((Idx::Exp(idx), span)), ..o }, Some(idx))
}

pub open spec fn push_pat(o: Out, p: PatV, span: Span) -> (Out, PatIdx) {
    let idx = next(o.pats.len());
    (Out { pats: o.pats.push(p), ptrs: o.ptrs.push((Idx::Pat(idx), span)), ..o }, Some(idx))
}

pub open spec fn push_ty(o: Out, t: TyV, span: Span) -> (Out, TyIdx) {
    let idx = next(o.tys.len());
    (Out { tys: o.tys.push(t), ptrs: o.ptrs.push((Idx::Ty(idx), span)), ..o }, Some(idx))
}

pub open spec fn push_dec(o: Out, d: DecV, span: Span) -> (Out, DecIdx) {
    let idx = next(o.decs.len());
    (Out { decs: o.decs.push(d), ptrs: o.ptrs.push((Idx::Dec(idx), span)), ..o }, Some(idx))
}

/// A declaration at the top of the file.
pub open spec fn push_top(o: Out, d: DecIdx) -> Out {
    let idx = next(o.str_decs.len());
    Out {
        str_decs: o.str_decs.push(crate::lower::model::StrDecV::Dec(d)),
        top_decs: o.top_decs.push(Some(idx)),
        ..o
    }
}

pub open spec fn push_error(o: Out, kind: ErrorKind, span: Span) -> Out {
    Out { errors: o.errors.push(Error { span, kind }), ..o }
}

/// A name that no program can write, and that lowering has not made
/// before, as long as the counter has not come round.
pub open spec fn fresh(o: Out) -> (Out, NameSrc) {
    (
        Out {
            fresh: if o.fresh < u32::MAX {
                (o.fresh + 1) as u32
            } else {
                0
            },
            ..o
        },
        NameSrc::Fresh(o.fresh),
    )
}

pub open spec fn exp_hole() -> ExpV {
    ExpV::Hole
}

pub open spec fn exp_scon(src: Src, tok: usize) -> Option<ExpV> {
    match scon(src, tok) {
        Some(c) => Some(ExpV::SCon(c)),
        None => None,
    }
}

pub open spec fn exp_path(src: Src, l: List<NameSrc>) -> ExpV {
    ExpV::Path(path(src, l))
}

pub open spec fn exp_record(src: Src, l: List<(LabL, Option<u32>)>) -> ExpV {
    ExpV::Record(rows(src, l))
}

pub open spec fn exp_let(d: DecIdx, e: ExpIdx) -> ExpV {
    ExpV::Let(d, e)
}

pub open spec fn exp_app(f: ExpIdx, a: ExpIdx) -> ExpV {
    ExpV::App(f, a)
}

pub open spec fn exp_handle(e: ExpIdx, arms: List<(PatIdx, ExpIdx)>) -> ExpV {
    ExpV::Handle(e, arms.seq())
}

pub open spec fn exp_raise(e: ExpIdx) -> ExpV {
    ExpV::Raise(e)
}

pub open spec fn exp_fn(arms: List<(PatIdx, ExpIdx)>) -> ExpV {
    ExpV::Fn(arms.seq())
}

pub open spec fn exp_typed(e: ExpIdx, t: TyIdx) -> ExpV {
    ExpV::Typed(e, t)
}

pub open spec fn pat_wild() -> PatV {
    PatV::Wild
}

pub open spec fn pat_scon(src: Src, tok: usize) -> Option<PatV> {
    match scon(src, tok) {
        Some(c) => Some(PatV::SCon(c)),
        None => None,
    }
}

pub open spec fn pat_con(src: Src, l: List<NameSrc>, arg: Option<PatIdx>) -> PatV {
    PatV::Con(path(src, l), arg)
}

pub open spec fn pat_record(src: Src, l: List<(LabL, Option<u32>)>, allows_other: bool) -> PatV {
    PatV::Record { rows: rows(src, l), allows_other }
}

pub open spec fn pat_typed(p: PatIdx, t: TyIdx) -> PatV {
    PatV::Typed(p, t)
}

pub open spec fn pat_as(src: Src, n: NameSrc, p: PatIdx) -> PatV {
    PatV::As(name(src, n), p)
}

pub open spec fn ty_hole() -> TyV {
    TyV::Hole
}

pub open spec fn ty_var(src: Src, tok: usize) -> TyV {
    TyV::Var(tok_text(src, tok as int))
}

pub open spec fn ty_record(src: Src, l: List<(LabL, Option<u32>)>) -> TyV {
    TyV::Record(rows(src, l))
}

pub open spec fn ty_con(src: Src, args: List<TyIdx>, l: List<NameSrc>) -> TyV {
    TyV::Con(args.seq(), path(src, l))
}

pub open spec fn ty_fn(a: TyIdx, b: TyIdx) -> TyV {
    TyV::Fn(a, b)
}

pub open spec fn ty_bind(src: Src, b: TyBindL) -> TyBindV {
    TyBindV { ty_vars: texts(src, b.vars), name: name(src, b.name), ty: b.ty }
}

pub open spec fn ty_binds(src: Src, l: List<TyBindL>) -> Seq<TyBindV>
    decreases l,
{
    match l {
        List::Nil => Seq::empty(),
        List::Cons(h, t) => seq![ty_bind(src, h)] + ty_binds(src, *t),
    }
}

pub open spec fn con_binds(src: Src, l: List<ConBindL>) -> Seq<ConBindV>
    decreases l,
{
    match l {
        List::Nil => Seq::empty(),
        List::Cons(h, t) => seq![ConBindV { name: name(src, h.name), ty: h.ty }] + con_binds(
            src,
            *t,
        ),
    }
}

pub open spec fn dat_bind(src: Src, b: DatBindL) -> DatBindV {
    DatBindV { ty_vars: texts(src, b.vars), name: name(src, b.name), cons: con_binds(src, b.cons) }
}

pub open spec fn dat_binds(src: Src, l: List<DatBindL>) -> Seq<DatBindV>
    decreases l,
{
    match l {
        List::Nil => Seq::empty(),
        List::Cons(h, t) => seq![dat_bind(src, h)] + dat_binds(src, *t),
    }
}

pub open spec fn ex_bind(src: Src, b: ExBindL) -> ExBindV {
    match b {
        ExBindL::New(n, ty) => ExBindV::New(name(src, n), ty),
        ExBindL::Copy(n, p) => ExBindV::Copy(name(src, n), path(src, p)),
    }
}

pub open spec fn ex_binds(src: Src, l: List<ExBindL>) -> Seq<ExBindV>
    decreases l,
{
    match l {
        List::Nil => Seq::empty(),
        List::Cons(h, t) => seq![ex_bind(src, h)] + ex_binds(src, *t),
    }
}

pub open spec fn dec_val(src: Src, vars: List<usize>, binds: List<ValBind>) -> DecV {
    DecV::Val(texts(src, vars), binds.seq())
}

pub open spec fn dec_ty(src: Src, binds: List<TyBindL>) -> DecV {
    DecV::Ty(ty_binds(src, binds))
}

pub open spec fn dec_datatype(src: Src, dats: List<DatBindL>, tys: List<TyBindL>) -> DecV {
    DecV::Datatype(dat_binds(src, dats), ty_binds(src, tys))
}

pub open spec fn dec_dat_copy(src: Src, n: NameSrc, l: List<NameSrc>) -> DecV {
    DecV::DatatypeCopy(name(src, n), path(src, l))
}

pub open spec fn dec_abstype(src: Src, dats: List<DatBindL>, tys: List<TyBindL>, d: DecIdx) -> DecV {
    DecV::Abstype(dat_binds(src, dats), ty_binds(src, tys), d)
}

pub open spec fn dec_exception(src: Src, binds: List<ExBindL>) -> DecV {
    DecV::Exception(ex_binds(src, binds))
}

pub open spec fn dec_local(a: DecIdx, b: DecIdx) -> DecV {
    DecV::Local(a, b)
}

pub open spec fn dec_open(src: Src, l: List<List<NameSrc>>) -> DecV {
    DecV::Open(paths(src, l))
}

pub open spec fn dec_seq(decs: List<DecIdx>) -> DecV {
    DecV::Sequence(decs.seq())
}

/// How a name binds when it stands between two expressions, in the
/// standard basis.
pub open spec fn fixity_of(w: Seq<u8>) -> Option<Fix> {
    if spells(w, "*"@) || spells(w, "/"@) || spells(w, "div"@) || spells(w, "mod"@) {
        Some(Fix { prec: 7, right: false })
    } else if spells(w, "+"@) || spells(w, "-"@) || spells(w, "^"@) {
        Some(Fix { prec: 6, right: false })
    } else if spells(w, "::"@) || spells(w, "@"@) {
        Some(Fix { prec: 5, right: true })
    } else if spells(w, "="@) || spells(w, "<>"@) || spells(w, ">"@) || spells(w, ">="@) || spells(
        w,
        "<"@,
    ) || spells(w, "<="@) {
        Some(Fix { prec: 4, right: false })
    } else if spells(w, ":="@) || spells(w, "o"@) {
        Some(Fix { prec: 3, right: false })
    } else if spells(w, "before"@) {
        Some(Fix { prec: 0, right: false })
    } else {
        None
    }
}

/// How the name of a token binds as an infix operator, if it is one.
pub open spec fn fixity(src: Src, tok: usize) -> Option<Fix> {
    if has_text(src, tok as int) {
        fixity_of(tok_bytes(src, tok as int))
    } else {
        None
    }
}

/// Whether the token is the infix constructor of lists.
pub open spec fn is_cons(src: Src, tok: usize) -> bool {
    has_text(src, tok as int) && spells(tok_bytes(src, tok as int), "::"@)
}

/// The tokens of two pieces of syntax, one behind the other.
pub open spec fn join(a: Span, b: Span) -> Span
{
    match a {
        None => b,
        Some(x) => match b {
            None => a,
            Some(y) => Some((x.0, y.1)),
        },
    }
}

/// The first item of a list.
pub open spec fn first<T>(l: List<T>) -> Option<T>
{
    match l {
        List::Nil => None,
        List::Cons(h, _) => Some(h),
    }
}

/// The first item of a list of numbers of nodes; a missing node for a list
/// without items.
pub open spec fn first_idx(l: List<Option<u32>>) -> Option<u32>
{
    match l {
        List::Nil => None,
        List::Cons(h, _) => h,
    }
}

/// The item behind the first one.
pub open spec fn second_idx(l: List<Option<u32>>) -> Option<u32>
{
    match l {
        List::Nil => None,
        List::Cons(_, t) => first_idx(*t),
    }
}

/// The item behind the first two.
pub open spec fn third_idx(l: List<Option<u32>>) -> Option<u32>
{
    match l {
        List::Nil => None,
        List::Cons(_, t) => second_idx(*t),
    }
}

/// Whether the list has exactly one item.
pub open spec fn is_single<T>(l: List<T>) -> bool
{
    match l {
        List::Nil => false,
        List::Cons(_, t) => match *t {
            List::Nil => true,
            List::Cons(_, _) => false,
        },
    }
}

/// The number of items, as far as it can be counted.
pub open spec fn count<T>(l: List<T>) -> usize
    decreases l,
{
    match l {
        List::Nil => 0,
        List::Cons(_, t) => {
            let n = count(*t);
            if n < usize::MAX {
                (n + 1) as usize
            } else {
                n
            }
        },
    }
}

/// The nodes of the items, in order.
pub open spec fn idxs(l: List<ExpItem>) -> List<Option<u32>>
    decreases l,
{
    match l {
        List::Nil => List::Nil,
        List::Cons(h, t) => List::Cons(h.idx, Box::new(idxs(*t))),
    }
}

/// The rows of a tuple: the nodes with their positions as labels, counted
/// from `from`.
pub open spec fn number(l: List<Option<u32>>, from: usize) -> List<(LabL, Option<u32>)>
    decreases l,
{
    match l {
        List::Nil => List::Nil,
        List::Cons(h, t) => List::Cons(
            (LabL::Num(from), h),
            Box::new(
                number(
                    *t,
                    if from < usize::MAX {
                        (from + 1) as usize
                    } else {
                        from
                    },
                ),
            ),
        ),
    }
}

/// The first token of the kind among the tokens.
pub open spec fn find_tok(cx: Src, toks: List<usize>, kind: TokenKind) -> Option<usize>
    decreases toks,
{
    match toks {
        List::Nil => None,
        List::Cons(h, t) => if tok_kind(cx, h) == Some(kind) {
            Some(h)
        } else {
            find_tok(cx, *t, kind)
        },
    }
}

/// The tokens of the kind among the tokens, in order.
pub open spec fn toks_of(cx: Src, toks: List<usize>, kind: TokenKind) -> List<usize>
    decreases toks,
{
    match toks {
        List::Nil => List::Nil,
        List::Cons(h, t) => if tok_kind(cx, h) == Some(kind) {
            List::Cons(h, Box::new(toks_of(cx, *t, kind)))
        } else {
            toks_of(cx, *t, kind)
        },
    }
}

/// The names among the tokens, in order.
pub open spec fn names_of(cx: Src, toks: List<usize>) -> List<NameSrc>
    decreases toks,
{
    match toks {
        List::Nil => List::Nil,
        List::Cons(h, t) => if tok_kind(cx, h) == Some(TokenKind::Name) {
            List::Cons(NameSrc::Tok(h), Box::new(names_of(cx, *t)))
        } else {
            names_of(cx, *t)
        },
    }
}

/// The first name among the tokens; a missing name if there is none.
pub open spec fn name_of(cx: Src, toks: List<usize>) -> NameSrc
{
    match find_tok(cx, toks, TokenKind::Name) {
        Some(t) => NameSrc::Tok(t),
        None => NameSrc::Missing,
    }
}

/// The first token that is not `op`, as a name.
pub open spec fn plain_name(cx: Src, toks: List<usize>) -> NameSrc
    decreases toks,
{
    match toks {
        List::Nil => NameSrc::Missing,
        List::Cons(h, t) => if tok_kind(cx, h) == Some(TokenKind::Op) {
            plain_name(cx, *t)
        } else {
            NameSrc::Tok(h)
        },
    }
}

/// The first token as a label.
pub open spec fn lab_of(toks: List<usize>) -> LabL
{
    match toks {
        List::Nil => LabL::Missing,
        List::Cons(h, _) => LabL::Tok(h),
    }
}

/// The lists, one behind the other.
pub open spec fn concat<T>(a: List<T>, b: List<T>) -> List<T>
    decreases a,
{
    match a {
        List::Nil => b,
        List::Cons(h, t) => List::Cons(h, Box::new(concat(*t, b))),
    }
}

/// No parts.
pub open spec fn no_parts() -> Parts
{
    Parts {
        toks: List::Nil,
        paths: List::Nil,
        exps: List::Nil,
        pats: List::Nil,
        atoms: List::Nil,
        flats: List::Nil,
        tys: List::Nil,
        ty_atoms: List::Nil,
        rows: List::Nil,
        rest: false,
        annots: List::Nil,
        as_tails: List::Nil,
        of_tys: List::Nil,
        arms: List::Nil,
        matchers: List::Nil,
        handlers: List::Nil,
        decs: List::Nil,
        binds: List::Nil,
        clauses: List::Nil,
        ty_vars: List::Nil,
        ty_binds: List::Nil,
        with_type: List::Nil,
        con_binds: List::Nil,
        dat_binds: List::Nil,
        ex_binds: List::Nil,
    }
}

/// The parts with one more child in front.
pub open spec fn with_low(low: Low, p: Parts) -> Parts
{
    let span = low.span;
    match low.what {
        What::Tok(t) => Parts { toks: List::Cons(t, Box::new(p.toks)), ..p },
        What::Nothing => p,
        What::Path(names) => Parts { paths: List::Cons(names, Box::new(p.paths)), ..p },
        What::Exp(idx, fix) => Parts {
            exps: List::Cons(ExpItem { idx, fix, span }, Box::new(p.exps)),
            ..p
        },
        What::Pat(idx) => Parts {
            pats: List::Cons(idx, Box::new(p.pats)),
            atoms: List::Cons(PatAtomL::Done(idx, span), Box::new(p.atoms)),
            ..p
        },
        What::PathPat(names, op) => Parts {
            atoms: List::Cons(PatAtomL::Path(names, op, span), Box::new(p.atoms)),
            ..p
        },
        What::FlatPat(atoms) => Parts { flats: List::Cons(atoms, Box::new(p.flats)), ..p },
        What::Ty(idx) => Parts {
            tys: List::Cons(idx, Box::new(p.tys)),
            ty_atoms: List::Cons(TyAtomL::One(idx, span), Box::new(p.ty_atoms)),
            ..p
        },
        What::Tys(l) => Parts { ty_atoms: List::Cons(TyAtomL::Many(l, span), Box::new(p.ty_atoms)), ..p },
        What::TyCon(names) => Parts {
            ty_atoms: List::Cons(TyAtomL::Con(names, span), Box::new(p.ty_atoms)),
            ..p
        },
        What::Row(lab, idx) => Parts { rows: List::Cons((lab, idx), Box::new(p.rows)), ..p },
        What::RestRow => Parts { rest: true, ..p },
        What::Annot(t) => Parts { annots: List::Cons(t, Box::new(p.annots)), ..p },
        What::AsTail(x) => Parts { as_tails: List::Cons(x, Box::new(p.as_tails)), ..p },
        What::OfTy(t) => Parts { of_tys: List::Cons(t, Box::new(p.of_tys)), ..p },
        What::Arm(x, e) => Parts { arms: List::Cons((x, e), Box::new(p.arms)), ..p },
        What::Arms(l) => Parts { matchers: concat(l, p.matchers), ..p },
        What::Handler(l) => Parts { handlers: List::Cons(l, Box::new(p.handlers)), ..p },
        What::Dec(d) => Parts { decs: List::Cons(d, Box::new(p.decs)), ..p },
        What::ValBind(b) => Parts { binds: List::Cons(b, Box::new(p.binds)), ..p },
        What::Clause(c) => Parts { clauses: List::Cons(c, Box::new(p.clauses)), ..p },
        What::TyVars(l) => Parts { ty_vars: concat(l, p.ty_vars), ..p },
        What::TyBind(b) => Parts { ty_binds: List::Cons(b, Box::new(p.ty_binds)), ..p },
        What::WithType(l) => Parts { with_type: concat(l, p.with_type), ..p },
        What::ConBind(b) => Parts { con_binds: List::Cons(b, Box::new(p.con_binds)), ..p },
        What::DatBind(b) => Parts { dat_binds: List::Cons(b, Box::new(p.dat_binds)), ..p },
        What::ExBind(b) => Parts { ex_binds: List::Cons(b, Box::new(p.ex_binds)), ..p },
    }
}

/// The children of a node, each sort by itself, in the order of the text.
pub open spec fn parts(lows: List<Low>) -> Parts
    decreases lows,
{
    match lows {
        List::Nil => no_parts(),
        List::Cons(h, t) => with_low(h, parts(*t)),
    }
}

/// A node for an expression that is missing.
pub open spec fn hole(cx: Src, o: Out, span: Span) -> (Out, ExpIdx)
{
    push_exp(o, exp_hole(), span)
}

/// The expression that is a name of the language.
pub open spec fn word_exp(cx: Src, o: Out, w: Word, span: Span) -> (Out, ExpIdx)
{
    let names = List::Cons(NameSrc::Word(w), Box::new(List::Nil));
    push_exp(o, exp_path(cx, names), span)
}

/// The pattern that is a name: a variable, or a constructor without
/// argument.
pub open spec fn name_pat(cx: Src, o: Out, n: NameSrc, span: Span) -> (Out, PatIdx)
{
    let names = List::Cons(n, Box::new(List::Nil));
    push_pat(o, pat_con(cx, names, None), span)
}

/// The expression that is a name.
pub open spec fn name_exp(cx: Src, o: Out, n: NameSrc, span: Span) -> (Out, ExpIdx)
{
    let names = List::Cons(n, Box::new(List::Nil));
    push_exp(o, exp_path(cx, names), span)
}

/// The pair of two expressions.
pub open spec fn pair_exp(cx: Src, o: Out, a: ExpIdx, b: ExpIdx, span: Span) -> (Out, ExpIdx)
{
    let rows = List::Cons(
        (LabL::Num(1), a),
        Box::new(List::Cons((LabL::Num(2), b), Box::new(List::Nil))),
    );
    push_exp(o, exp_record(cx, rows), span)
}

/// The pair of two patterns.
pub open spec fn pair_pat(cx: Src, o: Out, a: PatIdx, b: PatIdx, span: Span) -> (Out, PatIdx)
{
    let rows = List::Cons(
        (LabL::Num(1), a),
        Box::new(List::Cons((LabL::Num(2), b), Box::new(List::Nil))),
    );
    push_pat(o, pat_record(cx, rows, false), span)
}

/// `case head of arms`: the function of the arms, applied to the head.
pub open spec fn case_exp(cx: Src, o: Out, head: ExpIdx, arms: List<(PatIdx, ExpIdx)>, span: Span) -> (Out, ExpIdx)
{
    let (o, f) = push_exp(o, exp_fn(arms), span);
    push_exp(o, exp_app(f, head), span)
}

/// `if cond then yes else no`: `case cond of true => yes | false => no`.
pub open spec fn if_exp(cx: Src, o: Out, cond: ExpIdx, yes: ExpIdx, no: ExpIdx, span: Span) -> (Out, ExpIdx)
{
    let (o, t) = name_pat(cx, o, NameSrc::Word(Word::True), span);
    let (o, f) = name_pat(cx, o, NameSrc::Word(Word::False), span);
    let arms = List::Cons((t, yes), Box::new(List::Cons((f, no), Box::new(List::Nil))));
    case_exp(cx, o, cond, arms, span)
}

/// The expression `()`.
pub open spec fn unit_exp(cx: Src, o: Out, span: Span) -> (Out, ExpIdx)
{
    let none: List<(LabL, Option<u32>)> = List::Nil;
    push_exp(o, exp_record(cx, none), span)
}

/// `while cond do body`: a function under a name that no program can
/// write, which calls itself behind the body as long as the condition
/// holds, and is called once:
/// `let val rec f = fn () => if cond then (body; f ()) else () in f () end`.
pub open spec fn while_exp(cx: Src, o: Out, cond: ExpIdx, body: ExpIdx, span: Span) -> (Out, ExpIdx)
{
    let (o, f) = fresh(o);
    let (o, fe) = name_exp(cx, o, f, span);
    let (o, arg) = unit_exp(cx, o, span);
    let (o, again) = push_exp(o, exp_app(fe, arg), span);
    let (o, w) = push_pat(o, pat_wild(), span);
    let then_arms = List::Cons((w, again), Box::new(List::Nil));
    let (o, yes) = case_exp(cx, o, body, then_arms, span);
    let (o, no) = unit_exp(cx, o, span);
    let (o, both) = if_exp(cx, o, cond, yes, no, span);
    let none: List<(LabL, Option<u32>)> = List::Nil;
    let (o, param) = push_pat(o, pat_record(cx, none, false), span);
    let arms = List::Cons((param, both), Box::new(List::Nil));
    let (o, func) = push_exp(o, exp_fn(arms), span);
    let (o, fp) = name_pat(cx, o, f, span);
    let binds = List::Cons(ValBind { rec: true, pat: fp, exp: func }, Box::new(List::Nil));
    let vars: List<usize> = List::Nil;
    let (o, d) = push_dec(o, dec_val(cx, vars, binds), span);
    let (o, fe2) = name_exp(cx, o, f, span);
    let (o, arg2) = unit_exp(cx, o, span);
    let (o, call) = push_exp(o, exp_app(fe2, arg2), span);
    push_exp(o, exp_let(d, call), span)
}

/// Expressions with `andalso` between them: `a andalso b` is
/// `if a then b else false`.
pub open spec fn andalso_exp(cx: Src, o: Out, l: List<ExpItem>, span: Span) -> (Out, ExpIdx)
    decreases l,
{
    match l {
        List::Nil => hole(cx, o, span),
        List::Cons(h, t) => match *t {
            List::Nil => (o, h.idx),
            List::Cons(_, _) => {
                let (o, rest) = andalso_exp(cx, o, *t, span);
                let (o, no) = word_exp(cx, o, Word::False, span);
                if_exp(cx, o, h.idx, rest, no, span)
            },
        },
    }
}

/// Expressions with `orelse` between them: `a orelse b` is
/// `if a then true else b`.
pub open spec fn orelse_exp(cx: Src, o: Out, l: List<ExpItem>, span: Span) -> (Out, ExpIdx)
    decreases l,
{
    match l {
        List::Nil => hole(cx, o, span),
        List::Cons(h, t) => match *t {
            List::Nil => (o, h.idx),
            List::Cons(_, _) => {
                let (o, rest) = orelse_exp(cx, o, *t, span);
                let (o, yes) = word_exp(cx, o, Word::True, span);
                if_exp(cx, o, h.idx, yes, rest, span)
            },
        },
    }
}

/// Expressions with `;` between them: `a; b` is `case a of _ => b`.
pub open spec fn seq_exp(cx: Src, o: Out, l: List<ExpItem>, span: Span) -> (Out, ExpIdx)
    decreases l,
{
    match l {
        List::Nil => hole(cx, o, span),
        List::Cons(h, t) => match *t {
            List::Nil => (o, h.idx),
            List::Cons(_, _) => {
                let (o, rest) = seq_exp(cx, o, *t, span);
                let (o, w) = push_pat(o, pat_wild(), span);
                let arms = List::Cons((w, rest), Box::new(List::Nil));
                case_exp(cx, o, h.idx, arms, span)
            },
        },
    }
}

/// The list of the expressions: `nil`, or `::` of the first one and the
/// list of the others.
pub open spec fn list_exp(cx: Src, o: Out, l: List<ExpItem>, span: Span) -> (Out, ExpIdx)
    decreases l,
{
    match l {
        List::Nil => word_exp(cx, o, Word::Nil, span),
        List::Cons(h, t) => {
            let (o, rest) = list_exp(cx, o, *t, span);
            let (o, arg) = pair_exp(cx, o, h.idx, rest, span);
            let (o, f) = word_exp(cx, o, Word::Cons, span);
            push_exp(o, exp_app(f, arg), span)
        },
    }
}

/// The list of the patterns.
pub open spec fn list_pat(cx: Src, o: Out, l: List<Option<u32>>, span: Span) -> (Out, PatIdx)
    decreases l,
{
    match l {
        List::Nil => name_pat(cx, o, NameSrc::Word(Word::Nil), span),
        List::Cons(h, t) => {
            let (o, rest) = list_pat(cx, o, *t, span);
            let (o, arg) = pair_pat(cx, o, h, rest, span);
            let names = List::Cons(NameSrc::Word(Word::Cons), Box::new(List::Nil));
            push_pat(o, pat_con(cx, names, Some(arg)), span)
        },
    }
}

/// The expression with the type annotations around it, the first one
/// innermost.
pub open spec fn typed_exp(cx: Src, o: Out, e: ExpIdx, annots: List<Option<u32>>, span: Span) -> (Out, ExpIdx)
    decreases annots,
{
    match annots {
        List::Nil => (o, e),
        List::Cons(h, t) => {
            let (o, e) = push_exp(o, exp_typed(e, h), span);
            typed_exp(cx, o, e, *t, span)
        },
    }
}

/// The expression with the handlers around it, the first one innermost.
pub open spec fn handle_exp(cx: Src, o: Out, e: ExpIdx, handlers: List<List<(PatIdx, ExpIdx)>>, span: Span) -> (Out, ExpIdx)
    decreases handlers,
{
    match handlers {
        List::Nil => (o, e),
        List::Cons(h, t) => {
            let (o, e) = push_exp(o, exp_handle(e, h), span);
            handle_exp(cx, o, e, *t, span)
        },
    }
}

/// Functions applied to their arguments: items that are no infix
/// operators, one behind the other, are applied from the left. What is
/// left are operands with infix operators between them. `cur` is the
/// operand so far.
pub open spec fn apps(cx: Src, o: Out, cur: Option<ExpItem>, items: List<ExpItem>) -> (Out, List<ExpItem>)
    decreases items,
{
    match items {
        List::Nil => match cur {
            None => (o, List::Nil),
            Some(c) => (o, List::Cons(c, Box::new(List::Nil))),
        },
        List::Cons(h, t) => match h.fix {
            Some(_) => {
                let (o, rest) = apps(cx, o, None, *t);
                let rest = List::Cons(h, Box::new(rest));
                match cur {
                    None => (o, rest),
                    Some(c) => (o, List::Cons(c, Box::new(rest))),
                }
            },
            None => match cur {
                None => apps(cx, o, Some(h), *t),
                Some(f) => {
                    let span = join(f.span, h.span);
                    let (o, idx) = push_exp(o, exp_app(f.idx, h.idx), span);
                    apps(cx, o, Some(ExpItem { idx, fix: None, span }), *t)
                },
            },
        },
    }
}

/// Whether the operator `f` is looser than the loosest operator so far, or
/// as loose and binding to the left.
pub open spec fn looser(f: Fix, g: Fix) -> bool
{
    f.prec < g.prec || (f.prec == g.prec && !f.right)
}

/// Where the operator stands at which the items are split: the loosest
/// one; of several that are equally loose, the last one if it binds to the
/// left, else the first one. `at` is the place of the first item, `best`
/// the operator so far.
pub open spec fn pick(items: List<ExpItem>, at: usize, best: Option<(usize, Fix)>) -> Option<(usize, Fix)>
    decreases items,
{
    match items {
        List::Nil => best,
        List::Cons(h, t) => {
            let next = match h.fix {
                None => best,
                Some(f) => match best {
                    None => Some((at, f)),
                    Some(b) => if looser(f, b.1) {
                        Some((at, f))
                    } else {
                        best
                    },
                },
            };
            pick(
                *t,
                if at < usize::MAX {
                    (at + 1) as usize
                } else {
                    at
                },
                next,
            )
        },
    }
}

/// The first `n` items.
pub open spec fn take(items: List<ExpItem>, n: usize) -> List<ExpItem>
    decreases items,
{
    match items {
        List::Nil => List::Nil,
        List::Cons(h, t) => if n == 0 {
            List::Nil
        } else {
            List::Cons(h, Box::new(take(*t, (n - 1) as usize)))
        },
    }
}

/// The items behind the first `n`.
pub open spec fn skip(items: List<ExpItem>, n: usize) -> List<ExpItem>
    decreases items,
{
    match items {
        List::Nil => List::Nil,
        List::Cons(h, t) => if n == 0 {
            List::Cons(h, Box::new(skip(*t, 0)))
        } else {
            skip(*t, (n - 1) as usize)
        },
    }
}

/// The tokens of all the items.
pub open spec fn items_span(items: List<ExpItem>) -> Span
    decreases items,
{
    match items {
        List::Nil => None,
        List::Cons(h, t) => join(h.span, items_span(*t)),
    }
}

/// Operands with infix operators between them, in at most `fuel` steps:
/// the items are split at the loosest operator, which is applied to the
/// pair of what stands on its two sides. An operator without an operand
/// on a side is an error, at the operator and its other side, or at
/// `outer` where nothing else is there.
pub open spec fn infix(cx: Src, o: Out, items: List<ExpItem>, fuel: usize, outer: Span) -> (Out, ExpIdx)
    decreases fuel,
{
    let span = match items_span(items) {
        None => outer,
        Some(s) => Some(s),
    };
    if fuel == 0 {
        hole(cx, o, span)
    } else {
        match pick(items, 0, None) {
            None => match first(items) {
                Some(x) => (o, x.idx),
                None => {
                    let o = push_error(o, ErrorKind::InfixWithoutOperand, span);
                    hole(cx, o, span)
                },
            },
            Some(at) => {
                let left = take(items, at.0);
                let rest = skip(items, at.0);
                let right = skip(rest, 1);
                let (o, a) = infix(cx, o, left, (fuel - 1) as usize, span);
                let (o, b) = infix(cx, o, right, (fuel - 1) as usize, span);
                let (o, arg) = pair_exp(cx, o, a, b, span);
                push_exp(o, exp_app(first_idx(idxs(rest)), arg), span)
            },
        }
    }
}

/// Atomic expressions, one behind the other: application first, then the
/// infix operators.
pub open spec fn flat_exp(cx: Src, o: Out, items: List<ExpItem>, span: Span) -> (Out, ExpIdx)
{
    let (o, l) = apps(cx, o, None, items);
    infix(cx, o, l, count(l), span)
}

/// The pattern of an atomic pattern: a path is a variable or a constructor
/// without argument.
pub open spec fn atom_pat(cx: Src, o: Out, a: PatAtomL) -> (Out, PatIdx)
{
    match a {
        PatAtomL::Path(names, _, span) => push_pat(o, pat_con(cx, names, None), span),
        PatAtomL::Done(idx, _) => (o, idx),
    }
}

/// The tokens of an atomic pattern.
pub open spec fn atom_span(a: PatAtomL) -> Span
{
    match a {
        PatAtomL::Path(_, _, span) => span,
        PatAtomL::Done(_, span) => span,
    }
}

/// Whether the atomic pattern is the infix constructor of lists.
pub open spec fn atom_is_cons(cx: Src, a: PatAtomL) -> bool
{
    match a {
        PatAtomL::Path(names, op, _) => !op && (match names {
            List::Cons(n, t) => (match n {
                NameSrc::Tok(k) => is_cons(cx, k),
                _ => false,
            }) && (match *t {
                List::Nil => true,
                List::Cons(_, _) => false,
            }),
            List::Nil => false,
        }),
        PatAtomL::Done(_, _) => false,
    }
}

/// Atomic patterns without infix constructor, one behind the other: one
/// atomic pattern, or a constructor and its argument. Anything else is an
/// error.
pub open spec fn pat_app(cx: Src, o: Out, atoms: List<PatAtomL>, span: Span) -> (Out, PatIdx)
{
    match atoms {
        List::Nil => {
            let o = push_error(o, ErrorKind::PatternApplication, span);
            push_pat(o, pat_wild(), span)
        },
        List::Cons(h, t) => match *t {
            List::Nil => atom_pat(cx, o, h),
            List::Cons(arg, more) => match h {
                PatAtomL::Path(names, _, _) => {
                    let o = if (*more is Nil) {
                        o
                    } else {
                        push_error(o, ErrorKind::PatternApplication, span)
                    };
                    let (o, a) = atom_pat(cx, o, arg);
                    push_pat(o, pat_con(cx, names, Some(a)), span)
                },
                PatAtomL::Done(idx, _) => {
                    let o = push_error(o, ErrorKind::PatternApplication, span);
                    (o, idx)
                },
            },
        },
    }
}

/// The list, the last item first, in front of `acc`.
pub open spec fn rev_atoms(l: List<PatAtomL>, acc: List<PatAtomL>) -> List<PatAtomL>
    decreases l,
{
    match l {
        List::Nil => acc,
        List::Cons(h, t) => rev_atoms(*t, List::Cons(h, Box::new(acc))),
    }
}

/// Atomic patterns, one behind the other: at the first infix `::`, the
/// pattern is `::` of what stands in front of it and of what stands behind
/// it. `before` holds the atomic patterns in front of `rest`, the last one
/// first.
pub open spec fn flat_pat(cx: Src, o: Out, before: List<PatAtomL>, rest: List<PatAtomL>, span: Span) -> (Out, PatIdx)
    decreases rest,
{
    match rest {
        List::Nil => pat_app(cx, o, rev_atoms(before, List::Nil), span),
        List::Cons(h, t) => if atom_is_cons(cx, h) {
            let (o, a) = pat_app(cx, o, rev_atoms(before, List::Nil), span);
            let (o, b) = flat_pat(cx, o, List::Nil, *t, span);
            let (o, arg) = pair_pat(cx, o, a, b, span);
            let names = List::Cons(NameSrc::Word(Word::Cons), Box::new(List::Nil));
            push_pat(o, pat_con(cx, names, Some(arg)), span)
        } else {
            flat_pat(cx, o, List::Cons(h, Box::new(before)), *t, span)
        },
    }
}

/// The name of an atomic pattern that is a name by itself, without `op`
/// and without structures.
pub open spec fn atom_name(a: PatAtomL) -> Option<NameSrc>
{
    match a {
        PatAtomL::Path(names, op, _) => match names {
            List::Cons(n, t) => match *t {
                List::Nil => Some(n),
                List::Cons(_, _) => None,
            },
            List::Nil => None,
        },
        PatAtomL::Done(_, _) => None,
    }
}

/// The name in front of `as`: the atomic patterns must be one name.
pub open spec fn as_name(atoms: List<PatAtomL>) -> Option<NameSrc>
{
    match atoms {
        List::Nil => None,
        List::Cons(h, t) => match *t {
            List::Nil => atom_name(h),
            List::Cons(_, _) => None,
        },
    }
}

/// The pattern with the type annotation around it, if there is one.
pub open spec fn annotated(cx: Src, o: Out, p: PatIdx, annots: List<Option<u32>>, span: Span) -> (Out, PatIdx)
{
    match annots {
        List::Nil => (o, p),
        List::Cons(t, _) => push_pat(o, pat_typed(p, t), span),
    }
}

/// A pattern: the atomic patterns `atoms` with the type annotation and
/// with `as` and a pattern, each if it is there. In front of `as` a name
/// must stand; a type annotation is then moved onto the pattern behind
/// `as`.
pub open spec fn whole_pat(cx: Src, o: Out, atoms: List<PatAtomL>, annots: List<Option<u32>>, as_tails: List<Option<u32>>, span: Span) -> (Out, PatIdx)
{
    match as_tails {
        List::Nil => {
            let (o, p) = flat_pat(cx, o, List::Nil, atoms, span);
            annotated(cx, o, p, annots, span)
        },
        List::Cons(inner, _) => {
            let (o, inner) = annotated(cx, o, inner, annots, span);
            match as_name(atoms) {
                Some(n) => push_pat(o, pat_as(cx, n, inner), span),
                None => {
                    let o = push_error(o, ErrorKind::InvalidAsPatName, span);
                    (o, inner)
                },
            }
        },
    }
}

/// A type and the type constructors that are applied to it: `args` is the
/// type, or are the types, so far. A type constructor takes them as its
/// arguments; anything else behind them is an error.
pub open spec fn flat_ty(cx: Src, o: Out, args: List<Option<u32>>, atoms: List<TyAtomL>, span: Span) -> (Out, TyIdx)
    decreases atoms,
{
    match atoms {
        List::Nil => if is_single(args) {
            (o, first_idx(args))
        } else {
            let o = push_error(o, ErrorKind::TypeApplication, span);
            push_ty(o, ty_hole(), span)
        },
        List::Cons(h, t) => match h {
            TyAtomL::Con(names, s) => {
                let (o, idx) = push_ty(o, ty_con(cx, args, names), join(span, s));
                flat_ty(cx, o, List::Cons(idx, Box::new(List::Nil)), *t, span)
            },
            TyAtomL::One(idx, _) => {
                let o = if (args is Nil) {
                    o
                } else {
                    push_error(o, ErrorKind::TypeApplication, span)
                };
                flat_ty(cx, o, List::Cons(idx, Box::new(List::Nil)), *t, span)
            },
            TyAtomL::Many(l, _) => {
                let o = if (args is Nil) {
                    o
                } else {
                    push_error(o, ErrorKind::TypeApplication, span)
                };
                flat_ty(cx, o, l, *t, span)
            },
        },
    }
}

/// The arguments of a clause: the patterns of its atomic patterns behind
/// the name.
pub open spec fn clause_args(cx: Src, o: Out, atoms: List<PatAtomL>) -> (Out, List<Option<u32>>)
    decreases atoms,
{
    match atoms {
        List::Nil => (o, List::Nil),
        List::Cons(h, t) => {
            let (o, p) = atom_pat(cx, o, h);
            let (o, rest) = clause_args(cx, o, *t);
            (o, List::Cons(p, Box::new(rest)))
        },
    }
}

/// A clause after its head was lowered: the name, the patterns of the
/// arguments, and the body with its type annotation.
pub open spec fn clause(cx: Src, o: Out, c: ClauseL) -> (Out, (NameSrc, List<Option<u32>>, ExpIdx))
{
    let (o, body) = typed_exp(cx, o, c.body, c.annots, c.span);
    match c.head {
        List::Nil => (o, (NameSrc::Missing, List::Nil, body)),
        List::Cons(h, t) => {
            let n = match atom_name(h) {
                Some(n) => n,
                None => NameSrc::Missing,
            };
            let (o, args) = clause_args(cx, o, *t);
            (o, (n, args, body))
        },
    }
}

/// The clauses of a function as arms: each has the pattern of its one
/// argument, or the tuple of the patterns of its arguments.
pub open spec fn clause_arms(cx: Src, o: Out, clauses: List<ClauseL>, arity: usize, span: Span) -> (Out, List<(PatIdx, ExpIdx)>, NameSrc)
    decreases clauses,
{
    match clauses {
        List::Nil => (o, List::Nil, NameSrc::Missing),
        List::Cons(h, t) => {
            let s = h.span;
            let (o, c) = clause(cx, o, h);
            let o = if count(c.1) == arity && arity > 0 {
                o
            } else {
                push_error(o, ErrorKind::FunClauses, s)
            };
            let (o, p) = if is_single(c.1) {
                (o, first_idx(c.1))
            } else {
                push_pat(o, pat_record(cx, number(c.1, 1), false), s)
            };
            let (o, rest, _n) = clause_arms(cx, o, *t, arity, span);
            (o, List::Cons((p, c.2), Box::new(rest)), c.0)
        },
    }
}

/// As many names that no program can write as the function has arguments.
pub open spec fn fresh_names(o: Out, n: usize) -> (Out, List<NameSrc>)
    decreases n,
{
    if n == 0 {
        (o, List::Nil)
    } else {
        let (o, x) = fresh(o);
        let (o, rest) = fresh_names(o, (n - 1) as usize);
        (o, List::Cons(x, Box::new(rest)))
    }
}

/// The expressions of the names, in order.
pub open spec fn name_exps(cx: Src, o: Out, names: List<NameSrc>, span: Span) -> (Out, List<Option<u32>>)
    decreases names,
{
    match names {
        List::Nil => (o, List::Nil),
        List::Cons(h, t) => {
            let (o, e) = name_exp(cx, o, h, span);
            let (o, rest) = name_exps(cx, o, *t, span);
            (o, List::Cons(e, Box::new(rest)))
        },
    }
}

/// `fn x1 => ... fn xn => body` for the names.
pub open spec fn curried(cx: Src, o: Out, names: List<NameSrc>, body: ExpIdx, span: Span) -> (Out, ExpIdx)
    decreases names,
{
    match names {
        List::Nil => (o, body),
        List::Cons(h, t) => {
            let (o, inner) = curried(cx, o, *t, body, span);
            let (o, p) = name_pat(cx, o, h, span);
            let arms = List::Cons((p, inner), Box::new(List::Nil));
            push_exp(o, exp_fn(arms), span)
        },
    }
}

/// The number of arguments of the first clause.
pub open spec fn arity_of(clauses: List<ClauseL>) -> usize
{
    match clauses {
        List::Nil => 0,
        List::Cons(h, _) => match h.head {
            List::Nil => 0,
            List::Cons(_, t) => count(*t),
        },
    }
}

/// The binding of a function with clauses: the name of the function is
/// bound, recursively, to a function. With one argument, the clauses are
/// the arms of the function. With several arguments, the function takes
/// them one by one under names that no program can write, and matches
/// their tuple against the clauses. Every clause must have as many
/// arguments as the first one, and at least one.
pub open spec fn fun_bind(cx: Src, o: Out, clauses: List<ClauseL>, span: Span) -> (Out, ValBind)
{
    let arity = arity_of(clauses);
    let (o, arms, n) = clause_arms(cx, o, clauses, arity, span);
    let (o, exp) = if arity <= 1 {
        push_exp(o, exp_fn(arms), span)
    } else {
        let (o, names) = fresh_names(o, arity);
        let (o, es) = name_exps(cx, o, names, span);
        let (o, head) = push_exp(o, exp_record(cx, number(es, 1)), span);
        let (o, body) = case_exp(cx, o, head, arms, span);
        curried(cx, o, names, body, span)
    };
    let (o, pat) = name_pat(cx, o, n, span);
    (o, ValBind { rec: true, pat, exp })
}

/// The top-level declarations of a file, one for each declaration.
pub open spec fn tops(o: Out, decs: List<Option<u32>>) -> Out
    decreases decs,
{
    match decs {
        List::Nil => o,
        List::Cons(h, t) => tops(push_top(o, h), *t),
    }
}

/// What a node of a type is lowered to.
pub open spec fn build_ty(cx: Src, o: Out, kind: SyntaxKind, p: Parts, span: Span) -> (Out, What)
{
    let r = span;
    match kind {
        SyntaxKind::TyVarTy => {
            let t = match first(p.toks) {
                Some(t) => t,
                None => usize::MAX,
            };
            let (o, idx) = push_ty(o, ty_var(cx, t), r);
            (o, What::Ty(idx))
        },
        SyntaxKind::RecordTy => {
            let (o, idx) = push_ty(o, ty_record(cx, p.rows), r);
            (o, What::Ty(idx))
        },
        SyntaxKind::ParenTy => if is_single(p.tys) {
            (o, What::Ty(first_idx(p.tys)))
        } else {
            (o, What::Tys(p.tys))
        },
        SyntaxKind::PathTy => match p.paths {
            List::Cons(names, _) => (o, What::TyCon(names)),
            List::Nil => (o, What::TyCon(List::Nil)),
        },
        SyntaxKind::FlatTy => {
            let (o, idx) = flat_ty(cx, o, List::Nil, p.ty_atoms, span);
            (o, What::Ty(idx))
        },
        SyntaxKind::TupleTy => if is_single(p.tys) {
            (o, What::Ty(first_idx(p.tys)))
        } else {
            let (o, idx) = push_ty(o, ty_record(cx, number(p.tys, 1)), r);
            (o, What::Ty(idx))
        },
        SyntaxKind::FnTy => if is_single(p.tys) {
            (o, What::Ty(first_idx(p.tys)))
        } else {
            let (o, idx) = push_ty(o, ty_fn(first_idx(p.tys), second_idx(p.tys)), r);
            (o, What::Ty(idx))
        },
        SyntaxKind::TyAnnot => (o, What::Annot(first_idx(p.tys))),
        SyntaxKind::OfTy => (o, What::OfTy(first_idx(p.tys))),
        SyntaxKind::TyVarSeq => (o, What::TyVars(toks_of(cx, p.toks, TokenKind::TyVar))),
        _ => (o, What::Nothing),
    }
}

/// What a node of a pattern is lowered to.
pub open spec fn build_pat(cx: Src, o: Out, kind: SyntaxKind, p: Parts, span: Span) -> (Out, What)
{
    let r = span;
    match kind {
        SyntaxKind::WildPat => {
            let (o, idx) = push_pat(o, pat_wild(), r);
            (o, What::Pat(idx))
        },
        SyntaxKind::SConPat => {
            let t = match first(p.toks) {
                Some(t) => t,
                None => usize::MAX,
            };
            match pat_scon(cx, t) {
                Some(node) => {
                    let (o, idx) = push_pat(o, node, r);
                    (o, What::Pat(idx))
                },
                None => {
                    let (o, idx) = push_pat(o, pat_wild(), r);
                    (o, What::Pat(idx))
                },
            }
        },
        SyntaxKind::PathPat => {
            let op = find_tok(cx, p.toks, TokenKind::Op).is_some();
            match p.paths {
                List::Cons(names, _) => (o, What::PathPat(names, op)),
                List::Nil => (o, What::PathPat(List::Nil, op)),
            }
        },
        SyntaxKind::RecordPat => {
            let (o, idx) = push_pat(o, pat_record(cx, p.rows, p.rest), r);
            (o, What::Pat(idx))
        },
        SyntaxKind::ParenPat => if is_single(p.pats) {
            (o, What::Pat(first_idx(p.pats)))
        } else {
            let (o, idx) = push_pat(o, pat_record(cx, number(p.pats, 1), false), r);
            (o, What::Pat(idx))
        },
        SyntaxKind::ListPat => {
            let (o, idx) = list_pat(cx, o, p.pats, span);
            (o, What::Pat(idx))
        },
        SyntaxKind::FlatPat => (o, What::FlatPat(p.atoms)),
        SyntaxKind::Pat => {
            let atoms = match p.flats {
                List::Cons(a, _) => a,
                List::Nil => List::Nil,
            };
            let (o, idx) = whole_pat(cx, o, atoms, p.annots, p.as_tails, span);
            (o, What::Pat(idx))
        },
        SyntaxKind::AsTail => (o, What::AsTail(first_idx(p.pats))),
        SyntaxKind::LabPatRow => (o, What::Row(lab_of(p.toks), first_idx(p.pats))),
        SyntaxKind::NamePatRow => {
            let n = name_of(cx, p.toks);
            let atoms = List::Cons(
                PatAtomL::Path(List::Cons(n, Box::new(List::Nil)), false, span),
                Box::new(List::Nil),
            );
            let (o, idx) = whole_pat(cx, o, atoms, p.annots, p.as_tails, span);
            (o, What::Row(lab_of(p.toks), idx))
        },
        SyntaxKind::RestPatRow => (o, What::RestRow),
        _ => (o, What::Nothing),
    }
}

/// What a node of an expression is lowered to.
pub open spec fn build_exp(cx: Src, o: Out, kind: SyntaxKind, p: Parts, span: Span) -> (Out, What)
{
    let r = span;
    match kind {
        SyntaxKind::SConExp => {
            let t = match first(p.toks) {
                Some(t) => t,
                None => usize::MAX,
            };
            match exp_scon(cx, t) {
                Some(node) => {
                    let (o, idx) = push_exp(o, node, r);
                    (o, What::Exp(idx, None))
                },
                None => {
                    let (o, idx) = hole(cx, o, span);
                    (o, What::Exp(idx, None))
                },
            }
        },
        SyntaxKind::PathExp => {
            let op = find_tok(cx, p.toks, TokenKind::Op).is_some();
            let names = match p.paths {
                List::Cons(names, _) => names,
                List::Nil => List::Cons(plain_name(cx, p.toks), Box::new(List::Nil)),
            };
            let fix = if op {
                None
            } else {
                match as_infix(names) {
                    Some(t) => fixity(cx, t),
                    None => None,
                }
            };
            let (o, idx) = push_exp(o, exp_path(cx, names), r);
            (o, What::Exp(idx, fix))
        },
        SyntaxKind::RecordExp => {
            let (o, idx) = push_exp(o, exp_record(cx, p.rows), r);
            (o, What::Exp(idx, None))
        },
        SyntaxKind::SelectorExp => {
            let lab = match p.toks {
                List::Cons(_, t) => lab_of(*t),
                List::Nil => LabL::Missing,
            };
            let (o, x) = fresh(o);
            let (o, var) = name_pat(cx, o, x, span);
            let rows = List::Cons((lab, var), Box::new(List::Nil));
            let (o, rec) = push_pat(o, pat_record(cx, rows, true), r);
            let (o, body) = name_exp(cx, o, x, span);
            let arms = List::Cons((rec, body), Box::new(List::Nil));
            let (o, idx) = push_exp(o, exp_fn(arms), r);
            (o, What::Exp(idx, None))
        },
        SyntaxKind::ParenExp => if is_single(p.exps) {
            (o, What::Exp(first_idx(idxs(p.exps)), None))
        } else {
            let (o, idx) = push_exp(o, exp_record(cx, number(idxs(p.exps), 1)), r);
            (o, What::Exp(idx, None))
        },
        SyntaxKind::SeqExp => {
            let (o, idx) = seq_exp(cx, o, p.exps, span);
            (o, What::Exp(idx, None))
        },
        SyntaxKind::ListExp => {
            let (o, idx) = list_exp(cx, o, p.exps, span);
            (o, What::Exp(idx, None))
        },
        SyntaxKind::LetExp => {
            let (o, body) = seq_exp(cx, o, p.exps, span);
            let (o, idx) = push_exp(o, exp_let(first_idx(p.decs), body), r);
            (o, What::Exp(idx, None))
        },
        SyntaxKind::FlatExp => {
            let (o, idx) = flat_exp(cx, o, p.exps, span);
            (o, What::Exp(idx, None))
        },
        SyntaxKind::TypedExp => {
            let (o, idx) = typed_exp(cx, o, first_idx(idxs(p.exps)), p.annots, span);
            (o, What::Exp(idx, None))
        },
        SyntaxKind::AndalsoExp => {
            let (o, idx) = andalso_exp(cx, o, p.exps, span);
            (o, What::Exp(idx, None))
        },
        SyntaxKind::OrelseExp => {
            let (o, idx) = orelse_exp(cx, o, p.exps, span);
            (o, What::Exp(idx, None))
        },
        SyntaxKind::HandleExp => {
            let (o, idx) = handle_exp(cx, o, first_idx(idxs(p.exps)), p.handlers, span);
            (o, What::Exp(idx, None))
        },
        SyntaxKind::HandleTail => (o, What::Handler(p.matchers)),
        SyntaxKind::Matcher => (o, What::Arms(p.arms)),
        SyntaxKind::Arm => (o, What::Arm(first_idx(p.pats), first_idx(idxs(p.exps)))),
        SyntaxKind::RaiseExp => {
            let (o, idx) = push_exp(o, exp_raise(first_idx(idxs(p.exps))), r);
            (o, What::Exp(idx, None))
        },
        SyntaxKind::IfExp => {
            let es = idxs(p.exps);
            let (o, idx) = if_exp(cx, o, first_idx(es), second_idx(es), third_idx(es), span);
            (o, What::Exp(idx, None))
        },
        SyntaxKind::WhileExp => {
            let es = idxs(p.exps);
            let (o, idx) = while_exp(cx, o, first_idx(es), second_idx(es), span);
            (o, What::Exp(idx, None))
        },
        SyntaxKind::CaseExp => {
            let (o, idx) = case_exp(cx, o, first_idx(idxs(p.exps)), p.matchers, span);
            (o, What::Exp(idx, None))
        },
        SyntaxKind::FnExp => {
            let (o, idx) = push_exp(o, exp_fn(p.matchers), r);
            (o, What::Exp(idx, None))
        },
        _ => (o, What::Nothing),
    }
}

/// The token of a path that is one name from a token, which may be an
/// infix operator.
pub open spec fn as_infix(names: List<NameSrc>) -> Option<usize>
{
    match names {
        List::Cons(n, t) => match *t {
            List::Nil => match n {
                NameSrc::Tok(k) => Some(k),
                _ => None,
            },
            List::Cons(_, _) => None,
        },
        List::Nil => None,
    }
}

/// What a node of a declaration is lowered to.
pub open spec fn build_dec(cx: Src, o: Out, kind: SyntaxKind, p: Parts, span: Span) -> (Out, What)
{
    let r = span;
    match kind {
        SyntaxKind::Decs => if is_single(p.decs) {
            (o, What::Dec(first_idx(p.decs)))
        } else {
            let (o, idx) = push_dec(o, dec_seq(p.decs), r);
            (o, What::Dec(idx))
        },
        SyntaxKind::ValDec | SyntaxKind::FunDec => {
            let (o, idx) = push_dec(o, dec_val(cx, p.ty_vars, p.binds), r);
            (o, What::Dec(idx))
        },
        SyntaxKind::ValBind => {
            let rec = find_tok(cx, p.toks, TokenKind::Rec).is_some();
            (
                o,
                What::ValBind(
                    ValBind { rec, pat: first_idx(p.pats), exp: first_idx(idxs(p.exps)) },
                ),
            )
        },
        SyntaxKind::FunBind => {
            let (o, b) = fun_bind(cx, o, p.clauses, span);
            (o, What::ValBind(b))
        },
        SyntaxKind::Clause => {
            let head = match p.flats {
                List::Cons(a, _) => a,
                List::Nil => List::Nil,
            };
            (
                o,
                What::Clause(
                    ClauseL { head, annots: p.annots, body: first_idx(idxs(p.exps)), span },
                ),
            )
        },
        SyntaxKind::TyDec => {
            let (o, idx) = push_dec(o, dec_ty(cx, p.ty_binds), r);
            (o, What::Dec(idx))
        },
        SyntaxKind::TyBind => (
            o,
            What::TyBind(
                TyBindL { vars: p.ty_vars, name: name_of(cx, p.toks), ty: first_idx(p.tys) },
            ),
        ),
        SyntaxKind::DatDec => {
            let (o, idx) = push_dec(o, dec_datatype(cx, p.dat_binds, p.with_type), r);
            (o, What::Dec(idx))
        },
        SyntaxKind::WithType => (o, What::WithType(p.ty_binds)),
        SyntaxKind::DatBind => (
            o,
            What::DatBind(
                DatBindL { vars: p.ty_vars, name: name_of(cx, p.toks), cons: p.con_binds },
            ),
        ),
        SyntaxKind::ConBind => (
            o,
            What::ConBind(ConBindL { name: name_of(cx, p.toks), ty: first(p.of_tys) }),
        ),
        SyntaxKind::DatCopyDec => {
            let names = match p.paths {
                List::Cons(names, _) => names,
                List::Nil => List::Nil,
            };
            let (o, idx) = push_dec(o, dec_dat_copy(cx, name_of(cx, p.toks), names), r);
            (o, What::Dec(idx))
        },
        SyntaxKind::AbstypeDec => {
            let (o, idx) = push_dec(
                o,
                dec_abstype(cx, p.dat_binds, p.with_type, first_idx(p.decs)),
                r,
            );
            (o, What::Dec(idx))
        },
        SyntaxKind::ExDec => {
            let (o, idx) = push_dec(o, dec_exception(cx, p.ex_binds), r);
            (o, What::Dec(idx))
        },
        SyntaxKind::ExBind => {
            let n = name_of(cx, p.toks);
            match p.paths {
                List::Cons(names, _) => (o, What::ExBind(ExBindL::Copy(n, names))),
                List::Nil => (o, What::ExBind(ExBindL::New(n, first(p.of_tys)))),
            }
        },
        SyntaxKind::LocalDec => {
            let (o, idx) = push_dec(o, dec_local(first_idx(p.decs), second_idx(p.decs)), r);
            (o, What::Dec(idx))
        },
        SyntaxKind::OpenDec => {
            let (o, idx) = push_dec(o, dec_open(cx, p.paths), r);
            (o, What::Dec(idx))
        },
        SyntaxKind::Root => (tops(o, p.decs), What::Nothing),
        _ => (o, What::Nothing),
    }
}

/// What wraps an item of a list: the item itself.
pub open spec fn build_wrap(cx: Src, o: Out, kind: SyntaxKind, p: Parts, span: Span) -> (Out, What)
{
    match kind {
        SyntaxKind::Path => (o, What::Path(names_of(cx, p.toks))),
        SyntaxKind::Arg => match first(p.exps) {
            Some(e) => (o, What::Exp(e.idx, None)),
            None => match first(p.pats) {
                Some(x) => (o, What::Pat(x)),
                None => match first(p.tys) {
                    Some(t) => (o, What::Ty(t)),
                    None => match find_tok(cx, p.toks, TokenKind::TyVar) {
                        Some(t) => (o, What::TyVars(List::Cons(t, Box::new(List::Nil)))),
                        None => (o, What::Nothing),
                    },
                },
            },
        },
        SyntaxKind::Row => if p.rest {
            (o, What::RestRow)
        } else {
            match first(p.rows) {
                Some(row) => (o, What::Row(row.0, row.1)),
                None => match first(p.exps) {
                    Some(e) => (o, What::Row(lab_of(p.toks), e.idx)),
                    None => (o, What::Row(lab_of(p.toks), first_idx(p.tys))),
                },
            }
        },
        _ => (o, What::Nothing),
    }
}

/// Which rule of lowering a kind of node belongs to.
pub open spec fn class_of(kind: SyntaxKind) -> Class
{
    match kind {
        SyntaxKind::Path | SyntaxKind::Arg | SyntaxKind::Row => Class::Wrap,
        SyntaxKind::FnTy
        | SyntaxKind::TupleTy
        | SyntaxKind::FlatTy
        | SyntaxKind::TyVarTy
        | SyntaxKind::RecordTy
        | SyntaxKind::ParenTy
        | SyntaxKind::PathTy
        | SyntaxKind::TyAnnot
        | SyntaxKind::OfTy
        | SyntaxKind::TyVarSeq => Class::Ty,
        SyntaxKind::Pat
        | SyntaxKind::FlatPat
        | SyntaxKind::AsTail
        | SyntaxKind::WildPat
        | SyntaxKind::SConPat
        | SyntaxKind::PathPat
        | SyntaxKind::RecordPat
        | SyntaxKind::LabPatRow
        | SyntaxKind::NamePatRow
        | SyntaxKind::RestPatRow
        | SyntaxKind::ParenPat
        | SyntaxKind::ListPat => Class::Pat,
        SyntaxKind::HandleExp
        | SyntaxKind::OrelseExp
        | SyntaxKind::AndalsoExp
        | SyntaxKind::TypedExp
        | SyntaxKind::FlatExp
        | SyntaxKind::HandleTail
        | SyntaxKind::RaiseExp
        | SyntaxKind::IfExp
        | SyntaxKind::WhileExp
        | SyntaxKind::CaseExp
        | SyntaxKind::FnExp
        | SyntaxKind::Matcher
        | SyntaxKind::Arm
        | SyntaxKind::SConExp
        | SyntaxKind::PathExp
        | SyntaxKind::RecordExp
        | SyntaxKind::SelectorExp
        | SyntaxKind::ParenExp
        | SyntaxKind::SeqExp
        | SyntaxKind::ListExp
        | SyntaxKind::LetExp => Class::Exp,
        _ => Class::Dec,
    }
}

/// What a node of a kind is lowered to, after its children were lowered to
/// `lows`.
pub open spec fn build(cx: Src, o: Out, kind: SyntaxKind, lows: List<Low>, span: Span) -> (Out, What)
{
    let p = parts(lows);
    match class_of(kind) {
        Class::Wrap => build_wrap(cx, o, kind, p, span),
        Class::Ty => build_ty(cx, o, kind, p, span),
        Class::Pat => build_pat(cx, o, kind, p, span),
        Class::Exp => build_exp(cx, o, kind, p, span),
        Class::Dec => build_dec(cx, o, kind, p, span),
    }
}

/// What a piece of syntax is lowered to: a token to itself, a node to what
/// its kind makes of its children.
pub open spec fn lower(cx: Src, o: Out, tree: Syntax) -> (Out, Low)
    decreases tree,
{
    match tree {
        Syntax::Token(i) => (o, Low { span: Some((i, i)), what: What::Tok(i) }),
        Syntax::Node(kind, kids) => {
            let (o, lows, span) = lower_all(cx, o, *kids);
            let (o, what) = build(cx, o, kind, lows, span);
            (o, Low { span, what })
        },
    }
}

/// The pieces of syntax, lowered one after the other, with the tokens of
/// all of them.
pub open spec fn lower_all(cx: Src, o: Out, kids: List<Syntax>) -> (Out, List<Low>, Span)
    decreases kids,
{
    match kids {
        List::Nil => (o, List::Nil, None),
        List::Cons(h, t) => {
            let (o, low) = lower(cx, o, h);
            let (o, rest, span) = lower_all(cx, o, *t);
            let all = join(low.span, span);
            (o, List::Cons(low, Box::new(rest)), all)
        },
    }
}

/// What lowering the trees of a file writes.
pub open spec fn get(cx: Src, trees: List<Syntax>) -> Out
{
    let (o, _lows, _span) = lower_all(cx, start(), trees);
    o
}

} // verus!

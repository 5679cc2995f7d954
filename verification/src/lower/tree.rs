//! Lowering: from the syntax tree to the nodes of the high-level
//! intermediate representation.

use crate::hir::{ExpIdx, PatIdx, TyIdx, ValBind};
use crate::lex::TokenKind;
use crate::list::List;
use crate::lower::low::{
    Class, ClauseL, ConBindL, DatBindL, ErrorKind, ExBindL, ExpItem, Fix, LabL, Low, NameSrc, Parts,
    PatAtomL, Span, TyAtomL, TyBindL, What, Word,
};
use crate::lower::node;
use crate::lower::node::{Cx, St};
use crate::parse::SyntaxKind;
use crate::syntax::Syntax;
use vstd::prelude::*;

verus! {

/// The tokens of two pieces of syntax, one behind the other.
pub fn join(a: Span, b: Span) -> (r: Span)
    ensures
        r == crate::lower::spec::join(a, b),
{
    match a {
        None => b,
        Some(x) => match b {
            None => a,
            Some(y) => Some((x.0, y.1)),
        },
    }
}

/// The first item of a list.
pub fn first<T: Copy>(l: &List<T>) -> (r: Option<T>)
    ensures
        r == crate::lower::spec::first(*l),
{
    match l {
        List::Nil => None,
        List::Cons(h, _) => Some(*h),
    }
}

/// The first item of a list of numbers of nodes; a missing node for a list
/// without items.
pub fn first_idx(l: &List<Option<u32>>) -> (r: Option<u32>)
    ensures
        r == crate::lower::spec::first_idx(*l),
{
    match l {
        List::Nil => None,
        List::Cons(h, _) => *h,
    }
}

/// The item behind the first one.
pub fn second_idx(l: &List<Option<u32>>) -> (r: Option<u32>)
    ensures
        r == crate::lower::spec::second_idx(*l),
{
    match l {
        List::Nil => None,
        List::Cons(_, t) => first_idx(&**t),
    }
}

/// The item behind the first two.
pub fn third_idx(l: &List<Option<u32>>) -> (r: Option<u32>)
    ensures
        r == crate::lower::spec::third_idx(*l),
{
    match l {
        List::Nil => None,
        List::Cons(_, t) => second_idx(&**t),
    }
}

/// Whether the list has exactly one item.
pub fn is_single<T>(l: &List<T>) -> (r: bool)
    ensures
        r == crate::lower::spec::is_single(*l),
{
    match l {
        List::Nil => false,
        List::Cons(_, t) => match &**t {
            List::Nil => true,
            List::Cons(_, _) => false,
        },
    }
}

/// The number of items, as far as it can be counted.
pub fn count<T>(l: &List<T>) -> (r: usize)
    ensures
        r == crate::lower::spec::count(*l),
    decreases *l,
{
    match l {
        List::Nil => 0,
        List::Cons(_, t) => {
            let n = count(&**t);
            if n < usize::MAX {
                (n + 1)
            } else {
                n
            }
        },
    }
}

/// The nodes of the items, in order.
pub fn idxs(l: &List<ExpItem>) -> (r: List<Option<u32>>)
    ensures
        r == crate::lower::spec::idxs(*l),
    decreases *l,
{
    match l {
        List::Nil => List::Nil,
        List::Cons(h, t) => List::Cons(h.idx, Box::new(idxs(&**t))),
    }
}

/// The rows of a tuple: the nodes with their positions as labels, counted
/// from `from`.
pub fn number(l: &List<Option<u32>>, from: usize) -> (r: List<(LabL, Option<u32>)>)
    ensures
        r == crate::lower::spec::number(*l, from),
    decreases *l,
{
    match l {
        List::Nil => List::Nil,
        List::Cons(h, t) => List::Cons(
            (LabL::Num(from), *h),
            Box::new(
                number(
                    &**t,
                    if from < usize::MAX {
                        (from + 1)
                    } else {
                        from
                    },
                ),
            ),
        ),
    }
}

/// The first token of the kind among the tokens.
pub fn find_tok(cx: &Cx, toks: &List<usize>, kind: TokenKind) -> (r: Option<usize>)
    ensures
        r == crate::lower::spec::find_tok(cx@, *toks, kind),
    decreases *toks,
{
    match toks {
        List::Nil => None,
        List::Cons(h, t) => if node::tok_kind(cx, *h) == Some(kind) {
            Some(*h)
        } else {
            find_tok(cx, &**t, kind)
        },
    }
}

/// The tokens of the kind among the tokens, in order.
pub fn toks_of(cx: &Cx, toks: &List<usize>, kind: TokenKind) -> (r: List<usize>)
    ensures
        r == crate::lower::spec::toks_of(cx@, *toks, kind),
    decreases *toks,
{
    match toks {
        List::Nil => List::Nil,
        List::Cons(h, t) => if node::tok_kind(cx, *h) == Some(kind) {
            List::Cons(*h, Box::new(toks_of(cx, &**t, kind)))
        } else {
            toks_of(cx, &**t, kind)
        },
    }
}

/// The names among the tokens, in order.
pub fn names_of(cx: &Cx, toks: &List<usize>) -> (r: List<NameSrc>)
    ensures
        r == crate::lower::spec::names_of(cx@, *toks),
    decreases *toks,
{
    match toks {
        List::Nil => List::Nil,
        List::Cons(h, t) => if node::tok_kind(cx, *h) == Some(TokenKind::Name) {
            List::Cons(NameSrc::Tok(*h), Box::new(names_of(cx, &**t)))
        } else {
            names_of(cx, &**t)
        },
    }
}

/// The first name among the tokens; a missing name if there is none.
pub fn name_of(cx: &Cx, toks: &List<usize>) -> (r: NameSrc)
    ensures
        r == crate::lower::spec::name_of(cx@, *toks),
{
    match find_tok(cx, toks, TokenKind::Name) {
        Some(t) => NameSrc::Tok(t),
        None => NameSrc::Missing,
    }
}

/// The first token that is not `op`, as a name.
pub fn plain_name(cx: &Cx, toks: &List<usize>) -> (r: NameSrc)
    ensures
        r == crate::lower::spec::plain_name(cx@, *toks),
    decreases *toks,
{
    match toks {
        List::Nil => NameSrc::Missing,
        List::Cons(h, t) => if node::tok_kind(cx, *h) == Some(TokenKind::Op) {
            plain_name(cx, &**t)
        } else {
            NameSrc::Tok(*h)
        },
    }
}

/// The first token as a label.
pub fn lab_of(toks: &List<usize>) -> (r: LabL)
    ensures
        r == crate::lower::spec::lab_of(*toks),
{
    match toks {
        List::Nil => LabL::Missing,
        List::Cons(h, _) => LabL::Tok(*h),
    }
}

/// The lists, one behind the other.
pub fn concat<T>(a: List<T>, b: List<T>) -> (r: List<T>)
    ensures
        r == crate::lower::spec::concat(a, b),
    decreases a,
{
    match a {
        List::Nil => b,
        List::Cons(h, t) => List::Cons(h, Box::new(concat(*t, b))),
    }
}

/// No parts.
pub fn no_parts() -> (r: Parts)
    ensures
        r == crate::lower::spec::no_parts(),
{
    Parts {
        toks: List::Nil,
        paths: List::Nil,
        exps: List::Nil,
        pats: List::Nil,
        atoms: List::Nil,
        flats: List::Nil,
        tys: List::Nil,
        ty_atoms: List::Nil,
        rows: List::Nil,
        rest: false,
        annots: List::Nil,
        as_tails: List::Nil,
        of_tys: List::Nil,
        arms: List::Nil,
        matchers: List::Nil,
        handlers: List::Nil,
        decs: List::Nil,
        binds: List::Nil,
        clauses: List::Nil,
        ty_vars: List::Nil,
        ty_binds: List::Nil,
        with_type: List::Nil,
        con_binds: List::Nil,
        dat_binds: List::Nil,
        ex_binds: List::Nil,
    }
}

/// The parts with one more child in front.
pub fn with_low(low: Low, p: Parts) -> (r: Parts)
    ensures
        r == crate::lower::spec::with_low(low, p),
{
    let span = low.span;
    match low.what {
        What::Tok(t) => Parts { toks: List::Cons(t, Box::new(p.toks)), ..p },
        What::Nothing => p,
        What::Path(names) => Parts { paths: List::Cons(names, Box::new(p.paths)), ..p },
        What::Exp(idx, fix) => Parts {
            exps: List::Cons(ExpItem { idx, fix, span }, Box::new(p.exps)),
            ..p
        },
        What::Pat(idx) => Parts {
            pats: List::Cons(idx, Box::new(p.pats)),
            atoms: List::Cons(PatAtomL::Done(idx, span), Box::new(p.atoms)),
            ..p
        },
        What::PathPat(names, op) => Parts {
            atoms: List::Cons(PatAtomL::Path(names, op, span), Box::new(p.atoms)),
            ..p
        },
        What::FlatPat(atoms) => Parts { flats: List::Cons(atoms, Box::new(p.flats)), ..p },
        What::Ty(idx) => Parts {
            tys: List::Cons(idx, Box::new(p.tys)),
            ty_atoms: List::Cons(TyAtomL::One(idx, span), Box::new(p.ty_atoms)),
            ..p
        },
        What::Tys(l) => Parts { ty_atoms: List::Cons(TyAtomL::Many(l, span), Box::new(p.ty_atoms)), ..p },
        What::TyCon(names) => Parts {
            ty_atoms: List::Cons(TyAtomL::Con(names, span), Box::new(p.ty_atoms)),
            ..p
        },
        What::Row(lab, idx) => Parts { rows: List::Cons((lab, idx), Box::new(p.rows)), ..p },
        What::RestRow => Parts { rest: true, ..p },
        What::Annot(t) => Parts { annots: List::Cons(t, Box::new(p.annots)), ..p },
        What::AsTail(x) => Parts { as_tails: List::Cons(x, Box::new(p.as_tails)), ..p },
        What::OfTy(t) => Parts { of_tys: List::Cons(t, Box::new(p.of_tys)), ..p },
        What::Arm(x, e) => Parts { arms: List::Cons((x, e), Box::new(p.arms)), ..p },
        What::Arms(l) => Parts { matchers: concat(l, p.matchers), ..p },
        What::Handler(l) => Parts { handlers: List::Cons(l, Box::new(p.handlers)), ..p },
        What::Dec(d) => Parts { decs: List::Cons(d, Box::new(p.decs)), ..p },
        What::ValBind(b) => Parts { binds: List::Cons(b, Box::new(p.binds)), ..p },
        What::Clause(c) => Parts { clauses: List::Cons(c, Box::new(p.clauses)), ..p },
        What::TyVars(l) => Parts { ty_vars: concat(l, p.ty_vars), ..p },
        What::TyBind(b) => Parts { ty_binds: List::Cons(b, Box::new(p.ty_binds)), ..p },
        What::WithType(l) => Parts { with_type: concat(l, p.with_type), ..p },
        What::ConBind(b) => Parts { con_binds: List::Cons(b, Box::new(p.con_binds)), ..p },
        What::DatBind(b) => Parts { dat_binds: List::Cons(b, Box::new(p.dat_binds)), ..p },
        What::ExBind(b) => Parts { ex_binds: List::Cons(b, Box::new(p.ex_binds)), ..p },
    }
}

/// The children of a node, each sort by itself, in the order of the text.
pub fn parts(lows: List<Low>) -> (r: Parts)
    ensures
        r == crate::lower::spec::parts(lows),
    decreases lows,
{
    match lows {
        List::Nil => no_parts(),
        List::Cons(h, t) => with_low(h, parts(*t)),
    }
}

/// A node for an expression that is missing.
pub fn hole(cx: &Cx, o: St, span: Span) -> (r: (St, ExpIdx))
    ensures
        (r.0@, r.1) == crate::lower::spec::hole(cx@, o@, span),
{
    node::push_exp(o, node::exp_hole(), span)
}

/// The expression that is a name of the language.
pub fn word_exp(cx: &Cx, o: St, w: Word, span: Span) -> (r: (St, ExpIdx))
    ensures
        (r.0@, r.1) == crate::lower::spec::word_exp(cx@, o@, w, span),
{
    let names = List::Cons(NameSrc::Word(w), Box::new(List::Nil));
    node::push_exp(o, node::exp_path(cx, &names), span)
}

/// The pattern that is a name: a variable, or a constructor without
/// argument.
pub fn name_pat(cx: &Cx, o: St, n: NameSrc, span: Span) -> (r: (St, PatIdx))
    ensures
        (r.0@, r.1) == crate::lower::spec::name_pat(cx@, o@, n, span),
{
    let names = List::Cons(n, Box::new(List::Nil));
    node::push_pat(o, node::pat_con(cx, &names, None), span)
}

/// The expression that is a name.
pub fn name_exp(cx: &Cx, o: St, n: NameSrc, span: Span) -> (r: (St, ExpIdx))
    ensures
        (r.0@, r.1) == crate::lower::spec::name_exp(cx@, o@, n, span),
{
    let names = List::Cons(n, Box::new(List::Nil));
    node::push_exp(o, node::exp_path(cx, &names), span)
}

/// The pair of two expressions.
pub fn pair_exp(cx: &Cx, o: St, a: ExpIdx, b: ExpIdx, span: Span) -> (r: (St, ExpIdx))
    ensures
        (r.0@, r.1) == crate::lower::spec::pair_exp(cx@, o@, a, b, span),
{
    let rows = List::Cons(
        (LabL::Num(1), a),
        Box::new(List::Cons((LabL::Num(2), b), Box::new(List::Nil))),
    );
    node::push_exp(o, node::exp_record(cx, &rows), span)
}

/// The pair of two patterns.
pub fn pair_pat(cx: &Cx, o: St, a: PatIdx, b: PatIdx, span: Span) -> (r: (St, PatIdx))
    ensures
        (r.0@, r.1) == crate::lower::spec::pair_pat(cx@, o@, a, b, span),
{
    let rows = List::Cons(
        (LabL::Num(1), a),
        Box::new(List::Cons((LabL::Num(2), b), Box::new(List::Nil))),
    );
    node::push_pat(o, node::pat_record(cx, &rows, false), span)
}

/// `case head of arms`: the function of the arms, applied to the head.
pub fn case_exp(cx: &Cx, o: St, head: ExpIdx, arms: &List<(PatIdx, ExpIdx)>, span: Span) -> (r: (St, ExpIdx))
    ensures
        (r.0@, r.1) == crate::lower::spec::case_exp(cx@, o@, head, *arms, span),
{
    let (o, f) = node::push_exp(o, node::exp_fn(arms), span);
    node::push_exp(o, node::exp_app(f, head), span)
}

/// `if cond then yes else no`: `case cond of true => yes | false => no`.
pub fn if_exp(cx: &Cx, o: St, cond: ExpIdx, yes: ExpIdx, no: ExpIdx, span: Span) -> (r: (St, ExpIdx))
    ensures
        (r.0@, r.1) == crate::lower::spec::if_exp(cx@, o@, cond, yes, no, span),
{
    let (o, t) = name_pat(cx, o, NameSrc::Word(Word::True), span);
    let (o, f) = name_pat(cx, o, NameSrc::Word(Word::False), span);
    let arms = List::Cons((t, yes), Box::new(List::Cons((f, no), Box::new(List::Nil))));
    case_exp(cx, o, cond, &arms, span)
}

/// The expression `()`.
pub fn unit_exp(cx: &Cx, o: St, span: Span) -> (r: (St, ExpIdx))
    ensures
        (r.0@, r.1) == crate::lower::spec::unit_exp(cx@, o@, span),
{
    let none: List<(LabL, Option<u32>)> = List::Nil;
    node::push_exp(o, node::exp_record(cx, &none), span)
}

/// `while cond do body`: a function under a name that no program can
/// write, which calls itself behind the body as long as the condition
/// holds, and is called once:
/// `let val rec f = fn () => if cond then (body; f ()) else () in f () end`.
pub fn while_exp(cx: &Cx, o: St, cond: ExpIdx, body: ExpIdx, span: Span) -> (r: (St, ExpIdx))
    ensures
        (r.0@, r.1) == crate::lower::spec::while_exp(cx@, o@, cond, body, span),
{
    let (o, f) = node::fresh(o);
    let (o, fe) = name_exp(cx, o, f, span);
    let (o, arg) = unit_exp(cx, o, span);
    let (o, again) = node::push_exp(o, node::exp_app(fe, arg), span);
    let (o, w) = node::push_pat(o, node::pat_wild(), span);
    let then_arms = List::Cons((w, again), Box::new(List::Nil));
    let (o, yes) = case_exp(cx, o, body, &then_arms, span);
    let (o, no) = unit_exp(cx, o, span);
    let (o, both) = if_exp(cx, o, cond, yes, no, span);
    let none: List<(LabL, Option<u32>)> = List::Nil;
    let (o, param) = node::push_pat(o, node::pat_record(cx, &none, false), span);
    let arms = List::Cons((param, both), Box::new(List::Nil));
    let (o, func) = node::push_exp(o, node::exp_fn(&arms), span);
    let (o, fp) = name_pat(cx, o, f, span);
    let binds = List::Cons(ValBind { rec: true, pat: fp, exp: func }, Box::new(List::Nil));
    let vars: List<usize> = List::Nil;
    let (o, d) = node::push_dec(o, node::dec_val(cx, &vars, &binds), span);
    let (o, fe2) = name_exp(cx, o, f, span);
    let (o, arg2) = unit_exp(cx, o, span);
    let (o, call) = node::push_exp(o, node::exp_app(fe2, arg2), span);
    node::push_exp(o, node::exp_let(d, call), span)
}

/// Expressions with `andalso` between them: `a andalso b` is
/// `if a then b else false`.
pub fn andalso_exp(cx: &Cx, o: St, l: &List<ExpItem>, span: Span) -> (r: (St, ExpIdx))
    ensures
        (r.0@, r.1) == crate::lower::spec::andalso_exp(cx@, o@, *l, span),
    decreases *l,
{
    match l {
        List::Nil => hole(cx, o, span),
        List::Cons(h, t) => match &**t {
            List::Nil => (o, h.idx),
            List::Cons(_, _) => {
                let (o, rest) = andalso_exp(cx, o, &**t, span);
                let (o, no) = word_exp(cx, o, Word::False, span);
                if_exp(cx, o, h.idx, rest, no, span)
            },
        },
    }
}

/// Expressions with `orelse` between them: `a orelse b` is
/// `if a then true else b`.
pub fn orelse_exp(cx: &Cx, o: St, l: &List<ExpItem>, span: Span) -> (r: (St, ExpIdx))
    ensures
        (r.0@, r.1) == crate::lower::spec::orelse_exp(cx@, o@, *l, span),
    decreases *l,
{
    match l {
        List::Nil => hole(cx, o, span),
        List::Cons(h, t) => match &**t {
            List::Nil => (o, h.idx),
            List::Cons(_, _) => {
                let (o, rest) = orelse_exp(cx, o, &**t, span);
                let (o, yes) = word_exp(cx, o, Word::True, span);
                if_exp(cx, o, h.idx, yes, rest, span)
            },
        },
    }
}

/// Expressions with `;` between them: `a; b` is `case a of _ => b`.
pub fn seq_exp(cx: &Cx, o: St, l: &List<ExpItem>, span: Span) -> (r: (St, ExpIdx))
    ensures
        (r.0@, r.1) == crate::lower::spec::seq_exp(cx@, o@, *l, span),
    decreases *l,
{
    match l {
        List::Nil => hole(cx, o, span),
        List::Cons(h, t) => match &**t {
            List::Nil => (o, h.idx),
            List::Cons(_, _) => {
                let (o, rest) = seq_exp(cx, o, &**t, span);
                let (o, w) = node::push_pat(o, node::pat_wild(), span);
                let arms = List::Cons((w, rest), Box::new(List::Nil));
                case_exp(cx, o, h.idx, &arms, span)
            },
        },
    }
}

/// The list of the expressions: `nil`, or `::` of the first one and the
/// list of the others.
pub fn list_exp(cx: &Cx, o: St, l: &List<ExpItem>, span: Span) -> (r: (St, ExpIdx))
    ensures
        (r.0@, r.1) == crate::lower::spec::list_exp(cx@, o@, *l, span),
    decreases *l,
{
    match l {
        List::Nil => word_exp(cx, o, Word::Nil, span),
        List::Cons(h, t) => {
            let (o, rest) = list_exp(cx, o, &**t, span);
            let (o, arg) = pair_exp(cx, o, h.idx, rest, span);
            let (o, f) = word_exp(cx, o, Word::Cons, span);
            node::push_exp(o, node::exp_app(f, arg), span)
        },
    }
}

/// The list of the patterns.
pub fn list_pat(cx: &Cx, o: St, l: &List<Option<u32>>, span: Span) -> (r: (St, PatIdx))
    ensures
        (r.0@, r.1) == crate::lower::spec::list_pat(cx@, o@, *l, span),
    decreases *l,
{
    match l {
        List::Nil => name_pat(cx, o, NameSrc::Word(Word::Nil), span),
        List::Cons(h, t) => {
            let (o, rest) = list_pat(cx, o, &**t, span);
            let (o, arg) = pair_pat(cx, o, *h, rest, span);
            let names = List::Cons(NameSrc::Word(Word::Cons), Box::new(List::Nil));
            node::push_pat(o, node::pat_con(cx, &names, Some(arg)), span)
        },
    }
}

/// The expression with the type annotations around it, the first one
/// innermost.
pub fn typed_exp(cx: &Cx, o: St, e: ExpIdx, annots: &List<Option<u32>>, span: Span) -> (r: (St, ExpIdx))
    ensures
        (r.0@, r.1) == crate::lower::spec::typed_exp(cx@, o@, e, *annots, span),
    decreases *annots,
{
    match annots {
        List::Nil => (o, e),
        List::Cons(h, t) => {
            let (o, e) = node::push_exp(o, node::exp_typed(e, *h), span);
            typed_exp(cx, o, e, &**t, span)
        },
    }
}

/// The expression with the handlers around it, the first one innermost.
pub fn handle_exp(cx: &Cx, o: St, e: ExpIdx, handlers: &List<List<(PatIdx, ExpIdx)>>, span: Span) -> (r: (St, ExpIdx))
    ensures
        (r.0@, r.1) == crate::lower::spec::handle_exp(cx@, o@, e, *handlers, span),
    decreases *handlers,
{
    match handlers {
        List::Nil => (o, e),
        List::Cons(h, t) => {
            let (o, e) = node::push_exp(o, node::exp_handle(e, h), span);
            handle_exp(cx, o, e, &**t, span)
        },
    }
}

/// Functions applied to their arguments: items that are no infix
/// operators, one behind the other, are applied from the left. What is
/// left are operands with infix operators between them. `cur` is the
/// operand so far.
pub fn apps(cx: &Cx, o: St, cur: Option<ExpItem>, items: &List<ExpItem>) -> (r: (St, List<ExpItem>))
    ensures
        (r.0@, r.1) == crate::lower::spec::apps(cx@, o@, cur, *items),
    decreases *items,
{
    match items {
        List::Nil => match cur {
            None => (o, List::Nil),
            Some(c) => (o, List::Cons(c, Box::new(List::Nil))),
        },
        List::Cons(h, t) => match h.fix {
            Some(_) => {
                let (o, rest) = apps(cx, o, None, &**t);
                let rest = List::Cons(*h, Box::new(rest));
                match cur {
                    None => (o, rest),
                    Some(c) => (o, List::Cons(c, Box::new(rest))),
                }
            },
            None => match cur {
                None => apps(cx, o, Some(*h), &**t),
                Some(f) => {
                    let span = join(f.span, h.span);
                    let (o, idx) = node::push_exp(o, node::exp_app(f.idx, h.idx), span);
                    apps(cx, o, Some(ExpItem { idx, fix: None, span }), &**t)
                },
            },
        },
    }
}

/// Whether the operator `f` is looser than the loosest operator so far, or
/// as loose and binding to the left.
pub fn looser(f: Fix, g: Fix) -> (r: bool)
    ensures
        r == crate::lower::spec::looser(f, g),
{
    f.prec < g.prec || (f.prec == g.prec && !f.right)
}

/// Where the operator stands at which the items are split: the loosest
/// one; of several that are equally loose, the last one if it binds to the
/// left, else the first one. `at` is the place of the first item, `best`
/// the operator so far.
pub fn pick(items: &List<ExpItem>, at: usize, best: Option<(usize, Fix)>) -> (r: Option<(usize, Fix)>)
    ensures
        r == crate::lower::spec::pick(*items, at, best),
    decreases *items,
{
    match items {
        List::Nil => best,
        List::Cons(h, t) => {
            let next = match h.fix {
                None => best,
                Some(f) => match best {
                    None => Some((at, f)),
                    Some(b) => if looser(f, b.1) {
                        Some((at, f))
                    } else {
                        best
                    },
                },
            };
            pick(
                &**t,
                if at < usize::MAX {
                    (at + 1)
                } else {
                    at
                },
                next,
            )
        },
    }
}

/// The first `n` items.
pub fn take(items: &List<ExpItem>, n: usize) -> (r: List<ExpItem>)
    ensures
        r == crate::lower::spec::take(*items, n),
    decreases *items,
{
    match items {
        List::Nil => List::Nil,
        List::Cons(h, t) => if n == 0 {
            List::Nil
        } else {
            List::Cons(*h, Box::new(take(&**t, (n - 1))))
        },
    }
}

/// The items behind the first `n`.
pub fn skip(items: &List<ExpItem>, n: usize) -> (r: List<ExpItem>)
    ensures
        r == crate::lower::spec::skip(*items, n),
    decreases *items,
{
    match items {
        List::Nil => List::Nil,
        List::Cons(h, t) => if n == 0 {
            List::Cons(*h, Box::new(skip(&**t, 0)))
        } else {
            skip(&**t, (n - 1))
        },
    }
}

/// The tokens of all the items.
pub fn items_span(items: &List<ExpItem>) -> (r: Span)
    ensures
        r == crate::lower::spec::items_span(*items),
    decreases *items,
{
    match items {
        List::Nil => None,
        List::Cons(h, t) => join(h.span, items_span(&**t)),
    }
}

/// Operands with infix operators between them, in at most `fuel` steps:
/// the items are split at the loosest operator, which is applied to the
/// pair of what stands on its two sides. An operator without an operand
/// on a side is an error, at the operator and its other side, or at
/// `outer` where nothing else is there.
pub fn infix(cx: &Cx, o: St, items: &List<ExpItem>, fuel: usize, outer: Span) -> (r: (St, ExpIdx))
    ensures
        (r.0@, r.1) == crate::lower::spec::infix(cx@, o@, *items, fuel, outer),
    decreases fuel,
{
    let span = match items_span(items) {
        None => outer,
        Some(s) => Some(s),
    };
    if fuel == 0 {
        hole(cx, o, span)
    } else {
        match pick(items, 0, None) {
            None => match first(items) {
                Some(x) => (o, x.idx),
                None => {
                    let o = node::push_error(o, ErrorKind::InfixWithoutOperand, span);
                    hole(cx, o, span)
                },
            },
            Some(at) => {
                let left = take(items, at.0);
                let rest = skip(items, at.0);
                let right = skip(&rest, 1);
                let (o, a) = infix(cx, o, &left, (fuel - 1), span);
                let (o, b) = infix(cx, o, &right, (fuel - 1), span);
                let (o, arg) = pair_exp(cx, o, a, b, span);
                node::push_exp(o, node::exp_app(first_idx(&idxs(&rest)), arg), span)
            },
        }
    }
}

/// Atomic expressions, one behind the other: application first, then the
/// infix operators.
pub fn flat_exp(cx: &Cx, o: St, items: &List<ExpItem>, span: Span) -> (r: (St, ExpIdx))
    ensures
        (r.0@, r.1) == crate::lower::spec::flat_exp(cx@, o@, *items, span),
{
    let (o, l) = apps(cx, o, None, items);
    infix(cx, o, &l, count(&l), span)
}

/// The pattern of an atomic pattern: a path is a variable or a constructor
/// without argument.
pub fn atom_pat(cx: &Cx, o: St, a: PatAtomL) -> (r: (St, PatIdx))
    ensures
        (r.0@, r.1) == crate::lower::spec::atom_pat(cx@, o@, a),
{
    match a {
        PatAtomL::Path(names, _, span) => node::push_pat(o, node::pat_con(cx, &names, None), span),
        PatAtomL::Done(idx, _) => (o, idx),
    }
}

/// The tokens of an atomic pattern.
pub fn atom_span(a: &PatAtomL) -> (r: Span)
    ensures
        r == crate::lower::spec::atom_span(*a),
{
    match a {
        PatAtomL::Path(_, _, span) => *span,
        PatAtomL::Done(_, span) => *span,
    }
}

/// Whether the atomic pattern is the infix constructor of lists.
pub fn atom_is_cons(cx: &Cx, a: &PatAtomL) -> (r: bool)
    ensures
        r == crate::lower::spec::atom_is_cons(cx@, *a),
{
    match a {
        PatAtomL::Path(names, op, _) => !*op && (match names {
            List::Cons(n, t) => (match *n {
                NameSrc::Tok(k) => node::is_cons(cx, k),
                _ => false,
            }) && (match &**t {
                List::Nil => true,
                List::Cons(_, _) => false,
            }),
            List::Nil => false,
        }),
        PatAtomL::Done(_, _) => false,
    }
}

/// Atomic patterns without infix constructor, one behind the other: one
/// atomic pattern, or a constructor and its argument. Anything else is an
/// error.
pub fn pat_app(cx: &Cx, o: St, atoms: List<PatAtomL>, span: Span) -> (r: (St, PatIdx))
    ensures
        (r.0@, r.1) == crate::lower::spec::pat_app(cx@, o@, atoms, span),
{
    match atoms {
        List::Nil => {
            let o = node::push_error(o, ErrorKind::PatternApplication, span);
            node::push_pat(o, node::pat_wild(), span)
        },
        List::Cons(h, t) => match *t {
            List::Nil => atom_pat(cx, o, h),
            List::Cons(arg, more) => match h {
                PatAtomL::Path(names, _, _) => {
                    let o = if more.is_empty() {
                        o
                    } else {
                        node::push_error(o, ErrorKind::PatternApplication, span)
                    };
                    let (o, a) = atom_pat(cx, o, arg);
                    node::push_pat(o, node::pat_con(cx, &names, Some(a)), span)
                },
                PatAtomL::Done(idx, _) => {
                    let o = node::push_error(o, ErrorKind::PatternApplication, span);
                    (o, idx)
                },
            },
        },
    }
}

/// The list, the last item first, in front of `acc`.
pub fn rev_atoms(l: List<PatAtomL>, acc: List<PatAtomL>) -> (r: List<PatAtomL>)
    ensures
        r == crate::lower::spec::rev_atoms(l, acc),
    decreases l,
{
    match l {
        List::Nil => acc,
        List::Cons(h, t) => rev_atoms(*t, List::Cons(h, Box::new(acc))),
    }
}

/// Atomic patterns, one behind the other: at the first infix `::`, the
/// pattern is `::` of what stands in front of it and of what stands behind
/// it. `before` holds the atomic patterns in front of `rest`, the last one
/// first.
pub fn flat_pat(cx: &Cx, o: St, before: List<PatAtomL>, rest: List<PatAtomL>, span: Span) -> (r: (St, PatIdx))
    ensures
        (r.0@, r.1) == crate::lower::spec::flat_pat(cx@, o@, before, rest, span),
    decreases rest,
{
    match rest {
        List::Nil => pat_app(cx, o, rev_atoms(before, List::Nil), span),
        List::Cons(h, t) => if atom_is_cons(cx, &h) {
            let (o, a) = pat_app(cx, o, rev_atoms(before, List::Nil), span);
            let (o, b) = flat_pat(cx, o, List::Nil, *t, span);
            let (o, arg) = pair_pat(cx, o, a, b, span);
            let names = List::Cons(NameSrc::Word(Word::Cons), Box::new(List::Nil));
            node::push_pat(o, node::pat_con(cx, &names, Some(arg)), span)
        } else {
            flat_pat(cx, o, List::Cons(h, Box::new(before)), *t, span)
        },
    }
}

/// The name of an atomic pattern that is a name by itself, without `op`
/// and without structures.
pub fn atom_name(a: &PatAtomL) -> (r: Option<NameSrc>)
    ensures
        r == crate::lower::spec::atom_name(*a),
{
    match a {
        PatAtomL::Path(names, op, _) => match names {
            List::Cons(n, t) => match &**t {
                List::Nil => Some(*n),
                List::Cons(_, _) => None,
            },
            List::Nil => None,
        },
        PatAtomL::Done(_, _) => None,
    }
}

/// The name in front of `as`: the atomic patterns must be one name.
pub fn as_name(atoms: &List<PatAtomL>) -> (r: Option<NameSrc>)
    ensures
        r == crate::lower::spec::as_name(*atoms),
{
    match atoms {
        List::Nil => None,
        List::Cons(h, t) => match &**t {
            List::Nil => atom_name(h),
            List::Cons(_, _) => None,
        },
    }
}

/// The pattern with the type annotation around it, if there is one.
pub fn annotated(cx: &Cx, o: St, p: PatIdx, annots: &List<Option<u32>>, span: Span) -> (r: (St, PatIdx))
    ensures
        (r.0@, r.1) == crate::lower::spec::annotated(cx@, o@, p, *annots, span),
{
    match annots {
        List::Nil => (o, p),
        List::Cons(t, _) => node::push_pat(o, node::pat_typed(p, *t), span),
    }
}

/// A pattern: the atomic patterns `atoms` with the type annotation and
/// with `as` and a pattern, each if it is there. In front of `as` a name
/// must stand; a type annotation is then moved onto the pattern behind
/// `as`.
pub fn whole_pat(cx: &Cx, o: St, atoms: List<PatAtomL>, annots: &List<Option<u32>>, as_tails: &List<Option<u32>>, span: Span) -> (r: (St, PatIdx))
    ensures
        (r.0@, r.1) == crate::lower::spec::whole_pat(cx@, o@, atoms, *annots, *as_tails, span),
{
    match as_tails {
        List::Nil => {
            let (o, p) = flat_pat(cx, o, List::Nil, atoms, span);
            annotated(cx, o, p, annots, span)
        },
        List::Cons(inner, _) => {
            let (o, inner) = annotated(cx, o, *inner, annots, span);
            match as_name(&atoms) {
                Some(n) => node::push_pat(o, node::pat_as(cx, n, inner), span),
                None => {
                    let o = node::push_error(o, ErrorKind::InvalidAsPatName, span);
                    (o, inner)
                },
            }
        },
    }
}

/// A type and the type constructors that are applied to it: `args` is the
/// type, or are the types, so far. A type constructor takes them as its
/// arguments; anything else behind them is an error.
pub fn flat_ty(cx: &Cx, o: St, args: List<Option<u32>>, atoms: List<TyAtomL>, span: Span) -> (r: (St, TyIdx))
    ensures
        (r.0@, r.1) == crate::lower::spec::flat_ty(cx@, o@, args, atoms, span),
    decreases atoms,
{
    match atoms {
        List::Nil => if is_single(&args) {
            (o, first_idx(&args))
        } else {
            let o = node::push_error(o, ErrorKind::TypeApplication, span);
            node::push_ty(o, node::ty_hole(), span)
        },
        List::Cons(h, t) => match h {
            TyAtomL::Con(names, s) => {
                let (o, idx) = node::push_ty(o, node::ty_con(cx, &args, &names), join(span, s));
                flat_ty(cx, o, List::Cons(idx, Box::new(List::Nil)), *t, span)
            },
            TyAtomL::One(idx, _) => {
                let o = if args.is_empty() {
                    o
                } else {
                    node::push_error(o, ErrorKind::TypeApplication, span)
                };
                flat_ty(cx, o, List::Cons(idx, Box::new(List::Nil)), *t, span)
            },
            TyAtomL::Many(l, _) => {
                let o = if args.is_empty() {
                    o
                } else {
                    node::push_error(o, ErrorKind::TypeApplication, span)
                };
                flat_ty(cx, o, l, *t, span)
            },
        },
    }
}

/// The arguments of a clause: the patterns of its atomic patterns behind
/// the name.
pub fn clause_args(cx: &Cx, o: St, atoms: List<PatAtomL>) -> (r: (St, List<Option<u32>>))
    ensures
        (r.0@, r.1) == crate::lower::spec::clause_args(cx@, o@, atoms),
    decreases atoms,
{
    match atoms {
        List::Nil => (o, List::Nil),
        List::Cons(h, t) => {
            let (o, p) = atom_pat(cx, o, h);
            let (o, rest) = clause_args(cx, o, *t);
            (o, List::Cons(p, Box::new(rest)))
        },
    }
}

/// A clause after its head was lowered: the name, the patterns of the
/// arguments, and the body with its type annotation.
pub fn clause(cx: &Cx, o: St, c: ClauseL) -> (r: (St, (NameSrc, List<Option<u32>>, ExpIdx)))
    ensures
        (r.0@, r.1) == crate::lower::spec::clause(cx@, o@, c),
{
    let (o, body) = typed_exp(cx, o, c.body, &c.annots, c.span);
    match c.head {
        List::Nil => (o, (NameSrc::Missing, List::Nil, body)),
        List::Cons(h, t) => {
            let n = match atom_name(&h) {
                Some(n) => n,
                None => NameSrc::Missing,
            };
            let (o, args) = clause_args(cx, o, *t);
            (o, (n, args, body))
        },
    }
}

/// The clauses of a function as arms: each has the pattern of its one
/// argument, or the tuple of the patterns of its arguments.
pub fn clause_arms(cx: &Cx, o: St, clauses: List<ClauseL>, arity: usize, span: Span) -> (r: (St, List<(PatIdx, ExpIdx)>, NameSrc))
    ensures
        (r.0@, r.1, r.2) == crate::lower::spec::clause_arms(cx@, o@, clauses, arity, span),
    decreases clauses,
{
    match clauses {
        List::Nil => (o, List::Nil, NameSrc::Missing),
        List::Cons(h, t) => {
            let s = h.span;
            let (o, c) = clause(cx, o, h);
            let o = if count(&c.1) == arity && arity > 0 {
                o
            } else {
                node::push_error(o, ErrorKind::FunClauses, s)
            };
            let (o, p) = if is_single(&c.1) {
                (o, first_idx(&c.1))
            } else {
                node::push_pat(o, node::pat_record(cx, &number(&c.1, 1), false), s)
            };
            let (o, rest, _n) = clause_arms(cx, o, *t, arity, span);
            (o, List::Cons((p, c.2), Box::new(rest)), c.0)
        },
    }
}

/// As many names that no program can write as the function has arguments.
pub fn fresh_names(o: St, n: usize) -> (r: (St, List<NameSrc>))
    ensures
        (r.0@, r.1) == crate::lower::spec::fresh_names(o@, n),
    decreases n,
{
    if n == 0 {
        (o, List::Nil)
    } else {
        let (o, x) = node::fresh(o);
        let (o, rest) = fresh_names(o, (n - 1));
        (o, List::Cons(x, Box::new(rest)))
    }
}

/// The expressions of the names, in order.
pub fn name_exps(cx: &Cx, o: St, names: &List<NameSrc>, span: Span) -> (r: (St, List<Option<u32>>))
    ensures
        (r.0@, r.1) == crate::lower::spec::name_exps(cx@, o@, *names, span),
    decreases *names,
{
    match names {
        List::Nil => (o, List::Nil),
        List::Cons(h, t) => {
            let (o, e) = name_exp(cx, o, *h, span);
            let (o, rest) = name_exps(cx, o, &**t, span);
            (o, List::Cons(e, Box::new(rest)))
        },
    }
}

/// `fn x1 => ... fn xn => body` for the names.
pub fn curried(cx: &Cx, o: St, names: &List<NameSrc>, body: ExpIdx, span: Span) -> (r: (St, ExpIdx))
    ensures
        (r.0@, r.1) == crate::lower::spec::curried(cx@, o@, *names, body, span),
    decreases *names,
{
    match names {
        List::Nil => (o, body),
        List::Cons(h, t) => {
            let (o, inner) = curried(cx, o, &**t, body, span);
            let (o, p) = name_pat(cx, o, *h, span);
            let arms = List::Cons((p, inner), Box::new(List::Nil));
            node::push_exp(o, node::exp_fn(&arms), span)
        },
    }
}

/// The number of arguments of the first clause.
pub fn arity_of(clauses: &List<ClauseL>) -> (r: usize)
    ensures
        r == crate::lower::spec::arity_of(*clauses),
{
    match clauses {
        List::Nil => 0,
        List::Cons(h, _) => match &h.head {
            List::Nil => 0,
            List::Cons(_, t) => count(&**t),
        },
    }
}

/// The binding of a function with clauses: the name of the function is
/// bound, recursively, to a function. With one argument, the clauses are
/// the arms of the function. With several arguments, the function takes
/// them one by one under names that no program can write, and matches
/// their tuple against the clauses. Every clause must have as many
/// arguments as the first one, and at least one.
pub fn fun_bind(cx: &Cx, o: St, clauses: List<ClauseL>, span: Span) -> (r: (St, ValBind))
    ensures
        (r.0@, r.1) == crate::lower::spec::fun_bind(cx@, o@, clauses, span),
{
    let arity = arity_of(&clauses);
    let (o, arms, n) = clause_arms(cx, o, clauses, arity, span);
    let (o, exp) = if arity <= 1 {
        node::push_exp(o, node::exp_fn(&arms), span)
    } else {
        let (o, names) = fresh_names(o, arity);
        let (o, es) = name_exps(cx, o, &names, span);
        let (o, head) = node::push_exp(o, node::exp_record(cx, &number(&es, 1)), span);
        let (o, body) = case_exp(cx, o, head, &arms, span);
        curried(cx, o, &names, body, span)
    };
    let (o, pat) = name_pat(cx, o, n, span);
    (o, ValBind { rec: true, pat, exp })
}

/// The top-level declarations of a file, one for each declaration.
pub fn tops(o: St, decs: &List<Option<u32>>) -> (r: St)
    ensures
        r@ == crate::lower::spec::tops(o@, *decs),
    decreases *decs,
{
    match decs {
        List::Nil => o,
        List::Cons(h, t) => tops(node::push_top(o, *h), &**t),
    }
}

/// What a node of a type is lowered to.
pub fn build_ty(cx: &Cx, o: St, kind: SyntaxKind, p: Parts, span: Span) -> (r: (St, What))
    ensures
        (r.0@, r.1) == crate::lower::spec::build_ty(cx@, o@, kind, p, span),
{
    let r = span;
    match kind {
        SyntaxKind::TyVarTy => {
            let t = match first(&p.toks) {
                Some(t) => t,
                None => usize::MAX,
            };
            let (o, idx) = node::push_ty(o, node::ty_var(cx, t), r);
            (o, What::Ty(idx))
        },
        SyntaxKind::RecordTy => {
            let (o, idx) = node::push_ty(o, node::ty_record(cx, &p.rows), r);
            (o, What::Ty(idx))
        },
        SyntaxKind::ParenTy => if is_single(&p.tys) {
            (o, What::Ty(first_idx(&p.tys)))
        } else {
            (o, What::Tys(p.tys))
        },
        SyntaxKind::PathTy => match p.paths {
            List::Cons(names, _) => (o, What::TyCon(names)),
            List::Nil => (o, What::TyCon(List::Nil)),
        },
        SyntaxKind::FlatTy => {
            let (o, idx) = flat_ty(cx, o, List::Nil, p.ty_atoms, span);
            (o, What::Ty(idx))
        },
        SyntaxKind::TupleTy => if is_single(&p.tys) {
            (o, What::Ty(first_idx(&p.tys)))
        } else {
            let (o, idx) = node::push_ty(o, node::ty_record(cx, &number(&p.tys, 1)), r);
            (o, What::Ty(idx))
        },
        SyntaxKind::FnTy => if is_single(&p.tys) {
            (o, What::Ty(first_idx(&p.tys)))
        } else {
            let (o, idx) = node::push_ty(o, node::ty_fn(first_idx(&p.tys), second_idx(&p.tys)), r);
            (o, What::Ty(idx))
        },
        SyntaxKind::TyAnnot => (o, What::Annot(first_idx(&p.tys))),
        SyntaxKind::OfTy => (o, What::OfTy(first_idx(&p.tys))),
        SyntaxKind::TyVarSeq => (o, What::TyVars(toks_of(cx, &p.toks, TokenKind::TyVar))),
        _ => (o, What::Nothing),
    }
}

/// What a node of a pattern is lowered to.
pub fn build_pat(cx: &Cx, o: St, kind: SyntaxKind, p: Parts, span: Span) -> (r: (St, What))
    ensures
        (r.0@, r.1) == crate::lower::spec::build_pat(cx@, o@, kind, p, span),
{
    let r = span;
    match kind {
        SyntaxKind::WildPat => {
            let (o, idx) = node::push_pat(o, node::pat_wild(), r);
            (o, What::Pat(idx))
        },
        SyntaxKind::SConPat => {
            let t = match first(&p.toks) {
                Some(t) => t,
                None => usize::MAX,
            };
            match node::pat_scon(cx, t) {
                Some(node) => {
                    let (o, idx) = node::push_pat(o, node, r);
                    (o, What::Pat(idx))
                },
                None => {
                    let (o, idx) = node::push_pat(o, node::pat_wild(), r);
                    (o, What::Pat(idx))
                },
            }
        },
        SyntaxKind::PathPat => {
            let op = find_tok(cx, &p.toks, TokenKind::Op).is_some();
            match p.paths {
                List::Cons(names, _) => (o, What::PathPat(names, op)),
                List::Nil => (o, What::PathPat(List::Nil, op)),
            }
        },
        SyntaxKind::RecordPat => {
            let (o, idx) = node::push_pat(o, node::pat_record(cx, &p.rows, p.rest), r);
            (o, What::Pat(idx))
        },
        SyntaxKind::ParenPat => if is_single(&p.pats) {
            (o, What::Pat(first_idx(&p.pats)))
        } else {
            let (o, idx) = node::push_pat(o, node::pat_record(cx, &number(&p.pats, 1), false), r);
            (o, What::Pat(idx))
        },
        SyntaxKind::ListPat => {
            let (o, idx) = list_pat(cx, o, &p.pats, span);
            (o, What::Pat(idx))
        },
        SyntaxKind::FlatPat => (o, What::FlatPat(p.atoms)),
        SyntaxKind::Pat => {
            let atoms = match p.flats {
                List::Cons(a, _) => a,
                List::Nil => List::Nil,
            };
            let (o, idx) = whole_pat(cx, o, atoms, &p.annots, &p.as_tails, span);
            (o, What::Pat(idx))
        },
        SyntaxKind::AsTail => (o, What::AsTail(first_idx(&p.pats))),
        SyntaxKind::LabPatRow => (o, What::Row(lab_of(&p.toks), first_idx(&p.pats))),
        SyntaxKind::NamePatRow => {
            let n = name_of(cx, &p.toks);
            let atoms = List::Cons(
                PatAtomL::Path(List::Cons(n, Box::new(List::Nil)), false, span),
                Box::new(List::Nil),
            );
            let (o, idx) = whole_pat(cx, o, atoms, &p.annots, &p.as_tails, span);
            (o, What::Row(lab_of(&p.toks), idx))
        },
        SyntaxKind::RestPatRow => (o, What::RestRow),
        _ => (o, What::Nothing),
    }
}

/// What a node of an expression is lowered to.
pub fn build_exp(cx: &Cx, o: St, kind: SyntaxKind, p: Parts, span: Span) -> (r: (St, What))
    ensures
        (r.0@, r.1) == crate::lower::spec::build_exp(cx@, o@, kind, p, span),
{
    let r = span;
    match kind {
        SyntaxKind::SConExp => {
            let t = match first(&p.toks) {
                Some(t) => t,
                None => usize::MAX,
            };
            match node::exp_scon(cx, t) {
                Some(node) => {
                    let (o, idx) = node::push_exp(o, node, r);
                    (o, What::Exp(idx, None))
                },
                None => {
                    let (o, idx) = hole(cx, o, span);
                    (o, What::Exp(idx, None))
                },
            }
        },
        SyntaxKind::PathExp => {
            let op = find_tok(cx, &p.toks, TokenKind::Op).is_some();
            let names = match p.paths {
                List::Cons(names, _) => names,
                List::Nil => List::Cons(plain_name(cx, &p.toks), Box::new(List::Nil)),
            };
            let fix = if op {
                None
            } else {
                match as_infix(&names) {
                    Some(t) => node::fixity(cx, t),
                    None => None,
                }
            };
            let (o, idx) = node::push_exp(o, node::exp_path(cx, &names), r);
            (o, What::Exp(idx, fix))
        },
        SyntaxKind::RecordExp => {
            let (o, idx) = node::push_exp(o, node::exp_record(cx, &p.rows), r);
            (o, What::Exp(idx, None))
        },
        SyntaxKind::SelectorExp => {
            let lab = match &p.toks {
                List::Cons(_, t) => lab_of(&**t),
                List::Nil => LabL::Missing,
            };
            let (o, x) = node::fresh(o);
            let (o, var) = name_pat(cx, o, x, span);
            let rows = List::Cons((lab, var), Box::new(List::Nil));
            let (o, rec) = node::push_pat(o, node::pat_record(cx, &rows, true), r);
            let (o, body) = name_exp(cx, o, x, span);
            let arms = List::Cons((rec, body), Box::new(List::Nil));
            let (o, idx) = node::push_exp(o, node::exp_fn(&arms), r);
            (o, What::Exp(idx, None))
        },
        SyntaxKind::ParenExp => if is_single(&p.exps) {
            (o, What::Exp(first_idx(&idxs(&p.exps)), None))
        } else {
            let (o, idx) = node::push_exp(o, node::exp_record(cx, &number(&idxs(&p.exps), 1)), r);
            (o, What::Exp(idx, None))
        },
        SyntaxKind::SeqExp => {
            let (o, idx) = seq_exp(cx, o, &p.exps, span);
            (o, What::Exp(idx, None))
        },
        SyntaxKind::ListExp => {
            let (o, idx) = list_exp(cx, o, &p.exps, span);
            (o, What::Exp(idx, None))
        },
        SyntaxKind::LetExp => {
            let (o, body) = seq_exp(cx, o, &p.exps, span);
            let (o, idx) = node::push_exp(o, node::exp_let(first_idx(&p.decs), body), r);
            (o, What::Exp(idx, None))
        },
        SyntaxKind::FlatExp => {
            let (o, idx) = flat_exp(cx, o, &p.exps, span);
            (o, What::Exp(idx, None))
        },
        SyntaxKind::TypedExp => {
            let (o, idx) = typed_exp(cx, o, first_idx(&idxs(&p.exps)), &p.annots, span);
            (o, What::Exp(idx, None))
        },
        SyntaxKind::AndalsoExp => {
            let (o, idx) = andalso_exp(cx, o, &p.exps, span);
            (o, What::Exp(idx, None))
        },
        SyntaxKind::OrelseExp => {
            let (o, idx) = orelse_exp(cx, o, &p.exps, span);
            (o, What::Exp(idx, None))
        },
        SyntaxKind::HandleExp => {
            let (o, idx) = handle_exp(cx, o, first_idx(&idxs(&p.exps)), &p.handlers, span);
            (o, What::Exp(idx, None))
        },
        SyntaxKind::HandleTail => (o, What::Handler(p.matchers)),
        SyntaxKind::Matcher => (o, What::Arms(p.arms)),
        SyntaxKind::Arm => (o, What::Arm(first_idx(&p.pats), first_idx(&idxs(&p.exps)))),
        SyntaxKind::RaiseExp => {
            let (o, idx) = node::push_exp(o, node::exp_raise(first_idx(&idxs(&p.exps))), r);
            (o, What::Exp(idx, None))
        },
        SyntaxKind::IfExp => {
            let es = idxs(&p.exps);
            let (o, idx) = if_exp(cx, o, first_idx(&es), second_idx(&es), third_idx(&es), span);
            (o, What::Exp(idx, None))
        },
        SyntaxKind::WhileExp => {
            let es = idxs(&p.exps);
            let (o, idx) = while_exp(cx, o, first_idx(&es), second_idx(&es), span);
            (o, What::Exp(idx, None))
        },
        SyntaxKind::CaseExp => {
            let (o, idx) = case_exp(cx, o, first_idx(&idxs(&p.exps)), &p.matchers, span);
            (o, What::Exp(idx, None))
        },
        SyntaxKind::FnExp => {
            let (o, idx) = node::push_exp(o, node::exp_fn(&p.matchers), r);
            (o, What::Exp(idx, None))
        },
        _ => (o, What::Nothing),
    }
}

/// The token of a path that is one name from a token, which may be an
/// infix operator.
pub fn as_infix(names: &List<NameSrc>) -> (r: Option<usize>)
    ensures
        r == crate::lower::spec::as_infix(*names),
{
    match names {
        List::Cons(n, t) => match &**t {
            List::Nil => match *n {
                NameSrc::Tok(k) => Some(k),
                _ => None,
            },
            List::Cons(_, _) => None,
        },
        List::Nil => None,
    }
}

/// What a node of a declaration is lowered to.
pub fn build_dec(cx: &Cx, o: St, kind: SyntaxKind, p: Parts, span: Span) -> (r: (St, What))
    ensures
        (r.0@, r.1) == crate::lower::spec::build_dec(cx@, o@, kind, p, span),
{
    let r = span;
    match kind {
        SyntaxKind::Decs => if is_single(&p.decs) {
            (o, What::Dec(first_idx(&p.decs)))
        } else {
            let (o, idx) = node::push_dec(o, node::dec_seq(&p.decs), r);
            (o, What::Dec(idx))
        },
        SyntaxKind::ValDec | SyntaxKind::FunDec => {
            let (o, idx) = node::push_dec(o, node::dec_val(cx, &p.ty_vars, &p.binds), r);
            (o, What::Dec(idx))
        },
        SyntaxKind::ValBind => {
            let rec = find_tok(cx, &p.toks, TokenKind::Rec).is_some();
            (
                o,
                What::ValBind(
                    ValBind { rec, pat: first_idx(&p.pats), exp: first_idx(&idxs(&p.exps)) },
                ),
            )
        },
        SyntaxKind::FunBind => {
            let (o, b) = fun_bind(cx, o, p.clauses, span);
            (o, What::ValBind(b))
        },
        SyntaxKind::Clause => {
            let head = match p.flats {
                List::Cons(a, _) => a,
                List::Nil => List::Nil,
            };
            (
                o,
                What::Clause(
                    ClauseL { head, annots: p.annots, body: first_idx(&idxs(&p.exps)), span },
                ),
            )
        },
        SyntaxKind::TyDec => {
            let (o, idx) = node::push_dec(o, node::dec_ty(cx, &p.ty_binds), r);
            (o, What::Dec(idx))
        },
        SyntaxKind::TyBind => (
            o,
            What::TyBind(
                TyBindL { vars: p.ty_vars, name: name_of(cx, &p.toks), ty: first_idx(&p.tys) },
            ),
        ),
        SyntaxKind::DatDec => {
            let (o, idx) = node::push_dec(o, node::dec_datatype(cx, &p.dat_binds, &p.with_type), r);
            (o, What::Dec(idx))
        },
        SyntaxKind::WithType => (o, What::WithType(p.ty_binds)),
        SyntaxKind::DatBind => (
            o,
            What::DatBind(
                DatBindL { vars: p.ty_vars, name: name_of(cx, &p.toks), cons: p.con_binds },
            ),
        ),
        SyntaxKind::ConBind => (
            o,
            What::ConBind(ConBindL { name: name_of(cx, &p.toks), ty: first(&p.of_tys) }),
        ),
        SyntaxKind::DatCopyDec => {
            let names = match p.paths {
                List::Cons(names, _) => names,
                List::Nil => List::Nil,
            };
            let (o, idx) = node::push_dec(o, node::dec_dat_copy(cx, name_of(cx, &p.toks), &names), r);
            (o, What::Dec(idx))
        },
        SyntaxKind::AbstypeDec => {
            let (o, idx) = node::push_dec(
                o,
                node::dec_abstype(cx, &p.dat_binds, &p.with_type, first_idx(&p.decs)),
                r,
            );
            (o, What::Dec(idx))
        },
        SyntaxKind::ExDec => {
            let (o, idx) = node::push_dec(o, node::dec_exception(cx, &p.ex_binds), r);
            (o, What::Dec(idx))
        },
        SyntaxKind::ExBind => {
            let n = name_of(cx, &p.toks);
            match p.paths {
                List::Cons(names, _) => (o, What::ExBind(ExBindL::Copy(n, names))),
                List::Nil => (o, What::ExBind(ExBindL::New(n, first(&p.of_tys)))),
            }
        },
        SyntaxKind::LocalDec => {
            let (o, idx) = node::push_dec(o, node::dec_local(first_idx(&p.decs), second_idx(&p.decs)), r);
            (o, What::Dec(idx))
        },
        SyntaxKind::OpenDec => {
            let (o, idx) = node::push_dec(o, node::dec_open(cx, &p.paths), r);
            (o, What::Dec(idx))
        },
        SyntaxKind::Root => (tops(o, &p.decs), What::Nothing),
        _ => (o, What::Nothing),
    }
}

/// What wraps an item of a list: the item itself.
pub fn build_wrap(cx: &Cx, o: St, kind: SyntaxKind, p: Parts, span: Span) -> (r: (St, What))
    ensures
        (r.0@, r.1) == crate::lower::spec::build_wrap(cx@, o@, kind, p, span),
{
    match kind {
        SyntaxKind::Path => (o, What::Path(names_of(cx, &p.toks))),
        SyntaxKind::Arg => match first(&p.exps) {
            Some(e) => (o, What::Exp(e.idx, None)),
            None => match first(&p.pats) {
                Some(x) => (o, What::Pat(x)),
                None => match first(&p.tys) {
                    Some(t) => (o, What::Ty(t)),
                    None => match find_tok(cx, &p.toks, TokenKind::TyVar) {
                        Some(t) => (o, What::TyVars(List::Cons(t, Box::new(List::Nil)))),
                        None => (o, What::Nothing),
                    },
                },
            },
        },
        SyntaxKind::Row => if p.rest {
            (o, What::RestRow)
        } else {
            match first(&p.rows) {
                Some(row) => (o, What::Row(row.0, row.1)),
                None => match first(&p.exps) {
                    Some(e) => (o, What::Row(lab_of(&p.toks), e.idx)),
                    None => (o, What::Row(lab_of(&p.toks), first_idx(&p.tys))),
                },
            }
        },
        _ => (o, What::Nothing),
    }
}

/// Which rule of lowering a kind of node belongs to.
pub fn class_of(kind: SyntaxKind) -> (r: Class)
    ensures
        r == crate::lower::spec::class_of(kind),
{
    match kind {
        SyntaxKind::Path | SyntaxKind::Arg | SyntaxKind::Row => Class::Wrap,
        SyntaxKind::FnTy
        | SyntaxKind::TupleTy
        | SyntaxKind::FlatTy
        | SyntaxKind::TyVarTy
        | SyntaxKind::RecordTy
        | SyntaxKind::ParenTy
        | SyntaxKind::PathTy
        | SyntaxKind::TyAnnot
        | SyntaxKind::OfTy
        | SyntaxKind::TyVarSeq => Class::Ty,
        SyntaxKind::Pat
        | SyntaxKind::FlatPat
        | SyntaxKind::AsTail
        | SyntaxKind::WildPat
        | SyntaxKind::SConPat
        | SyntaxKind::PathPat
        | SyntaxKind::RecordPat
        | SyntaxKind::LabPatRow
        | SyntaxKind::NamePatRow
        | SyntaxKind::RestPatRow
        | SyntaxKind::ParenPat
        | SyntaxKind::ListPat => Class::Pat,
        SyntaxKind::HandleExp
        | SyntaxKind::OrelseExp
        | SyntaxKind::AndalsoExp
        | SyntaxKind::TypedExp
        | SyntaxKind::FlatExp
        | SyntaxKind::HandleTail
        | SyntaxKind::RaiseExp
        | SyntaxKind::IfExp
        | SyntaxKind::WhileExp
        | SyntaxKind::CaseExp
        | SyntaxKind::FnExp
        | SyntaxKind::Matcher
        | SyntaxKind::Arm
        | SyntaxKind::SConExp
        | SyntaxKind::PathExp
        | SyntaxKind::RecordExp
        | SyntaxKind::SelectorExp
        | SyntaxKind::ParenExp
        | SyntaxKind::SeqExp
        | SyntaxKind::ListExp
        | SyntaxKind::LetExp => Class::Exp,
        _ => Class::Dec,
    }
}

/// What a node of a kind is lowered to, after its children were lowered to
/// `lows`.
pub fn build(cx: &Cx, o: St, kind: SyntaxKind, lows: List<Low>, span: Span) -> (r: (St, What))
    ensures
        (r.0@, r.1) == crate::lower::spec::build(cx@, o@, kind, lows, span),
{
    let p = parts(lows);
    match class_of(kind) {
        Class::Wrap => build_wrap(cx, o, kind, p, span),
        Class::Ty => build_ty(cx, o, kind, p, span),
        Class::Pat => build_pat(cx, o, kind, p, span),
        Class::Exp => build_exp(cx, o, kind, p, span),
        Class::Dec => build_dec(cx, o, kind, p, span),
    }
}

/// What a piece of syntax is lowered to: a token to itself, a node to what
/// its kind makes of its children.
pub fn lower(cx: &Cx, o: St, tree: &Syntax) -> (r: (St, Low))
    ensures
        (r.0@, r.1) == crate::lower::spec::lower(cx@, o@, *tree),
    decreases *tree,
{
    match tree {
        Syntax::Token(i) => (o, Low { span: Some((*i, *i)), what: What::Tok(*i) }),
        Syntax::Node(kind, kids) => {
            let (o, lows, span) = lower_all(cx, o, &**kids);
            let (o, what) = build(cx, o, *kind, lows, span);
            (o, Low { span, what })
        },
    }
}

/// The pieces of syntax, lowered one after the other, with the tokens of
/// all of them.
pub fn lower_all(cx: &Cx, o: St, kids: &List<Syntax>) -> (r: (St, List<Low>, Span))
    ensures
        (r.0@, r.1, r.2) == crate::lower::spec::lower_all(cx@, o@, *kids),
    decreases *kids,
{
    match kids {
        List::Nil => (o, List::Nil, None),
        List::Cons(h, t) => {
            let (o, low) = lower(cx, o, h);
            let (o, rest, span) = lower_all(cx, o, &**t);
            let all = join(low.span, span);
            (o, List::Cons(low, Box::new(rest)), all)
        },
    }
}

/// What lowering the trees of a file writes.
pub fn get(cx: &Cx, trees: &List<Syntax>) -> (r: St)
    ensures
        r@ == crate::lower::spec::get(cx@, *trees),
{
    let (o, _lows, _span) = lower_all(cx, node::start(), trees);
    o
}

} // verus!

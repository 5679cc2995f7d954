//! The nodes that lowering makes: here the text of the tokens is read, and
//! the arenas are filled.

use crate::hir::{
    dec_alloc, dec_arena, dec_items, exp_alloc, exp_arena, exp_items, pat_alloc,
    pat_arena, pat_items, str_dec_alloc, str_dec_arena, str_dec_items, ty_alloc, ty_arena, ty_items,
    Arenas, ConBind, DatBind, Dec, DecIdx, ExBind, Exp, ExpIdx, Idx, Lab, Name, Pat, PatIdx, Path,
    SCon, StrDec, StrDecIdx, Ty, TyBind, TyIdx, TyVar, ValBind,
};
use crate::lex::{word_is, Token, TokenKind};
use crate::list::List;
use crate::lower::low::{
    ConBindL, DatBindL, Error, ErrorKind, ExBindL, Fix, LabL, NameSrc, Span, TyBindL, Word,
};
use crate::lower::model::{
    con_binds_v, dat_bind_v, dat_binds_v, dec_v, decs_v, ex_bind_v, ex_binds_v, exp_v, exps_v,
    names_v, pat_v, path_v, paths_v, pats_v, rows_v, str_decs_v, ty_bind_v, ty_binds_v, ty_v,
    ty_vars_v, tys_v,
};
use crate::lower::spec::{Out, Src};
use crate::lower::{get_lab, get_scon, LabKind, SConKind};
use crate::text::{push_char, push_decimal};
use vstd::prelude::*;

verus! {

/// What lowering reads: the tokens without blanks and comments, and the
/// bytes of the text.
pub struct Cx<'a> {
    pub tokens: &'a Vec<Token>,
    pub text: &'a [u8],
}

impl<'a> View for Cx<'a> {
    type V = Src;

    open spec fn view(&self) -> Src {
        Src { tokens: self.tokens@, text: self.text@ }
    }
}

/// What lowering writes.
pub struct St {
    pub arenas: Arenas,
    pub top_decs: Vec<StrDecIdx>,
    pub ptrs: Vec<(Idx, Span)>,
    pub errors: Vec<Error>,
    pub fresh: u32,
}

impl View for St {
    type V = Out;

    open spec fn view(&self) -> Out {
        Out {
            exps: exps_v(exp_items(self.arenas.exp)),
            pats: pats_v(pat_items(self.arenas.pat)),
            tys: tys_v(ty_items(self.arenas.ty)),
            decs: decs_v(dec_items(self.arenas.dec)),
            str_decs: str_decs_v(str_dec_items(self.arenas.str_dec)),
            str_exps: crate::hir::str_exp_items(self.arenas.str_exp),
            sig_exps: crate::hir::sig_exp_items(self.arenas.sig_exp),
            specs: crate::hir::spec_items(self.arenas.spec),
            top_decs: self.top_decs@,
            ptrs: self.ptrs@,
            errors: self.errors@,
            fresh: self.fresh,
        }
    }
}

/// Nothing written yet.
pub fn start() -> (r: St)
    ensures
        r@ == crate::lower::spec::start(),
{
    let r = St {
        arenas: Arenas {
            str_dec: str_dec_arena(),
            str_exp: crate::hir::str_exp_arena(),
            sig_exp: crate::hir::sig_exp_arena(),
            spec: crate::hir::spec_arena(),
            exp: exp_arena(),
            dec: dec_arena(),
            pat: pat_arena(),
            ty: ty_arena(),
        },
        top_decs: Vec::new(),
        ptrs: Vec::new(),
        errors: Vec::new(),
        fresh: 0,
    };
    assert(r@.exps =~= Seq::empty());
    assert(r@.pats =~= Seq::empty());
    assert(r@.tys =~= Seq::empty());
    assert(r@.decs =~= Seq::empty());
    assert(r@.str_decs =~= Seq::empty());
    r
}

fn has_text(cx: &Cx, tok: usize) -> (r: bool)
    ensures
        r == crate::lower::spec::has_text(cx@, tok as int),
{
    tok < cx.tokens.len() && cx.tokens[tok].range.start < cx.tokens[tok].range.end
        && cx.tokens[tok].range.end as usize <= cx.text.len()
}

/// The text of a token; `_` for a token that is not there.
pub fn tok_text(cx: &Cx, tok: usize) -> (r: String)
    ensures
        r@ == crate::lower::spec::tok_text(cx@, tok as int),
        r@.len() > 0,
{
    let mut out = String::new();
    if !has_text(cx, tok) {
        push_char(&mut out, '_');
        assert(out@ =~= seq!['_']);
        return out;
    }
    let start = cx.tokens[tok].range.start as usize;
    let end = cx.tokens[tok].range.end as usize;
    let ghost bytes = cx.text@.subrange(start as int, end as int);
    let mut i: usize = start;
    while i < end
        invariant
            start <= i <= end <= cx.text.len(),
            bytes == cx.text@.subrange(start as int, end as int),
            out@ == crate::lower::spec::byte_chars(bytes.take(i - start)),
        decreases end - i,
    {
        push_char(&mut out, cx.text[i] as char);
        assert(bytes[i - start] == cx.text@[i as int]);
        assert(crate::lower::spec::byte_chars(bytes.take(i + 1 - start))
            =~= crate::lower::spec::byte_chars(bytes.take(i - start)).push(
            cx.text@[i as int] as char,
        ));
        i += 1;
    }
    assert(bytes.take(end - start) =~= bytes);
    out
}

/// The name with the text of a source of names.
pub fn name(cx: &Cx, n: NameSrc) -> (r: Name)
    ensures
        r@ == crate::lower::spec::name(cx@, n),
{
    proof {
        reveal_strlit("true");
        reveal_strlit("false");
        reveal_strlit("nil");
        reveal_strlit("::");
        reveal_strlit("_");
    }
    match n {
        NameSrc::Tok(t) => {
            let s = tok_text(cx, t);
            Name::new(s.as_str())
        },
        NameSrc::Word(Word::True) => Name::new("true"),
        NameSrc::Word(Word::False) => Name::new("false"),
        NameSrc::Word(Word::Nil) => Name::new("nil"),
        NameSrc::Word(Word::Cons) => Name::new("::"),
        NameSrc::Fresh(k) => {
            let mut s = String::new();
            push_char(&mut s, '$');
            push_decimal(&mut s, k as u64);
            assert(s@ =~= seq!['$'] + crate::text::decimal(k as nat));
            Name::new(s.as_str())
        },
        NameSrc::Missing => {
            assert("_"@ =~= seq!['_']);
            Name::new("_")
        },
    }
}

fn path_from(cx: &Cx, first: NameSrc, rest: &List<NameSrc>) -> (r: Path)
    ensures
        path_v(r) == crate::lower::spec::path_from(cx@, first, *rest),
    decreases *rest,
{
    match rest {
        List::Nil => {
            let r = Path::one(name(cx, first));
            assert(names_v(r.structures) =~= Seq::empty());
            r
        },
        List::Cons(h, t) => {
            let p = path_from(cx, *h, t);
            let Path { structures, last } = p;
            let n = name(cx, first);
            let r = Path::new(List::Cons(n, Box::new(structures)), last);
            assert(names_v(r.structures) == seq![n@] + names_v(structures));
            r
        },
    }
}

/// The path of the names.
pub fn path(cx: &Cx, l: &List<NameSrc>) -> (r: Path)
    ensures
        path_v(r) == crate::lower::spec::path(cx@, *l),
{
    match l {
        List::Nil => {
            let r = Path::one(name(cx, NameSrc::Missing));
            assert(names_v(r.structures) =~= Seq::empty());
            r
        },
        List::Cons(h, t) => path_from(cx, *h, t),
    }
}

/// The kind of a token, if it is there.
pub fn tok_kind(cx: &Cx, tok: usize) -> (r: Option<TokenKind>)
    ensures
        r == crate::lower::spec::tok_kind(cx@, tok),
{
    if tok < cx.tokens.len() {
        Some(cx.tokens[tok].kind)
    } else {
        None
    }
}

/// The label of a source of labels.
pub fn lab(cx: &Cx, l: LabL) -> (r: Lab)
    ensures
        r@ == crate::lower::spec::lab(cx@, l),
{
    match l {
        LabL::Tok(t) => {
            let s = tok_text(cx, t);
            let number = match tok_kind(cx, t) {
                Some(TokenKind::IntLit) => true,
                _ => false,
            };
            if number {
                match get_lab(LabKind::IntLit, s.as_str()) {
                    Some(l) => l,
                    None => Lab::Name(Name::new(s.as_str())),
                }
            } else {
                Lab::Name(Name::new(s.as_str()))
            }
        },
        LabL::Num(n) => Lab::Num(n),
        LabL::Missing => Lab::Name(name(cx, NameSrc::Missing)),
    }
}

fn rows_into(cx: &Cx, l: &List<(LabL, Option<u32>)>, out: &mut Vec<(Lab, Option<u32>)>)
    ensures
        rows_v(final(out)@) == rows_v(old(out)@) + crate::lower::spec::rows(cx@, *l),
    decreases *l,
{
    match l {
        List::Nil => {
            assert(rows_v(out@) + Seq::empty() =~= rows_v(out@));
        },
        List::Cons(h, t) => {
            let x = lab(cx, h.0);
            let ghost before = out@;
            out.push((x, h.1));
            assert(rows_v(out@) =~= rows_v(before).push((x@, h.1)));
            rows_into(cx, t, out);
            assert(rows_v(before).push((x@, h.1)) + crate::lower::spec::rows(cx@, **t) =~= rows_v(
                before,
            ) + (seq![(x@, h.1)] + crate::lower::spec::rows(cx@, **t)));
        },
    }
}

/// The rows of a record.
pub fn rows(cx: &Cx, l: &List<(LabL, Option<u32>)>) -> (r: Vec<(Lab, Option<u32>)>)
    ensures
        rows_v(r@) == crate::lower::spec::rows(cx@, *l),
{
    let mut out: Vec<(Lab, Option<u32>)> = Vec::new();
    rows_into(cx, l, &mut out);
    assert(rows_v(Seq::<(Lab, Option<u32>)>::empty()) =~= Seq::empty());
    assert(Seq::<(crate::hir::LabKey, Option<u32>)>::empty() + crate::lower::spec::rows(cx@, *l)
        =~= crate::lower::spec::rows(cx@, *l));
    out
}

fn ty_vars_into(cx: &Cx, l: &List<usize>, out: &mut Vec<TyVar>)
    ensures
        ty_vars_v(final(out)@) == ty_vars_v(old(out)@) + crate::lower::spec::texts(cx@, *l),
    decreases *l,
{
    match l {
        List::Nil => {
            assert(ty_vars_v(out@) + Seq::empty() =~= ty_vars_v(out@));
        },
        List::Cons(h, t) => {
            let s = tok_text(cx, *h);
            let x = TyVar::new(s.as_str());
            let ghost before = out@;
            out.push(x);
            assert(ty_vars_v(out@) =~= ty_vars_v(before).push(x@));
            ty_vars_into(cx, t, out);
            assert(ty_vars_v(before).push(x@) + crate::lower::spec::texts(cx@, **t) =~= ty_vars_v(
                before,
            ) + (seq![x@] + crate::lower::spec::texts(cx@, **t)));
        },
    }
}

/// The type variables with the texts of the tokens.
pub fn ty_vars(cx: &Cx, l: &List<usize>) -> (r: Vec<TyVar>)
    ensures
        ty_vars_v(r@) == crate::lower::spec::texts(cx@, *l),
{
    let mut out: Vec<TyVar> = Vec::new();
    ty_vars_into(cx, l, &mut out);
    assert(ty_vars_v(Seq::<TyVar>::empty()) =~= Seq::empty());
    assert(Seq::<Seq<char>>::empty() + crate::lower::spec::texts(cx@, *l)
        =~= crate::lower::spec::texts(cx@, *l));
    out
}

fn copy_into<T: Copy>(l: &List<T>, out: &mut Vec<T>)
    ensures
        final(out)@ == old(out)@ + l.seq(),
    decreases *l,
{
    match l {
        List::Nil => {
            assert(out@ + Seq::empty() =~= out@);
        },
        List::Cons(h, t) => {
            let ghost before = out@;
            out.push(*h);
            copy_into(t, out);
            assert(before.push(*h) + t.seq() =~= before + (seq![*h] + t.seq()));
        },
    }
}

/// The items of a list, in order.
pub fn to_vec<T: Copy>(l: &List<T>) -> (r: Vec<T>)
    ensures
        r@ == l.seq(),
{
    let mut out: Vec<T> = Vec::new();
    copy_into(l, &mut out);
    assert(Seq::<T>::empty() + l.seq() =~= l.seq());
    out
}

fn kind_of_scon(kind: TokenKind) -> (r: Option<SConKind>)
    ensures
        r == crate::lower::spec::scon_kind(kind),
{
    match kind {
        TokenKind::IntLit => Some(SConKind::IntLit),
        TokenKind::RealLit => Some(SConKind::RealLit),
        TokenKind::WordLit => Some(SConKind::WordLit),
        TokenKind::CharLit => Some(SConKind::CharLit),
        TokenKind::StringLit => Some(SConKind::StringLit),
        _ => None,
    }
}

/// The special constant of a token, if the token is one with a value.
pub fn scon(cx: &Cx, tok: usize) -> (r: Option<SCon>)
    ensures
        match crate::lower::spec::scon(cx@, tok) {
            Some(k) => r is Some && r->0@ == k,
            None => r is None,
        },
{
    match tok_kind(cx, tok) {
        Some(k) => match kind_of_scon(k) {
            Some(kind) => if has_text(cx, tok) {
                let s = tok_text(cx, tok);
                get_scon(kind, s.as_str())
            } else {
                None
            },
            None => None,
        },
        None => None,
    }
}

pub fn push_exp(o: St, e: Exp, span: Span) -> (r: (St, ExpIdx))
    ensures
        (r.0@, r.1) == crate::lower::spec::push_exp(o@, exp_v(e), span),
{
    let mut o = o;
    let ghost before = exp_items(o.arenas.exp);
    let idx = exp_alloc(&mut o.arenas.exp, e);
    o.ptrs.push((Idx::Exp(idx), span));
    assert(exps_v(before.push(e)) =~= exps_v(before).push(exp_v(e)));
    (o, Some(idx))
}

pub fn push_pat(o: St, p: Pat, span: Span) -> (r: (St, PatIdx))
    ensures
        (r.0@, r.1) == crate::lower::spec::push_pat(o@, pat_v(p), span),
{
    let mut o = o;
    let ghost before = pat_items(o.arenas.pat);
    let idx = pat_alloc(&mut o.arenas.pat, p);
    o.ptrs.push((Idx::Pat(idx), span));
    assert(pats_v(before.push(p)) =~= pats_v(before).push(pat_v(p)));
    (o, Some(idx))
}

pub fn push_ty(o: St, t: Ty, span: Span) -> (r: (St, TyIdx))
    ensures
        (r.0@, r.1) == crate::lower::spec::push_ty(o@, ty_v(t), span),
{
    let mut o = o;
    let ghost before = ty_items(o.arenas.ty);
    let idx = ty_alloc(&mut o.arenas.ty, t);
    o.ptrs.push((Idx::Ty(idx), span));
    assert(tys_v(before.push(t)) =~= tys_v(before).push(ty_v(t)));
    (o, Some(idx))
}

pub fn push_dec(o: St, d: Dec, span: Span) -> (r: (St, DecIdx))
    ensures
        (r.0@, r.1) == crate::lower::spec::push_dec(o@, dec_v(d), span),
{
    let mut o = o;
    let ghost before = dec_items(o.arenas.dec);
    let idx = dec_alloc(&mut o.arenas.dec, d);
    o.ptrs.push((Idx::Dec(idx), span));
    assert(decs_v(before.push(d)) =~= decs_v(before).push(dec_v(d)));
    (o, Some(idx))
}

/// A declaration at the top of the file.
pub fn push_top(o: St, d: DecIdx) -> (r: St)
    ensures
        r@ == crate::lower::spec::push_top(o@, d),
{
    let mut o = o;
    let ghost before = str_dec_items(o.arenas.str_dec);
    let idx = str_dec_alloc(&mut o.arenas.str_dec, StrDec::Dec(d));
    o.top_decs.push(Some(idx));
    assert(str_decs_v(before.push(StrDec::Dec(d))) =~= str_decs_v(before).push(
        crate::lower::model::StrDecV::Dec(d),
    ));
    o
}

pub fn push_error(o: St, kind: ErrorKind, span: Span) -> (r: St)
    ensures
        r@ == crate::lower::spec::push_error(o@, kind, span),
{
    let mut o = o;
    o.errors.push(Error { span, kind });
    o
}

/// A name that no program can write.
pub fn fresh(o: St) -> (r: (St, NameSrc))
    ensures
        (r.0@, r.1) == crate::lower::spec::fresh(o@),
{
    let mut o = o;
    let k = o.fresh;
    o.fresh = if k < u32::MAX {
        k + 1
    } else {
        0
    };
    (o, NameSrc::Fresh(k))
}

pub fn exp_hole() -> (r: Exp)
    ensures
        exp_v(r) == crate::lower::spec::exp_hole(),
{
    Exp::Hole
}

pub fn exp_scon(cx: &Cx, tok: usize) -> (r: Option<Exp>)
    ensures
        match crate::lower::spec::exp_scon(cx@, tok) {
            Some(v) => r is Some && exp_v(r->0) == v,
            None => r is None,
        },
{
    match scon(cx, tok) {
        Some(c) => Some(Exp::SCon(c)),
        None => None,
    }
}

pub fn exp_path(cx: &Cx, l: &List<NameSrc>) -> (r: Exp)
    ensures
        exp_v(r) == crate::lower::spec::exp_path(cx@, *l),
{
    Exp::Path(path(cx, l))
}

pub fn exp_record(cx: &Cx, l: &List<(LabL, Option<u32>)>) -> (r: Exp)
    ensures
        exp_v(r) == crate::lower::spec::exp_record(cx@, *l),
{
    Exp::Record(rows(cx, l))
}

pub fn exp_let(d: DecIdx, e: ExpIdx) -> (r: Exp)
    ensures
        exp_v(r) == crate::lower::spec::exp_let(d, e),
{
    Exp::Let(d, e)
}

pub fn exp_app(f: ExpIdx, a: ExpIdx) -> (r: Exp)
    ensures
        exp_v(r) == crate::lower::spec::exp_app(f, a),
{
    Exp::App(f, a)
}

pub fn exp_handle(e: ExpIdx, arms: &List<(PatIdx, ExpIdx)>) -> (r: Exp)
    ensures
        exp_v(r) == crate::lower::spec::exp_handle(e, *arms),
{
    Exp::Handle(e, to_vec(arms))
}

pub fn exp_raise(e: ExpIdx) -> (r: Exp)
    ensures
        exp_v(r) == crate::lower::spec::exp_raise(e),
{
    Exp::Raise(e)
}

pub fn exp_fn(arms: &List<(PatIdx, ExpIdx)>) -> (r: Exp)
    ensures
        exp_v(r) == crate::lower::spec::exp_fn(*arms),
{
    Exp::Fn(to_vec(arms))
}

pub fn exp_typed(e: ExpIdx, t: TyIdx) -> (r: Exp)
    ensures
        exp_v(r) == crate::lower::spec::exp_typed(e, t),
{
    Exp::Typed(e, t)
}

pub fn pat_wild() -> (r: Pat)
    ensures
        pat_v(r) == crate::lower::spec::pat_wild(),
{
    Pat::Wild
}

pub fn pat_scon(cx: &Cx, tok: usize) -> (r: Option<Pat>)
    ensures
        match crate::lower::spec::pat_scon(cx@, tok) {
            Some(v) => r is Some && pat_v(r->0) == v,
            None => r is None,
        },
{
    match scon(cx, tok) {
        Some(c) => Some(Pat::SCon(c)),
        None => None,
    }
}

pub fn pat_con(cx: &Cx, l: &List<NameSrc>, arg: Option<PatIdx>) -> (r: Pat)
    ensures
        pat_v(r) == crate::lower::spec::pat_con(cx@, *l, arg),
{
    Pat::Con(path(cx, l), arg)
}

pub fn pat_record(cx: &Cx, l: &List<(LabL, Option<u32>)>, allows_other: bool) -> (r: Pat)
    ensures
        pat_v(r) == crate::lower::spec::pat_record(cx@, *l, allows_other),
{
    Pat::Record { rows: rows(cx, l), allows_other }
}

pub fn pat_typed(p: PatIdx, t: TyIdx) -> (r: Pat)
    ensures
        pat_v(r) == crate::lower::spec::pat_typed(p, t),
{
    Pat::Typed(p, t)
}

pub fn pat_as(cx: &Cx, n: NameSrc, p: PatIdx) -> (r: Pat)
    ensures
        pat_v(r) == crate::lower::spec::pat_as(cx@, n, p),
{
    Pat::As(name(cx, n), p)
}

pub fn ty_hole() -> (r: Ty)
    ensures
        ty_v(r) == crate::lower::spec::ty_hole(),
{
    Ty::Hole
}

pub fn ty_var(cx: &Cx, tok: usize) -> (r: Ty)
    ensures
        ty_v(r) == crate::lower::spec::ty_var(cx@, tok),
{
    let s = tok_text(cx, tok);
    Ty::Var(TyVar::new(s.as_str()))
}

pub fn ty_record(cx: &Cx, l: &List<(LabL, Option<u32>)>) -> (r: Ty)
    ensures
        ty_v(r) == crate::lower::spec::ty_record(cx@, *l),
{
    Ty::Record(rows(cx, l))
}

pub fn ty_con(cx: &Cx, args: &List<TyIdx>, l: &List<NameSrc>) -> (r: Ty)
    ensures
        ty_v(r) == crate::lower::spec::ty_con(cx@, *args, *l),
{
    Ty::Con(to_vec(args), path(cx, l))
}

pub fn ty_fn(a: TyIdx, b: TyIdx) -> (r: Ty)
    ensures
        ty_v(r) == crate::lower::spec::ty_fn(a, b),
{
    Ty::Fn(a, b)
}

fn ty_bind(cx: &Cx, b: &TyBindL) -> (r: TyBind)
    ensures
        ty_bind_v(r) == crate::lower::spec::ty_bind(cx@, *b),
{
    TyBind { ty_vars: ty_vars(cx, &b.vars), name: name(cx, b.name), ty: b.ty }
}

fn ty_binds_into(cx: &Cx, l: &List<TyBindL>, out: &mut Vec<TyBind>)
    ensures
        ty_binds_v(final(out)@) == ty_binds_v(old(out)@) + crate::lower::spec::ty_binds(cx@, *l),
    decreases *l,
{
    match l {
        List::Nil => {
            assert(ty_binds_v(out@) + Seq::empty() =~= ty_binds_v(out@));
        },
        List::Cons(h, t) => {
            let x = ty_bind(cx, h);
            let ghost xv = ty_bind_v(x);
            let ghost before = out@;
            out.push(x);
            assert(ty_binds_v(out@) =~= ty_binds_v(before).push(xv));
            ty_binds_into(cx, t, out);
            assert(ty_binds_v(before).push(xv) + crate::lower::spec::ty_binds(cx@, **t)
                =~= ty_binds_v(before) + (seq![xv] + crate::lower::spec::ty_binds(cx@, **t)));
        },
    }
}

fn ty_binds(cx: &Cx, l: &List<TyBindL>) -> (r: Vec<TyBind>)
    ensures
        ty_binds_v(r@) == crate::lower::spec::ty_binds(cx@, *l),
{
    let mut out: Vec<TyBind> = Vec::new();
    ty_binds_into(cx, l, &mut out);
    assert(ty_binds_v(Seq::<TyBind>::empty()) =~= Seq::empty());
    assert(Seq::<crate::lower::model::TyBindV>::empty() + crate::lower::spec::ty_binds(cx@, *l)
        =~= crate::lower::spec::ty_binds(cx@, *l));
    out
}

fn con_binds_into(cx: &Cx, l: &List<ConBindL>, out: &mut Vec<ConBind>)
    ensures
        con_binds_v(final(out)@) == con_binds_v(old(out)@) + crate::lower::spec::con_binds(
            cx@,
            *l,
        ),
    decreases *l,
{
    match l {
        List::Nil => {
            assert(con_binds_v(out@) + Seq::empty() =~= con_binds_v(out@));
        },
        List::Cons(h, t) => {
            let x = ConBind { name: name(cx, h.name), ty: h.ty };
            let ghost xv = crate::lower::model::con_bind_v(x);
            let ghost before = out@;
            out.push(x);
            assert(con_binds_v(out@) =~= con_binds_v(before).push(xv));
            con_binds_into(cx, t, out);
            assert(con_binds_v(before).push(xv) + crate::lower::spec::con_binds(cx@, **t)
                =~= con_binds_v(before) + (seq![xv] + crate::lower::spec::con_binds(cx@, **t)));
        },
    }
}

fn con_binds(cx: &Cx, l: &List<ConBindL>) -> (r: Vec<ConBind>)
    ensures
        con_binds_v(r@) == crate::lower::spec::con_binds(cx@, *l),
{
    let mut out: Vec<ConBind> = Vec::new();
    con_binds_into(cx, l, &mut out);
    assert(con_binds_v(Seq::<ConBind>::empty()) =~= Seq::empty());
    assert(Seq::<crate::lower::model::ConBindV>::empty() + crate::lower::spec::con_binds(cx@, *l)
        =~= crate::lower::spec::con_binds(cx@, *l));
    out
}

fn dat_bind(cx: &Cx, b: &DatBindL) -> (r: DatBind)
    ensures
        dat_bind_v(r) == crate::lower::spec::dat_bind(cx@, *b),
{
    DatBind { ty_vars: ty_vars(cx, &b.vars), name: name(cx, b.name), cons: con_binds(cx, &b.cons) }
}

fn dat_binds_into(cx: &Cx, l: &List<DatBindL>, out: &mut Vec<DatBind>)
    ensures
        dat_binds_v(final(out)@) == dat_binds_v(old(out)@) + crate::lower::spec::dat_binds(
            cx@,
            *l,
        ),
    decreases *l,
{
    match l {
        List::Nil => {
            assert(dat_binds_v(out@) + Seq::empty() =~= dat_binds_v(out@));
        },
        List::Cons(h, t) => {
            let x = dat_bind(cx, h);
            let ghost xv = dat_bind_v(x);
            let ghost before = out@;
            out.push(x);
            assert(dat_binds_v(out@) =~= dat_binds_v(before).push(xv));
            dat_binds_into(cx, t, out);
            assert(dat_binds_v(before).push(xv) + crate::lower::spec::dat_binds(cx@, **t)
                =~= dat_binds_v(before) + (seq![xv] + crate::lower::spec::dat_binds(cx@, **t)));
        },
    }
}

fn dat_binds(cx: &Cx, l: &List<DatBindL>) -> (r: Vec<DatBind>)
    ensures
        dat_binds_v(r@) == crate::lower::spec::dat_binds(cx@, *l),
{
    let mut out: Vec<DatBind> = Vec::new();
    dat_binds_into(cx, l, &mut out);
    assert(dat_binds_v(Seq::<DatBind>::empty()) =~= Seq::empty());
    assert(Seq::<crate::lower::model::DatBindV>::empty() + crate::lower::spec::dat_binds(cx@, *l)
        =~= crate::lower::spec::dat_binds(cx@, *l));
    out
}

fn ex_bind(cx: &Cx, b: &ExBindL) -> (r: ExBind)
    ensures
        ex_bind_v(r) == crate::lower::spec::ex_bind(cx@, *b),
{
    match b {
        ExBindL::New(n, ty) => ExBind::New(name(cx, *n), *ty),
        ExBindL::Copy(n, p) => ExBind::Copy(name(cx, *n), path(cx, p)),
    }
}

fn ex_binds_into(cx: &Cx, l: &List<ExBindL>, out: &mut Vec<ExBind>)
    ensures
        ex_binds_v(final(out)@) == ex_binds_v(old(out)@) + crate::lower::spec::ex_binds(cx@, *l),
    decreases *l,
{
    match l {
        List::Nil => {
            assert(ex_binds_v(out@) + Seq::empty() =~= ex_binds_v(out@));
        },
        List::Cons(h, t) => {
            let x = ex_bind(cx, h);
            let ghost xv = ex_bind_v(x);
            let ghost before = out@;
            out.push(x);
            assert(ex_binds_v(out@) =~= ex_binds_v(before).push(xv));
            ex_binds_into(cx, t, out);
            assert(ex_binds_v(before).push(xv) + crate::lower::spec::ex_binds(cx@, **t)
                =~= ex_binds_v(before) + (seq![xv] + crate::lower::spec::ex_binds(cx@, **t)));
        },
    }
}

fn ex_binds(cx: &Cx, l: &List<ExBindL>) -> (r: Vec<ExBind>)
    ensures
        ex_binds_v(r@) == crate::lower::spec::ex_binds(cx@, *l),
{
    let mut out: Vec<ExBind> = Vec::new();
    ex_binds_into(cx, l, &mut out);
    assert(ex_binds_v(Seq::<ExBind>::empty()) =~= Seq::empty());
    assert(Seq::<crate::lower::model::ExBindV>::empty() + crate::lower::spec::ex_binds(cx@, *l)
        =~= crate::lower::spec::ex_binds(cx@, *l));
    out
}

fn paths_into(cx: &Cx, l: &List<List<NameSrc>>, out: &mut Vec<Path>)
    ensures
        paths_v(final(out)@) == paths_v(old(out)@) + crate::lower::spec::paths(cx@, *l),
    decreases *l,
{
    match l {
        List::Nil => {
            assert(paths_v(out@) + Seq::empty() =~= paths_v(out@));
        },
        List::Cons(h, t) => {
            let x = path(cx, h);
            let ghost xv = path_v(x);
            let ghost before = out@;
            out.push(x);
            assert(paths_v(out@) =~= paths_v(before).push(xv));
            paths_into(cx, t, out);
            assert(paths_v(before).push(xv) + crate::lower::spec::paths(cx@, **t) =~= paths_v(
                before,
            ) + (seq![xv] + crate::lower::spec::paths(cx@, **t)));
        },
    }
}

pub fn dec_val(cx: &Cx, vars: &List<usize>, binds: &List<ValBind>) -> (r: Dec)
    ensures
        dec_v(r) == crate::lower::spec::dec_val(cx@, *vars, *binds),
{
    Dec::Val(ty_vars(cx, vars), to_vec(binds))
}

pub fn dec_ty(cx: &Cx, binds: &List<TyBindL>) -> (r: Dec)
    ensures
        dec_v(r) == crate::lower::spec::dec_ty(cx@, *binds),
{
    Dec::Ty(ty_binds(cx, binds))
}

pub fn dec_datatype(cx: &Cx, dats: &List<DatBindL>, tys: &List<TyBindL>) -> (r: Dec)
    ensures
        dec_v(r) == crate::lower::spec::dec_datatype(cx@, *dats, *tys),
{
    Dec::Datatype(dat_binds(cx, dats), ty_binds(cx, tys))
}

pub fn dec_dat_copy(cx: &Cx, n: NameSrc, l: &List<NameSrc>) -> (r: Dec)
    ensures
        dec_v(r) == crate::lower::spec::dec_dat_copy(cx@, n, *l),
{
    Dec::DatatypeCopy(name(cx, n), path(cx, l))
}

pub fn dec_abstype(cx: &Cx, dats: &List<DatBindL>, tys: &List<TyBindL>, d: DecIdx) -> (r: Dec)
    ensures
        dec_v(r) == crate::lower::spec::dec_abstype(cx@, *dats, *tys, d),
{
    Dec::Abstype(dat_binds(cx, dats), ty_binds(cx, tys), d)
}

pub fn dec_exception(cx: &Cx, binds: &List<ExBindL>) -> (r: Dec)
    ensures
        dec_v(r) == crate::lower::spec::dec_exception(cx@, *binds),
{
    Dec::Exception(ex_binds(cx, binds))
}

pub fn dec_local(a: DecIdx, b: DecIdx) -> (r: Dec)
    ensures
        dec_v(r) == crate::lower::spec::dec_local(a, b),
{
    Dec::Local(a, b)
}

pub fn dec_open(cx: &Cx, l: &List<List<NameSrc>>) -> (r: Dec)
    ensures
        dec_v(r) == crate::lower::spec::dec_open(cx@, *l),
{
    let mut out: Vec<Path> = Vec::new();
    paths_into(cx, l, &mut out);
    assert(paths_v(Seq::<Path>::empty()) =~= Seq::empty());
    assert(Seq::<crate::lower::model::PathV>::empty() + crate::lower::spec::paths(cx@, *l)
        =~= crate::lower::spec::paths(cx@, *l));
    Dec::Open(out)
}

pub fn dec_seq(decs: &List<DecIdx>) -> (r: Dec)
    ensures
        dec_v(r) == crate::lower::spec::dec_seq(*decs),
{
    Dec::Sequence(to_vec(decs))
}

fn fixity_of(s: &[u8], a: usize, b: usize) -> (r: Option<Fix>)
    requires
        a <= b <= s.len(),
    ensures
        r == crate::lower::spec::fixity_of(s@.subrange(a as int, b as int)),
{
    if word_is(s, a, b, "*") || word_is(s, a, b, "/") || word_is(s, a, b, "div") || word_is(
        s,
        a,
        b,
        "mod",
    ) {
        Some(Fix { prec: 7, right: false })
    } else if word_is(s, a, b, "+") || word_is(s, a, b, "-") || word_is(s, a, b, "^") {
        Some(Fix { prec: 6, right: false })
    } else if word_is(s, a, b, "::") || word_is(s, a, b, "@") {
        Some(Fix { prec: 5, right: true })
    } else if word_is(s, a, b, "=") || word_is(s, a, b, "<>") || word_is(s, a, b, ">") || word_is(
        s,
        a,
        b,
        ">=",
    ) || word_is(s, a, b, "<") || word_is(s, a, b, "<=") {
        Some(Fix { prec: 4, right: false })
    } else if word_is(s, a, b, ":=") || word_is(s, a, b, "o") {
        Some(Fix { prec: 3, right: false })
    } else if word_is(s, a, b, "before") {
        Some(Fix { prec: 0, right: false })
    } else {
        None
    }
}

/// How the name of a token binds as an infix operator, if it is one.
pub fn fixity(cx: &Cx, tok: usize) -> (r: Option<Fix>)
    ensures
        r == crate::lower::spec::fixity(cx@, tok),
{
    if has_text(cx, tok) {
        fixity_of(cx.text, cx.tokens[tok].range.start as usize, cx.tokens[tok].range.end as usize)
    } else {
        None
    }
}

/// Whether the token is the infix constructor of lists.
pub fn is_cons(cx: &Cx, tok: usize) -> (r: bool)
    ensures
        r == crate::lower::spec::is_cons(cx@, tok),
{
    has_text(cx, tok) && word_is(
        cx.text,
        cx.tokens[tok].range.start as usize,
        cx.tokens[tok].range.end as usize,
        "::",
    )
}

} // verus!

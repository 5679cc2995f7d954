//! Displaying some types.

use crate::hir::{dotted, lab_text, Lab, LabKey, Path};
use crate::list::List;
use crate::statics::equality::NotEqTy;
use crate::statics::error::ErrorKind;
use crate::statics::sym::{Syms, SymsView};
use crate::statics::types::{
    apply, BasicOverload, CompositeOverload, Entries, FixedTyVar, MetaTyVar, Overload, Subst,
    SubstEntry, Sym, Ty, TyScheme, TyVarKind, SYM_EXN,
};
use crate::statics::unify::kind_of;
use crate::text::{push_char, push_str};
use vstd::prelude::*;

verus! {

/// The name of the variable with the given number: the letter at
/// `idx % 26`, written `idx / 26 + 1` times.
pub open spec fn idx_name(idx: nat) -> Seq<char> {
    Seq::new(idx / 26 + 1, |i: int| ((97 + idx % 26) as u8) as char)
}

/// How an overload is written.
pub open spec fn overload_text(ov: Overload) -> Seq<char> {
    match ov {
        Overload::Basic(BasicOverload::Int) => "int"@,
        Overload::Basic(BasicOverload::Real) => "real"@,
        Overload::Basic(BasicOverload::Word) => "word"@,
        Overload::Basic(BasicOverload::String) => "string"@,
        Overload::Basic(BasicOverload::Char) => "char"@,
        Overload::Composite(CompositeOverload::WordInt) => "<wordint>"@,
        Overload::Composite(CompositeOverload::RealInt) => "<realint>"@,
        Overload::Composite(CompositeOverload::Num) => "<num>"@,
        Overload::Composite(CompositeOverload::NumTxt) => "<numtxt>"@,
    }
}

/// The names given to meta variables: each named variable with its number,
/// the latest first.
pub type Names = List<(MetaTyVar, usize)>;

/// The number of a meta variable, if it has a name.
pub open spec fn name_of(names: Names, mv: MetaTyVar) -> Option<usize>
    decreases names,
{
    match names {
        List::Nil => None,
        List::Cons(h, t) => if h.0 == mv {
            Some(h.1)
        } else {
            name_of(*t, mv)
        },
    }
}

/// What a type is written with: the names of meta variables, the entries
/// that say their kinds, the symbols, and the kinds of the bound variables
/// if the type stands in a scheme.
pub struct DisplayCx {
    pub names: Names,
    pub subst: Entries,
    pub syms: SymsView,
    pub bound_vars: Option<List<TyVarKind>>,
}

/// The kind of the bound variable at a position, if the scheme binds it.
pub open spec fn bound_kind(kinds: List<TyVarKind>, i: nat) -> Option<TyVarKind>
    decreases kinds,
{
    match kinds {
        List::Nil => None,
        List::Cons(h, t) => if i == 0 {
            Some(h)
        } else {
            bound_kind(*t, (i - 1) as nat)
        },
    }
}

/// How a bound variable is written: `'` and its name, with a second `'`
/// when it is an equality variable.
pub open spec fn bound_text(cx: DisplayCx, i: u32) -> Seq<char> {
    let equality = cx.bound_vars is Some && bound_kind(cx.bound_vars->0, i as nat) == Some(
        TyVarKind::Equality,
    );
    (if equality {
        "''"@
    } else {
        "'"@
    }) + idx_name(i as nat)
}

/// How a meta variable is written: `?` and its name, `??` for an equality
/// variable, or the overload for an overloaded one. A variable without a
/// name is written without one.
pub open spec fn meta_text(cx: DisplayCx, mv: MetaTyVar) -> Seq<char> {
    let name = match name_of(cx.names, mv) {
        Some(i) => idx_name(i as nat),
        None => Seq::empty(),
    };
    match kind_of(cx.subst, mv) {
        TyVarKind::Regular => "?"@ + name,
        TyVarKind::Equality => "??"@ + name,
        TyVarKind::Overloaded(ov) => overload_text(ov),
    }
}

/// How a symbol is written: the path it was defined at, or `exn` when it
/// has no entry.
pub open spec fn sym_text(syms: SymsView, sym: Sym) -> Seq<char> {
    if syms.has(sym) {
        syms.infos[sym.idx()].path.text()
    } else {
        "exn"@
    }
}

/// Whether the rows from position `i` on are those of a tuple: their labels
/// count up from `i + 1`.
pub open spec fn tuple_from(rows: List<(Lab, Ty)>, i: nat) -> bool
    decreases rows,
{
    match rows {
        List::Nil => true,
        List::Cons(h, t) => h.0@ == LabKey::Num(i + 1) && tuple_from(*t, i + 1),
    }
}

/// How a type is written where a type of precedence `prec` is expected: 0
/// for the sides of an arrow, 1 for the parts of a tuple, 2 for the
/// argument of a type constructor.
pub open spec fn ty_text(cx: DisplayCx, ty: Ty, prec: nat) -> Seq<char>
    decreases ty,
{
    match ty {
        Ty::Unknown => "_"@,
        Ty::BoundVar(i) => bound_text(cx, i),
        Ty::MetaVar(mv) => meta_text(cx, mv),
        Ty::FixedVar(fv) => fv.ty_var@,
        Ty::Record(rows) => match *rows {
            List::Nil => "unit"@,
            List::Cons(h, t) => if !(*t is Nil) && tuple_from(*rows, 0) {
                (if prec > 1 {
                    "("@
                } else {
                    Seq::empty()
                }) + ty_text(cx, h.1, 2) + tuple_rest_text(cx, *t) + (if prec > 1 {
                    ")"@
                } else {
                    Seq::empty()
                })
            } else {
                "{ "@ + lab_text(h.0@) + " : "@ + ty_text(cx, h.1, 0) + rows_rest_text(cx, *t)
                    + " }"@
            },
        },
        Ty::Con(args, sym) => match *args {
            List::Nil => sym_text(cx.syms, sym),
            List::Cons(h, t) => if *t is Nil {
                ty_text(cx, h, 2) + " "@ + sym_text(cx.syms, sym)
            } else {
                "("@ + ty_text(cx, h, 0) + args_rest_text(cx, *t) + ") "@ + sym_text(cx.syms, sym)
            },
        },
        Ty::Fn(param, res) => (if prec > 0 {
            "("@
        } else {
            Seq::empty()
        }) + ty_text(cx, *param, 1) + " -> "@ + ty_text(cx, *res, 0) + (if prec > 0 {
            ")"@
        } else {
            Seq::empty()
        }),
    }
}

pub open spec fn tuple_rest_text(cx: DisplayCx, rows: List<(Lab, Ty)>) -> Seq<char>
    decreases rows,
{
    match rows {
        List::Nil => Seq::empty(),
        List::Cons(h, t) => " * "@ + ty_text(cx, h.1, 2) + tuple_rest_text(cx, *t),
    }
}

pub open spec fn rows_rest_text(cx: DisplayCx, rows: List<(Lab, Ty)>) -> Seq<char>
    decreases rows,
{
    match rows {
        List::Nil => Seq::empty(),
        List::Cons(h, t) => ", "@ + lab_text(h.0@) + " : "@ + ty_text(cx, h.1, 0) + rows_rest_text(
            cx,
            *t,
        ),
    }
}

pub open spec fn args_rest_text(cx: DisplayCx, args: List<Ty>) -> Seq<char>
    decreases args,
{
    match args {
        List::Nil => Seq::empty(),
        List::Cons(h, t) => ", "@ + ty_text(cx, h, 0) + args_rest_text(cx, *t),
    }
}

/// How the rows of an unresolved record are written: each row, then `...`.
pub open spec fn record_meta_var_text(cx: DisplayCx, rows: List<(Lab, Ty)>) -> Seq<char> {
    "{ "@ + open_rows_text(cx, rows) + "... }"@
}

pub open spec fn open_rows_text(cx: DisplayCx, rows: List<(Lab, Ty)>) -> Seq<char>
    decreases rows,
{
    match rows {
        List::Nil => Seq::empty(),
        List::Cons(h, t) => lab_text(h.0@) + " : "@ + ty_text(cx, h.1, 0) + ", "@ + open_rows_text(
            cx,
            *t,
        ),
    }
}

/// Gives names to meta variables, like `?a` or `<wordint>` or `int`.
#[derive(Debug)]
pub struct MetaVarNames<'a> {
    next_idx: usize,
    map: Names,
    subst: &'a Subst,
}

/// The names after every meta variable of the type that needs a name and
/// has none got the next number.
pub open spec fn extend_spec(s: Entries, ty: Ty, names: Names, next: usize) -> (Names, usize)
    decreases ty,
{
    match ty {
        Ty::MetaVar(mv) => if kind_of(s, mv) is Overloaded || name_of(names, mv) is Some {
            (names, next)
        } else {
            (
                List::Cons((mv, next), Box::new(names)),
                if next < usize::MAX {
                    (next + 1) as usize
                } else {
                    next
                },
            )
        },
        Ty::Unknown | Ty::BoundVar(_) | Ty::FixedVar(_) => (names, next),
        Ty::Record(rows) => extend_rows_spec(s, *rows, names, next),
        Ty::Con(args, _) => extend_tys_spec(s, *args, names, next),
        Ty::Fn(param, res) => {
            let (n1, x1) = extend_spec(s, *param, names, next);
            extend_spec(s, *res, n1, x1)
        },
    }
}

pub open spec fn extend_tys_spec(s: Entries, tys: List<Ty>, names: Names, next: usize) -> (
    Names,
    usize,
)
    decreases tys,
{
    match tys {
        List::Nil => (names, next),
        List::Cons(h, t) => {
            let (n1, x1) = extend_spec(s, h, names, next);
            extend_tys_spec(s, *t, n1, x1)
        },
    }
}

pub open spec fn extend_rows_spec(s: Entries, rows: List<(Lab, Ty)>, names: Names, next: usize) -> (
    Names,
    usize,
)
    decreases rows,
{
    match rows {
        List::Nil => (names, next),
        List::Cons(h, t) => {
            let (n1, x1) = extend_spec(s, h.1, names, next);
            extend_rows_spec(s, *t, n1, x1)
        },
    }
}

fn get_kind(subst: &Subst, mv: MetaTyVar) -> (r: TyVarKind)
    ensures
        r == kind_of(subst@, mv),
{
    match subst.get(mv) {
        Some(SubstEntry::Kind(k)) => *k,
        _ => TyVarKind::Regular,
    }
}

fn find_name(names: &Names, mv: MetaTyVar) -> (r: Option<usize>)
    ensures
        r == name_of(*names, mv),
    decreases *names,
{
    match names {
        List::Nil => None,
        List::Cons(h, t) => if h.0 == mv {
            Some(h.1)
        } else {
            find_name(t, mv)
        },
    }
}

impl<'a> MetaVarNames<'a> {
    /// The names, the latest first.
    pub closed spec fn names(self) -> Names {
        self.map
    }

    /// The number of the next name.
    pub closed spec fn next(self) -> usize {
        self.next_idx
    }

    /// The entries that the names were made for.
    pub closed spec fn entries(self) -> Entries {
        self.subst@
    }

    /// Returns a new one of this.
    pub fn new(subst: &'a Subst) -> (r: MetaVarNames<'a>)
        ensures
            r.names() == List::<(MetaTyVar, usize)>::Nil,
            r.next() == 0,
            r.entries() == subst@,
    {
        MetaVarNames { next_idx: 0, map: List::Nil, subst }
    }

    /// Clears this of all the names.
    pub fn clear(&mut self)
        ensures
            final(self).names() == List::<(MetaTyVar, usize)>::Nil,
            final(self).next() == 0,
            final(self).entries() == old(self).entries(),
    {
        self.next_idx = 0;
        self.map = List::Nil;
    }

    /// Adds names for all the unsolved meta vars in `ty` that need names,
    /// after the entries were applied to it.
    pub fn extend_for(&mut self, ty: &Ty)
        ensures
            (final(self).names(), final(self).next()) == extend_spec(
                old(self).entries(),
                apply(old(self).entries(), *ty),
                old(self).names(),
                old(self).next(),
            ),
            final(self).entries() == old(self).entries(),
    {
        let applied = self.subst.apply(ty);
        self.extend(&applied);
    }

    fn extend(&mut self, ty: &Ty)
        ensures
            (final(self).names(), final(self).next()) == extend_spec(
                old(self).entries(),
                *ty,
                old(self).names(),
                old(self).next(),
            ),
            final(self).entries() == old(self).entries(),
        decreases *ty,
    {
        match ty {
            Ty::MetaVar(mv) => {
                let overloaded = match get_kind(self.subst, *mv) {
                    TyVarKind::Overloaded(_) => true,
                    _ => false,
                };
                if !overloaded && find_name(&self.map, *mv).is_none() {
                    let mut map = List::Nil;
                    std::mem::swap(&mut map, &mut self.map);
                    self.map = List::Cons((*mv, self.next_idx), Box::new(map));
                    if self.next_idx < usize::MAX {
                        self.next_idx += 1;
                    }
                }
            },
            Ty::Unknown | Ty::BoundVar(_) | Ty::FixedVar(_) => {},
            Ty::Record(rows) => self.extend_rows(rows),
            Ty::Con(args, _) => self.extend_tys(args),
            Ty::Fn(param, res) => {
                self.extend(param);
                self.extend(res);
            },
        }
    }

    fn extend_tys(&mut self, tys: &List<Ty>)
        ensures
            (final(self).names(), final(self).next()) == extend_tys_spec(
                old(self).entries(),
                *tys,
                old(self).names(),
                old(self).next(),
            ),
            final(self).entries() == old(self).entries(),
        decreases *tys,
    {
        match tys {
            List::Nil => {},
            List::Cons(h, t) => {
                self.extend(h);
                self.extend_tys(t);
            },
        }
    }

    fn extend_rows(&mut self, rows: &List<(Lab, Ty)>)
        ensures
            (final(self).names(), final(self).next()) == extend_rows_spec(
                old(self).entries(),
                *rows,
                old(self).names(),
                old(self).next(),
            ),
            final(self).entries() == old(self).entries(),
        decreases *rows,
    {
        match rows {
            List::Nil => {},
            List::Cons(h, t) => {
                self.extend(&h.1);
                self.extend_rows(t);
            },
        }
    }

    /// What a type is written with, given the symbols and the binders.
    pub open spec fn cx(self, syms: SymsView, bound_vars: Option<List<TyVarKind>>) -> DisplayCx {
        DisplayCx { names: self.names(), subst: self.entries(), syms, bound_vars }
    }
}

/// Appends the name of the variable with the given number.
pub fn meta_var_idx(out: &mut String, idx: usize, s: &str)
    ensures
        final(out)@ == old(out)@ + s@ + idx_name(idx as nat),
{
    push_str(out, s);
    let c = (97u8 + (idx % 26) as u8) as char;
    let n = idx / 26 + 1;
    let mut i: usize = 0;
    while i < n
        invariant
            i <= n,
            n == idx / 26 + 1,
            c == ((97 + idx % 26) as u8) as char,
            out@ == old(out)@ + s@ + Seq::new(i as nat, |j: int| c),
        decreases n - i,
    {
        push_char(out, c);
        assert(out@ =~= old(out)@ + s@ + Seq::new((i + 1) as nat, |j: int| c));
        i += 1;
    }
    assert(Seq::new(n as nat, |j: int| c) =~= idx_name(idx as nat));
}

fn write_overload(out: &mut String, ov: Overload)
    ensures
        final(out)@ == old(out)@ + overload_text(ov),
{
    match ov {
        Overload::Basic(BasicOverload::Int) => push_str(out, "int"),
        Overload::Basic(BasicOverload::Real) => push_str(out, "real"),
        Overload::Basic(BasicOverload::Word) => push_str(out, "word"),
        Overload::Basic(BasicOverload::String) => push_str(out, "string"),
        Overload::Basic(BasicOverload::Char) => push_str(out, "char"),
        Overload::Composite(CompositeOverload::WordInt) => push_str(out, "<wordint>"),
        Overload::Composite(CompositeOverload::RealInt) => push_str(out, "<realint>"),
        Overload::Composite(CompositeOverload::Num) => push_str(out, "<num>"),
        Overload::Composite(CompositeOverload::NumTxt) => push_str(out, "<numtxt>"),
    }
}

/// What a type is displayed with.
pub struct TyDisplay<'a> {
    pub meta_vars: &'a MetaVarNames<'a>,
    pub syms: &'a Syms,
    pub bound_vars: Option<&'a List<TyVarKind>>,
}

impl<'a> TyDisplay<'a> {
    /// What a type is written with.
    pub open spec fn cx(&self) -> DisplayCx {
        self.meta_vars.cx(
            self.syms@,
            match self.bound_vars {
                Some(b) => Some(*b),
                None => None,
            },
        )
    }

    fn write_sym(&self, out: &mut String, sym: Sym)
        ensures
            final(out)@ == old(out)@ + sym_text(self.syms@, sym),
    {
        if sym.raw != SYM_EXN && ((sym.raw - 1) as usize) < self.syms.iter_syms().len() {
            self.syms.iter_syms()[(sym.raw - 1) as usize].path.write(out);
        } else {
            push_str(out, "exn");
        }
    }

    fn write_bound(&self, out: &mut String, i: u32)
        ensures
            final(out)@ == old(out)@ + bound_text(self.cx(), i),
    {
        let equality = match self.bound_vars {
            None => false,
            Some(kinds) => match kind_at(kinds, i) {
                Some(TyVarKind::Equality) => true,
                _ => false,
            },
        };
        if equality {
            meta_var_idx(out, i as usize, "''");
        } else {
            meta_var_idx(out, i as usize, "'");
        }
        assert(out@ =~= old(out)@ + bound_text(self.cx(), i));
    }

    fn write_meta(&self, out: &mut String, mv: MetaTyVar)
        ensures
            final(out)@ == old(out)@ + meta_text(self.cx(), mv),
    {
        let prefix = match get_kind(self.meta_vars.subst, mv) {
            TyVarKind::Regular => "?",
            TyVarKind::Equality => "??",
            TyVarKind::Overloaded(ov) => {
                write_overload(out, ov);
                return ;
            },
        };
        match find_name(&self.meta_vars.map, mv) {
            Some(i) => meta_var_idx(out, i, prefix),
            None => push_str(out, prefix),
        }
        assert(out@ =~= old(out)@ + meta_text(self.cx(), mv));
    }

    /// Appends the type as it is written where a type of precedence `prec`
    /// is expected.
    pub fn fmt(&self, out: &mut String, ty: &Ty, prec: u8)
        ensures
            final(out)@ == old(out)@ + ty_text(self.cx(), *ty, prec as nat),
        decreases *ty,
    {
        match ty {
            Ty::Unknown => push_str(out, "_"),
            Ty::BoundVar(i) => self.write_bound(out, *i),
            Ty::MetaVar(mv) => self.write_meta(out, *mv),
            Ty::FixedVar(fv) => push_str(out, fv.ty_var.as_str()),
            Ty::Record(rows) => match &**rows {
                List::Nil => push_str(out, "unit"),
                List::Cons(h, t) => {
                    if !t.is_empty() && is_tuple(rows, 0) {
                        if prec > 1 {
                            push_str(out, "(");
                        }
                        self.fmt(out, &h.1, 2);
                        self.fmt_tuple_rest(out, t);
                        if prec > 1 {
                            push_str(out, ")");
                        }
                    } else {
                        push_str(out, "{ ");
                        h.0.write(out);
                        push_str(out, " : ");
                        self.fmt(out, &h.1, 0);
                        self.fmt_rows_rest(out, t);
                        push_str(out, " }");
                    }
                    assert(out@ =~= old(out)@ + ty_text(self.cx(), *ty, prec as nat));
                },
            },
            Ty::Con(args, sym) => match &**args {
                List::Nil => self.write_sym(out, *sym),
                List::Cons(h, t) => {
                    if t.is_empty() {
                        self.fmt(out, h, 2);
                        push_str(out, " ");
                    } else {
                        push_str(out, "(");
                        self.fmt(out, h, 0);
                        self.fmt_args_rest(out, t);
                        push_str(out, ") ");
                    }
                    self.write_sym(out, *sym);
                    assert(out@ =~= old(out)@ + ty_text(self.cx(), *ty, prec as nat));
                },
            },
            Ty::Fn(param, res) => {
                if prec > 0 {
                    push_str(out, "(");
                }
                self.fmt(out, param, 1);
                push_str(out, " -> ");
                self.fmt(out, res, 0);
                if prec > 0 {
                    push_str(out, ")");
                }
                assert(out@ =~= old(out)@ + ty_text(self.cx(), *ty, prec as nat));
            },
        }
    }

    fn fmt_tuple_rest(&self, out: &mut String, rows: &List<(Lab, Ty)>)
        ensures
            final(out)@ == old(out)@ + tuple_rest_text(self.cx(), *rows),
        decreases *rows,
    {
        match rows {
            List::Nil => {
                assert(out@ =~= old(out)@ + tuple_rest_text(self.cx(), *rows));
            },
            List::Cons(h, t) => {
                push_str(out, " * ");
                self.fmt(out, &h.1, 2);
                self.fmt_tuple_rest(out, t);
                assert(out@ =~= old(out)@ + tuple_rest_text(self.cx(), *rows));
            },
        }
    }

    fn fmt_rows_rest(&self, out: &mut String, rows: &List<(Lab, Ty)>)
        ensures
            final(out)@ == old(out)@ + rows_rest_text(self.cx(), *rows),
        decreases *rows,
    {
        match rows {
            List::Nil => {
                assert(out@ =~= old(out)@ + rows_rest_text(self.cx(), *rows));
            },
            List::Cons(h, t) => {
                push_str(out, ", ");
                h.0.write(out);
                push_str(out, " : ");
                self.fmt(out, &h.1, 0);
                self.fmt_rows_rest(out, t);
                assert(out@ =~= old(out)@ + rows_rest_text(self.cx(), *rows));
            },
        }
    }

    fn fmt_args_rest(&self, out: &mut String, args: &List<Ty>)
        ensures
            final(out)@ == old(out)@ + args_rest_text(self.cx(), *args),
        decreases *args,
    {
        match args {
            List::Nil => {
                assert(out@ =~= old(out)@ + args_rest_text(self.cx(), *args));
            },
            List::Cons(h, t) => {
                push_str(out, ", ");
                self.fmt(out, h, 0);
                self.fmt_args_rest(out, t);
                assert(out@ =~= old(out)@ + args_rest_text(self.cx(), *args));
            },
        }
    }

    fn fmt_open_rows(&self, out: &mut String, rows: &List<(Lab, Ty)>)
        ensures
            final(out)@ == old(out)@ + open_rows_text(self.cx(), *rows),
        decreases *rows,
    {
        match rows {
            List::Nil => {
                assert(out@ =~= old(out)@ + open_rows_text(self.cx(), *rows));
            },
            List::Cons(h, t) => {
                h.0.write(out);
                push_str(out, " : ");
                self.fmt(out, &h.1, 0);
                push_str(out, ", ");
                self.fmt_open_rows(out, t);
                assert(out@ =~= old(out)@ + open_rows_text(self.cx(), *rows));
            },
        }
    }
}

fn kind_at(kinds: &List<TyVarKind>, i: u32) -> (r: Option<TyVarKind>)
    ensures
        r == bound_kind(*kinds, i as nat),
    decreases *kinds,
{
    match kinds {
        List::Nil => None,
        List::Cons(h, t) => if i == 0 {
            Some(*h)
        } else {
            kind_at(t, i - 1)
        },
    }
}

fn is_tuple(rows: &List<(Lab, Ty)>, i: usize) -> (r: bool)
    ensures
        r == tuple_from(*rows, i as nat),
    decreases *rows,
{
    match rows {
        List::Nil => true,
        List::Cons(h, t) => {
            let same = match &h.0 {
                Lab::Num(n) => i < usize::MAX && *n == i + 1,
                Lab::Name(_) => false,
            };
            if same {
                is_tuple(t, i + 1)
            } else {
                false
            }
        },
    }
}

impl Ty {
    /// The type as it is written, after the entries that the names were
    /// made for were applied to it.
    pub fn display(&self, meta_vars: &MetaVarNames, syms: &Syms) -> (r: String)
        ensures
            r@ == ty_text(meta_vars.cx(syms@, None), apply(meta_vars.entries(), *self), 0),
    {
        let d = TyDisplay { meta_vars, syms, bound_vars: None };
        let applied = meta_vars.subst.apply(self);
        let mut out = String::new();
        d.fmt(&mut out, &applied, 0);
        assert(out@ =~= ty_text(d.cx(), applied, 0));
        out
    }

    /// What kind of type this is, in words.
    pub open spec fn desc_text(self) -> Seq<char> {
        match self {
            Ty::Unknown => "an unknown type"@,
            Ty::BoundVar(_) => "a bound type variable"@,
            Ty::MetaVar(_) => "an unsolved type variable"@,
            Ty::FixedVar(_) => "a fixed type variable"@,
            Ty::Record(_) => "a record or tuple type"@,
            Ty::Con(_, _) => "a constructor type"@,
            Ty::Fn(_, _) => "a function type"@,
        }
    }

    /// What kind of type this is, in words.
    pub fn desc(&self) -> (r: &'static str)
        ensures
            r@ == self.desc_text(),
    {
        match self {
            Ty::Unknown => "an unknown type",
            Ty::BoundVar(_) => "a bound type variable",
            Ty::MetaVar(_) => "an unsolved type variable",
            Ty::FixedVar(_) => "a fixed type variable",
            Ty::Record(_) => "a record or tuple type",
            Ty::Con(_, _) => "a constructor type",
            Ty::Fn(_, _) => "a function type",
        }
    }
}

impl TyScheme {
    /// The type of the scheme as it is written, with the bound variables
    /// named by their position and marked by their kind.
    pub fn display(&self, meta_vars: &MetaVarNames, syms: &Syms) -> (r: String)
        ensures
            r@ == ty_text(
                meta_vars.cx(syms@, Some(self.bound_vars)),
                apply(meta_vars.entries(), self.ty),
                0,
            ),
    {
        let d = TyDisplay { meta_vars, syms, bound_vars: Some(&self.bound_vars) };
        let applied = meta_vars.subst.apply(&self.ty);
        let mut out = String::new();
        d.fmt(&mut out, &applied, 0);
        assert(out@ =~= ty_text(d.cx(), applied, 0));
        out
    }
}

/// The rows of an unresolved record as they are written.
pub fn record_meta_var(meta_vars: &MetaVarNames, syms: &Syms, rows: &List<(Lab, Ty)>) -> (r: String)
    ensures
        r@ == record_meta_var_text(meta_vars.cx(syms@, None), *rows),
{
    let d = TyDisplay { meta_vars, syms, bound_vars: None };
    let mut out = String::from_str("{ ");
    d.fmt_open_rows(&mut out, rows);
    push_str(&mut out, "... }");
    out
}

/// A reason why two types are not compatible.
#[derive(Debug)]
pub enum Incompatible {
    FixedTyVar(FixedTyVar, FixedTyVar),
    MissingRow(Lab),
    ExtraRows(List<(Lab, Ty)>),
    Con(Sym, Sym),
    Head(Ty, Ty),
    OverloadCon(Overload, Sym),
    OverloadUnify(Overload, Overload),
    OverloadRecord(Overload, List<(Lab, Ty)>),
    OverloadHeadMismatch(Overload, Ty),
    UnresolvedRecordMissingRow(Lab),
    UnresolvedRecordHeadMismatch(List<(Lab, Ty)>, Ty),
    NotEqTy(Ty, NotEqTy),
}

/// The labels of the rows, with `, ` between them.
pub open spec fn labels_text(rows: List<(Lab, Ty)>) -> Seq<char>
    decreases rows,
{
    match rows {
        List::Nil => Seq::empty(),
        List::Cons(h, t) => lab_text(h.0@) + (if *t is Nil {
            Seq::empty()
        } else {
            ", "@
        }) + labels_text(*t),
    }
}

/// The sentence for a reason.
pub open spec fn incompatible_text(cx: DisplayCx, reason: Incompatible) -> Seq<char> {
    match reason {
        Incompatible::FixedTyVar(a, b) => "`"@ + a.ty_var@ + "` and `"@ + b.ty_var@
            + "` are different type variables"@,
        Incompatible::MissingRow(lab) => "record type is missing field: `"@ + lab_text(lab@)
            + "`"@,
        Incompatible::ExtraRows(rows) => "record type has extra fields: "@ + labels_text(rows),
        Incompatible::Con(a, b) => "`"@ + sym_text(cx.syms, a) + "` and `"@ + sym_text(cx.syms, b)
            + "` are different type constructors"@,
        Incompatible::Head(a, b) => "`"@ + ty_text(cx, apply(cx.subst, a), 0) + "` is "@
            + a.desc_text() + ", but `"@ + ty_text(cx, apply(cx.subst, b), 0) + "` is "@
            + b.desc_text(),
        Incompatible::OverloadCon(ov, s) => "`"@ + sym_text(cx.syms, s)
            + "` is not compatible with the `"@ + overload_text(ov) + "` overload"@,
        Incompatible::OverloadUnify(want, got) => "`"@ + overload_text(want) + "` and `"@
            + overload_text(got) + "` are incompatible overloads"@,
        Incompatible::OverloadRecord(ov, _) => "record types are not compatible with the `"@
            + overload_text(ov) + "` overload"@,
        Incompatible::OverloadHeadMismatch(ov, ty) => "`"@ + overload_text(ov)
            + "` is not compatible with `"@ + ty_text(cx, apply(cx.subst, ty), 0)
            + "`, which is "@ + ty.desc_text(),
        Incompatible::UnresolvedRecordMissingRow(lab) => "unresolved record type is missing field: `"@
            + lab_text(lab@) + "`"@,
        Incompatible::UnresolvedRecordHeadMismatch(_, ty) => "unresolved record type is not compatible with `"@
            + ty_text(cx, apply(cx.subst, ty), 0) + "`, which is "@ + ty.desc_text(),
        Incompatible::NotEqTy(ty, not_eq) => "not an equality type because it contains "@
            + not_eq.text() + ": `"@ + ty_text(cx, apply(cx.subst, ty), 0) + "`"@,
    }
}

/// The names after the types of the rows got theirs.
pub open spec fn extend_applied_rows(s: Entries, rows: List<(Lab, Ty)>, names: Names, next: usize) -> (
    Names,
    usize,
)
    decreases rows,
{
    match rows {
        List::Nil => (names, next),
        List::Cons(h, t) => {
            let (n1, x1) = extend_spec(s, apply(s, h.1), names, next);
            extend_applied_rows(s, *t, n1, x1)
        },
    }
}

/// The names after the types of a reason got theirs.
pub open spec fn extend_for_reason(s: Entries, reason: Incompatible, names: Names, next: usize) -> (
    Names,
    usize,
) {
    match reason {
        Incompatible::FixedTyVar(_, _) | Incompatible::MissingRow(_) | Incompatible::Con(_, _)
        | Incompatible::OverloadCon(_, _) | Incompatible::OverloadUnify(_, _)
        | Incompatible::UnresolvedRecordMissingRow(_) => (names, next),
        Incompatible::ExtraRows(rows) | Incompatible::OverloadRecord(_, rows) => extend_applied_rows(
            s,
            rows,
            names,
            next,
        ),
        Incompatible::OverloadHeadMismatch(_, ty) | Incompatible::NotEqTy(ty, _) => extend_spec(
            s,
            apply(s, ty),
            names,
            next,
        ),
        Incompatible::UnresolvedRecordHeadMismatch(rows, ty) => {
            let (n1, x1) = extend_applied_rows(s, rows, names, next);
            extend_spec(s, apply(s, ty), n1, x1)
        },
        Incompatible::Head(a, b) => {
            let (n1, x1) = extend_spec(s, apply(s, a), names, next);
            extend_spec(s, apply(s, b), n1, x1)
        },
    }
}

fn write_labels(out: &mut String, rows: &List<(Lab, Ty)>)
    ensures
        final(out)@ == old(out)@ + labels_text(*rows),
    decreases *rows,
{
    match rows {
        List::Nil => {
            assert(out@ =~= old(out)@ + labels_text(*rows));
        },
        List::Cons(h, t) => {
            h.0.write(out);
            if !t.is_empty() {
                push_str(out, ", ");
            }
            write_labels(out, t);
            assert(out@ =~= old(out)@ + labels_text(*rows));
        },
    }
}

fn extend_rows_applied(meta_vars: &mut MetaVarNames, rows: &List<(Lab, Ty)>)
    ensures
        (final(meta_vars).names(), final(meta_vars).next()) == extend_applied_rows(
            old(meta_vars).entries(),
            *rows,
            old(meta_vars).names(),
            old(meta_vars).next(),
        ),
        final(meta_vars).entries() == old(meta_vars).entries(),
    decreases *rows,
{
    match rows {
        List::Nil => {},
        List::Cons(h, t) => {
            meta_vars.extend_for(&h.1);
            extend_rows_applied(meta_vars, t);
        },
    }
}

impl Incompatible {
    /// The sentence for this reason.
    pub fn display(&self, meta_vars: &MetaVarNames, syms: &Syms) -> (r: String)
        ensures
            r@ == incompatible_text(meta_vars.cx(syms@, None), *self),
    {
        let d = TyDisplay { meta_vars, syms, bound_vars: None };
        let mut out = String::new();
        match self {
            Incompatible::FixedTyVar(a, b) => {
                push_str(&mut out, "`");
                push_str(&mut out, a.ty_var.as_str());
                push_str(&mut out, "` and `");
                push_str(&mut out, b.ty_var.as_str());
                push_str(&mut out, "` are different type variables");
            },
            Incompatible::MissingRow(lab) => {
                push_str(&mut out, "record type is missing field: `");
                lab.write(&mut out);
                push_str(&mut out, "`");
            },
            Incompatible::ExtraRows(rows) => {
                push_str(&mut out, "record type has extra fields: ");
                write_labels(&mut out, rows);
            },
            Incompatible::Con(a, b) => {
                push_str(&mut out, "`");
                d.write_sym(&mut out, *a);
                push_str(&mut out, "` and `");
                d.write_sym(&mut out, *b);
                push_str(&mut out, "` are different type constructors");
            },
            Incompatible::Head(a, b) => {
                push_str(&mut out, "`");
                d.fmt(&mut out, &meta_vars.subst.apply(a), 0);
                push_str(&mut out, "` is ");
                push_str(&mut out, a.desc());
                push_str(&mut out, ", but `");
                d.fmt(&mut out, &meta_vars.subst.apply(b), 0);
                push_str(&mut out, "` is ");
                push_str(&mut out, b.desc());
            },
            Incompatible::OverloadCon(ov, s) => {
                push_str(&mut out, "`");
                d.write_sym(&mut out, *s);
                push_str(&mut out, "` is not compatible with the `");
                write_overload(&mut out, *ov);
                push_str(&mut out, "` overload");
            },
            Incompatible::OverloadUnify(want, got) => {
                push_str(&mut out, "`");
                write_overload(&mut out, *want);
                push_str(&mut out, "` and `");
                write_overload(&mut out, *got);
                push_str(&mut out, "` are incompatible overloads");
            },
            Incompatible::OverloadRecord(ov, _) => {
                push_str(&mut out, "record types are not compatible with the `");
                write_overload(&mut out, *ov);
                push_str(&mut out, "` overload");
            },
            Incompatible::OverloadHeadMismatch(ov, ty) => {
                push_str(&mut out, "`");
                write_overload(&mut out, *ov);
                push_str(&mut out, "` is not compatible with `");
                d.fmt(&mut out, &meta_vars.subst.apply(ty), 0);
                push_str(&mut out, "`, which is ");
                push_str(&mut out, ty.desc());
            },
            Incompatible::UnresolvedRecordMissingRow(lab) => {
                push_str(&mut out, "unresolved record type is missing field: `");
                lab.write(&mut out);
                push_str(&mut out, "`");
            },
            Incompatible::UnresolvedRecordHeadMismatch(_, ty) => {
                push_str(&mut out, "unresolved record type is not compatible with `");
                d.fmt(&mut out, &meta_vars.subst.apply(ty), 0);
                push_str(&mut out, "`, which is ");
                push_str(&mut out, ty.desc());
            },
            Incompatible::NotEqTy(ty, not_eq) => {
                push_str(&mut out, "not an equality type because it contains ");
                let why = not_eq.describe();
                push_str(&mut out, why.as_str());
                push_str(&mut out, ": `");
                d.fmt(&mut out, &meta_vars.subst.apply(ty), 0);
                push_str(&mut out, "`");
            },
        }
        assert(out@ =~= incompatible_text(d.cx(), *self));
        out
    }

    /// Extends the meta var names for all the types in this.
    pub fn extend_meta_var_names(&self, meta_vars: &mut MetaVarNames)
        ensures
            (final(meta_vars).names(), final(meta_vars).next()) == extend_for_reason(
                old(meta_vars).entries(),
                *self,
                old(meta_vars).names(),
                old(meta_vars).next(),
            ),
            final(meta_vars).entries() == old(meta_vars).entries(),
    {
        match self {
            Incompatible::FixedTyVar(_, _) | Incompatible::MissingRow(_) | Incompatible::Con(_, _)
            | Incompatible::OverloadCon(_, _) | Incompatible::OverloadUnify(_, _)
            | Incompatible::UnresolvedRecordMissingRow(_) => {},
            Incompatible::ExtraRows(rows) | Incompatible::OverloadRecord(_, rows) => {
                extend_rows_applied(meta_vars, rows);
            },
            Incompatible::OverloadHeadMismatch(_, ty) | Incompatible::NotEqTy(ty, _) => {
                meta_vars.extend_for(ty);
            },
            Incompatible::UnresolvedRecordHeadMismatch(rows, ty) => {
                extend_rows_applied(meta_vars, rows);
                meta_vars.extend_for(ty);
            },
            Incompatible::Head(a, b) => {
                meta_vars.extend_for(a);
                meta_vars.extend_for(b);
            },
        }
    }
}

/// The types that the message of an error shows, in the order in which
/// their meta variables get names.
pub open spec fn error_tys(kind: ErrorKind) -> List<Ty> {
    match kind {
        ErrorKind::Circularity(_, ty) | ErrorKind::OverloadMismatch(_, ty, _) | ErrorKind::NotEquality(
            ty,
            _,
        ) => List::Cons(ty, Box::new(List::Nil)),
        ErrorKind::MismatchedTypes(want, got) | ErrorKind::MissingField(_, want, got)
        | ErrorKind::ExtraFields(want, got) => List::Cons(
            want,
            Box::new(List::Cons(got, Box::new(List::Nil))),
        ),
        _ => List::Nil,
    }
}

/// The names after each of the types got theirs.
pub open spec fn extend_all(s: Entries, tys: List<Ty>, names: Names, next: usize) -> (Names, usize)
    decreases tys,
{
    match tys {
        List::Nil => (names, next),
        List::Cons(h, t) => {
            let (n1, x1) = extend_spec(s, apply(s, h), names, next);
            extend_all(s, *t, n1, x1)
        },
    }
}

/// What the message of an error is written with: the names that the meta
/// variables of its types get, starting from none.
pub open spec fn error_cx(s: Entries, syms: SymsView, kind: ErrorKind) -> DisplayCx {
    DisplayCx {
        names: extend_all(s, error_tys(kind), List::Nil, 0).0,
        subst: s,
        syms,
        bound_vars: None,
    }
}

/// The message of an error of the type checker.
pub open spec fn error_text(s: Entries, syms: SymsView, kind: ErrorKind) -> Seq<char> {
    let cx = error_cx(s, syms, kind);
    match kind {
        ErrorKind::Unsupported => "unsupported language construct"@,
        ErrorKind::Undefined => "undefined identifier"@,
        ErrorKind::Redefined => "duplicate identifier"@,
        ErrorKind::Circularity(mv, ty) => "circular type: `"@ + meta_text(cx, mv)
            + "` occurs in `"@ + ty_text(cx, apply(s, ty), 0) + "`"@,
        ErrorKind::MismatchedTypes(want, got) => "mismatched types: expected "@ + ty_text(
            cx,
            apply(s, want),
            0,
        ) + ", found "@ + ty_text(cx, apply(s, got), 0),
        ErrorKind::MissingField(lab, want, got) => "missing field `"@ + lab_text(lab@)
            + "`: expected "@ + ty_text(cx, apply(s, want), 0) + ", found "@ + ty_text(
            cx,
            apply(s, got),
            0,
        ),
        ErrorKind::ExtraFields(want, got) => "extra fields: expected "@ + ty_text(
            cx,
            apply(s, want),
            0,
        ) + ", found "@ + ty_text(cx, apply(s, got), 0),
        ErrorKind::DuplicateLab(lab) => "duplicate label: "@ + lab_text(lab@),
        ErrorKind::RealPat => "real literal used as a pattern"@,
        ErrorKind::UnreachablePattern => "unreachable pattern"@,
        ErrorKind::NonExhaustiveMatch => "non-exhaustive match"@,
        ErrorKind::NonExhaustiveBinding => "non-exhaustive binding"@,
        ErrorKind::PatValIdStatus => "value binding used as a pattern"@,
        ErrorKind::PatMustNotHaveArg => "unexpected argument for constructor pattern"@,
        ErrorKind::PatMustHaveArg => "missing argument for constructor pattern"@,
        ErrorKind::OverloadMismatch(ov, ty, admitted) => if admitted {
            "mismatched types: expected "@ + overload_text(ov) + ", found "@ + ty_text(
                cx,
                apply(s, ty),
                0,
            )
        } else {
            overload_text(ov) + " is not compatible with "@ + ty_text(cx, apply(s, ty), 0)
        },
        ErrorKind::TyNameEscape => "type name escapes its scope"@,
        ErrorKind::ValRecExpNotFn => "the expression for a `val rec` was not a function"@,
        ErrorKind::NotEquality(ty, why) => "not an equality type because it contains "@
            + why.text() + ": `"@ + ty_text(cx, apply(s, ty), 0) + "`"@,
    }
}

fn extend_tys_applied(meta_vars: &mut MetaVarNames, a: &Ty, b: Option<&Ty>)
    ensures
        final(meta_vars).entries() == old(meta_vars).entries(),
        (final(meta_vars).names(), final(meta_vars).next()) == extend_all(
            old(meta_vars).entries(),
            match b {
                Some(b) => List::Cons(*a, Box::new(List::Cons(*b, Box::new(List::Nil)))),
                None => List::Cons(*a, Box::new(List::Nil)),
            },
            old(meta_vars).names(),
            old(meta_vars).next(),
        ),
{
    reveal_with_fuel(extend_all, 3);
    meta_vars.extend_for(a);
    match b {
        Some(b) => meta_vars.extend_for(b),
        None => {},
    }
}

fn two(out: &mut String, d: &TyDisplay, head: &str, want: &Ty, got: &Ty)
    ensures
        final(out)@ == old(out)@ + head@ + ty_text(d.cx(), apply(d.meta_vars.entries(), *want), 0)
            + ", found "@ + ty_text(d.cx(), apply(d.meta_vars.entries(), *got), 0),
{
    push_str(out, head);
    d.fmt(out, &d.meta_vars.subst.apply(want), 0);
    push_str(out, ", found ");
    d.fmt(out, &d.meta_vars.subst.apply(got), 0);
}

impl ErrorKind {
    /// The message of the error, with the types as the substitution and the
    /// symbols of the state say.
    pub fn message(&self, subst: &Subst, syms: &Syms) -> (r: String)
        ensures
            r@ == error_text(subst@, syms@, *self),
    {
        let mut names = MetaVarNames::new(subst);
        match self {
            ErrorKind::Circularity(_, ty) | ErrorKind::OverloadMismatch(_, ty, _)
            | ErrorKind::NotEquality(ty, _) => extend_tys_applied(&mut names, ty, None),
            ErrorKind::MismatchedTypes(want, got) | ErrorKind::MissingField(_, want, got)
            | ErrorKind::ExtraFields(want, got) => extend_tys_applied(&mut names, want, Some(got)),
            _ => {},
        }
        let d = TyDisplay { meta_vars: &names, syms, bound_vars: None };
        assert(d.cx() == error_cx(subst@, syms@, *self));
        let mut out = String::new();
        match self {
            ErrorKind::Unsupported => push_str(&mut out, "unsupported language construct"),
            ErrorKind::Undefined => push_str(&mut out, "undefined identifier"),
            ErrorKind::Redefined => push_str(&mut out, "duplicate identifier"),
            ErrorKind::Circularity(mv, ty) => {
                push_str(&mut out, "circular type: `");
                d.write_meta(&mut out, *mv);
                push_str(&mut out, "` occurs in `");
                d.fmt(&mut out, &subst.apply(ty), 0);
                push_str(&mut out, "`");
            },
            ErrorKind::MismatchedTypes(want, got) => {
                two(&mut out, &d, "mismatched types: expected ", want, got);
            },
            ErrorKind::MissingField(lab, want, got) => {
                push_str(&mut out, "missing field `");
                lab.write(&mut out);
                two(&mut out, &d, "`: expected ", want, got);
            },
            ErrorKind::ExtraFields(want, got) => {
                two(&mut out, &d, "extra fields: expected ", want, got);
            },
            ErrorKind::DuplicateLab(lab) => {
                push_str(&mut out, "duplicate label: ");
                lab.write(&mut out);
            },
            ErrorKind::RealPat => push_str(&mut out, "real literal used as a pattern"),
            ErrorKind::UnreachablePattern => push_str(&mut out, "unreachable pattern"),
            ErrorKind::NonExhaustiveMatch => push_str(&mut out, "non-exhaustive match"),
            ErrorKind::NonExhaustiveBinding => push_str(&mut out, "non-exhaustive binding"),
            ErrorKind::PatValIdStatus => push_str(&mut out, "value binding used as a pattern"),
            ErrorKind::PatMustNotHaveArg => push_str(
                &mut out,
                "unexpected argument for constructor pattern",
            ),
            ErrorKind::PatMustHaveArg => push_str(
                &mut out,
                "missing argument for constructor pattern",
            ),
            ErrorKind::OverloadMismatch(ov, ty, admitted) => {
                let applied = subst.apply(ty);
                if *admitted {
                    push_str(&mut out, "mismatched types: expected ");
                    write_overload(&mut out, *ov);
                    push_str(&mut out, ", found ");
                } else {
                    write_overload(&mut out, *ov);
                    push_str(&mut out, " is not compatible with ");
                }
                d.fmt(&mut out, &applied, 0);
            },
            ErrorKind::TyNameEscape => push_str(&mut out, "type name escapes its scope"),
            ErrorKind::ValRecExpNotFn => push_str(
                &mut out,
                "the expression for a `val rec` was not a function",
            ),
            ErrorKind::NotEquality(ty, why) => {
                push_str(&mut out, "not an equality type because it contains ");
                let w = why.describe();
                push_str(&mut out, w.as_str());
                push_str(&mut out, ": `");
                d.fmt(&mut out, &subst.apply(ty), 0);
                push_str(&mut out, "`");
            },
        }
        assert(out@ =~= error_text(subst@, syms@, *self));
        out
    }
}

} // verus!

//! Semantic types, overloads and the substitution that unification fills.

use crate::hir::{Lab, TyVar};
use crate::list::List;
use vstd::prelude::*;

verus! {

/// A generated type name. A few are reserved for the built-in types.
#[derive(Debug, Clone, Copy, PartialEq, Eq, Structural, Hash)]
pub struct Sym {
    pub raw: u32,
}

pub const SYM_EXN: u32 = 0;

pub const SYM_INT: u32 = 1;

pub const SYM_WORD: u32 = 2;

pub const SYM_REAL: u32 = 3;

pub const SYM_CHAR: u32 = 4;

pub const SYM_STRING: u32 = 5;

pub const SYM_BOOL: u32 = 6;

pub const SYM_LIST: u32 = 7;

pub const SYM_REF: u32 = 8;

pub const SYM_VECTOR: u32 = 9;

/// A type that inference has yet to determine.
#[derive(Debug, Clone, Copy, PartialEq, Eq, Structural, Hash)]
pub struct MetaTyVar {
    pub id: u32,
}

/// A type variable that the program wrote: it stands for itself only.
#[derive(Debug)]
pub struct FixedTyVar {
    pub id: u32,
    pub ty_var: TyVar,
}

impl Clone for FixedTyVar {
    fn clone(&self) -> (r: Self)
        ensures
            r == *self,
    {
        FixedTyVar { id: self.id, ty_var: self.ty_var.clone() }
    }
}

impl FixedTyVar {
    /// Whether both are the same variable, written alike.
    pub open spec fn same(self, other: FixedTyVar) -> bool {
        self.id == other.id && self.ty_var@ == other.ty_var@
    }

    /// Whether both are the same variable, written alike.
    pub fn is_same(&self, other: &FixedTyVar) -> (r: bool)
        ensures
            r == self.same(*other),
    {
        self.id == other.id && self.ty_var.same(&other.ty_var)
    }
}

/// One of the five families of overloaded constants and operators.
#[derive(Debug, Clone, Copy, PartialEq, Eq, Structural, Hash)]
pub enum BasicOverload {
    Int,
    Real,
    Word,
    String,
    Char,
}

/// A union of basic overloads.
#[derive(Debug, Clone, Copy, PartialEq, Eq, Structural, Hash)]
pub enum CompositeOverload {
    WordInt,
    RealInt,
    Num,
    NumTxt,
}

/// A set of basic overloads that an overloaded type variable may resolve to.
#[derive(Debug, Clone, Copy, PartialEq, Eq, Structural, Hash)]
pub enum Overload {
    Basic(BasicOverload),
    Composite(CompositeOverload),
}

impl CompositeOverload {
    /// Whether `b` is one of the basic overloads of this union.
    pub open spec fn has(self, b: BasicOverload) -> bool {
        match self {
            CompositeOverload::WordInt => b == BasicOverload::Word || b == BasicOverload::Int,
            CompositeOverload::RealInt => b == BasicOverload::Real || b == BasicOverload::Int,
            CompositeOverload::Num => b == BasicOverload::Word || b == BasicOverload::Real || b
                == BasicOverload::Int,
            CompositeOverload::NumTxt => true,
        }
    }

    /// Whether `b` is one of the basic overloads of this union.
    pub fn contains(self, b: BasicOverload) -> (r: bool)
        ensures
            r == self.has(b),
    {
        match self {
            CompositeOverload::WordInt => b == BasicOverload::Word || b == BasicOverload::Int,
            CompositeOverload::RealInt => b == BasicOverload::Real || b == BasicOverload::Int,
            CompositeOverload::Num => b == BasicOverload::Word || b == BasicOverload::Real || b
                == BasicOverload::Int,
            CompositeOverload::NumTxt => true,
        }
    }
}

impl Overload {
    /// Whether `b` is in the set.
    pub open spec fn has(self, b: BasicOverload) -> bool {
        match self {
            Overload::Basic(x) => x == b,
            Overload::Composite(c) => c.has(b),
        }
    }

    /// Whether the two sets share no basic overload.
    pub open spec fn disjoint(self, other: Overload) -> bool {
        forall|b: BasicOverload| !(self.has(b) && other.has(b))
    }

    /// Whether `b` is in the set.
    pub fn contains(self, b: BasicOverload) -> (r: bool)
        ensures
            r == self.has(b),
    {
        match self {
            Overload::Basic(x) => x == b,
            Overload::Composite(c) => c.contains(b),
        }
    }

    /// The overload that holds exactly what both sets share, or nothing when
    /// they share nothing.
    pub open spec fn meet(self, other: Overload) -> Option<Overload> {
        let has_int = self.has(BasicOverload::Int) && other.has(BasicOverload::Int);
        let has_real = self.has(BasicOverload::Real) && other.has(BasicOverload::Real);
        let has_word = self.has(BasicOverload::Word) && other.has(BasicOverload::Word);
        let has_string = self.has(BasicOverload::String) && other.has(BasicOverload::String);
        let has_char = self.has(BasicOverload::Char) && other.has(BasicOverload::Char);
        if has_string && has_char {
            Some(Overload::Composite(CompositeOverload::NumTxt))
        } else if has_string {
            Some(Overload::Basic(BasicOverload::String))
        } else if has_char {
            Some(Overload::Basic(BasicOverload::Char))
        } else if has_int && has_real && has_word {
            Some(Overload::Composite(CompositeOverload::Num))
        } else if has_int && has_real {
            Some(Overload::Composite(CompositeOverload::RealInt))
        } else if has_int && has_word {
            Some(Overload::Composite(CompositeOverload::WordInt))
        } else if has_int {
            Some(Overload::Basic(BasicOverload::Int))
        } else if has_real {
            Some(Overload::Basic(BasicOverload::Real))
        } else if has_word {
            Some(Overload::Basic(BasicOverload::Word))
        } else {
            None
        }
    }

    /// The overload that holds exactly what both sets share, or nothing when
    /// they share nothing.
    pub fn unify(self, other: Overload) -> (r: Option<Overload>)
        ensures
            r == self.meet(other),
    {
        let has_int = self.contains(BasicOverload::Int) && other.contains(BasicOverload::Int);
        let has_real = self.contains(BasicOverload::Real) && other.contains(BasicOverload::Real);
        let has_word = self.contains(BasicOverload::Word) && other.contains(BasicOverload::Word);
        let has_string = self.contains(BasicOverload::String) && other.contains(
            BasicOverload::String,
        );
        let has_char = self.contains(BasicOverload::Char) && other.contains(BasicOverload::Char);
        if has_string && has_char {
            Some(Overload::Composite(CompositeOverload::NumTxt))
        } else if has_string {
            Some(Overload::Basic(BasicOverload::String))
        } else if has_char {
            Some(Overload::Basic(BasicOverload::Char))
        } else if has_int && has_real && has_word {
            Some(Overload::Composite(CompositeOverload::Num))
        } else if has_int && has_real {
            Some(Overload::Composite(CompositeOverload::RealInt))
        } else if has_int && has_word {
            Some(Overload::Composite(CompositeOverload::WordInt))
        } else if has_int {
            Some(Overload::Basic(BasicOverload::Int))
        } else if has_real {
            Some(Overload::Basic(BasicOverload::Real))
        } else if has_word {
            Some(Overload::Basic(BasicOverload::Word))
        } else {
            None
        }
    }
}

/// Overload fusion is the intersection: the meet of two overloads holds
/// exactly what both share, there is none exactly when they share nothing,
/// and it is the same from either side.
pub proof fn law_overload_fusion(a: Overload, b: Overload)
    ensures
        a.meet(b) is None <==> a.disjoint(b),
        a.meet(b) matches Some(o) ==> forall|x: BasicOverload|
            o.has(x) <==> a.has(x) && b.has(x),
        a.meet(b) == b.meet(a),
{
    let r = a.meet(b);
    if r is None {
        assert forall|x: BasicOverload| !(a.has(x) && b.has(x)) by {
            match x {
                BasicOverload::Int => {},
                BasicOverload::Real => {},
                BasicOverload::Word => {},
                BasicOverload::String => {},
                BasicOverload::Char => {},
            }
        }
    } else {
        let o = r->0;
        assert forall|x: BasicOverload| o.has(x) <==> a.has(x) && b.has(x) by {
            match x {
                BasicOverload::Int => {},
                BasicOverload::Real => {},
                BasicOverload::Word => {},
                BasicOverload::String => {},
                BasicOverload::Char => {},
            }
        }
        if a.disjoint(b) {
            assert(!(a.has(BasicOverload::Int) && b.has(BasicOverload::Int)));
            assert(!(a.has(BasicOverload::Real) && b.has(BasicOverload::Real)));
            assert(!(a.has(BasicOverload::Word) && b.has(BasicOverload::Word)));
            assert(!(a.has(BasicOverload::String) && b.has(BasicOverload::String)));
            assert(!(a.has(BasicOverload::Char) && b.has(BasicOverload::Char)));
        }
    }
}

/// What is known of a type variable that has no solution.
#[derive(Debug, Clone, Copy, PartialEq, Eq, Structural)]
pub enum TyVarKind {
    /// Nothing.
    Regular,
    /// It stands for an equality type.
    Equality,
    /// It stands for one of the types of an overload.
    Overloaded(Overload),
}

/// A semantic type.
#[derive(Debug)]
pub enum Ty {
    /// No type is known, because of an earlier error. It unifies with
    /// everything.
    Unknown,
    /// A variable bound by the type scheme around it, by position.
    BoundVar(u32),
    MetaVar(MetaTyVar),
    FixedVar(FixedTyVar),
    Record(Box<List<(Lab, Ty)>>),
    Con(Box<List<Ty>>, Sym),
    Fn(Box<Ty>, Box<Ty>),
}

/// A type with the kinds of the variables it binds.
#[derive(Debug)]
pub struct TyScheme {
    pub bound_vars: List<TyVarKind>,
    pub ty: Ty,
}

/// What a substitution holds for a meta variable.
#[derive(Debug)]
pub enum SubstEntry {
    Solved(Ty),
    Kind(TyVarKind),
}

impl Clone for Ty {
    fn clone(&self) -> (r: Self)
        ensures
            r == *self,
        decreases *self,
    {
        match self {
            Ty::Unknown => Ty::Unknown,
            Ty::BoundVar(i) => Ty::BoundVar(*i),
            Ty::MetaVar(mv) => Ty::MetaVar(*mv),
            Ty::FixedVar(fv) => Ty::FixedVar(fv.clone()),
            Ty::Record(rows) => Ty::Record(Box::new(clone_rows(rows))),
            Ty::Con(args, sym) => Ty::Con(Box::new(clone_tys(args)), *sym),
            Ty::Fn(param, res) => Ty::Fn(Box::new((**param).clone()), Box::new((**res).clone())),
        }
    }
}

/// A copy of a list of types.
pub fn clone_tys(tys: &List<Ty>) -> (r: List<Ty>)
    ensures
        r == *tys,
    decreases *tys,
{
    match tys {
        List::Nil => List::Nil,
        List::Cons(h, t) => List::Cons(h.clone(), Box::new(clone_tys(t))),
    }
}

/// A copy of the rows of a record type.
pub fn clone_rows(rows: &List<(Lab, Ty)>) -> (r: List<(Lab, Ty)>)
    ensures
        r == *rows,
    decreases *rows,
{
    match rows {
        List::Nil => List::Nil,
        List::Cons(h, t) => List::Cons((h.0.clone(), h.1.clone()), Box::new(clone_rows(t))),
    }
}

impl Clone for TyScheme {
    fn clone(&self) -> (r: Self)
        ensures
            r == *self,
    {
        TyScheme { bound_vars: clone_kinds(&self.bound_vars), ty: self.ty.clone() }
    }
}

/// A copy of a list of kinds.
pub fn clone_kinds(kinds: &List<TyVarKind>) -> (r: List<TyVarKind>)
    ensures
        r == *kinds,
    decreases *kinds,
{
    match kinds {
        List::Nil => List::Nil,
        List::Cons(h, t) => List::Cons(*h, Box::new(clone_kinds(t))),
    }
}

impl TyScheme {
    /// The scheme that binds nothing.
    pub fn zero(ty: Ty) -> (r: TyScheme)
        ensures
            r == (TyScheme { bound_vars: List::Nil, ty }),
    {
        TyScheme { bound_vars: List::Nil, ty }
    }
}

impl Clone for SubstEntry {
    fn clone(&self) -> (r: Self)
        ensures
            r == *self,
    {
        match self {
            SubstEntry::Solved(t) => SubstEntry::Solved(t.clone()),
            SubstEntry::Kind(k) => SubstEntry::Kind(*k),
        }
    }
}

/// Whether the meta variable occurs in the type.
pub open spec fn occurs(mv: MetaTyVar, ty: Ty) -> bool
    decreases ty,
{
    match ty {
        Ty::Unknown | Ty::BoundVar(_) | Ty::FixedVar(_) => false,
        Ty::MetaVar(mv2) => mv == mv2,
        Ty::Record(rows) => occurs_rows(mv, *rows),
        Ty::Con(args, _) => occurs_tys(mv, *args),
        Ty::Fn(param, res) => occurs(mv, *param) || occurs(mv, *res),
    }
}

/// Whether the meta variable occurs in one of the types.
pub open spec fn occurs_tys(mv: MetaTyVar, tys: List<Ty>) -> bool
    decreases tys,
{
    match tys {
        List::Nil => false,
        List::Cons(h, t) => occurs(mv, h) || occurs_tys(mv, *t),
    }
}

/// Whether the meta variable occurs in the type of one of the rows.
pub open spec fn occurs_rows(mv: MetaTyVar, rows: List<(Lab, Ty)>) -> bool
    decreases rows,
{
    match rows {
        List::Nil => false,
        List::Cons(h, t) => occurs(mv, h.1) || occurs_rows(mv, *t),
    }
}

/// Whether the type holds `Unknown` anywhere.
pub open spec fn has_unknown(ty: Ty) -> bool
    decreases ty,
{
    match ty {
        Ty::Unknown => true,
        Ty::BoundVar(_) | Ty::FixedVar(_) | Ty::MetaVar(_) => false,
        Ty::Record(rows) => has_unknown_rows(*rows),
        Ty::Con(args, _) => has_unknown_tys(*args),
        Ty::Fn(param, res) => has_unknown(*param) || has_unknown(*res),
    }
}

pub open spec fn has_unknown_tys(tys: List<Ty>) -> bool
    decreases tys,
{
    match tys {
        List::Nil => false,
        List::Cons(h, t) => has_unknown(h) || has_unknown_tys(*t),
    }
}

pub open spec fn has_unknown_rows(rows: List<(Lab, Ty)>) -> bool
    decreases rows,
{
    match rows {
        List::Nil => false,
        List::Cons(h, t) => has_unknown(h.1) || has_unknown_rows(*t),
    }
}

/// Whether the rows stand in the order of their labels, each label once:
/// the invariant of the rows of a record, which stand in a list here where
/// a map by label would keep them.
pub open spec fn rows_in_order<T>(rows: List<(Lab, T)>) -> bool
    decreases rows,
{
    match rows {
        List::Nil => true,
        List::Cons(h, t) => (match *t {
            List::Nil => true,
            List::Cons(next, _) => crate::hir::lab_less(h.0@, next.0@),
        }) && rows_in_order(*t),
    }
}

/// Whether every record type in the type has its rows in order.
pub open spec fn records_in_order(ty: Ty) -> bool
    decreases ty,
{
    match ty {
        Ty::Unknown | Ty::BoundVar(_) | Ty::FixedVar(_) | Ty::MetaVar(_) => true,
        Ty::Record(rows) => rows_in_order(*rows) && records_in_order_rows(*rows),
        Ty::Con(args, _) => records_in_order_tys(*args),
        Ty::Fn(param, res) => records_in_order(*param) && records_in_order(*res),
    }
}

pub open spec fn records_in_order_tys(tys: List<Ty>) -> bool
    decreases tys,
{
    match tys {
        List::Nil => true,
        List::Cons(h, t) => records_in_order(h) && records_in_order_tys(*t),
    }
}

pub open spec fn records_in_order_rows(rows: List<(Lab, Ty)>) -> bool
    decreases rows,
{
    match rows {
        List::Nil => true,
        List::Cons(h, t) => records_in_order(h.1) && records_in_order_rows(*t),
    }
}

/// Whether the type holds a bound variable: whether it is the type of a
/// scheme that was not instantiated.
pub open spec fn has_bound(ty: Ty) -> bool
    decreases ty,
{
    match ty {
        Ty::BoundVar(_) => true,
        Ty::Unknown | Ty::FixedVar(_) | Ty::MetaVar(_) => false,
        Ty::Record(rows) => has_bound_rows(*rows),
        Ty::Con(args, _) => has_bound_tys(*args),
        Ty::Fn(param, res) => has_bound(*param) || has_bound(*res),
    }
}

pub open spec fn has_bound_tys(tys: List<Ty>) -> bool
    decreases tys,
{
    match tys {
        List::Nil => false,
        List::Cons(h, t) => has_bound(h) || has_bound_tys(*t),
    }
}

pub open spec fn has_bound_rows(rows: List<(Lab, Ty)>) -> bool
    decreases rows,
{
    match rows {
        List::Nil => false,
        List::Cons(h, t) => has_bound(h.1) || has_bound_rows(*t),
    }
}

/// Whether the type holds no meta variable.
pub open spec fn ground(ty: Ty) -> bool
    decreases ty,
{
    match ty {
        Ty::MetaVar(_) => false,
        Ty::Unknown | Ty::BoundVar(_) | Ty::FixedVar(_) => true,
        Ty::Record(rows) => ground_rows(*rows),
        Ty::Con(args, _) => ground_tys(*args),
        Ty::Fn(param, res) => ground(*param) && ground(*res),
    }
}

pub open spec fn ground_tys(tys: List<Ty>) -> bool
    decreases tys,
{
    match tys {
        List::Nil => true,
        List::Cons(h, t) => ground(h) && ground_tys(*t),
    }
}

pub open spec fn ground_rows(rows: List<(Lab, Ty)>) -> bool
    decreases rows,
{
    match rows {
        List::Nil => true,
        List::Cons(h, t) => ground(h.1) && ground_rows(*t),
    }
}

/// Applying entries to a type without meta variables changes nothing.
pub proof fn lemma_apply_ground(s: Entries, ty: Ty)
    requires
        ground(ty),
    ensures
        apply(s, ty) == ty,
    decreases ty,
{
    match ty {
        Ty::Record(rows) => lemma_apply_ground_rows(s, *rows),
        Ty::Con(args, _) => lemma_apply_ground_tys(s, *args),
        Ty::Fn(param, res) => {
            lemma_apply_ground(s, *param);
            lemma_apply_ground(s, *res);
        },
        _ => {},
    }
}

pub proof fn lemma_apply_ground_tys(s: Entries, tys: List<Ty>)
    requires
        ground_tys(tys),
    ensures
        apply_tys(s, tys) == tys,
    decreases tys,
{
    match tys {
        List::Nil => {},
        List::Cons(h, t) => {
            lemma_apply_ground(s, h);
            lemma_apply_ground_tys(s, *t);
        },
    }
}

pub proof fn lemma_apply_ground_rows(s: Entries, rows: List<(Lab, Ty)>)
    requires
        ground_rows(rows),
    ensures
        apply_rows(s, rows) == rows,
    decreases rows,
{
    match rows {
        List::Nil => {},
        List::Cons(h, t) => {
            lemma_apply_ground(s, h.1);
            lemma_apply_ground_rows(s, *t);
        },
    }
}

/// An unsolved meta variable that occurs in a type still occurs in it after
/// the entries were applied.
pub proof fn lemma_occurs_survives_apply(s: Entries, mv: MetaTyVar, ty: Ty)
    requires
        !is_solved(s, mv),
        occurs(mv, ty),
    ensures
        occurs(mv, apply(s, ty)),
    decreases ty,
{
    match ty {
        Ty::Record(rows) => lemma_occurs_survives_apply_rows(s, mv, *rows),
        Ty::Con(args, _) => lemma_occurs_survives_apply_tys(s, mv, *args),
        Ty::Fn(param, res) => {
            if occurs(mv, *param) {
                lemma_occurs_survives_apply(s, mv, *param);
            } else {
                lemma_occurs_survives_apply(s, mv, *res);
            }
        },
        _ => {},
    }
}

pub proof fn lemma_occurs_survives_apply_tys(s: Entries, mv: MetaTyVar, tys: List<Ty>)
    requires
        !is_solved(s, mv),
        occurs_tys(mv, tys),
    ensures
        occurs_tys(mv, apply_tys(s, tys)),
    decreases tys,
{
    match tys {
        List::Nil => {},
        List::Cons(h, t) => {
            if occurs(mv, h) {
                lemma_occurs_survives_apply(s, mv, h);
            } else {
                lemma_occurs_survives_apply_tys(s, mv, *t);
            }
        },
    }
}

pub proof fn lemma_occurs_survives_apply_rows(s: Entries, mv: MetaTyVar, rows: List<(Lab, Ty)>)
    requires
        !is_solved(s, mv),
        occurs_rows(mv, rows),
    ensures
        occurs_rows(mv, apply_rows(s, rows)),
    decreases rows,
{
    match rows {
        List::Nil => {},
        List::Cons(h, t) => {
            if occurs(mv, h.1) {
                lemma_occurs_survives_apply(s, mv, h.1);
            } else {
                lemma_occurs_survives_apply_rows(s, mv, *t);
            }
        },
    }
}

/// Whether the meta variable occurs in the type.
pub fn occurs_in(mv: MetaTyVar, ty: &Ty) -> (r: bool)
    ensures
        r == occurs(mv, *ty),
    decreases *ty,
{
    match ty {
        Ty::Unknown | Ty::BoundVar(_) | Ty::FixedVar(_) => false,
        Ty::MetaVar(mv2) => mv == *mv2,
        Ty::Record(rows) => occurs_in_rows(mv, rows),
        Ty::Con(args, _) => occurs_in_tys(mv, args),
        Ty::Fn(param, res) => occurs_in(mv, param) || occurs_in(mv, res),
    }
}

fn occurs_in_tys(mv: MetaTyVar, tys: &List<Ty>) -> (r: bool)
    ensures
        r == occurs_tys(mv, *tys),
    decreases *tys,
{
    match tys {
        List::Nil => false,
        List::Cons(h, t) => occurs_in(mv, h) || occurs_in_tys(mv, t),
    }
}

fn occurs_in_rows(mv: MetaTyVar, rows: &List<(Lab, Ty)>) -> (r: bool)
    ensures
        r == occurs_rows(mv, *rows),
    decreases *rows,
{
    match rows {
        List::Nil => false,
        List::Cons(h, t) => occurs_in(mv, &h.1) || occurs_in_rows(mv, t),
    }
}

/// The entries of a substitution, by the number of the meta variable. A
/// variable beyond the end has no entry.
pub type Entries = Seq<Option<SubstEntry>>;

/// The entry of a meta variable.
pub open spec fn lookup(s: Entries, mv: MetaTyVar) -> Option<SubstEntry> {
    if (mv.id as int) < s.len() {
        s[mv.id as int]
    } else {
        None
    }
}

/// Whether the meta variable has a solution.
pub open spec fn is_solved(s: Entries, mv: MetaTyVar) -> bool {
    lookup(s, mv) is Some && lookup(s, mv)->0 is Solved
}

/// The entries with the entry of `mv` set to `e`, grown as far as needed.
pub open spec fn set_entry(s: Entries, mv: MetaTyVar, e: Option<SubstEntry>) -> Entries {
    if (mv.id as int) < s.len() {
        s.update(mv.id as int, e)
    } else {
        (s + Seq::new((mv.id - s.len()) as nat, |i: int| None::<SubstEntry>)).push(e)
    }
}

/// The type with every solved meta variable replaced by its solution.
pub open spec fn apply(s: Entries, ty: Ty) -> Ty
    decreases ty,
{
    match ty {
        Ty::Unknown | Ty::BoundVar(_) | Ty::FixedVar(_) => ty,
        Ty::MetaVar(mv) => match lookup(s, mv) {
            Some(SubstEntry::Solved(t)) => t,
            _ => ty,
        },
        Ty::Record(rows) => Ty::Record(Box::new(apply_rows(s, *rows))),
        Ty::Con(args, sym) => Ty::Con(Box::new(apply_tys(s, *args)), sym),
        Ty::Fn(param, res) => Ty::Fn(Box::new(apply(s, *param)), Box::new(apply(s, *res))),
    }
}

pub open spec fn apply_tys(s: Entries, tys: List<Ty>) -> List<Ty>
    decreases tys,
{
    match tys {
        List::Nil => List::Nil,
        List::Cons(h, t) => List::Cons(apply(s, h), Box::new(apply_tys(s, *t))),
    }
}

pub open spec fn apply_rows(s: Entries, rows: List<(Lab, Ty)>) -> List<(Lab, Ty)>
    decreases rows,
{
    match rows {
        List::Nil => List::Nil,
        List::Cons(h, t) => List::Cons((h.0, apply(s, h.1)), Box::new(apply_rows(s, *t))),
    }
}

/// The type with the meta variable `mv` replaced by `by`.
pub open spec fn replace(ty: Ty, mv: MetaTyVar, by: Ty) -> Ty
    decreases ty,
{
    match ty {
        Ty::Unknown | Ty::BoundVar(_) | Ty::FixedVar(_) => ty,
        Ty::MetaVar(mv2) => if mv2 == mv {
            by
        } else {
            ty
        },
        Ty::Record(rows) => Ty::Record(Box::new(replace_rows(*rows, mv, by))),
        Ty::Con(args, sym) => Ty::Con(Box::new(replace_tys(*args, mv, by)), sym),
        Ty::Fn(param, res) => Ty::Fn(
            Box::new(replace(*param, mv, by)),
            Box::new(replace(*res, mv, by)),
        ),
    }
}

pub open spec fn replace_tys(tys: List<Ty>, mv: MetaTyVar, by: Ty) -> List<Ty>
    decreases tys,
{
    match tys {
        List::Nil => List::Nil,
        List::Cons(h, t) => List::Cons(replace(h, mv, by), Box::new(replace_tys(*t, mv, by))),
    }
}

pub open spec fn replace_rows(rows: List<(Lab, Ty)>, mv: MetaTyVar, by: Ty) -> List<(Lab, Ty)>
    decreases rows,
{
    match rows {
        List::Nil => List::Nil,
        List::Cons(h, t) => List::Cons(
            (h.0, replace(h.1, mv, by)),
            Box::new(replace_rows(*t, mv, by)),
        ),
    }
}

/// The entry with `mv` replaced by `by` in its solution, if it has one.
pub open spec fn replace_entry(e: Option<SubstEntry>, mv: MetaTyVar, by: Ty) -> Option<
    SubstEntry,
> {
    match e {
        Some(SubstEntry::Solved(t)) => Some(SubstEntry::Solved(replace(t, mv, by))),
        _ => e,
    }
}

/// The entries after `mv` is solved to `by`: `by` takes the place of `mv` in
/// every solution, and becomes the solution of `mv`.
pub open spec fn bind(s: Entries, mv: MetaTyVar, by: Ty) -> Entries {
    set_entry(
        Seq::new(s.len(), |i: int| replace_entry(s[i], mv, by)),
        mv,
        Some(SubstEntry::Solved(by)),
    )
}

/// Whether no solved meta variable occurs in the type.
pub open spec fn no_solved(s: Entries, ty: Ty) -> bool {
    forall|mv: MetaTyVar| occurs(mv, ty) ==> !is_solved(s, mv)
}

/// Whether the entries are well formed: no solution mentions a solved meta
/// variable, and no entry lies beyond the numbers that a meta variable can
/// have.
pub open spec fn entries_wf(s: Entries) -> bool {
    &&& s.len() <= 0x1_0000_0000
    &&& forall|i: int|
        0 <= i < s.len() && #[trigger] s[i] is Some && s[i]->0 is Solved ==> no_solved(
            s,
            s[i]->0->Solved_0,
        )
}

/// The meta variables' solutions and kinds.
#[derive(Debug)]
pub struct Subst {
    entries: Vec<Option<SubstEntry>>,
}

impl View for Subst {
    type V = Entries;

    closed spec fn view(&self) -> Entries {
        self.entries@
    }
}

impl Subst {
    /// Whether the substitution is well formed.
    pub open spec fn wf(&self) -> bool {
        entries_wf(self@)
    }

    /// The substitution without entries.
    pub fn new() -> (r: Subst)
        ensures
            r@ == Seq::<Option<SubstEntry>>::empty(),
            r.wf(),
    {
        Subst { entries: Vec::new() }
    }

    /// The entry of a meta variable.
    pub fn get(&self, mv: MetaTyVar) -> (r: Option<&SubstEntry>)
        ensures
            match r {
                Some(e) => lookup(self@, mv) == Some(*e),
                None => lookup(self@, mv) is None,
            },
    {
        if (mv.id as usize) < self.entries.len() {
            self.entries[mv.id as usize].as_ref()
        } else {
            None
        }
    }

    fn put(&mut self, mv: MetaTyVar, e: Option<SubstEntry>)
        requires
            old(self)@.len() <= 0x1_0000_0000,
        ensures
            final(self)@ == set_entry(old(self)@, mv, e),
            final(self)@.len() <= 0x1_0000_0000,
    {
        let i = mv.id as usize;
        if i < self.entries.len() {
            self.entries.set(i, e);
        } else {
            while self.entries.len() < i
                invariant
                    old(self)@.len() <= self.entries.len() <= i,
                    i == mv.id,
                    self.entries@ == old(self)@ + Seq::new(
                        (self.entries.len() - old(self)@.len()) as nat,
                        |j: int| None::<SubstEntry>,
                    ),
                decreases i - self.entries.len(),
            {
                self.entries.push(None);
                assert(self.entries@ =~= old(self)@ + Seq::new(
                    (self.entries.len() - old(self)@.len()) as nat,
                    |j: int| None::<SubstEntry>,
                ));
            }
            self.entries.push(e);
        }
    }

    /// Records the kind of a meta variable that has no solution.
    pub fn set_kind(&mut self, mv: MetaTyVar, kind: TyVarKind)
        requires
            old(self).wf(),
            !is_solved(old(self)@, mv),
        ensures
            final(self)@ == set_entry(old(self)@, mv, Some(SubstEntry::Kind(kind))),
            final(self).wf(),
    {
        self.put(mv, Some(SubstEntry::Kind(kind)));
        proof {
            lemma_set_kind_wf(old(self)@, mv, kind);
        }
    }

    /// The type with every solved meta variable replaced by its solution.
    pub fn apply(&self, ty: &Ty) -> (r: Ty)
        ensures
            r == apply(self@, *ty),
        decreases *ty,
    {
        match ty {
            Ty::Unknown => Ty::Unknown,
            Ty::BoundVar(i) => Ty::BoundVar(*i),
            Ty::FixedVar(fv) => Ty::FixedVar(fv.clone()),
            Ty::MetaVar(mv) => match self.get(*mv) {
                Some(SubstEntry::Solved(t)) => t.clone(),
                _ => Ty::MetaVar(*mv),
            },
            Ty::Record(rows) => Ty::Record(Box::new(self.apply_rows(rows))),
            Ty::Con(args, sym) => Ty::Con(Box::new(self.apply_tys(args)), *sym),
            Ty::Fn(param, res) => Ty::Fn(
                Box::new(self.apply(param)),
                Box::new(self.apply(res)),
            ),
        }
    }

    fn apply_tys(&self, tys: &List<Ty>) -> (r: List<Ty>)
        ensures
            r == apply_tys(self@, *tys),
        decreases *tys,
    {
        match tys {
            List::Nil => List::Nil,
            List::Cons(h, t) => List::Cons(self.apply(h), Box::new(self.apply_tys(t))),
        }
    }

    fn apply_rows(&self, rows: &List<(Lab, Ty)>) -> (r: List<(Lab, Ty)>)
        ensures
            r == apply_rows(self@, *rows),
        decreases *rows,
    {
        match rows {
            List::Nil => List::Nil,
            List::Cons(h, t) => List::Cons(
                (h.0.clone(), self.apply(&h.1)),
                Box::new(self.apply_rows(t)),
            ),
        }
    }

    /// Solves `mv` to `by`: `by` takes the place of `mv` in every solution,
    /// and becomes the solution of `mv`.
    pub fn bind(&mut self, mv: MetaTyVar, by: Ty)
        requires
            old(self).wf(),
            !is_solved(old(self)@, mv),
            no_solved(old(self)@, by),
            !occurs(mv, by),
        ensures
            final(self)@ == bind(old(self)@, mv, by),
            final(self).wf(),
    {
        let n = self.entries.len();
        let mut i: usize = 0;
        while i < n
            invariant
                i <= n,
                n == self.entries.len(),
                n == old(self)@.len(),
                forall|j: int| 0 <= j < i ==> self.entries@[j] == replace_entry(old(self)@[j], mv, by),
                forall|j: int| i <= j < n ==> self.entries@[j] == old(self)@[j],
            decreases n - i,
        {
            let next = match &self.entries[i] {
                Some(SubstEntry::Solved(t)) => Some(replace_in(t, mv, &by)),
                _ => None,
            };
            match next {
                Some(t) => {
                    self.entries.set(i, Some(SubstEntry::Solved(t)));
                },
                None => {},
            }
            i += 1;
        }
        assert(self.entries@ =~= Seq::new(
            old(self)@.len(),
            |i: int| replace_entry(old(self)@[i], mv, by),
        ));
        proof {
            lemma_bind_wf(old(self)@, mv, by);
        }
        self.put(mv, Some(SubstEntry::Solved(by)));
    }
}

/// The type with the meta variable `mv` replaced by `by`.
pub fn replace_in(ty: &Ty, mv: MetaTyVar, by: &Ty) -> (r: Ty)
    ensures
        r == replace(*ty, mv, *by),
    decreases *ty,
{
    match ty {
        Ty::Unknown => Ty::Unknown,
        Ty::BoundVar(i) => Ty::BoundVar(*i),
        Ty::FixedVar(fv) => Ty::FixedVar(fv.clone()),
        Ty::MetaVar(mv2) => if *mv2 == mv {
            by.clone()
        } else {
            Ty::MetaVar(*mv2)
        },
        Ty::Record(rows) => Ty::Record(Box::new(replace_in_rows(rows, mv, by))),
        Ty::Con(args, sym) => Ty::Con(Box::new(replace_in_tys(args, mv, by)), *sym),
        Ty::Fn(param, res) => Ty::Fn(
            Box::new(replace_in(param, mv, by)),
            Box::new(replace_in(res, mv, by)),
        ),
    }
}

fn replace_in_tys(tys: &List<Ty>, mv: MetaTyVar, by: &Ty) -> (r: List<Ty>)
    ensures
        r == replace_tys(*tys, mv, *by),
    decreases *tys,
{
    match tys {
        List::Nil => List::Nil,
        List::Cons(h, t) => List::Cons(replace_in(h, mv, by), Box::new(replace_in_tys(t, mv, by))),
    }
}

fn replace_in_rows(rows: &List<(Lab, Ty)>, mv: MetaTyVar, by: &Ty) -> (r: List<(Lab, Ty)>)
    ensures
        r == replace_rows(*rows, mv, *by),
    decreases *rows,
{
    match rows {
        List::Nil => List::Nil,
        List::Cons(h, t) => List::Cons(
            (h.0.clone(), replace_in(&h.1, mv, by)),
            Box::new(replace_in_rows(t, mv, by)),
        ),
    }
}

/// A meta variable that occurs after a replacement occurred before it, and
/// is not the replaced one, or occurs in what took its place.
pub proof fn lemma_replace_occurs(ty: Ty, mv: MetaTyVar, by: Ty, m: MetaTyVar)
    requires
        occurs(m, replace(ty, mv, by)),
    ensures
        (occurs(m, ty) && m != mv) || occurs(m, by),
    decreases ty,
{
    match ty {
        Ty::Record(rows) => lemma_replace_occurs_rows(*rows, mv, by, m),
        Ty::Con(args, _) => lemma_replace_occurs_tys(*args, mv, by, m),
        Ty::Fn(param, res) => {
            if occurs(m, replace(*param, mv, by)) {
                lemma_replace_occurs(*param, mv, by, m);
            } else {
                lemma_replace_occurs(*res, mv, by, m);
            }
        },
        _ => {},
    }
}

pub proof fn lemma_replace_occurs_tys(tys: List<Ty>, mv: MetaTyVar, by: Ty, m: MetaTyVar)
    requires
        occurs_tys(m, replace_tys(tys, mv, by)),
    ensures
        (occurs_tys(m, tys) && m != mv) || occurs(m, by),
    decreases tys,
{
    match tys {
        List::Nil => {},
        List::Cons(h, t) => {
            if occurs(m, replace(h, mv, by)) {
                lemma_replace_occurs(h, mv, by, m);
            } else {
                lemma_replace_occurs_tys(*t, mv, by, m);
            }
        },
    }
}

pub proof fn lemma_replace_occurs_rows(rows: List<(Lab, Ty)>, mv: MetaTyVar, by: Ty, m: MetaTyVar)
    requires
        occurs_rows(m, replace_rows(rows, mv, by)),
    ensures
        (occurs_rows(m, rows) && m != mv) || occurs(m, by),
    decreases rows,
{
    match rows {
        List::Nil => {},
        List::Cons(h, t) => {
            if occurs(m, replace(h.1, mv, by)) {
                lemma_replace_occurs(h.1, mv, by, m);
            } else {
                lemma_replace_occurs_rows(*t, mv, by, m);
            }
        },
    }
}

/// What `lookup` finds after `set_entry`.
pub proof fn lemma_lookup_set_entry(s: Entries, mv: MetaTyVar, e: Option<SubstEntry>, m: MetaTyVar)
    ensures
        lookup(set_entry(s, mv, e), m) == (if m == mv {
            e
        } else {
            lookup(s, m)
        }),
{
}

/// What `lookup` finds after `bind`.
pub proof fn lemma_lookup_bind(s: Entries, mv: MetaTyVar, by: Ty, m: MetaTyVar)
    ensures
        lookup(bind(s, mv, by), m) == (if m == mv {
            Some(SubstEntry::Solved(by))
        } else {
            replace_entry(lookup(s, m), mv, by)
        }),
        is_solved(bind(s, mv, by), m) == (m == mv || is_solved(s, m)),
{
    let mid = Seq::new(s.len(), |i: int| replace_entry(s[i], mv, by));
    lemma_lookup_set_entry(mid, mv, Some(SubstEntry::Solved(by)), m);
}

/// Solving an unsolved meta variable to a type that holds neither it nor a
/// solved one keeps the entries well formed.
pub proof fn lemma_bind_wf(s: Entries, mv: MetaTyVar, by: Ty)
    requires
        entries_wf(s),
        !is_solved(s, mv),
        no_solved(s, by),
        !occurs(mv, by),
    ensures
        entries_wf(bind(s, mv, by)),
{
    let s2 = bind(s, mv, by);
    assert forall|m: MetaTyVar| is_solved(s2, m) == (m == mv || is_solved(s, m)) by {
        lemma_lookup_bind(s, mv, by, m);
    }
    assert(no_solved(s2, by));
    assert forall|i: int| 0 <= i < s2.len() && #[trigger] s2[i] is Some && s2[i]->0 is Solved
        implies no_solved(s2, s2[i]->0->Solved_0) by {
        let mi = MetaTyVar { id: i as u32 };
        lemma_lookup_bind(s, mv, by, mi);
        assert(lookup(s2, mi) == s2[i]);
        if mi != mv {
            assert(i < s.len());
            assert(s[i] is Some && s[i]->0 is Solved);
            let t = s[i]->0->Solved_0;
            assert(no_solved(s, t));
            assert forall|m: MetaTyVar| occurs(m, replace(t, mv, by)) implies !is_solved(
                s2,
                m,
            ) by {
                lemma_replace_occurs(t, mv, by, m);
            }
        }
    }
}

/// Applying well-formed entries leaves no solved meta variable in the type.
pub proof fn lemma_apply_no_solved(s: Entries, ty: Ty)
    requires
        entries_wf(s),
    ensures
        no_solved(s, apply(s, ty)),
    decreases ty,
{
    assert forall|m: MetaTyVar| occurs(m, apply(s, ty)) implies !is_solved(s, m) by {
        lemma_apply_occurs(s, ty, m);
    }
}

pub proof fn lemma_apply_occurs(s: Entries, ty: Ty, m: MetaTyVar)
    requires
        entries_wf(s),
        occurs(m, apply(s, ty)),
    ensures
        !is_solved(s, m),
    decreases ty,
{
    match ty {
        Ty::MetaVar(mv) => {
            if is_solved(s, mv) {
                assert(s[mv.id as int] is Some);
                assert(no_solved(s, s[mv.id as int]->0->Solved_0));
            }
        },
        Ty::Record(rows) => lemma_apply_occurs_rows(s, *rows, m),
        Ty::Con(args, _) => lemma_apply_occurs_tys(s, *args, m),
        Ty::Fn(param, res) => {
            if occurs(m, apply(s, *param)) {
                lemma_apply_occurs(s, *param, m);
            } else {
                lemma_apply_occurs(s, *res, m);
            }
        },
        _ => {},
    }
}

pub proof fn lemma_apply_occurs_tys(s: Entries, tys: List<Ty>, m: MetaTyVar)
    requires
        entries_wf(s),
        occurs_tys(m, apply_tys(s, tys)),
    ensures
        !is_solved(s, m),
    decreases tys,
{
    match tys {
        List::Nil => {},
        List::Cons(h, t) => {
            if occurs(m, apply(s, h)) {
                lemma_apply_occurs(s, h, m);
            } else {
                lemma_apply_occurs_tys(s, *t, m);
            }
        },
    }
}

pub proof fn lemma_apply_occurs_rows(s: Entries, rows: List<(Lab, Ty)>, m: MetaTyVar)
    requires
        entries_wf(s),
        occurs_rows(m, apply_rows(s, rows)),
    ensures
        !is_solved(s, m),
    decreases rows,
{
    match rows {
        List::Nil => {},
        List::Cons(h, t) => {
            if occurs(m, apply(s, h.1)) {
                lemma_apply_occurs(s, h.1, m);
            } else {
                lemma_apply_occurs_rows(s, *t, m);
            }
        },
    }
}

/// A kind for an unsolved meta variable keeps the entries well formed.
pub proof fn lemma_set_kind_wf(s: Entries, mv: MetaTyVar, kind: TyVarKind)
    requires
        entries_wf(s),
        !is_solved(s, mv),
    ensures
        entries_wf(set_entry(s, mv, Some(SubstEntry::Kind(kind)))),
{
    let s2 = set_entry(s, mv, Some(SubstEntry::Kind(kind)));
    assert forall|m: MetaTyVar| is_solved(s2, m) implies is_solved(s, m) by {}
    assert forall|i: int| 0 <= i < s2.len() && #[trigger] s2[i] is Some && s2[i]->0 is Solved
        implies no_solved(s2, s2[i]->0->Solved_0) by {
        assert(i < s.len() && s[i] == s2[i]);
        assert(no_solved(s, s[i]->0->Solved_0));
    }
}

/// `apply` reads the solutions only: entries that agree on them apply alike.
pub proof fn lemma_apply_same_solutions(s1: Entries, s2: Entries, ty: Ty)
    requires
        forall|mv: MetaTyVar|
            (is_solved(s1, mv) || is_solved(s2, mv)) ==> lookup(s1, mv) == lookup(s2, mv),
    ensures
        apply(s1, ty) == apply(s2, ty),
    decreases ty,
{
    match ty {
        Ty::MetaVar(mv) => {
            assert((is_solved(s1, mv) || is_solved(s2, mv)) ==> lookup(s1, mv) == lookup(s2, mv));
        },
        Ty::Record(rows) => lemma_apply_rows_same_solutions(s1, s2, *rows),
        Ty::Con(args, _) => lemma_apply_tys_same_solutions(s1, s2, *args),
        Ty::Fn(param, res) => {
            lemma_apply_same_solutions(s1, s2, *param);
            lemma_apply_same_solutions(s1, s2, *res);
        },
        _ => {},
    }
}

pub proof fn lemma_apply_tys_same_solutions(s1: Entries, s2: Entries, tys: List<Ty>)
    requires
        forall|mv: MetaTyVar|
            (is_solved(s1, mv) || is_solved(s2, mv)) ==> lookup(s1, mv) == lookup(s2, mv),
    ensures
        apply_tys(s1, tys) == apply_tys(s2, tys),
    decreases tys,
{
    match tys {
        List::Nil => {},
        List::Cons(h, t) => {
            lemma_apply_same_solutions(s1, s2, h);
            lemma_apply_tys_same_solutions(s1, s2, *t);
        },
    }
}

pub proof fn lemma_apply_rows_same_solutions(s1: Entries, s2: Entries, rows: List<(Lab, Ty)>)
    requires
        forall|mv: MetaTyVar|
            (is_solved(s1, mv) || is_solved(s2, mv)) ==> lookup(s1, mv) == lookup(s2, mv),
    ensures
        apply_rows(s1, rows) == apply_rows(s2, rows),
    decreases rows,
{
    match rows {
        List::Nil => {},
        List::Cons(h, t) => {
            lemma_apply_same_solutions(s1, s2, h.1);
            lemma_apply_rows_same_solutions(s1, s2, *t);
        },
    }
}

/// A kind for an unsolved meta variable changes neither which variables are
/// solved nor what `apply` gives.
pub proof fn lemma_set_kind_apply(s: Entries, mv: MetaTyVar, kind: TyVarKind)
    requires
        !is_solved(s, mv),
    ensures
        forall|t: Ty| apply(set_entry(s, mv, Some(SubstEntry::Kind(kind))), t) == apply(s, t),
        forall|m: MetaTyVar|
            is_solved(set_entry(s, mv, Some(SubstEntry::Kind(kind))), m) == is_solved(s, m),
{
    let s2 = set_entry(s, mv, Some(SubstEntry::Kind(kind)));
    assert forall|m: MetaTyVar| (is_solved(s2, m) || is_solved(s, m)) implies lookup(s2, m)
        == lookup(s, m) by {}
    assert forall|t: Ty| apply(s2, t) == apply(s, t) by {
        lemma_apply_same_solutions(s2, s, t);
    }
}

} // verus!


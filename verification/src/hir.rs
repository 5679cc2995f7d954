//! The high-level intermediate representation: desugared syntax held in
//! arenas and addressed by index. A missing subtree, left by parse recovery,
//! is an absent index.

use crate::list::List;
use crate::text::{decimal, lex_less, push_char, push_decimal, push_str, str_less};
use vstd::prelude::*;
use vstd::string::StringSliceAdditionalSpecFns;

verus! {

/// An arena of syntax nodes, filled in allocation order.
#[verifier::external_type_specification]
#[verifier::external_body]
#[verifier::reject_recursive_types(T)]
pub struct ExArena<T>(la_arena::Arena<T>);

/// An integer too large for the machine, as it was written.
#[verifier::external_type_specification]
#[verifier::external_body]
pub struct ExBigInt(num_bigint::BigInt);

/// The expressions that an arena holds, by position.
pub uninterp spec fn exp_items(a: la_arena::Arena<Exp>) -> Seq<Exp>;

/// The declarations that an arena holds, by position.
pub uninterp spec fn dec_items(a: la_arena::Arena<Dec>) -> Seq<Dec>;

/// The patterns that an arena holds, by position.
pub uninterp spec fn pat_items(a: la_arena::Arena<Pat>) -> Seq<Pat>;

/// The types that an arena holds, by position.
pub uninterp spec fn ty_items(a: la_arena::Arena<Ty>) -> Seq<Ty>;

/// The structure expressions that an arena holds, by position.
pub uninterp spec fn str_exp_items(a: la_arena::Arena<StrExp>) -> Seq<StrExp>;

/// The signature expressions that an arena holds, by position.
pub uninterp spec fn sig_exp_items(a: la_arena::Arena<SigExp>) -> Seq<SigExp>;

/// The specifications that an arena holds, by position.
pub uninterp spec fn spec_items(a: la_arena::Arena<Spec>) -> Seq<Spec>;

/// The structure-level declarations that an arena holds, by position.
pub uninterp spec fn str_dec_items(a: la_arena::Arena<StrDec>) -> Seq<StrDec>;

/// The mathematical integer that a big integer stands for.
pub uninterp spec fn big_value(b: num_bigint::BigInt) -> int;

/// `la_arena::Arena::values`, then the item at position `i`: an arena keeps
/// its items in allocation order, and an index is the position of its item.
#[verifier::external_body]
pub(crate) fn exp_at(a: &la_arena::Arena<Exp>, i: u32) -> (r: Option<&Exp>)
    ensures
        r == (if (i as int) < exp_items(*a).len() {
            Some(&exp_items(*a)[i as int])
        } else {
            None
        }),
{
    a.values().nth(i as usize)
}

/// `la_arena::Arena::values`, then the item at position `i`.
#[verifier::external_body]
pub(crate) fn dec_at(a: &la_arena::Arena<Dec>, i: u32) -> (r: Option<&Dec>)
    ensures
        r == (if (i as int) < dec_items(*a).len() {
            Some(&dec_items(*a)[i as int])
        } else {
            None
        }),
{
    a.values().nth(i as usize)
}

/// `la_arena::Arena::values`, then the item at position `i`.
#[verifier::external_body]
pub(crate) fn pat_at(a: &la_arena::Arena<Pat>, i: u32) -> (r: Option<&Pat>)
    ensures
        r == (if (i as int) < pat_items(*a).len() {
            Some(&pat_items(*a)[i as int])
        } else {
            None
        }),
{
    a.values().nth(i as usize)
}

/// `la_arena::Arena::values`, then the item at position `i`.
#[verifier::external_body]
pub(crate) fn ty_at(a: &la_arena::Arena<Ty>, i: u32) -> (r: Option<&Ty>)
    ensures
        r == (if (i as int) < ty_items(*a).len() {
            Some(&ty_items(*a)[i as int])
        } else {
            None
        }),
{
    a.values().nth(i as usize)
}

/// `la_arena::Arena::alloc` on the arena of expressions, then the raw number of
/// the index: the value is put behind the others, and its index is the
/// number of values that were there, cut to 32 bits.
#[verifier::external_body]
pub(crate) fn exp_alloc(a: &mut la_arena::Arena<Exp>, value: Exp) -> (r: u32)
    ensures
        exp_items(*final(a)) == exp_items(*old(a)).push(value),
        r as int == exp_items(*old(a)).len() % 0x1_0000_0000,
{
    a.alloc(value).into_raw().into_u32()
}

/// `la_arena::Arena::new` for the arena of expressions: it holds nothing.
#[verifier::external_body]
pub(crate) fn exp_arena() -> (r: la_arena::Arena<Exp>)
    ensures
        exp_items(r) == Seq::<Exp>::empty(),
{
    la_arena::Arena::new()
}

/// `la_arena::Arena::alloc` on the arena of declarations, then the raw number of
/// the index: the value is put behind the others, and its index is the
/// number of values that were there, cut to 32 bits.
#[verifier::external_body]
pub(crate) fn dec_alloc(a: &mut la_arena::Arena<Dec>, value: Dec) -> (r: u32)
    ensures
        dec_items(*final(a)) == dec_items(*old(a)).push(value),
        r as int == dec_items(*old(a)).len() % 0x1_0000_0000,
{
    a.alloc(value).into_raw().into_u32()
}

/// `la_arena::Arena::new` for the arena of declarations: it holds nothing.
#[verifier::external_body]
pub(crate) fn dec_arena() -> (r: la_arena::Arena<Dec>)
    ensures
        dec_items(r) == Seq::<Dec>::empty(),
{
    la_arena::Arena::new()
}

/// `la_arena::Arena::alloc` on the arena of patterns, then the raw number of
/// the index: the value is put behind the others, and its index is the
/// number of values that were there, cut to 32 bits.
#[verifier::external_body]
pub(crate) fn pat_alloc(a: &mut la_arena::Arena<Pat>, value: Pat) -> (r: u32)
    ensures
        pat_items(*final(a)) == pat_items(*old(a)).push(value),
        r as int == pat_items(*old(a)).len() % 0x1_0000_0000,
{
    a.alloc(value).into_raw().into_u32()
}

/// `la_arena::Arena::new` for the arena of patterns: it holds nothing.
#[verifier::external_body]
pub(crate) fn pat_arena() -> (r: la_arena::Arena<Pat>)
    ensures
        pat_items(r) == Seq::<Pat>::empty(),
{
    la_arena::Arena::new()
}

/// `la_arena::Arena::alloc` on the arena of types, then the raw number of
/// the index: the value is put behind the others, and its index is the
/// number of values that were there, cut to 32 bits.
#[verifier::external_body]
pub(crate) fn ty_alloc(a: &mut la_arena::Arena<Ty>, value: Ty) -> (r: u32)
    ensures
        ty_items(*final(a)) == ty_items(*old(a)).push(value),
        r as int == ty_items(*old(a)).len() % 0x1_0000_0000,
{
    a.alloc(value).into_raw().into_u32()
}

/// `la_arena::Arena::new` for the arena of types: it holds nothing.
#[verifier::external_body]
pub(crate) fn ty_arena() -> (r: la_arena::Arena<Ty>)
    ensures
        ty_items(r) == Seq::<Ty>::empty(),
{
    la_arena::Arena::new()
}

/// `la_arena::Arena::alloc` on the arena of structure-level declarations, then the raw number of
/// the index: the value is put behind the others, and its index is the
/// number of values that were there, cut to 32 bits.
#[verifier::external_body]
pub(crate) fn str_dec_alloc(a: &mut la_arena::Arena<StrDec>, value: StrDec) -> (r: u32)
    ensures
        str_dec_items(*final(a)) == str_dec_items(*old(a)).push(value),
        r as int == str_dec_items(*old(a)).len() % 0x1_0000_0000,
{
    a.alloc(value).into_raw().into_u32()
}

/// `la_arena::Arena::new` for the arena of structure-level declarations: it holds nothing.
#[verifier::external_body]
pub(crate) fn str_dec_arena() -> (r: la_arena::Arena<StrDec>)
    ensures
        str_dec_items(r) == Seq::<StrDec>::empty(),
{
    la_arena::Arena::new()
}

/// `la_arena::Arena::new` for the arena of structure expressions: it holds nothing.
#[verifier::external_body]
pub(crate) fn str_exp_arena() -> (r: la_arena::Arena<StrExp>)
    ensures
        str_exp_items(r) == Seq::<StrExp>::empty(),
{
    la_arena::Arena::new()
}

/// `la_arena::Arena::new` for the arena of signature expressions: it holds nothing.
#[verifier::external_body]
pub(crate) fn sig_exp_arena() -> (r: la_arena::Arena<SigExp>)
    ensures
        sig_exp_items(r) == Seq::<SigExp>::empty(),
{
    la_arena::Arena::new()
}

/// `la_arena::Arena::new` for the arena of specifications: it holds nothing.
#[verifier::external_body]
pub(crate) fn spec_arena() -> (r: la_arena::Arena<Spec>)
    ensures
        spec_items(r) == Seq::<Spec>::empty(),
{
    la_arena::Arena::new()
}

/// `la_arena::Arena::len` of the arena of patterns: the number of patterns.
#[verifier::external_body]
pub(crate) fn pat_len(a: &la_arena::Arena<Pat>) -> (r: usize)
    ensures
        r == pat_items(*a).len(),
{
    a.len()
}

/// `la_arena::Arena::values`, then the item at position `i`.
#[verifier::external_body]
pub(crate) fn str_dec_at(a: &la_arena::Arena<StrDec>, i: u32) -> (r: Option<&StrDec>)
    ensures
        r == (if (i as int) < str_dec_items(*a).len() {
            Some(&str_dec_items(*a)[i as int])
        } else {
            None
        }),
{
    a.values().nth(i as usize)
}

/// `Clone` of `num_bigint::BigInt`: the copy equals the original.
#[verifier::external_body]
pub(crate) fn big_clone(b: &num_bigint::BigInt) -> (r: num_bigint::BigInt)
    ensures
        r == *b,
{
    b.clone()
}

/// `==` of `num_bigint::BigInt`: whether both stand for the same integer.
#[verifier::external_body]
pub(crate) fn big_eq(a: &num_bigint::BigInt, b: &num_bigint::BigInt) -> (r: bool)
    ensures
        r == (big_value(*a) == big_value(*b)),
{
    a == b
}

/// `From<i32>` of `num_bigint::BigInt`: the big integer of a small one.
#[verifier::external_body]
pub(crate) fn big_from_i32(i: i32) -> (r: num_bigint::BigInt)
    ensures
        big_value(r) == i,
{
    num_bigint::BigInt::from(i)
}

/// The value of a digit in a radix up to 16, if the character is one.
pub open spec fn digit_value(c: char, radix: nat) -> Option<nat> {
    let v: int = if '0' <= c && c <= '9' {
        (c as u32) - 48
    } else if 'a' <= c && c <= 'f' {
        (c as u32) - 87
    } else if 'A' <= c && c <= 'F' {
        (c as u32) - 55
    } else {
        16
    };
    if v < radix {
        Some(v as nat)
    } else {
        None
    }
}

/// Whether each of `s[..upto]` is a digit in the radix.
pub open spec fn all_digits(s: Seq<char>, upto: int, radix: nat) -> bool
    decreases upto,
{
    if upto <= 0 {
        true
    } else {
        all_digits(s, upto - 1, radix) && digit_value(s[upto - 1], radix) is Some
    }
}

/// The number that the digits `s[..upto]` stand for in the radix.
pub open spec fn digits_value(s: Seq<char>, upto: int, radix: nat) -> nat
    decreases upto,
{
    if upto <= 0 {
        0
    } else {
        digits_value(s, upto - 1, radix) * radix + digit_value(s[upto - 1], radix).unwrap_or(0)
    }
}

/// `num_bigint::BigInt::parse_bytes` on the bytes of a text that is `-`, if
/// `negative`, and then digits: at least one digit, each a digit in the
/// radix, which is 10 or 16. It gives the integer that the digits stand
/// for, negated behind `-`.
#[verifier::external_body]
pub(crate) fn big_parse(text: &str, radix: u32) -> (r: Option<num_bigint::BigInt>)
    requires
        radix == 10 || radix == 16,
        text@.len() > 0,
        text@[0] == '-' ==> text@.len() > 1 && all_digits(
            text@.skip(1),
            text@.len() - 1,
            radix as nat,
        ),
        text@[0] != '-' ==> all_digits(text@, text@.len() as int, radix as nat),
    ensures
        r is Some,
        big_value(r->0) == (if text@[0] == '-' {
            -(digits_value(text@.skip(1), text@.len() - 1, radix as nat) as int)
        } else {
            digits_value(text@, text@.len() as int, radix as nat) as int
        }),
{
    num_bigint::BigInt::parse_bytes(text.as_bytes(), radix)
}

/// `ToString` of `num_bigint::BigInt`: the decimal digits of the magnitude,
/// behind `-` when the integer is negative.
#[verifier::external_body]
pub(crate) fn big_to_string(b: &num_bigint::BigInt) -> (r: String)
    ensures
        r@ == signed_decimal(big_value(*b), '-'),
{
    b.to_string()
}

/// An integer in decimal, with `minus` in front when it is negative.
pub open spec fn signed_decimal(i: int, minus: char) -> Seq<char> {
    if i < 0 {
        seq![minus] + decimal((-i) as nat)
    } else {
        decimal(i as nat)
    }
}

/// All the arenas of one lowered file.
pub struct Arenas {
    pub str_dec: la_arena::Arena<StrDec>,
    pub str_exp: la_arena::Arena<StrExp>,
    pub sig_exp: la_arena::Arena<SigExp>,
    pub spec: la_arena::Arena<Spec>,
    pub exp: la_arena::Arena<Exp>,
    pub dec: la_arena::Arena<Dec>,
    pub pat: la_arena::Arena<Pat>,
    pub ty: la_arena::Arena<Ty>,
}

/// The nodes of the arenas, by position.
pub struct Nodes {
    pub exps: Seq<Exp>,
    pub decs: Seq<Dec>,
    pub pats: Seq<Pat>,
    pub tys: Seq<Ty>,
    pub str_decs: Seq<StrDec>,
    pub str_exps: Seq<StrExp>,
    pub sig_exps: Seq<SigExp>,
    pub specs: Seq<Spec>,
}

impl Arenas {
    /// The nodes that the arenas hold.
    pub open spec fn nodes(self) -> Nodes {
        Nodes {
            exps: exp_items(self.exp),
            decs: dec_items(self.dec),
            pats: pat_items(self.pat),
            tys: ty_items(self.ty),
            str_decs: str_dec_items(self.str_dec),
            str_exps: str_exp_items(self.str_exp),
            sig_exps: sig_exp_items(self.sig_exp),
            specs: spec_items(self.spec),
        }
    }
}

/// An index into one of the arenas, tagged with the arena it belongs to.
#[derive(Debug, Clone, Copy, PartialEq, Eq, Structural, Hash)]
pub enum Idx {
    StrDec(u32),
    StrExp(u32),
    SigExp(u32),
    Spec(u32),
    Exp(u32),
    Dec(u32),
    Pat(u32),
    Ty(u32),
}

pub type StrDecIdx = Option<u32>;

pub type StrExpIdx = Option<u32>;

pub type SigExpIdx = Option<u32>;

pub type SpecIdx = Option<u32>;

pub type ExpIdx = Option<u32>;

pub type DecIdx = Option<u32>;

pub type PatIdx = Option<u32>;

pub type TyIdx = Option<u32>;

// modules //
#[derive(Debug, Clone)]
pub struct SigBind {
    pub name: Name,
    pub sig_exp: SigExpIdx,
}

#[derive(Debug, Clone)]
pub struct FunctorBind {
    pub functor_name: Name,
    pub param_name: Name,
    pub param_sig: SigExpIdx,
    pub body: StrExpIdx,
}

/// A declaration at the top of a file.
#[derive(Debug, Clone)]
pub enum TopDec {
    Str(StrDecIdx),
    Sig(Vec<SigBind>),
    Functor(Vec<FunctorBind>),
}

/// Top-level and structure-level declarations are not told apart.
#[derive(Debug, Clone)]
pub enum StrDec {
    Dec(DecIdx),
    Structure(Vec<StrBind>),
    Local(StrDecIdx, StrDecIdx),
    Sequence(Vec<StrDecIdx>),
    Signature(Vec<SigBind>),
    Functor(Vec<FunctorBind>),
}

#[derive(Debug, Clone)]
pub struct StrBind {
    pub name: Name,
    pub str_exp: StrExpIdx,
}

#[derive(Debug, Clone)]
pub enum StrExp {
    Struct(StrDecIdx),
    Path(Path),
    Ascription(StrExpIdx, Ascription, SigExpIdx),
    App(Name, StrExpIdx),
    Let(StrDecIdx, StrExpIdx),
}

/// How a signature is ascribed to a structure.
#[derive(Debug, Clone, Copy, PartialEq, Eq, Structural)]
pub enum Ascription {
    Transparent,
    Opaque,
}

#[derive(Debug, Clone)]
pub enum SigExp {
    Spec(SpecIdx),
    Name(Name),
    WhereType(SigExpIdx, Vec<TyVar>, Path, TyIdx),
    Where(SigExpIdx, Path, Path),
}

#[derive(Debug, Clone)]
pub enum Spec {
    /// The type variables are empty in the source; type checking may fill
    /// them in.
    Val(Vec<TyVar>, Vec<ValDesc>),
    Ty(TyDesc),
    EqTy(TyDesc),
    Datatype(DatDesc),
    DatatypeCopy(Name, Path),
    Exception(ExDesc),
    Str(StrDesc),
    Include(SigExpIdx),
    Sharing(SpecIdx, SharingKind, Vec<Path>),
    Sequence(Vec<SpecIdx>),
}

/// Which form of `sharing` was written.
#[derive(Debug, Clone, Copy, PartialEq, Eq, Structural)]
pub enum SharingKind {
    /// `sharing type`.
    Regular,
    /// `sharing`: kept apart, because resolving it takes type information.
    Derived,
}

#[derive(Debug, Clone)]
pub struct ValDesc {
    pub name: Name,
    pub ty: TyIdx,
}

#[derive(Debug, Clone)]
pub struct TyDesc {
    pub ty_vars: Vec<TyVar>,
    pub name: Name,
}

pub type DatDesc = DatBind;

pub type ConDesc = ConBind;

#[derive(Debug, Clone)]
pub struct ExDesc {
    pub name: Name,
    pub ty: Option<TyIdx>,
}

#[derive(Debug, Clone)]
pub struct StrDesc {
    pub name: Name,
    pub sig_exp: SigExpIdx,
}

// core //
/// Atomic expressions and others are not told apart.
#[derive(Debug, Clone)]
pub enum Exp {
    Hole,
    SCon(SCon),
    Path(Path),
    Record(Vec<(Lab, ExpIdx)>),
    Let(DecIdx, ExpIdx),
    App(ExpIdx, ExpIdx),
    Handle(ExpIdx, Vec<(PatIdx, ExpIdx)>),
    Raise(ExpIdx),
    Fn(Vec<(PatIdx, ExpIdx)>),
    Typed(ExpIdx, TyIdx),
}

#[derive(Debug, Clone)]
pub enum Dec {
    Val(Vec<TyVar>, Vec<ValBind>),
    Ty(Vec<TyBind>),
    /// The type bindings are those of `withtype`.
    Datatype(Vec<DatBind>, Vec<TyBind>),
    DatatypeCopy(Name, Path),
    /// The type bindings are those of `withtype`.
    Abstype(Vec<DatBind>, Vec<TyBind>, DecIdx),
    Exception(Vec<ExBind>),
    Local(DecIdx, DecIdx),
    Open(Vec<Path>),
    Sequence(Vec<DecIdx>),
}

#[derive(Debug, Clone, Copy)]
pub struct ValBind {
    pub rec: bool,
    pub pat: PatIdx,
    pub exp: ExpIdx,
}

#[derive(Debug, Clone)]
pub struct TyBind {
    pub ty_vars: Vec<TyVar>,
    pub name: Name,
    pub ty: TyIdx,
}

#[derive(Debug, Clone)]
pub struct DatBind {
    pub ty_vars: Vec<TyVar>,
    pub name: Name,
    pub cons: Vec<ConBind>,
}

#[derive(Debug, Clone)]
pub struct ConBind {
    pub name: Name,
    pub ty: Option<TyIdx>,
}

#[derive(Debug, Clone)]
pub enum ExBind {
    New(Name, Option<TyIdx>),
    Copy(Name, Path),
}

/// Atomic patterns and others are not told apart.
#[derive(Debug, Clone)]
pub enum Pat {
    Wild,
    SCon(SCon),
    Con(Path, Option<PatIdx>),
    Record { rows: Vec<(Lab, PatIdx)>, allows_other: bool },
    Typed(PatIdx, TyIdx),
    /// A type annotation on the name is moved onto the pattern behind `as`.
    As(Name, PatIdx),
    Or(OrPat),
}

#[derive(Debug, Clone)]
pub struct OrPat {
    pub first: PatIdx,
    pub rest: Vec<PatIdx>,
}

#[derive(Debug, Clone)]
pub enum Ty {
    Hole,
    Var(TyVar),
    Record(Vec<(Lab, TyIdx)>),
    Con(Vec<TyIdx>, Path),
    Fn(TyIdx, TyIdx),
}

/// An identifier. It is never empty.
#[derive(Debug, Hash)]
pub struct Name {
    s: String,
}

impl View for Name {
    type V = Seq<char>;

    closed spec fn view(&self) -> Seq<char> {
        self.s@
    }
}

impl Clone for Name {
    fn clone(&self) -> (r: Self)
        ensures
            r == *self,
    {
        Name { s: self.s.clone() }
    }
}

impl PartialEq for Name {
    fn eq(&self, other: &Self) -> (r: bool) {
        self.s == other.s
    }
}

impl Eq for Name {

}

impl vstd::std_specs::cmp::PartialEqSpecImpl for Name {
    open spec fn obeys_eq_spec() -> bool {
        true
    }

    open spec fn eq_spec(&self, other: &Self) -> bool {
        self@ == other@
    }
}

impl Name {
    /// The name with the characters of `s`.
    pub fn new(s: &str) -> (r: Name)
        requires
            s@.len() > 0,
        ensures
            r@ == s@,
    {
        Name { s: String::from_str(s) }
    }

    /// The characters of the name.
    pub fn as_str(&self) -> (r: &str)
        ensures
            r@ == self@,
    {
        self.s.as_str()
    }

    /// Whether this name comes before `other` in the order of strings.
    pub fn less(&self, other: &Name) -> (r: bool)
        ensures
            r == lex_less(self@, other@),
    {
        str_less(self.s.as_str(), other.s.as_str())
    }
}

/// A type variable, written with its leading `'`.
#[derive(Debug, Hash)]
pub struct TyVar {
    name: Name,
}

impl View for TyVar {
    type V = Seq<char>;

    closed spec fn view(&self) -> Seq<char> {
        self.name@
    }
}

impl Clone for TyVar {
    fn clone(&self) -> (r: Self)
        ensures
            r == *self,
    {
        TyVar { name: self.name.clone() }
    }
}

/// Whether the second byte of the text, in UTF-8, is `'`.
pub open spec fn second_byte_is_tick(text: Seq<char>) -> bool {
    let bytes = vstd::utf8::encode_utf8(text);
    bytes.len() > 1 && bytes[1] == 39u8
}

impl TyVar {
    /// The type variable with the characters of `s`.
    pub fn new(s: &str) -> (r: TyVar)
        requires
            s@.len() > 0,
        ensures
            r@ == s@,
    {
        TyVar { name: Name::new(s) }
    }

    /// Whether the variable ranges over equality types only: it starts with
    /// two `'`.
    pub fn is_equality(&self) -> (r: bool)
        ensures
            r == second_byte_is_tick(self@),
    {
        let b = self.name.as_str().as_bytes();
        b.len() > 1 && b[1] == 39u8
    }

    /// The characters of the variable.
    pub fn as_str(&self) -> (r: &str)
        ensures
            r@ == self@,
    {
        self.name.as_str()
    }

    /// The variable as a name.
    pub fn as_name(&self) -> (r: &Name)
        ensures
            r@ == self@,
    {
        &self.name
    }

    /// The variable, turned into a name.
    pub fn into_name(self) -> (r: Name)
        ensures
            r@ == self@,
    {
        self.name
    }

    /// Whether both variables are written alike.
    pub fn same(&self, other: &TyVar) -> (r: bool)
        ensures
            r == (self@ == other@),
    {
        self.name == other.name
    }
}

/// The label of a record row. A named label comes before every numbered one.
#[derive(Debug, Hash)]
pub enum Lab {
    Name(Name),
    Num(usize),
}

impl Clone for Lab {
    fn clone(&self) -> (r: Self)
        ensures
            r == *self,
    {
        match self {
            Lab::Name(n) => Lab::Name(n.clone()),
            Lab::Num(n) => Lab::Num(*n),
        }
    }
}

/// What a label says, apart from how its text is stored.
pub enum LabKey {
    Name(Seq<char>),
    Num(nat),
}

impl View for Lab {
    type V = LabKey;

    open spec fn view(&self) -> LabKey {
        match self {
            Lab::Name(n) => LabKey::Name(n@),
            Lab::Num(n) => LabKey::Num(*n as nat),
        }
    }
}

/// The order of labels: names before numbers, names as strings, numbers by
/// size.
pub open spec fn lab_less(a: LabKey, b: LabKey) -> bool {
    match (a, b) {
        (LabKey::Name(x), LabKey::Name(y)) => lex_less(x, y),
        (LabKey::Name(_), LabKey::Num(_)) => true,
        (LabKey::Num(_), LabKey::Name(_)) => false,
        (LabKey::Num(x), LabKey::Num(y)) => x < y,
    }
}

/// Of two labels exactly one holds: the first is less, they say the same, or
/// the second is less.
pub proof fn lemma_lab_trichotomy(a: LabKey, b: LabKey)
    ensures
        lab_less(a, b) || a == b || lab_less(b, a),
        !(lab_less(a, b) && a == b),
        !(lab_less(b, a) && a == b),
        !(lab_less(a, b) && lab_less(b, a)),
{
    match (a, b) {
        (LabKey::Name(x), LabKey::Name(y)) => {
            crate::text::lemma_lex_trichotomy(x, y);
        },
        _ => {},
    }
}

/// The text of a label: the name, or the number in decimal.
pub open spec fn lab_text(l: LabKey) -> Seq<char> {
    match l {
        LabKey::Name(n) => n,
        LabKey::Num(n) => decimal(n),
    }
}

impl Lab {
    /// The label of the field at position `idx` of a tuple: positions count
    /// from 0, labels from 1.
    pub fn tuple(idx: usize) -> (r: Lab)
        requires
            idx < usize::MAX,
        ensures
            r == Lab::Num((idx + 1) as usize),
    {
        Lab::Num(idx + 1)
    }

    /// Whether both labels say the same.
    pub fn same(&self, other: &Lab) -> (r: bool)
        ensures
            r == (self@ == other@),
    {
        match (self, other) {
            (Lab::Name(a), Lab::Name(b)) => *a == *b,
            (Lab::Num(a), Lab::Num(b)) => *a == *b,
            _ => false,
        }
    }

    /// Whether this label comes before `other`.
    pub fn less(&self, other: &Lab) -> (r: bool)
        ensures
            r == lab_less(self@, other@),
    {
        match (self, other) {
            (Lab::Name(a), Lab::Name(b)) => a.less(b),
            (Lab::Name(_), Lab::Num(_)) => true,
            (Lab::Num(_), Lab::Name(_)) => false,
            (Lab::Num(a), Lab::Num(b)) => *a < *b,
        }
    }

    /// Appends the text of the label to `out`.
    pub fn write(&self, out: &mut String)
        ensures
            final(out)@ == old(out)@ + lab_text(self@),
    {
        match self {
            Lab::Name(n) => push_str(out, n.as_str()),
            Lab::Num(n) => push_decimal(out, *n as u64),
        }
    }
}

/// An integer constant: small enough for the machine, or big.
#[derive(Debug)]
pub enum Int {
    Finite(i32),
    Big(num_bigint::BigInt),
}

impl View for Int {
    type V = int;

    open spec fn view(&self) -> int {
        match self {
            Int::Finite(i) => *i as int,
            Int::Big(b) => big_value(*b),
        }
    }
}

impl Clone for Int {
    fn clone(&self) -> (r: Self)
        ensures
            r == *self,
    {
        match self {
            Int::Finite(i) => Int::Finite(*i),
            Int::Big(b) => Int::Big(big_clone(b)),
        }
    }
}

impl Int {
    /// Whether both stand for the same integer.
    pub fn same(&self, other: &Int) -> (r: bool)
        ensures
            r == (self@ == other@),
    {
        match (self, other) {
            (Int::Finite(a), Int::Finite(b)) => *a == *b,
            (Int::Big(a), Int::Big(b)) => big_eq(a, b),
            (Int::Finite(a), Int::Big(b)) => {
                let big = big_from_i32(*a);
                big_eq(&big, b)
            },
            (Int::Big(a), Int::Finite(b)) => {
                let big = big_from_i32(*b);
                big_eq(a, &big)
            },
        }
    }

    /// Appends the integer in decimal to `out`, with `-` in front of a
    /// negative one.
    pub fn write(&self, out: &mut String)
        ensures
            final(out)@ == old(out)@ + signed_decimal(self@, '-'),
    {
        match self {
            Int::Finite(i) => {
                let i: i32 = *i;
                if i < 0 {
                    push_char(out, '-');
                    let m: u64 = (-(i as i64)) as u64;
                    push_decimal(out, m);
                    assert(old(out)@.push('-') + decimal(m as nat) =~= old(out)@ + (seq!['-']
                        + decimal(m as nat)));
                } else {
                    push_decimal(out, i as u64);
                }
            },
            Int::Big(b) => {
                let s = big_to_string(b);
                push_str(out, s.as_str());
            },
        }
    }
}

/// A special constant. A real constant is kept as it was written.
#[derive(Debug)]
pub enum SCon {
    Int(Int),
    Real(String),
    Word(u64),
    Char(char),
    String(String),
}

/// What a special constant says.
pub enum SConKey {
    Int(int),
    Real(Seq<char>),
    Word(u64),
    Char(char),
    String(Seq<char>),
}

impl View for SCon {
    type V = SConKey;

    open spec fn view(&self) -> SConKey {
        match self {
            SCon::Int(i) => SConKey::Int(i@),
            SCon::Real(s) => SConKey::Real(s@),
            SCon::Word(w) => SConKey::Word(*w),
            SCon::Char(c) => SConKey::Char(*c),
            SCon::String(s) => SConKey::String(s@),
        }
    }
}

impl Clone for SCon {
    fn clone(&self) -> (r: Self)
        ensures
            r == *self,
    {
        match self {
            SCon::Int(i) => SCon::Int(i.clone()),
            SCon::Real(s) => SCon::Real(s.clone()),
            SCon::Word(w) => SCon::Word(*w),
            SCon::Char(c) => SCon::Char(*c),
            SCon::String(s) => SCon::String(s.clone()),
        }
    }
}

impl SCon {
    /// Whether both constants say the same.
    pub fn same(&self, other: &SCon) -> (r: bool)
        ensures
            r == (self@ == other@),
    {
        match (self, other) {
            (SCon::Int(a), SCon::Int(b)) => a.same(b),
            (SCon::Real(a), SCon::Real(b)) => *a == *b,
            (SCon::Word(a), SCon::Word(b)) => *a == *b,
            (SCon::Char(a), SCon::Char(b)) => *a == *b,
            (SCon::String(a), SCon::String(b)) => *a == *b,
            _ => false,
        }
    }
}

/// A name, qualified by the structures that lead to it, outermost first.
#[derive(Debug)]
pub struct Path {
    pub structures: List<Name>,
    pub last: Name,
}

/// The names with a `.` behind each.
pub open spec fn dotted(names: List<Name>) -> Seq<char>
    decreases names,
{
    match names {
        List::Nil => Seq::empty(),
        List::Cons(h, t) => h@ + seq!['.'] + dotted(*t),
    }
}

/// A copy of a list of names.
pub fn clone_names(l: &List<Name>) -> (r: List<Name>)
    ensures
        r == *l,
    decreases *l,
{
    match l {
        List::Nil => List::Nil,
        List::Cons(h, t) => List::Cons(h.clone(), Box::new(clone_names(t))),
    }
}

/// The names of a sequence as a list, in order.
pub open spec fn names_of(s: Seq<Name>) -> List<Name>
    decreases s.len(),
{
    if s.len() == 0 {
        List::Nil
    } else {
        List::Cons(s[0], Box::new(names_of(s.skip(1))))
    }
}

impl Clone for Path {
    fn clone(&self) -> (r: Self)
        ensures
            r == *self,
    {
        Path { structures: clone_names(&self.structures), last: self.last.clone() }
    }
}

impl Path {
    /// The structures that lead to the last name, outermost first.
    pub open spec fn spec_structures(self) -> List<Name> {
        self.structures
    }

    /// The last name.
    pub open spec fn spec_last(self) -> Name {
        self.last
    }

    /// The path as it is written: the names with dots between them.
    pub open spec fn text(self) -> Seq<char> {
        dotted(self.structures) + self.last@
    }

    /// The path to `last` through `structures`.
    pub fn new(structures: List<Name>, last: Name) -> (r: Path)
        ensures
            r == (Path { structures, last }),
    {
        Path { structures, last }
    }

    /// The path whose last name is the last of `names`, or nothing when
    /// there is no name.
    pub fn try_new(names: Vec<Name>) -> (r: Option<Path>)
        ensures
            names@.len() == 0 ==> r is None,
            names@.len() > 0 ==> r == Some(
                Path { structures: names_of(names@.drop_last()), last: names@.last() },
            ),
    {
        let mut names = names;
        match names.pop() {
            None => None,
            Some(last) => {
                let mut acc: List<Name> = List::Nil;
                let mut i: usize = names.len();
                assert(names@.skip(i as int) =~= Seq::<Name>::empty());
                while i > 0
                    invariant
                        i <= names.len(),
                        acc == names_of(names@.skip(i as int)),
                    decreases i,
                {
                    i -= 1;
                    assert(names@.skip(i as int).skip(1) == names@.skip(i + 1));
                    acc = List::Cons(names[i].clone(), Box::new(acc));
                }
                assert(names@.skip(0) == names@);
                Some(Path::new(acc, last))
            },
        }
    }

    /// The path of one unqualified name.
    pub fn one(name: Name) -> (r: Path)
        ensures
            r == (Path { structures: List::Nil, last: name }),
    {
        Path::new(List::Nil, name)
    }

    /// The last name.
    pub fn last(&self) -> (r: &Name)
        ensures
            *r == self.last,
    {
        &self.last
    }

    /// The structures that lead to the last name.
    pub fn structures(&self) -> (r: &List<Name>)
        ensures
            *r == self.structures,
    {
        &self.structures
    }

    /// Every name of the path, the last name last.
    pub fn all_names(&self) -> (r: Vec<Name>)
        ensures
            r@ == self.structures.seq().push(self.last),
    {
        let mut out: Vec<Name> = Vec::new();
        let mut cur: &List<Name> = &self.structures;
        loop
            invariant
                out@ + cur.seq() == self.structures.seq(),
            ensures
                out@ == self.structures.seq(),
            decreases cur,
        {
            match cur {
                List::Nil => {
                    assert(out@ + cur.seq() =~= out@);
                    break ;
                },
                List::Cons(h, t) => {
                    let ghost before = out@;
                    out.push(h.clone());
                    assert(out@ + t.seq() =~= before + cur.seq());
                    cur = t;
                },
            }
        }
        out.push(self.last.clone());
        out
    }

    /// Appends the path, as it is written, to `out`.
    pub fn write(&self, out: &mut String)
        ensures
            final(out)@ == old(out)@ + self.text(),
    {
        write_dotted(&self.structures, out);
        push_str(out, self.last.as_str());
        assert(out@ =~= old(out)@ + self.text());
    }
}

fn write_dotted(names: &List<Name>, out: &mut String)
    ensures
        final(out)@ == old(out)@ + dotted(*names),
    decreases *names,
{
    match names {
        List::Nil => {
            assert(out@ =~= old(out)@ + dotted(*names));
        },
        List::Cons(h, t) => {
            push_str(out, h.as_str());
            push_char(out, '.');
            write_dotted(t, out);
            assert(out@ =~= old(out)@ + dotted(*names));
        },
    }
}

} // verus!

//! Symbols, that is generated type names, and exceptions.

use crate::hir::Path;
use crate::statics::info::{Exn, TyInfo, SymValEnv};
use crate::statics::types::{
    BasicOverload, Overload, Sym, Ty, TyScheme, SYM_BOOL, SYM_CHAR, SYM_EXN, SYM_INT, SYM_LIST,
    SYM_REAL, SYM_REF, SYM_STRING, SYM_VECTOR, SYM_WORD,
};
use vstd::prelude::*;

verus! {

/// A guard that panics when it is dropped before it was defused.
#[verifier::external_type_specification]
#[verifier::external_body]
pub struct ExDropBomb(drop_bomb::DropBomb);

/// `drop_bomb::DropBomb::new`: an armed guard with a message for the panic.
#[verifier::external_body]
fn new_bomb() -> drop_bomb::DropBomb {
    drop_bomb::DropBomb::new("must be passed to Syms::finish")
}

/// `drop_bomb::DropBomb::defuse`: the guard may be dropped from now on.
#[verifier::external_body]
fn defuse(bomb: &mut drop_bomb::DropBomb) {
    bomb.defuse()
}

/// A marker to determine when a `Sym` was generated: the number of symbols
/// that the table held.
#[derive(Debug, Clone, Copy, PartialEq, Eq, Structural)]
pub struct SymsMarker {
    pub len: usize,
}

impl Sym {
    /// The symbol of exceptions. It has no entry in the table.
    pub fn exn_ty() -> (r: Sym)
        ensures
            r.raw == SYM_EXN,
    {
        Sym { raw: SYM_EXN }
    }

    pub fn int_ty() -> (r: Sym)
        ensures
            r.raw == SYM_INT,
    {
        Sym { raw: SYM_INT }
    }

    pub fn word_ty() -> (r: Sym)
        ensures
            r.raw == SYM_WORD,
    {
        Sym { raw: SYM_WORD }
    }

    pub fn real_ty() -> (r: Sym)
        ensures
            r.raw == SYM_REAL,
    {
        Sym { raw: SYM_REAL }
    }

    pub fn char_ty() -> (r: Sym)
        ensures
            r.raw == SYM_CHAR,
    {
        Sym { raw: SYM_CHAR }
    }

    pub fn string_ty() -> (r: Sym)
        ensures
            r.raw == SYM_STRING,
    {
        Sym { raw: SYM_STRING }
    }

    pub fn bool_ty() -> (r: Sym)
        ensures
            r.raw == SYM_BOOL,
    {
        Sym { raw: SYM_BOOL }
    }

    pub fn list_ty() -> (r: Sym)
        ensures
            r.raw == SYM_LIST,
    {
        Sym { raw: SYM_LIST }
    }

    pub fn ref_ty() -> (r: Sym)
        ensures
            r.raw == SYM_REF,
    {
        Sym { raw: SYM_REF }
    }

    pub fn vector_ty() -> (r: Sym)
        ensures
            r.raw == SYM_VECTOR,
    {
        Sym { raw: SYM_VECTOR }
    }

    /// The place of the symbol in the table. The symbol of exceptions has
    /// none.
    pub open spec fn idx(self) -> int {
        self.raw - 1
    }

    /// Whether the symbol was generated after the table gave out the marker.
    pub open spec fn after(self, marker: SymsMarker) -> bool {
        self.raw != SYM_EXN && self.idx() >= marker.len
    }

    /// Returns whether this `Sym` was generated by a `Syms` after that
    /// `Syms` generated the `marker`.
    pub fn generated_after(self, marker: SymsMarker) -> (r: bool)
        ensures
            r == self.after(marker),
    {
        self.raw != SYM_EXN && (self.raw - 1) as usize >= marker.len
    }
}

/// Whether this `Sym` admits equality.
#[derive(Debug, Clone, Copy, PartialEq, Eq, Structural)]
pub enum Equality {
    /// It always does, regardless of whether the type arguments do.
    Always,
    /// It does if and only if the type arguments do.
    Sometimes,
    /// It never does, regardless of whether the type arguments do.
    Never,
}

/// Information about a `Sym`.
#[derive(Debug)]
pub struct SymInfo {
    /// The path this sym was defined at.
    pub path: Path,
    /// The ty info for the sym.
    pub ty_info: TyInfo,
    /// How this sym admits equality.
    pub equality: Equality,
}

/// What the information about a symbol says, apart from how the
/// constructors are stored.
pub struct SymInfoV {
    pub path: Path,
    pub ty_scheme: TyScheme,
    /// The constructors, in the order in which they were declared.
    pub cons: Seq<(crate::hir::Name, crate::statics::info::ValInfo)>,
    pub def: Option<crate::statics::info::Def>,
    pub disallow: Option<crate::statics::disallow::Disallow>,
    pub equality: Equality,
}

impl View for SymInfo {
    type V = SymInfoV;

    open spec fn view(&self) -> SymInfoV {
        SymInfoV {
            path: self.path,
            ty_scheme: self.ty_info.ty_scheme,
            cons: self.ty_info.val_env@,
            def: self.ty_info.def,
            disallow: self.ty_info.disallow,
            equality: self.equality,
        }
    }
}

/// What each of the informations says.
pub open spec fn infos_v(infos: Seq<SymInfo>) -> Seq<SymInfoV> {
    Seq::new(infos.len(), |i: int| infos[i]@)
}

/// Information about an `Exn`.
#[derive(Debug)]
pub struct ExnInfo {
    /// The path the exn was declared at.
    pub path: Path,
    /// The parameter type for this exception.
    pub param: Option<Ty>,
}

/// The symbols that each basic overload may resolve to.
#[derive(Debug)]
pub struct Overloads {
    pub ints: Vec<Sym>,
    pub reals: Vec<Sym>,
    pub words: Vec<Sym>,
    pub strings: Vec<Sym>,
    pub chars: Vec<Sym>,
}

/// The symbols that each basic overload may resolve to, as sequences.
pub struct OverloadsView {
    pub ints: Seq<Sym>,
    pub reals: Seq<Sym>,
    pub words: Seq<Sym>,
    pub strings: Seq<Sym>,
    pub chars: Seq<Sym>,
}

impl OverloadsView {
    /// No overload resolves to anything.
    pub open spec fn empty() -> OverloadsView {
        OverloadsView {
            ints: Seq::empty(),
            reals: Seq::empty(),
            words: Seq::empty(),
            strings: Seq::empty(),
            chars: Seq::empty(),
        }
    }

    /// The symbols of a basic overload.
    pub open spec fn syms(self, b: BasicOverload) -> Seq<Sym> {
        match b {
            BasicOverload::Int => self.ints,
            BasicOverload::Real => self.reals,
            BasicOverload::Word => self.words,
            BasicOverload::String => self.strings,
            BasicOverload::Char => self.chars,
        }
    }

    /// Whether `sym` is a symbol of one of the basic overloads of `ov`.
    pub open spec fn admits(self, ov: Overload, sym: Sym) -> bool {
        exists|b: BasicOverload| ov.has(b) && #[trigger] self.syms(b).contains(sym)
    }
}

impl View for Overloads {
    type V = OverloadsView;

    open spec fn view(&self) -> OverloadsView {
        OverloadsView {
            ints: self.ints@,
            reals: self.reals@,
            words: self.words@,
            strings: self.strings@,
            chars: self.chars@,
        }
    }
}

/// What a table of symbols holds.
pub struct SymsView {
    /// The information of every symbol, by place.
    pub infos: Seq<SymInfoV>,
    /// The information of every exception, by number.
    pub exns: Seq<ExnInfo>,
    /// The overloads.
    pub overloads: OverloadsView,
}

impl SymsView {
    /// Whether the table holds the symbol.
    pub open spec fn has(self, sym: Sym) -> bool {
        sym.raw != SYM_EXN && sym.idx() < self.infos.len()
    }

    /// How a symbol admits equality: as its entry says, and never where it
    /// has no entry.
    pub open spec fn equality_of(self, sym: Sym) -> Equality {
        if self.has(sym) {
            self.infos[sym.idx()].equality
        } else {
            Equality::Never
        }
    }
}

impl Overloads {
    /// The symbols of a basic overload.
    pub open spec fn syms(self, b: BasicOverload) -> Seq<Sym> {
        self@.syms(b)
    }

    /// Whether `sym` is a symbol of one of the basic overloads of `ov`.
    pub open spec fn admits(self, ov: Overload, sym: Sym) -> bool {
        self@.admits(ov, sym)
    }

    /// No overload resolves to anything.
    pub fn new() -> (r: Overloads)
        ensures
            r@ == OverloadsView::empty(),
    {
        Overloads {
            ints: Vec::new(),
            reals: Vec::new(),
            words: Vec::new(),
            strings: Vec::new(),
            chars: Vec::new(),
        }
    }

    /// The symbols of a basic overload.
    pub fn index(&self, index: BasicOverload) -> (r: &Vec<Sym>)
        ensures
            r@ == self.syms(index),
    {
        match index {
            BasicOverload::Int => &self.ints,
            BasicOverload::Real => &self.reals,
            BasicOverload::Word => &self.words,
            BasicOverload::String => &self.strings,
            BasicOverload::Char => &self.chars,
        }
    }

    /// Adds a symbol to a basic overload.
    pub fn push(&mut self, index: BasicOverload, sym: Sym)
        ensures
            final(self).syms(index) == old(self).syms(index).push(sym),
            forall|b: BasicOverload| b != index ==> final(self).syms(b) == old(self).syms(b),
    {
        match index {
            BasicOverload::Int => self.ints.push(sym),
            BasicOverload::Real => self.reals.push(sym),
            BasicOverload::Word => self.words.push(sym),
            BasicOverload::String => self.strings.push(sym),
            BasicOverload::Char => self.chars.push(sym),
        }
    }

    fn basic_has(&self, b: BasicOverload, sym: Sym) -> (r: bool)
        ensures
            r == self.syms(b).contains(sym),
    {
        let v = self.index(b);
        let mut i: usize = 0;
        while i < v.len()
            invariant
                i <= v.len(),
                v@ == self.syms(b),
                forall|j: int| 0 <= j < i ==> v@[j] != sym,
            decreases v.len() - i,
        {
            if v[i] == sym {
                assert(v@[i as int] == sym);
                return true;
            }
            i += 1;
        }
        false
    }

    /// Whether `sym` is a symbol of one of the basic overloads of `ov`.
    pub fn contains(&self, ov: Overload, sym: Sym) -> (r: bool)
        ensures
            r == self.admits(ov, sym),
    {
        let r = (ov.contains(BasicOverload::Int) && self.basic_has(BasicOverload::Int, sym)) || (
        ov.contains(BasicOverload::Real) && self.basic_has(BasicOverload::Real, sym)) || (
        ov.contains(BasicOverload::Word) && self.basic_has(BasicOverload::Word, sym)) || (
        ov.contains(BasicOverload::String) && self.basic_has(BasicOverload::String, sym)) || (
        ov.contains(BasicOverload::Char) && self.basic_has(BasicOverload::Char, sym));
        proof {
            if self.admits(ov, sym) {
                let b = choose|b: BasicOverload| ov.has(b) && #[trigger] self.syms(b).contains(sym);
                match b {
                    BasicOverload::Int => {},
                    BasicOverload::Real => {},
                    BasicOverload::Word => {},
                    BasicOverload::String => {},
                    BasicOverload::Char => {},
                }
            }
        }
        r
    }
}

/// A symbol whose information is still to come. It must be passed to
/// `Syms::finish`: dropped before that, it panics.
#[derive(Debug)]
pub struct StartedSym {
    bomb: drop_bomb::DropBomb,
    sym: Sym,
}

impl StartedSym {
    /// The symbol that was started.
    pub closed spec fn spec_sym(self) -> Sym {
        self.sym
    }

    /// Returns the sym that this marker represents.
    pub fn sym(&self) -> (r: Sym)
        ensures
            r == self.spec_sym(),
    {
        self.sym
    }
}

/// Information about generated types, generated exceptions, and overload
/// types.
#[derive(Debug)]
pub struct Syms {
    syms: Vec<SymInfo>,
    exns: Vec<ExnInfo>,
    overloads: Overloads,
}

impl View for Syms {
    type V = SymsView;

    open spec fn view(&self) -> SymsView {
        SymsView {
            infos: infos_v(self.infos()),
            exns: self.exn_infos(),
            overloads: self.spec_overloads(),
        }
    }
}

impl Syms {
    /// The information of every symbol, by place.
    pub closed spec fn infos(self) -> Seq<SymInfo> {
        self.syms@
    }

    /// The information of every exception, by number.
    pub closed spec fn exn_infos(self) -> Seq<ExnInfo> {
        self.exns@
    }

    /// The overloads.
    pub closed spec fn spec_overloads(self) -> OverloadsView {
        self.overloads@
    }

    /// Whether the table holds the symbol.
    pub open spec fn has(self, sym: Sym) -> bool {
        self@.has(sym)
    }

    /// How a symbol admits equality: as its entry says, and never where it
    /// has no entry.
    pub open spec fn equality_of(self, sym: Sym) -> Equality {
        self@.equality_of(sym)
    }

    /// The empty table: it lacks even the built-in types.
    pub fn new() -> (r: Syms)
        ensures
            r@ == (SymsView {
                infos: Seq::empty(),
                exns: Seq::empty(),
                overloads: OverloadsView::empty(),
            }),
    {
        let r = Syms { syms: Vec::new(), exns: Vec::new(), overloads: Overloads::new() };
        assert(infos_v(r.infos()) =~= Seq::empty());
        r
    }

    /// Start constructing a `Sym`. Its entry says that it sometimes admits
    /// equality, the assumption under which a datatype is checked, and holds
    /// no type and no values yet.
    pub fn start(&mut self, path: Path) -> (r: StartedSym)
        requires
            old(self).infos().len() < u32::MAX,
        ensures
            r.spec_sym().raw == old(self).infos().len() + 1,
            final(self).infos().len() == old(self).infos().len() + 1,
            final(self).infos().take(old(self).infos().len() as int) == old(self).infos(),
            final(self).infos().last().path == path,
            final(self).infos().last().equality == Equality::Sometimes,
            final(self).infos().last().ty_info.ty_scheme == (TyScheme {
                bound_vars: crate::list::List::Nil,
                ty: Ty::Unknown,
            }),
            final(self).infos().last().ty_info.val_env@ == Seq::<
                (crate::hir::Name, crate::statics::info::ValInfo),
            >::empty(),
            final(self).infos().last().ty_info.def is None,
            final(self).infos().last().ty_info.disallow is None,
            final(self).exn_infos() == old(self).exn_infos(),
            final(self).spec_overloads() == old(self).spec_overloads(),
    {
        let ty_info = TyInfo {
            ty_scheme: TyScheme::zero(Ty::Unknown),
            val_env: SymValEnv::new(),
            def: None,
            disallow: None,
        };
        self.syms.push(SymInfo { path, ty_info, equality: Equality::Sometimes });
        assert(self.syms@.take(old(self).syms@.len() as int) == old(self).syms@);
        StartedSym { bomb: new_bomb(), sym: Sym { raw: self.syms.len() as u32 } }
    }

    /// Start constructing a `Sym` of the table again: its entry stays as it
    /// is until the symbol is finished.
    pub fn restart(&self, sym: Sym) -> (r: StartedSym)
        requires
            self.has(sym),
        ensures
            r.spec_sym() == sym,
    {
        StartedSym { bomb: new_bomb(), sym }
    }

    /// Finish constructing a `Sym`: its entry gets the type information and
    /// the equality.
    pub fn finish(&mut self, started: StartedSym, ty_info: TyInfo, equality: Equality)
        requires
            old(self).has(started.spec_sym()),
        ensures
            final(self).infos() == old(self).infos().update(
                started.spec_sym().idx(),
                SymInfo {
                    path: old(self).infos()[started.spec_sym().idx()].path,
                    ty_info,
                    equality,
                },
            ),
            final(self).exn_infos() == old(self).exn_infos(),
            final(self).spec_overloads() == old(self).spec_overloads(),
    {
        let mut started = started;
        defuse(&mut started.bomb);
        let i = (started.sym.raw - 1) as usize;
        self.syms[i].ty_info = ty_info;
        self.syms[i].equality = equality;
    }

    /// Returns `None` if and only if passed the symbol of exceptions.
    pub fn get(&self, sym: Sym) -> (r: Option<&SymInfo>)
        requires
            sym.raw == SYM_EXN || self.has(sym),
        ensures
            r is None <==> sym.raw == SYM_EXN,
            r matches Some(info) ==> *info == self.infos()[sym.idx()],
    {
        if sym.raw == SYM_EXN {
            return None;
        }
        Some(&self.syms[(sym.raw - 1) as usize])
    }

    /// How a symbol admits equality.
    pub fn equality(&self, sym: Sym) -> (r: Equality)
        ensures
            r == self.equality_of(sym),
    {
        if sym.raw != SYM_EXN && ((sym.raw - 1) as usize) < self.syms.len() {
            self.syms[(sym.raw - 1) as usize].equality
        } else {
            Equality::Never
        }
    }

    /// Inserts a new exception.
    pub fn insert_exn(&mut self, path: Path, param: Option<Ty>) -> (r: Exn)
        requires
            old(self).exn_infos().len() <= u32::MAX,
        ensures
            r.raw == old(self).exn_infos().len(),
            final(self).exn_infos() == old(self).exn_infos().push(ExnInfo { path, param }),
            final(self).infos() == old(self).infos(),
            final(self).spec_overloads() == old(self).spec_overloads(),
    {
        let ret = Exn { raw: self.exns.len() as u32 };
        self.exns.push(ExnInfo { path, param });
        ret
    }

    /// The number of exceptions.
    pub fn iter_syms_exns_len(&self) -> (r: usize)
        ensures
            r == self@.exns.len(),
    {
        self.exns.len()
    }

    /// Gets information about an exception.
    pub fn get_exn(&self, exn: Exn) -> (r: &ExnInfo)
        requires
            exn.raw < self.exn_infos().len(),
        ensures
            *r == self.exn_infos()[exn.raw as int],
    {
        &self.exns[exn.raw as usize]
    }

    /// Return a marker, so we may later tell whether a `Sym` has been
    /// generated after this marker.
    pub fn mark(&self) -> (r: SymsMarker)
        ensures
            r.len == self.infos().len(),
    {
        SymsMarker { len: self.syms.len() }
    }

    /// The information of every symbol, by place.
    pub fn iter_syms(&self) -> (r: &Vec<SymInfo>)
        ensures
            r@ == self.infos(),
    {
        &self.syms
    }

    /// Returns the overloads.
    pub fn overloads(&self) -> (r: &Overloads)
        ensures
            r@ == self.spec_overloads(),
    {
        &self.overloads
    }

    /// Returns the mutable overloads.
    pub fn overloads_mut(&mut self) -> (r: &mut Overloads)
        ensures
            r@ == old(self).spec_overloads(),
            final(self).spec_overloads() == final(r)@,
            final(self).infos() == old(self).infos(),
            final(self).exn_infos() == old(self).exn_infos(),
    {
        &mut self.overloads
    }
}

} // verus!

//! What the nodes of the high-level intermediate representation say, apart
//! from how text and lists are stored.

use crate::hir::{
    ConBind, DatBind, Dec, DecIdx, ExBind, Exp, ExpIdx, Lab, LabKey, Name, Pat, PatIdx, Path, SConKey,
    StrDec, Ty, TyBind, TyIdx, TyVar, ValBind,
};
use crate::list::List;
use vstd::prelude::*;

verus! {

/// A path: the names of the structures, and the last name.
pub struct PathV {
    pub structures: Seq<Seq<char>>,
    pub last: Seq<char>,
}

pub enum ExpV {
    Hole,
    SCon(SConKey),
    Path(PathV),
    Record(Seq<(LabKey, ExpIdx)>),
    Let(DecIdx, ExpIdx),
    App(ExpIdx, ExpIdx),
    Handle(ExpIdx, Seq<(PatIdx, ExpIdx)>),
    Raise(ExpIdx),
    Fn(Seq<(PatIdx, ExpIdx)>),
    Typed(ExpIdx, TyIdx),
}

pub enum PatV {
    Wild,
    SCon(SConKey),
    Con(PathV, Option<PatIdx>),
    Record { rows: Seq<(LabKey, PatIdx)>, allows_other: bool },
    Typed(PatIdx, TyIdx),
    As(Seq<char>, PatIdx),
    /// The first alternative, and the others.
    Or(PatIdx, Seq<PatIdx>),
}

pub enum TyV {
    Hole,
    Var(Seq<char>),
    Record(Seq<(LabKey, TyIdx)>),
    Con(Seq<TyIdx>, PathV),
    Fn(TyIdx, TyIdx),
}

pub struct TyBindV {
    pub ty_vars: Seq<Seq<char>>,
    pub name: Seq<char>,
    pub ty: TyIdx,
}

pub struct ConBindV {
    pub name: Seq<char>,
    pub ty: Option<TyIdx>,
}

pub struct DatBindV {
    pub ty_vars: Seq<Seq<char>>,
    pub name: Seq<char>,
    pub cons: Seq<ConBindV>,
}

pub enum ExBindV {
    New(Seq<char>, Option<TyIdx>),
    Copy(Seq<char>, PathV),
}

pub enum DecV {
    Val(Seq<Seq<char>>, Seq<ValBind>),
    Ty(Seq<TyBindV>),
    Datatype(Seq<DatBindV>, Seq<TyBindV>),
    DatatypeCopy(Seq<char>, PathV),
    Abstype(Seq<DatBindV>, Seq<TyBindV>, DecIdx),
    Exception(Seq<ExBindV>),
    Local(DecIdx, DecIdx),
    Open(Seq<PathV>),
    Sequence(Seq<DecIdx>),
}

/// What the names of a list say, in order.
pub open spec fn names_v(l: List<Name>) -> Seq<Seq<char>>
    decreases l,
{
    match l {
        List::Nil => Seq::empty(),
        List::Cons(h, t) => seq![h@] + names_v(*t),
    }
}

pub open spec fn path_v(p: Path) -> PathV {
    PathV { structures: names_v(p.structures), last: p.last@ }
}

/// What the rows of a record say: the labels, each with the number of its
/// node.
pub open spec fn rows_v(rows: Seq<(Lab, Option<u32>)>) -> Seq<(LabKey, Option<u32>)> {
    Seq::new(rows.len(), |i: int| (rows[i].0@, rows[i].1))
}

pub open spec fn ty_vars_v(vars: Seq<TyVar>) -> Seq<Seq<char>> {
    Seq::new(vars.len(), |i: int| vars[i]@)
}

pub open spec fn paths_v(paths: Seq<Path>) -> Seq<PathV> {
    Seq::new(paths.len(), |i: int| path_v(paths[i]))
}

pub open spec fn ty_bind_v(b: TyBind) -> TyBindV {
    TyBindV { ty_vars: ty_vars_v(b.ty_vars@), name: b.name@, ty: b.ty }
}

pub open spec fn ty_binds_v(binds: Seq<TyBind>) -> Seq<TyBindV> {
    Seq::new(binds.len(), |i: int| ty_bind_v(binds[i]))
}

pub open spec fn con_bind_v(b: ConBind) -> ConBindV {
    ConBindV { name: b.name@, ty: b.ty }
}

pub open spec fn con_binds_v(binds: Seq<ConBind>) -> Seq<ConBindV> {
    Seq::new(binds.len(), |i: int| con_bind_v(binds[i]))
}

pub open spec fn dat_bind_v(b: DatBind) -> DatBindV {
    DatBindV { ty_vars: ty_vars_v(b.ty_vars@), name: b.name@, cons: con_binds_v(b.cons@) }
}

pub open spec fn dat_binds_v(binds: Seq<DatBind>) -> Seq<DatBindV> {
    Seq::new(binds.len(), |i: int| dat_bind_v(binds[i]))
}

pub open spec fn ex_bind_v(b: ExBind) -> ExBindV {
    match b {
        ExBind::New(n, ty) => ExBindV::New(n@, ty),
        ExBind::Copy(n, p) => ExBindV::Copy(n@, path_v(p)),
    }
}

pub open spec fn ex_binds_v(binds: Seq<ExBind>) -> Seq<ExBindV> {
    Seq::new(binds.len(), |i: int| ex_bind_v(binds[i]))
}

pub open spec fn exp_v(e: Exp) -> ExpV {
    match e {
        Exp::Hole => ExpV::Hole,
        Exp::SCon(c) => ExpV::SCon(c@),
        Exp::Path(p) => ExpV::Path(path_v(p)),
        Exp::Record(rows) => ExpV::Record(rows_v(rows@)),
        Exp::Let(d, e) => ExpV::Let(d, e),
        Exp::App(f, a) => ExpV::App(f, a),
        Exp::Handle(e, arms) => ExpV::Handle(e, arms@),
        Exp::Raise(e) => ExpV::Raise(e),
        Exp::Fn(arms) => ExpV::Fn(arms@),
        Exp::Typed(e, t) => ExpV::Typed(e, t),
    }
}

pub open spec fn pat_v(p: Pat) -> PatV {
    match p {
        Pat::Wild => PatV::Wild,
        Pat::SCon(c) => PatV::SCon(c@),
        Pat::Con(path, arg) => PatV::Con(path_v(path), arg),
        Pat::Record { rows, allows_other } => PatV::Record { rows: rows_v(rows@), allows_other },
        Pat::Typed(p, t) => PatV::Typed(p, t),
        Pat::As(n, p) => PatV::As(n@, p),
        Pat::Or(or) => PatV::Or(or.first, or.rest@),
    }
}

pub open spec fn ty_v(t: Ty) -> TyV {
    match t {
        Ty::Hole => TyV::Hole,
        Ty::Var(v) => TyV::Var(v@),
        Ty::Record(rows) => TyV::Record(rows_v(rows@)),
        Ty::Con(args, path) => TyV::Con(args@, path_v(path)),
        Ty::Fn(a, b) => TyV::Fn(a, b),
    }
}

pub open spec fn dec_v(d: Dec) -> DecV {
    match d {
        Dec::Val(vars, binds) => DecV::Val(ty_vars_v(vars@), binds@),
        Dec::Ty(binds) => DecV::Ty(ty_binds_v(binds@)),
        Dec::Datatype(dats, tys) => DecV::Datatype(dat_binds_v(dats@), ty_binds_v(tys@)),
        Dec::DatatypeCopy(n, p) => DecV::DatatypeCopy(n@, path_v(p)),
        Dec::Abstype(dats, tys, d) => DecV::Abstype(dat_binds_v(dats@), ty_binds_v(tys@), d),
        Dec::Exception(binds) => DecV::Exception(ex_binds_v(binds@)),
        Dec::Local(a, b) => DecV::Local(a, b),
        Dec::Open(paths) => DecV::Open(paths_v(paths@)),
        Dec::Sequence(decs) => DecV::Sequence(decs@),
    }
}

pub struct StrBindV {
    pub name: Seq<char>,
    pub str_exp: Option<u32>,
}

pub struct SigBindV {
    pub name: Seq<char>,
    pub sig_exp: Option<u32>,
}

pub struct FunctorBindV {
    pub functor_name: Seq<char>,
    pub param_name: Seq<char>,
    pub param_sig: Option<u32>,
    pub body: Option<u32>,
}

pub enum StrDecV {
    Dec(DecIdx),
    Structure(Seq<StrBindV>),
    Local(Option<u32>, Option<u32>),
    Sequence(Seq<Option<u32>>),
    Signature(Seq<SigBindV>),
    Functor(Seq<FunctorBindV>),
}

pub open spec fn str_dec_v(d: StrDec) -> StrDecV {
    match d {
        StrDec::Dec(d) => StrDecV::Dec(d),
        StrDec::Structure(binds) => StrDecV::Structure(
            Seq::new(
                binds@.len(),
                |i: int| StrBindV { name: binds@[i].name@, str_exp: binds@[i].str_exp },
            ),
        ),
        StrDec::Local(a, b) => StrDecV::Local(a, b),
        StrDec::Sequence(decs) => StrDecV::Sequence(decs@),
        StrDec::Signature(binds) => StrDecV::Signature(
            Seq::new(
                binds@.len(),
                |i: int| SigBindV { name: binds@[i].name@, sig_exp: binds@[i].sig_exp },
            ),
        ),
        StrDec::Functor(binds) => StrDecV::Functor(
            Seq::new(
                binds@.len(),
                |i: int|
                    FunctorBindV {
                        functor_name: binds@[i].functor_name@,
                        param_name: binds@[i].param_name@,
                        param_sig: binds@[i].param_sig,
                        body: binds@[i].body,
                    },
            ),
        ),
    }
}

pub open spec fn exps_v(items: Seq<Exp>) -> Seq<ExpV> {
    Seq::new(items.len(), |i: int| exp_v(items[i]))
}

pub open spec fn pats_v(items: Seq<Pat>) -> Seq<PatV> {
    Seq::new(items.len(), |i: int| pat_v(items[i]))
}

pub open spec fn tys_v(items: Seq<Ty>) -> Seq<TyV> {
    Seq::new(items.len(), |i: int| ty_v(items[i]))
}

pub open spec fn decs_v(items: Seq<Dec>) -> Seq<DecV> {
    Seq::new(items.len(), |i: int| dec_v(items[i]))
}

pub open spec fn str_decs_v(items: Seq<StrDec>) -> Seq<StrDecV> {
    Seq::new(items.len(), |i: int| str_dec_v(items[i]))
}

} // verus!

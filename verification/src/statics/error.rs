//! The errors of type checking.

use crate::hir::{Idx, Lab};
use crate::statics::equality::NotEqTy;
use crate::statics::types::{MetaTyVar, Overload, Ty};
use vstd::prelude::*;

verus! {

/// What went wrong.
#[derive(Debug)]
pub enum ErrorKind {
    Unsupported,
    Undefined,
    Redefined,
    /// A type would have to contain itself.
    Circularity(MetaTyVar, Ty),
    /// The type wanted, then the type found.
    MismatchedTypes(Ty, Ty),
    /// A field that the wanted record type has and the found one lacks.
    MissingField(Lab, Ty, Ty),
    /// The found record type has fields that the wanted one lacks.
    ExtraFields(Ty, Ty),
    DuplicateLab(Lab),
    RealPat,
    UnreachablePattern,
    NonExhaustiveMatch,
    NonExhaustiveBinding,
    PatValIdStatus,
    PatMustNotHaveArg,
    PatMustHaveArg,
    /// The overload that was wanted, the type that is none of it, and
    /// whether the wanted type admitted the found one before it was
    /// narrowed: whether the found type is an overloaded variable whose
    /// overload lies within the overload of a variable of the wanted type.
    OverloadMismatch(Overload, Ty, bool),
    TyNameEscape,
    ValRecExpNotFn,
    /// The type that is not an equality type, and why.
    NotEquality(Ty, NotEqTy),
}

/// An error at a node of the syntax.
#[derive(Debug)]
pub struct Error {
    pub idx: Idx,
    pub kind: ErrorKind,
}

} // verus!

//! Ways in which naming something is not allowed.

use crate::hir::Name;
use vstd::prelude::*;

verus! {

/// A way in which something is not allowed.
#[derive(Debug, Clone, Copy, PartialEq, Eq, Structural, Hash)]
pub enum Disallow {
    Directly,
}

impl Disallow {
    /// The word for this way.
    pub open spec fn text(self) -> Seq<char> {
        "directly"@
    }

    /// The word for this way.
    pub fn describe(self) -> (r: String)
        ensures
            r@ == self.text(),
    {
        String::from_str("directly")
    }
}

/// A kind of thing that a name can stand for.
#[derive(Debug, Clone, Copy, PartialEq, Eq, Structural, Hash)]
pub enum Item {
    Val,
    Ty,
    Struct,
    Sig,
    Functor,
}

/// Why a path could not be disallowed.
#[derive(Debug)]
pub enum ErrorKind {
    Undefined(Item, Name),
}

/// An error when trying to disallow a path.
#[derive(Debug)]
pub struct Error {
    pub kind: ErrorKind,
}

impl Error {
    /// The error of the given kind.
    pub fn from(value: ErrorKind) -> (r: Error)
        ensures
            r.kind == value,
    {
        Error { kind: value }
    }
}

} // verus!

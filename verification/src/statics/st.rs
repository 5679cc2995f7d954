//! The state that every pass of the type checker threads through.

use crate::hir::Idx;
use crate::statics::error::{Error, ErrorKind};
use crate::statics::sym::{Syms, SymsView};
use crate::statics::types::{Entries, MetaTyVar, Subst};
use vstd::prelude::*;

verus! {

/// The symbols, the substitution, the errors so far, and the number of the
/// next fresh meta variable.
#[derive(Debug)]
pub struct St {
    pub syms: Syms,
    pub subst: Subst,
    pub errors: Vec<Error>,
    pub next_meta: u32,
}

impl St {
    /// A fresh state around a table of symbols.
    pub fn new(syms: Syms) -> (r: St)
        ensures
            r.syms == syms,
            r.subst@ == Seq::<Option<crate::statics::types::SubstEntry>>::empty(),
            r.subst.wf(),
            r.errors@ == Seq::<Error>::empty(),
            r.next_meta == 0,
    {
        St { syms, subst: Subst::new(), errors: Vec::new(), next_meta: 0 }
    }

    /// Records an error at a node.
    pub fn err(&mut self, idx: Idx, kind: ErrorKind)
        ensures
            final(self)@ == with_error(old(self)@, idx, kind),
            final(self).syms == old(self).syms,
            final(self).subst == old(self).subst,
            final(self).next_meta == old(self).next_meta,
    {
        self.errors.push(Error { idx, kind });
    }

    /// The next meta variable. It was not given out before, unless the
    /// numbers have run out: then the last one is given out again.
    pub fn gen_meta_var(&mut self) -> (r: MetaTyVar)
        ensures
            r.id == old(self).next_meta,
            final(self)@ == bump_meta(old(self)@),
            final(self).syms == old(self).syms,
            final(self).subst == old(self).subst,
            final(self).errors == old(self).errors,
    {
        let r = MetaTyVar { id: self.next_meta };
        if self.next_meta < u32::MAX {
            self.next_meta = self.next_meta + 1;
        }
        r
    }
}

/// What a state holds.
pub struct StView {
    pub syms: SymsView,
    pub subst: Entries,
    pub errors: Seq<Error>,
    pub next_meta: u32,
}

impl View for St {
    type V = StView;

    open spec fn view(&self) -> StView {
        StView {
            syms: self.syms@,
            subst: self.subst@,
            errors: self.errors@,
            next_meta: self.next_meta,
        }
    }
}

/// The state after a meta variable was given out.
pub open spec fn bump_meta(st: StView) -> StView {
    StView {
        next_meta: if st.next_meta < u32::MAX {
            (st.next_meta + 1) as u32
        } else {
            st.next_meta
        },
        ..st
    }
}

/// The state with one more error.
pub open spec fn with_error(st: StView, idx: Idx, kind: ErrorKind) -> StView {
    StView { errors: st.errors.push(Error { idx, kind }), ..st }
}

/// The state with other entries of the substitution.
pub open spec fn with_subst(st: StView, subst: Entries) -> StView {
    StView { subst, ..st }
}

} // verus!

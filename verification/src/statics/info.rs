//! What is known of the types and values that names stand for.

use crate::hir::{Idx, Name};
use crate::statics::disallow::Disallow;
use crate::statics::types::TyScheme;
use vstd::prelude::*;

verus! {

/// An exception, by its number in the table of exceptions.
#[derive(Debug, Clone, Copy, PartialEq, Eq, Structural, Hash)]
pub struct Exn {
    pub raw: u32,
}

/// Where something was defined: the file and the node.
#[derive(Debug, Clone, Copy, PartialEq, Eq, Structural, Hash)]
pub struct Def {
    pub path: u32,
    pub idx: Idx,
}

/// The status of an identifier.
#[derive(Debug, Clone, Copy, PartialEq, Eq, Structural)]
pub enum IdStatus {
    /// A constructor.
    Con,
    /// An exception.
    Exn(Exn),
    /// A general value.
    Val,
}

impl IdStatus {
    /// Whether both are of one kind, whatever the exception.
    pub open spec fn same_kind(self, other: IdStatus) -> bool {
        match (self, other) {
            (IdStatus::Con, IdStatus::Con) => true,
            (IdStatus::Exn(_), IdStatus::Exn(_)) => true,
            (IdStatus::Val, IdStatus::Val) => true,
            _ => false,
        }
    }

    /// Returns whether this is the same kind of identifier status as the
    /// other.
    pub fn same_kind_as(self, other: IdStatus) -> (r: bool)
        ensures
            r == self.same_kind(other),
    {
        match (self, other) {
            (IdStatus::Con, IdStatus::Con) => true,
            (IdStatus::Exn(_), IdStatus::Exn(_)) => true,
            (IdStatus::Val, IdStatus::Val) => true,
            _ => false,
        }
    }
}

/// Information about a value.
#[derive(Debug)]
pub struct ValInfo {
    /// The type scheme for this value.
    pub ty_scheme: TyScheme,
    /// The identifier status.
    pub id_status: IdStatus,
    /// Where it was defined, if known.
    pub def: Option<Def>,
    /// Whether this is disallowed.
    pub disallow: Option<Disallow>,
}

impl Clone for ValInfo {
    fn clone(&self) -> (r: Self)
        ensures
            r == *self,
    {
        ValInfo {
            ty_scheme: self.ty_scheme.clone(),
            id_status: self.id_status,
            def: self.def,
            disallow: self.disallow,
        }
    }
}

/// Where `key` stands among the names of `entries`, if it does.
pub open spec fn position(entries: Seq<(Name, ValInfo)>, key: Seq<char>) -> Option<int>
    decreases entries.len(),
{
    if entries.len() == 0 {
        None
    } else if entries.last().0@ == key {
        Some(entries.len() - 1)
    } else {
        position(entries.drop_last(), key)
    }
}

/// Whether no name stands twice in `entries`.
pub open spec fn distinct_names(entries: Seq<(Name, ValInfo)>) -> bool {
    forall|i: int, j: int|
        0 <= i < j < entries.len() ==> #[trigger] entries[i].0@ != #[trigger] entries[j].0@
}

/// `position` finds a place that holds the key, and nothing when no place
/// does.
pub proof fn lemma_position(entries: Seq<(Name, ValInfo)>, key: Seq<char>)
    ensures
        match position(entries, key) {
            Some(i) => 0 <= i < entries.len() && entries[i].0@ == key,
            None => forall|i: int| 0 <= i < entries.len() ==> entries[i].0@ != key,
        },
    decreases entries.len(),
{
    if entries.len() > 0 && entries.last().0@ != key {
        lemma_position(entries.drop_last(), key);
        if position(entries, key) is None {
            assert forall|i: int| 0 <= i < entries.len() implies entries[i].0@ != key by {
                if i < entries.len() - 1 {
                    assert(entries.drop_last()[i] == entries[i]);
                }
            }
        }
    }
}

/// A value environment that keeps the order in which names came.
#[derive(Debug)]
pub struct SymValEnv {
    entries: Vec<(Name, ValInfo)>,
}

impl View for SymValEnv {
    type V = Seq<(Name, ValInfo)>;

    closed spec fn view(&self) -> Seq<(Name, ValInfo)> {
        self.entries@
    }
}

impl SymValEnv {
    /// Whether no name stands twice.
    pub open spec fn wf(&self) -> bool {
        distinct_names(self@)
    }

    /// The environment without names.
    pub fn new() -> (r: SymValEnv)
        ensures
            r@ == Seq::<(Name, ValInfo)>::empty(),
            r.wf(),
    {
        SymValEnv { entries: Vec::new() }
    }

    fn find(&self, key: &Name) -> (r: Option<usize>)
        ensures
            match r {
                Some(i) => position(self@, key@) == Some(i as int),
                None => position(self@, key@) is None,
            },
    {
        let mut i: usize = self.entries.len();
        assert(self@.take(i as int) == self@);
        while i > 0
            invariant
                i <= self.entries.len(),
                position(self@, key@) == position(self@.take(i as int), key@),
            decreases i,
        {
            assert(self@.take(i as int).last() == self@[i - 1]);
            assert(self@.take(i as int).drop_last() == self@.take(i - 1));
            if self.entries[i - 1].0 == *key {
                return Some(i - 1);
            }
            i -= 1;
        }
        None
    }

    /// Inserts the key-val mapping into this. Returns whether the key was
    /// newly inserted: a new key goes behind the others, a known key keeps
    /// its place and gets the new value.
    pub fn insert(&mut self, key: Name, val: ValInfo) -> (r: bool)
        requires
            old(self).wf(),
        ensures
            final(self).wf(),
            r == position(old(self)@, key@) is None,
            r ==> final(self)@ == old(self)@.push((key, val)),
            !r ==> final(self)@ == old(self)@.update(
                position(old(self)@, key@)->0,
                (old(self)@[position(old(self)@, key@)->0].0, val),
            ),
    {
        proof {
            lemma_position(self@, key@);
        }
        match self.find(&key) {
            Some(i) => {
                let name = self.entries[i].0.clone();
                self.entries.set(i, (name, val));
                false
            },
            None => {
                self.entries.push((key, val));
                true
            },
        }
    }

    /// Returns the val for this key.
    pub fn get(&self, key: &Name) -> (r: Option<&ValInfo>)
        ensures
            match r {
                Some(v) => position(self@, key@) is Some && *v == self@[position(
                    self@,
                    key@,
                )->0].1,
                None => position(self@, key@) is None,
            },
    {
        proof {
            lemma_position(self@, key@);
        }
        match self.find(key) {
            Some(i) => Some(&self.entries[i].1),
            None => None,
        }
    }

    /// Where a key stands among the names, if it does.
    pub fn index_of(&self, key: &Name) -> (r: Option<usize>)
        ensures
            match r {
                Some(i) => position(self@, key@) == Some(i as int),
                None => position(self@, key@) is None,
            },
    {
        self.find(key)
    }

    /// The number of names.
    pub fn len(&self) -> (r: usize)
        ensures
            r == self@.len(),
    {
        self.entries.len()
    }

    /// The value at a place among the names, to be changed: the name stays.
    pub fn iter_mut(&mut self, i: usize) -> (r: &mut ValInfo)
        requires
            i < old(self)@.len(),
        ensures
            *r == old(self)@[i as int].1,
            final(self)@ == old(self)@.update(i as int, (old(self)@[i as int].0, *final(r))),
            old(self).wf() ==> final(self).wf(),
    {
        &mut self.entries[i].1
    }

    /// The key-value pairs, in insertion order.
    pub fn iter(&self) -> (r: &Vec<(Name, ValInfo)>)
        ensures
            r@ == self@,
    {
        &self.entries
    }
}

/// Information about a type.
#[derive(Debug)]
pub struct TyInfo {
    /// The type scheme.
    pub ty_scheme: TyScheme,
    /// The val environment.
    pub val_env: SymValEnv,
    /// Where it was defined, if known.
    pub def: Option<Def>,
    /// Whether this is disallowed.
    pub disallow: Option<Disallow>,
}

} // verus!

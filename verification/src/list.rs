//! An owned, singly linked list. The recursive data of the type checker and
//! the evaluator is built from it, so that two values are equal exactly when
//! they are built alike.

use vstd::prelude::*;

verus! {

/// A finite list: empty, or a head in front of a tail.
#[derive(Debug)]
pub enum List<T> {
    Nil,
    Cons(T, Box<List<T>>),
}

impl<T> List<T> {
    /// The items, front first.
    pub open spec fn seq(self) -> Seq<T>
        decreases self,
    {
        match self {
            List::Nil => Seq::empty(),
            List::Cons(h, t) => seq![h] + t.seq(),
        }
    }

    /// The number of items.
    pub open spec fn len(self) -> nat
        decreases self,
    {
        match self {
            List::Nil => 0,
            List::Cons(_, t) => 1 + t.len(),
        }
    }

    /// The list with `other` behind it.
    pub open spec fn append(self, other: List<T>) -> List<T>
        decreases self,
    {
        match self {
            List::Nil => other,
            List::Cons(h, t) => List::Cons(h, Box::new(t.append(other))),
        }
    }

    /// The empty list.
    pub fn new() -> (r: List<T>)
        ensures
            r == List::<T>::Nil,
    {
        List::Nil
    }

    /// Whether the list holds nothing.
    pub fn is_empty(&self) -> (r: bool)
        ensures
            r == (*self is Nil),
    {
        match self {
            List::Nil => true,
            List::Cons(_, _) => false,
        }
    }

    /// Moves `other` behind the items of this list.
    pub fn concat(self, other: List<T>) -> (r: List<T>)
        ensures
            r == self.append(other),
        decreases self,
    {
        match self {
            List::Nil => other,
            List::Cons(h, t) => List::Cons(h, Box::new((*t).concat(other))),
        }
    }
}

/// The list of the items of a sequence, in order.
pub open spec fn list_of<T>(s: Seq<T>) -> List<T>
    decreases s.len(),
{
    if s.len() == 0 {
        List::Nil
    } else {
        List::Cons(s[0], Box::new(list_of(s.skip(1))))
    }
}

/// The list of the items of a vector, in order.
pub fn list_from_vec<T: Copy>(v: &Vec<T>) -> (r: List<T>)
    ensures
        r == list_of(v@),
{
    let mut acc: List<T> = List::Nil;
    let mut i: usize = v.len();
    assert(v@.skip(i as int) =~= Seq::<T>::empty());
    while i > 0
        invariant
            i <= v.len(),
            acc == list_of(v@.skip(i as int)),
        decreases i,
    {
        i -= 1;
        assert(v@.skip(i as int).skip(1) == v@.skip(i + 1));
        acc = List::Cons(v[i], Box::new(acc));
    }
    assert(v@.skip(0) == v@);
    acc
}

/// A copy of a list of plain items.
pub fn clone_list<T: Copy>(l: &List<T>) -> (r: List<T>)
    ensures
        r == *l,
    decreases *l,
{
    match l {
        List::Nil => List::Nil,
        List::Cons(h, t) => List::Cons(*h, Box::new(clone_list(t))),
    }
}

} // verus!

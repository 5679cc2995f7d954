//! Whether the patterns of a match cover every value, and whether each of
//! them can be reached: the default-matrix algorithm on patterns that were
//! made independent from the syntax.

use crate::hir::{Name, SCon};
use crate::list::List;
use crate::statics::info::Exn;
use vstd::prelude::*;

verus! {

/// The head of a pattern that stands for one form of value.
#[derive(Debug)]
pub enum Head {
    /// A record or tuple: the one form of its type.
    Record,
    /// A constructor of a datatype: which one, of how many.
    Dat { idx: u32, span: u32 },
    /// An exception constructor. There may always be more exceptions.
    Exn(Exn),
    /// A constructor of which no more is known than its name.
    Open(Name),
    /// A special constant. There are always more constants.
    Lit(SCon),
}

/// A pattern, independent from the syntax: anything, or a head with the
/// patterns of its parts.
#[derive(Debug)]
pub enum Pat {
    Any,
    Con(Head, Box<List<Pat>>),
}

/// The rows of a match: each row is the patterns of one arm, column by
/// column.
pub type Matrix = List<List<Pat>>;

impl Clone for Head {
    fn clone(&self) -> (r: Self)
        ensures
            r == *self,
    {
        match self {
            Head::Record => Head::Record,
            Head::Dat { idx, span } => Head::Dat { idx: *idx, span: *span },
            Head::Exn(e) => Head::Exn(*e),
            Head::Open(n) => Head::Open(n.clone()),
            Head::Lit(c) => Head::Lit(c.clone()),
        }
    }
}

impl Clone for Pat {
    fn clone(&self) -> (r: Self)
        ensures
            r == *self,
        decreases *self,
    {
        match self {
            Pat::Any => Pat::Any,
            Pat::Con(h, args) => Pat::Con(h.clone(), Box::new(clone_pats(args))),
        }
    }
}

/// A copy of a list of patterns.
pub fn clone_pats(pats: &List<Pat>) -> (r: List<Pat>)
    ensures
        r == *pats,
    decreases *pats,
{
    match pats {
        List::Nil => List::Nil,
        List::Cons(h, t) => List::Cons(h.clone(), Box::new(clone_pats(t))),
    }
}

/// Whether two heads stand for the same form of value.
pub open spec fn same_head(a: Head, b: Head) -> bool {
    match (a, b) {
        (Head::Record, Head::Record) => true,
        (Head::Dat { idx: i, span: _ }, Head::Dat { idx: j, span: _ }) => i == j,
        (Head::Exn(x), Head::Exn(y)) => x == y,
        (Head::Open(n), Head::Open(m)) => n@ == m@,
        (Head::Lit(c), Head::Lit(d)) => c@ == d@,
        _ => false,
    }
}

/// The number of heads in a pattern.
pub open spec fn weight(p: Pat) -> nat
    decreases p,
{
    match p {
        Pat::Any => 0,
        Pat::Con(_, args) => 1 + weight_list(*args),
    }
}

/// The number of heads in the patterns of a list.
pub open spec fn weight_list(l: List<Pat>) -> nat
    decreases l,
{
    match l {
        List::Nil => 0,
        List::Cons(h, t) => weight(h) + weight_list(*t),
    }
}

/// The number of heads in the patterns of a matrix.
pub open spec fn weight_matrix(m: Matrix) -> nat
    decreases m,
{
    match m {
        List::Nil => 0,
        List::Cons(row, rest) => weight_list(row) + weight_matrix(*rest),
    }
}

/// As many patterns that match anything as the list has patterns.
pub open spec fn blank(l: List<Pat>) -> List<Pat>
    decreases l,
{
    match l {
        List::Nil => List::Nil,
        List::Cons(_, t) => List::Cons(Pat::Any, Box::new(blank(*t))),
    }
}

/// What is left of a row for values of the form `head`, whose parts
/// `blanks` has a pattern for that matches anything: the parts of its first
/// pattern, or `blanks`, and the rest of the row. Nothing is left of a row
/// whose first pattern is of another form, and of a row without patterns.
pub open spec fn specialize_row(row: List<Pat>, head: Head, blanks: List<Pat>) -> Option<
    List<Pat>,
> {
    match row {
        List::Nil => None,
        List::Cons(first, rest) => match first {
            Pat::Any => Some(blanks.append(*rest)),
            Pat::Con(h, args) => if same_head(h, head) {
                Some(args.append(*rest))
            } else {
                None
            },
        },
    }
}

/// The rows of a matrix for values of the form `head`.
pub open spec fn specialize(m: Matrix, head: Head, blanks: List<Pat>) -> Matrix
    decreases m,
{
    match m {
        List::Nil => List::Nil,
        List::Cons(row, rest) => match specialize_row(row, head, blanks) {
            Some(r) => List::Cons(r, Box::new(specialize(*rest, head, blanks))),
            None => specialize(*rest, head, blanks),
        },
    }
}

/// The rows of a matrix for values of a form that no first pattern names:
/// the rest of each row whose first pattern matches anything.
pub open spec fn default_matrix(m: Matrix) -> Matrix
    decreases m,
{
    match m {
        List::Nil => List::Nil,
        List::Cons(row, rest) => match row {
            List::Cons(Pat::Any, tail) => List::Cons(*tail, Box::new(default_matrix(*rest))),
            _ => default_matrix(*rest),
        },
    }
}

/// Whether the first pattern of some row is of the form `head`.
pub open spec fn column_has(m: Matrix, head: Head) -> bool
    decreases m,
{
    match m {
        List::Nil => false,
        List::Cons(row, rest) => (row matches List::Cons(Pat::Con(h, _), _) && same_head(h, head))
            || column_has(*rest, head),
    }
}

/// The heads of the first patterns of the rows, each with a pattern that
/// matches anything for each of its parts, in the order of the rows.
pub open spec fn heads(m: Matrix) -> List<(Head, List<Pat>)>
    decreases m,
{
    match m {
        List::Nil => List::Nil,
        List::Cons(row, rest) => match row {
            List::Cons(Pat::Con(h, args), _) => List::Cons(
                (h, blank(*args)),
                Box::new(heads(*rest)),
            ),
            _ => heads(*rest),
        },
    }
}

/// Whether the first patterns of the rows name every constructor from `i`
/// up to `span`.
pub open spec fn names_all(m: Matrix, i: nat, span: nat) -> bool
    decreases span - i,
{
    if i >= span {
        true
    } else {
        column_has(m, Head::Dat { idx: i as u32, span: span as u32 }) && names_all(
            m,
            i + 1,
            span,
        )
    }
}

/// Whether the first patterns of the rows name every form of value of their
/// type: a record, or every constructor of a datatype. Exceptions and
/// constants are never all named.
pub open spec fn complete(m: Matrix) -> bool {
    match heads(m) {
        List::Nil => false,
        List::Cons(first, _) => match first.0 {
            Head::Record => true,
            Head::Dat { idx, span } => names_all(m, 0, span as nat),
            _ => false,
        },
    }
}

pub proof fn lemma_weight_append(a: List<Pat>, b: List<Pat>)
    ensures
        weight_list(a.append(b)) == weight_list(a) + weight_list(b),
    decreases a,
{
    match a {
        List::Nil => {},
        List::Cons(_, t) => lemma_weight_append(*t, b),
    }
}

pub proof fn lemma_weight_blank(l: List<Pat>)
    ensures
        weight_list(blank(l)) == 0,
    decreases l,
{
    match l {
        List::Nil => {},
        List::Cons(_, t) => {
            lemma_weight_blank(*t);
            assert(weight(Pat::Any) == 0);
        },
    }
}

pub proof fn lemma_weight_specialize(m: Matrix, head: Head, blanks: List<Pat>)
    requires
        weight_list(blanks) == 0,
    ensures
        weight_matrix(specialize(m, head, blanks)) <= weight_matrix(m),
        column_has(m, head) ==> weight_matrix(specialize(m, head, blanks)) < weight_matrix(m),
    decreases m,
{
    match m {
        List::Nil => {},
        List::Cons(row, rest) => {
            lemma_weight_specialize(*rest, head, blanks);
            match row {
                List::Nil => {},
                List::Cons(first, tail) => {
                    match first {
                        Pat::Any => {
                            lemma_weight_append(blanks, *tail);
                            assert(weight(first) == 0);
                        },
                        Pat::Con(h, args) => {
                            lemma_weight_append(*args, *tail);
                            assert(weight(first) == 1 + weight_list(*args));
                        },
                    }
                },
            }
        },
    }
}

pub proof fn lemma_weight_default(m: Matrix)
    ensures
        weight_matrix(default_matrix(m)) <= weight_matrix(m),
    decreases m,
{
    match m {
        List::Nil => {},
        List::Cons(_, rest) => lemma_weight_default(*rest),
    }
}

/// Whether the row of patterns `q` is useful behind the rows `m`: whether
/// some values match `q` and no row of `m`.
///
/// With no column left, `q` is useful when there is no row. When the first
/// pattern of `q` has a head, the rows for that form of value decide. When
/// it matches anything and the first patterns of the rows name every form
/// of value, `q` is useful when it is for one of the forms; else the rows
/// whose first pattern matches anything decide.
pub open spec fn useful(m: Matrix, q: List<Pat>) -> bool
    decreases weight_matrix(m) + weight_list(q), q.len(), 0nat,
{
    match q {
        List::Nil => m is Nil,
        List::Cons(first, rest) => match first {
            Pat::Con(h, args) => {
                proof {
                    lemma_weight_blank(*args);
                    lemma_weight_specialize(m, h, blank(*args));
                    lemma_weight_append(*args, *rest);
                    assert(weight(first) == 1 + weight_list(*args));
                }
                useful(specialize(m, h, blank(*args)), args.append(*rest))
            },
            Pat::Any => if complete(m) {
                useful_heads(m, heads(m), *rest)
            } else {
                proof {
                    lemma_weight_default(m);
                }
                useful(default_matrix(m), *rest)
            },
        },
    }
}

/// Whether a row that matches anything and then `rest` is useful behind the
/// rows `m` for one of the forms of value `hs`.
pub open spec fn useful_heads(m: Matrix, hs: List<(Head, List<Pat>)>, rest: List<Pat>) -> bool
    decreases weight_matrix(m) + weight_list(rest), rest.len(), 1 + hs.len(),
{
    match hs {
        List::Nil => false,
        List::Cons(h, more) => {
            proof {
                if weight_list(h.1) == 0 {
                    lemma_weight_specialize(m, h.0, h.1);
                }
                lemma_weight_append(h.1, rest);
            }
            (column_has(m, h.0) && weight_list(h.1) == 0 && useful(
                specialize(m, h.0, h.1),
                h.1.append(rest),
            )) || useful_heads(m, *more, rest)
        },
    }
}

/// A match is exhaustive when a pattern that matches anything is of no use
/// behind its arms.
pub open spec fn exhaustive(m: Matrix) -> bool {
    !useful(m, List::Cons(Pat::Any, Box::new(List::Nil)))
}

/// The matrix with one more row of one pattern, behind the others.
pub open spec fn with_row(m: Matrix, p: Pat) -> Matrix {
    m.append(List::Cons(List::Cons(p, Box::new(List::Nil)), Box::new(List::Nil)))
}

/// An arm can be reached when its pattern is useful behind the arms before
/// it.
pub open spec fn reachable(m: Matrix, p: Pat) -> bool {
    useful(m, List::Cons(p, Box::new(List::Nil)))
}

fn heads_same(a: &Head, b: &Head) -> (r: bool)
    ensures
        r == same_head(*a, *b),
{
    match (a, b) {
        (Head::Record, Head::Record) => true,
        (Head::Dat { idx: i, span: _ }, Head::Dat { idx: j, span: _ }) => *i == *j,
        (Head::Exn(x), Head::Exn(y)) => *x == *y,
        (Head::Open(n), Head::Open(m)) => *n == *m,
        (Head::Lit(c), Head::Lit(d)) => c.same(d),
        _ => false,
    }
}

fn blank_of(l: &List<Pat>) -> (r: List<Pat>)
    ensures
        r == blank(*l),
    decreases *l,
{
    match l {
        List::Nil => List::Nil,
        List::Cons(_, t) => List::Cons(Pat::Any, Box::new(blank_of(t))),
    }
}

fn is_blank(l: &List<Pat>) -> (r: bool)
    ensures
        r == (weight_list(*l) == 0),
    decreases *l,
{
    match l {
        List::Nil => true,
        List::Cons(h, t) => match h {
            Pat::Any => {
                assert(weight(*h) == 0);
                is_blank(t)
            },
            Pat::Con(_, args) => {
                assert(weight(*h) == 1 + weight_list(**args));
                false
            },
        },
    }
}

fn specialize_one(row: &List<Pat>, head: &Head, blanks: &List<Pat>) -> (r: Option<List<Pat>>)
    ensures
        r == specialize_row(*row, *head, *blanks),
{
    match row {
        List::Nil => None,
        List::Cons(first, rest) => match first {
            Pat::Any => Some(clone_pats(blanks).concat(clone_pats(rest))),
            Pat::Con(h, args) => if heads_same(h, head) {
                Some(clone_pats(args).concat(clone_pats(rest)))
            } else {
                None
            },
        },
    }
}

fn specialized(m: &Matrix, head: &Head, blanks: &List<Pat>) -> (r: Matrix)
    ensures
        r == specialize(*m, *head, *blanks),
    decreases *m,
{
    match m {
        List::Nil => List::Nil,
        List::Cons(row, rest) => match specialize_one(row, head, blanks) {
            Some(r) => List::Cons(r, Box::new(specialized(rest, head, blanks))),
            None => specialized(rest, head, blanks),
        },
    }
}

fn defaulted(m: &Matrix) -> (r: Matrix)
    ensures
        r == default_matrix(*m),
    decreases *m,
{
    match m {
        List::Nil => List::Nil,
        List::Cons(row, rest) => match row {
            List::Cons(Pat::Any, tail) => List::Cons(
                clone_pats(tail),
                Box::new(defaulted(rest)),
            ),
            _ => defaulted(rest),
        },
    }
}

fn has_head(m: &Matrix, head: &Head) -> (r: bool)
    ensures
        r == column_has(*m, *head),
    decreases *m,
{
    match m {
        List::Nil => false,
        List::Cons(row, rest) => {
            let here = match row {
                List::Cons(Pat::Con(h, _), _) => heads_same(h, head),
                _ => false,
            };
            here || has_head(rest, head)
        },
    }
}

fn heads_of(m: &Matrix) -> (r: List<(Head, List<Pat>)>)
    ensures
        r == heads(*m),
    decreases *m,
{
    match m {
        List::Nil => List::Nil,
        List::Cons(row, rest) => match row {
            List::Cons(Pat::Con(h, args), _) => List::Cons(
                (h.clone(), blank_of(args)),
                Box::new(heads_of(rest)),
            ),
            _ => heads_of(rest),
        },
    }
}

fn has_all(m: &Matrix, i: u32, span: u32) -> (r: bool)
    ensures
        r == names_all(*m, i as nat, span as nat),
    decreases span - i,
{
    if i >= span {
        true
    } else {
        has_head(m, &Head::Dat { idx: i, span }) && has_all(m, i + 1, span)
    }
}

fn is_complete(m: &Matrix) -> (r: bool)
    ensures
        r == complete(*m),
{
    match heads_of(m) {
        List::Nil => false,
        List::Cons(first, _) => match first.0 {
            Head::Record => true,
            Head::Dat { idx, span } => has_all(m, 0, span),
            _ => false,
        },
    }
}

/// Whether the row of patterns `q` is useful behind the rows `m`.
pub fn is_useful(m: &Matrix, q: &List<Pat>) -> (r: bool)
    ensures
        r == useful(*m, *q),
    decreases weight_matrix(*m) + weight_list(*q), q.len(), 0nat,
{
    match q {
        List::Nil => m.is_empty(),
        List::Cons(first, rest) => match first {
            Pat::Con(h, args) => {
                proof {
                    lemma_weight_blank(**args);
                    lemma_weight_specialize(*m, *h, blank(**args));
                    lemma_weight_append(**args, **rest);
                    assert(weight(*first) == 1 + weight_list(**args));
                }
                let blanks = blank_of(args);
                let m2 = specialized(m, h, &blanks);
                let q2 = clone_pats(args).concat(clone_pats(rest));
                is_useful(&m2, &q2)
            },
            Pat::Any => if is_complete(m) {
                let hs = heads_of(m);
                is_useful_for(m, &hs, rest)
            } else {
                proof {
                    lemma_weight_default(*m);
                }
                let m2 = defaulted(m);
                is_useful(&m2, rest)
            },
        },
    }
}

fn is_useful_for(m: &Matrix, hs: &List<(Head, List<Pat>)>, rest: &List<Pat>) -> (r: bool)
    ensures
        r == useful_heads(*m, *hs, *rest),
    decreases weight_matrix(*m) + weight_list(*rest), rest.len(), 1 + hs.len(),
{
    match hs {
        List::Nil => false,
        List::Cons(h, more) => {
            proof {
                if weight_list(h.1) == 0 {
                    lemma_weight_specialize(*m, h.0, h.1);
                }
                lemma_weight_append(h.1, *rest);
            }
            if has_head(m, &h.0) && is_blank(&h.1) {
                let m2 = specialized(m, &h.0, &h.1);
                let q2 = clone_pats(&h.1).concat(clone_pats(rest));
                if is_useful(&m2, &q2) {
                    return true;
                }
            }
            is_useful_for(m, more, rest)
        },
    }
}

/// Whether the arms of a match, one pattern each, cover every value.
pub fn is_exhaustive(m: &Matrix) -> (r: bool)
    ensures
        r == exhaustive(*m),
{
    !is_useful(m, &List::Cons(Pat::Any, Box::new(List::Nil)))
}

/// Whether an arm with the pattern `p` can be reached behind the arms `m`.
pub fn is_reachable(m: &Matrix, p: &Pat) -> (r: bool)
    ensures
        r == reachable(*m, *p),
{
    is_useful(m, &List::Cons(p.clone(), Box::new(List::Nil)))
}

/// The matrix with one more arm, behind the others.
pub fn add_row(m: Matrix, p: Pat) -> (r: Matrix)
    ensures
        r == with_row(m, p),
{
    m.concat(List::Cons(List::Cons(p, Box::new(List::Nil)), Box::new(List::Nil)))
}

} // verus!

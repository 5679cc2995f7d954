//! The paths store: canonical paths under a root, each with a dense id that
//! stays the same for the life of the store.

use crate::analysis::PathId;
use crate::cm::path_var::chars_of;
use crate::text::str_eq;
use vstd::prelude::*;

verus! {

/// A path is not under the root.
#[derive(Debug, Clone, Copy, PartialEq, Eq, Structural)]
pub struct NotInRoot {}

/// A root directory and the paths under it that got an id.
#[derive(Debug)]
pub struct Root {
    root: String,
    paths: Vec<String>,
}

/// Where the text stands among `paths[from..]`, if it does.
pub open spec fn position(paths: Seq<Seq<char>>, text: Seq<char>, from: int) -> Option<int>
    decreases paths.len() - from,
{
    if from < 0 || from >= paths.len() {
        None
    } else if paths[from] == text {
        Some(from)
    } else {
        position(paths, text, from + 1)
    }
}

/// Whether no path stands twice among the paths.
pub open spec fn distinct(paths: Seq<Seq<char>>) -> bool {
    forall|i: int, j: int| 0 <= i < j < paths.len() ==> paths[i] != paths[j]
}

/// Whether a path lies under a root: it is the root, or the root, a `/`
/// unless the root ends in one, and more.
pub open spec fn under(root: Seq<char>, path: Seq<char>) -> bool {
    path.len() >= root.len() && path.subrange(0, root.len() as int) == root && (path.len()
        == root.len() || (root.len() > 0 && root.last() == '/') || path[root.len() as int] == '/')
}

/// `position` finds the first place that holds the text.
pub proof fn lemma_position(paths: Seq<Seq<char>>, text: Seq<char>, from: int)
    requires
        0 <= from,
    ensures
        match position(paths, text, from) {
            Some(i) => from <= i < paths.len() && paths[i] == text,
            None => forall|i: int| from <= i < paths.len() ==> paths[i] != text,
        },
    decreases paths.len() - from,
{
    if from < paths.len() && paths[from] != text {
        lemma_position(paths, text, from + 1);
    }
}

impl Root {
    /// The root directory.
    pub closed spec fn dir(self) -> Seq<char> {
        self.root@
    }

    /// The paths that have an id, by id.
    pub closed spec fn paths(self) -> Seq<Seq<char>> {
        Seq::new(self.paths@.len(), |i: int| self.paths@[i]@)
    }

    /// Whether the store is well formed: no path has two ids, and the ids
    /// fit 32 bits.
    pub open spec fn wf(self) -> bool {
        distinct(self.paths()) && self.paths().len() <= u32::MAX
    }

    /// The store for a root directory, without paths.
    pub fn new(root: String) -> (r: Root)
        ensures
            r.dir() == root@,
            r.paths() == Seq::<Seq<char>>::empty(),
            r.wf(),
    {
        let r = Root { root, paths: Vec::new() };
        assert(r.paths() =~= Seq::<Seq<char>>::empty());
        r
    }

    /// The root directory.
    pub fn as_path(&self) -> (r: &str)
        ensures
            r@ == self.dir(),
    {
        self.root.as_str()
    }

    fn is_under(&self, path: &str) -> (r: bool)
        ensures
            r == under(self.dir(), path@),
    {
        let root = chars_of(self.root.as_str());
        let p = chars_of(path);
        if p.len() < root.len() {
            return false;
        }
        let mut i: usize = 0;
        while i < root.len()
            invariant
                i <= root.len() <= p.len(),
                root@ == self.dir(),
                p@ == path@,
                forall|j: int| 0 <= j < i ==> p@[j] == root@[j],
            decreases root.len() - i,
        {
            if p[i] != root[i] {
                assert(p@.subrange(0, root@.len() as int)[i as int] != root@[i as int]);
                return false;
            }
            i += 1;
        }
        assert(p@.subrange(0, root@.len() as int) =~= root@);
        p.len() == root.len() || (root.len() > 0 && root[root.len() - 1] == '/') || p[root.len()]
            == '/'
    }

    fn find(&self, path: &str) -> (r: Option<usize>)
        ensures
            match r {
                Some(i) => position(self.paths(), path@, 0) == Some(i as int),
                None => position(self.paths(), path@, 0) is None,
            },
    {
        let mut i: usize = 0;
        while i < self.paths.len()
            invariant
                i <= self.paths.len(),
                position(self.paths(), path@, 0) == position(self.paths(), path@, i as int),
            decreases self.paths.len() - i,
        {
            if str_eq(self.paths[i].as_str(), path) {
                return Some(i);
            }
            i += 1;
        }
        None
    }

    /// The id of a canonical path: the id that the path has, or the next
    /// id. A path that is not under the root gets none, and neither does a
    /// new path when the ids have run out.
    pub fn get_id(&mut self, path: &str) -> (r: Result<PathId, NotInRoot>)
        requires
            old(self).wf(),
        ensures
            final(self).wf(),
            final(self).dir() == old(self).dir(),
            match r {
                Ok(id) => under(old(self).dir(), path@) && final(self).paths()[id.raw as int]
                    == path@ && id.raw < final(self).paths().len() && (match position(
                    old(self).paths(),
                    path@,
                    0,
                ) {
                    Some(i) => id.raw == i && final(self).paths() == old(self).paths(),
                    None => id.raw == old(self).paths().len() && final(self).paths() == old(
                        self,
                    ).paths().push(path@),
                }),
                Err(_) => final(self).paths() == old(self).paths() && (!under(
                    old(self).dir(),
                    path@,
                ) || old(self).paths().len() == u32::MAX),
            },
    {
        if !self.is_under(path) {
            return Err(NotInRoot {  });
        }
        proof {
            lemma_position(self.paths(), path@, 0);
        }
        match self.find(path) {
            Some(i) => Ok(PathId { raw: i as u32 }),
            None => {
                if self.paths.len() >= u32::MAX as usize {
                    return Err(NotInRoot {  });
                }
                let id = PathId { raw: self.paths.len() as u32 };
                self.paths.push(String::from_str(path));
                assert(self.paths() =~= old(self).paths().push(path@));
                Ok(id)
            },
        }
    }

    /// The path with an id.
    pub fn get_path(&self, id: PathId) -> (r: &str)
        requires
            id.raw < self.paths().len(),
        ensures
            r@ == self.paths()[id.raw as int],
    {
        self.paths[id.raw as usize].as_str()
    }
}

/// Getting the id of a path is idempotent, and equal paths get equal ids:
/// once a path has an id, that is the id of its first place in the store,
/// whatever is added afterwards.
pub proof fn law_get_id_idempotent(paths: Seq<Seq<char>>, path: Seq<char>, more: Seq<char>)
    requires
        distinct(paths),
        position(paths, path, 0) is Some,
    ensures
        position(paths.push(more), path, 0) == position(paths, path, 0),
{
    lemma_position(paths, path, 0);
    lemma_position(paths.push(more), path, 0);
    let i = position(paths, path, 0)->0;
    assert(paths.push(more)[i] == path);
    let j = position(paths.push(more), path, 0)->0;
    if j < i {
        assert(paths[j] == paths.push(more)[j]);
    }
    if i < j {
        assert(paths.push(more)[i] == path);
        lemma_first(paths.push(more), path, 0, i);
    }
}

proof fn lemma_first(paths: Seq<Seq<char>>, text: Seq<char>, from: int, at: int)
    requires
        0 <= from <= at < paths.len(),
        paths[at] == text,
    ensures
        position(paths, text, from) is Some,
        position(paths, text, from)->0 <= at,
    decreases at - from,
{
    if paths[from] != text {
        lemma_first(paths, text, from + 1, at);
    }
}

} // verus!

//! A snapshot of the paths that exist on disk, as an unverified caller
//! observed them. The library's decisions about the filesystem (is the cache
//! populated, is the database initialized) are verified against such a
//! snapshot; probing the disk itself is the caller's work.

use vstd::prelude::*;

verus! {

/// The set of paths a caller found present on disk, at one point in time.
pub struct FsSnapshot {
    pub paths: Vec<String>,
}

impl FsSnapshot {
    /// Whether `p` was present in this snapshot.
    pub open spec fn has(self, p: Seq<char>) -> bool {
        exists|i: int| 0 <= i < self.paths@.len() && #[trigger] self.paths@[i]@ == p
    }

    /// A snapshot in which no path is present.
    pub fn empty() -> (r: FsSnapshot)
        ensures
            forall|p: Seq<char>| !r.has(p),
    {
        FsSnapshot { paths: Vec::new() }
    }

    /// Record that `p` was found present.
    pub fn record(&mut self, p: String)
        ensures
            final(self).has(p@),
            forall|q: Seq<char>| old(self).has(q) ==> final(self).has(q),
            forall|q: Seq<char>| final(self).has(q) ==> old(self).has(q) || q == p@,
    {
        let ghost old_paths = self.paths@;
        self.paths.push(p);
        proof {
            assert(self.paths@[self.paths@.len() - 1]@ == p@);
            assert forall|q: Seq<char>| old(self).has(q) implies final(self).has(q) by {
                let i = choose|i: int| 0 <= i < old_paths.len() && #[trigger] old_paths[i]@ == q;
                assert(self.paths@[i]@ == q);
            }
            assert forall|q: Seq<char>| final(self).has(q) implies old(self).has(q) || q == p@ by {
                let i = choose|i: int|
                    0 <= i < self.paths@.len() && #[trigger] self.paths@[i]@ == q;
                if i < old_paths.len() {
                    assert(old_paths[i]@ == q);
                }
            }
        }
    }

    /// Whether `p` is present in this snapshot.
    pub fn contains(&self, p: &String) -> (r: bool)
        ensures
            r == self.has(p@),
    {
        let mut i: usize = 0;
        while i < self.paths.len()
            invariant
                i <= self.paths@.len(),
                forall|j: int| 0 <= j < i ==> #[trigger] self.paths@[j]@ != p@,
            decreases self.paths@.len() - i,
        {
            if self.paths[i] == *p {
                return true;
            }
            i += 1;
        }
        false
    }
}

} // verus!

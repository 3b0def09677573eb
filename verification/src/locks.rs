//! Locks that let one mutation at a time into a repository.
//!
//! Operations that write to a repository read its index and `HEAD`, change
//! them and write them back; two of them at once on one repository can lose
//! a commit. Each therefore locks the repository's directory before its
//! first step and unlocks it after its last. Readers take no lock.

use vstd::prelude::*;
use vstd::string::*;
use crate::text::{lemma_push_contains, str_eq, views};

verus! {

/// The repositories that a mutation is at work in, by their directories.
#[derive(Debug, PartialEq, Eq)]
pub struct MutationLocks {
    busy: Vec<String>,
}

impl MutationLocks {
    /// Whether a mutation is at work in the repository at `repo_path`.
    pub closed spec fn is_busy(&self, repo_path: Seq<char>) -> bool {
        views(self.busy@).contains(repo_path)
    }

    /// No repository is locked.
    pub fn new() -> (locks: MutationLocks)
        ensures
            forall|repo_path: Seq<char>| !locks.is_busy(repo_path),
    {
        MutationLocks { busy: Vec::new() }
    }

    /// Whether a mutation is at work in the repository at `repo_path`.
    pub fn busy(&self, repo_path: &str) -> (r: bool)
        ensures
            r == self.is_busy(repo_path@),
    {
        let mut i: usize = 0;
        while i < self.busy.len()
            invariant
                i <= self.busy.len(),
                forall|k: int| 0 <= k < i ==> views(self.busy@)[k] != repo_path@,
            decreases self.busy.len() - i,
        {
            if str_eq(self.busy[i].as_str(), repo_path) {
                assert(views(self.busy@)[i as int] == repo_path@);
                return true;
            }
            i += 1;
        }
        false
    }

    /// Locks the repository at `repo_path` unless a mutation is at work in
    /// it, and says whether it did. Afterwards the repository is busy either
    /// way; no other repository is touched.
    pub fn try_lock(&mut self, repo_path: &str) -> (locked: bool)
        ensures
            locked == !old(self).is_busy(repo_path@),
            final(self).is_busy(repo_path@),
            forall|other: Seq<char>|
                other != repo_path@ ==> final(self).is_busy(other) == old(self).is_busy(other),
    {
        if self.busy(repo_path) {
            return false;
        }
        let ghost before = views(self.busy@);
        self.busy.push(String::from_str(repo_path));
        proof {
            assert(views(self.busy@) =~= before.push(repo_path@));
            lemma_push_contains(before, repo_path@, repo_path@);
            assert forall|other: Seq<char>| other != repo_path@ implies views(
                self.busy@,
            ).contains(other) == before.contains(other) by {
                lemma_push_contains(before, repo_path@, other);
            }
        }
        true
    }

    /// Unlocks the repository at `repo_path`: it is busy no more. No other
    /// repository is touched.
    pub fn unlock(&mut self, repo_path: &str)
        ensures
            !final(self).is_busy(repo_path@),
            forall|other: Seq<char>|
                other != repo_path@ ==> final(self).is_busy(other) == old(self).is_busy(other),
    {
        let ghost before = views(self.busy@);
        let mut kept: Vec<String> = Vec::new();
        let mut i: usize = 0;
        while i < self.busy.len()
            invariant
                i <= self.busy.len(),
                before == views(self.busy@),
                !views(kept@).contains(repo_path@),
                forall|other: Seq<char>|
                    other != repo_path@ ==> (views(kept@).contains(other) <==> before.subrange(
                        0,
                        i as int,
                    ).contains(other)),
            decreases self.busy.len() - i,
        {
            let ghost seen = before.subrange(0, i as int);
            let ghost held = views(kept@);
            let ghost here = before[i as int];
            proof {
                assert(before.subrange(0, i + 1) =~= seen.push(here));
                assert(here == self.busy@[i as int]@);
            }
            if !str_eq(self.busy[i].as_str(), repo_path) {
                kept.push(self.busy[i].clone());
                proof {
                    assert(views(kept@) =~= held.push(here));
                    lemma_push_contains(held, here, repo_path@);
                    assert forall|other: Seq<char>| other != repo_path@ implies (views(
                        kept@,
                    ).contains(other) <==> before.subrange(0, i + 1).contains(other)) by {
                        lemma_push_contains(held, here, other);
                        lemma_push_contains(seen, here, other);
                    }
                }
            } else {
                proof {
                    assert forall|other: Seq<char>| other != repo_path@ implies (views(
                        kept@,
                    ).contains(other) <==> before.subrange(0, i + 1).contains(other)) by {
                        lemma_push_contains(seen, here, other);
                    }
                }
            }
            i += 1;
        }
        proof {
            assert(before.subrange(0, i as int) =~= before);
        }
        self.busy = kept;
    }
}

/// While a repository is locked nobody else gets its lock, whatever is
/// locked or unlocked for other repositories in between: locking and
/// unlocking another repository leaves this one busy.
pub proof fn lemma_lock_excludes(
    held: MutationLocks,
    later: MutationLocks,
    repo_path: Seq<char>,
    other: Seq<char>,
)
    requires
        held.is_busy(repo_path),
        other != repo_path,
        forall|path: Seq<char>| path != other ==> later.is_busy(path) == held.is_busy(path),
    ensures
        later.is_busy(repo_path),
{
}

} // verus!

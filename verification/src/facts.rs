//! What the program observed of the file system: which paths exist and which
//! of them are directories. The decisions of the library are taken over such
//! observations, made by the program just before it asks for a decision.

use vstd::prelude::*;
use crate::paths::{FsPath, PathView};

verus! {

/// One observed path.
pub struct PathFact {
    pub path: FsPath,
    pub exists: bool,
    pub is_dir: bool,
}

/// The observed paths.
pub struct PathFacts {
    pub facts: Vec<PathFact>,
}

impl PathFacts {
    /// Some observation says that `p` exists.
    pub open spec fn spec_exists(&self, p: PathView) -> bool {
        exists|i: int|
            0 <= i < self.facts@.len() && #[trigger] self.facts@[i].path@ == p && self.facts@[i].exists
    }

    /// Some observation says that `p` is a directory.
    pub open spec fn spec_is_dir(&self, p: PathView) -> bool {
        exists|i: int|
            0 <= i < self.facts@.len() && #[trigger] self.facts@[i].path@ == p && self.facts@[i].is_dir
    }

    /// No observation yet.
    pub fn new() -> (r: PathFacts)
        ensures
            r.facts@.len() == 0,
    {
        PathFacts { facts: Vec::new() }
    }

    /// Records what was observed of `path`.
    pub fn record(&mut self, path: FsPath, exists: bool, is_dir: bool)
        ensures
            final(self).facts@ == old(self).facts@.push(PathFact { path, exists, is_dir }),
    {
        self.facts.push(PathFact { path, exists, is_dir });
    }

    /// Whether some observation says that `p` exists.
    pub fn path_exists(&self, p: &FsPath) -> (r: bool)
        ensures
            r == self.spec_exists(p@),
    {
        let mut i: usize = 0;
        while i < self.facts.len()
            invariant
                i <= self.facts.len(),
                forall|j: int|
                    0 <= j < i ==> !(#[trigger] self.facts@[j].path@ == p@ && self.facts@[j].exists),
            decreases self.facts.len() - i,
        {
            if self.facts[i].exists && self.facts[i].path.same_as(p) {
                return true;
            }
            i = i + 1;
        }
        false
    }

    /// Whether some observation says that `p` is a directory.
    pub fn path_is_dir(&self, p: &FsPath) -> (r: bool)
        ensures
            r == self.spec_is_dir(p@),
    {
        let mut i: usize = 0;
        while i < self.facts.len()
            invariant
                i <= self.facts.len(),
                forall|j: int|
                    0 <= j < i ==> !(#[trigger] self.facts@[j].path@ == p@ && self.facts@[j].is_dir),
            decreases self.facts.len() - i,
        {
            if self.facts[i].is_dir && self.facts[i].path.same_as(p) {
                return true;
            }
            i = i + 1;
        }
        false
    }
}

} // verus!

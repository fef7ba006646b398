//! Paths of the modlist manager, as sequences of components anchored at a
//! base directory that the program resolves when it touches the disk.

use vstd::prelude::*;

verus! {

/// The directory a path is relative to.
#[derive(Clone, Copy, Debug, PartialEq, Eq, Structural)]
pub enum PathBase {
    /// The working directory of the program: the modlist database.
    WorkDir,
    /// The user's documents directory, where the game keeps its saves.
    Documents,
}

/// A path made of components joined onto a base directory.
#[derive(Clone, Debug)]
pub struct FsPath {
    pub base: PathBase,
    pub parts: Vec<String>,
}

/// The mathematical value of a path.
pub struct PathView {
    pub base: PathBase,
    pub parts: Seq<Seq<char>>,
}

impl PathView {
    pub open spec fn join(self, part: Seq<char>) -> PathView {
        PathView { base: self.base, parts: self.parts.push(part) }
    }

    /// `self` is `prefix` followed by zero or more components.
    pub open spec fn starts_with(self, prefix: PathView) -> bool {
        &&& self.base == prefix.base
        &&& prefix.parts.len() <= self.parts.len()
        &&& self.parts.subrange(0, prefix.parts.len() as int) == prefix.parts
    }
}

/// The characters of each string of a sequence.
pub open spec fn strings_view(v: Seq<String>) -> Seq<Seq<char>> {
    v.map_values(|s: String| s@)
}

impl View for FsPath {
    type V = PathView;

    open spec fn view(&self) -> PathView {
        PathView { base: self.base, parts: strings_view(self.parts@) }
    }
}

/// A copy of a vector of strings, element by element.
pub fn copy_strings(v: &Vec<String>) -> (r: Vec<String>)
    ensures
        strings_view(r@) == strings_view(v@),
{
    let mut out: Vec<String> = Vec::new();
    let mut i: usize = 0;
    while i < v.len()
        invariant
            i <= v.len(),
            strings_view(out@) == strings_view(v@.take(i as int)),
        decreases v.len() - i,
    {
        let s = v[i].clone();
        let ghost prev = out@;
        out.push(s);
        assert(s@ == v@[i as int]@);
        assert(strings_view(out@) =~= strings_view(prev).push(s@));
        assert(v@.take(i + 1) =~= v@.take(i as int).push(v@[i as int]));
        assert(strings_view(v@.take(i + 1)) =~= strings_view(v@.take(i as int)).push(v@[i as int]@));
        i = i + 1;
    }
    assert(v@.take(v.len() as int) =~= v@);
    out
}

impl FsPath {
    /// A path with no components: the base directory itself.
    pub fn root(base: PathBase) -> (r: FsPath)
        ensures
            r@ == (PathView { base, parts: Seq::empty() }),
    {
        let r = FsPath { base, parts: Vec::new() };
        assert(r@.parts =~= Seq::<Seq<char>>::empty());
        r
    }

    /// A copy of this path.
    pub fn duplicate(&self) -> (r: FsPath)
        ensures
            r@ == self@,
    {
        FsPath { base: self.base, parts: copy_strings(&self.parts) }
    }

    /// This path followed by one more component.
    pub fn join(&self, part: &str) -> (r: FsPath)
        ensures
            r@ == self@.join(part@),
    {
        let mut parts = copy_strings(&self.parts);
        let ghost before = parts@;
        parts.push(part.to_owned());
        assert(strings_view(parts@) =~= strings_view(before).push(part@));
        FsPath { base: self.base, parts }
    }

    /// Whether two paths have the same base and the same components.
    pub fn same_as(&self, other: &FsPath) -> (r: bool)
        ensures
            r == (self@ == other@),
    {
        if self.base != other.base || self.parts.len() != other.parts.len() {
            proof {
                if self@ == other@ {
                    assert(strings_view(self.parts@).len() == strings_view(other.parts@).len());
                }
            }
            return false;
        }
        let mut i: usize = 0;
        while i < self.parts.len()
            invariant
                i <= self.parts.len(),
                self.parts.len() == other.parts.len(),
                forall|j: int| 0 <= j < i ==> self.parts@[j]@ == other.parts@[j]@,
            decreases self.parts.len() - i,
        {
            if self.parts[i] != other.parts[i] {
                proof {
                    assert(strings_view(self.parts@)[i as int] != strings_view(other.parts@)[i as int]);
                }
                return false;
            }
            i = i + 1;
        }
        assert(strings_view(self.parts@) =~= strings_view(other.parts@));
        true
    }
}

} // verus!

//! A modlist: a named folder of mods, DLCs, menus, saves, content scripts and
//! bundles, with an ordered list of the other modlists it imports.

use vstd::prelude::*;
use crate::paths::{copy_strings, strings_view};

verus! {

/// The configuration file of a modlist, as it is stored on disk.
pub struct ModListConfig {
    pub imports: Vec<String>,
    pub visibility: Option<i64>,
}

/// An imported modlist with its position in the load order.
pub struct ImportedModlist {
    pub name: String,
    pub order: i64,
}

/// A modlist in memory.
#[derive(Clone, Debug)]
pub struct ModList {
    pub name: String,
    /// The unique imported modlists, in load order from top to bottom. A
    /// `Vec` and not a set, because the order is the load order.
    pub imported_modlists: Vec<String>,
    pub visibility: i64,
}

/// The mathematical value of a modlist.
pub struct ModListView {
    pub name: Seq<char>,
    pub imports: Seq<Seq<char>>,
    pub visibility: i64,
}

impl View for ModList {
    type V = ModListView;

    open spec fn view(&self) -> ModListView {
        ModListView {
            name: self.name@,
            imports: strings_view(self.imported_modlists@),
            visibility: self.visibility,
        }
    }
}

/// The mathematical value of a configuration file.
pub struct ModListConfigView {
    pub imports: Seq<Seq<char>>,
    pub visibility: Option<i64>,
}

impl View for ModListConfig {
    type V = ModListConfigView;

    open spec fn view(&self) -> ModListConfigView {
        ModListConfigView { imports: strings_view(self.imports@), visibility: self.visibility }
    }
}

/// No name occurs twice in the sequence.
pub open spec fn no_duplicates(s: Seq<Seq<char>>) -> bool {
    forall|i: int, j: int| 0 <= i < s.len() && 0 <= j < s.len() && i != j ==> s[i] != s[j]
}

/// The index of the first occurrence of `x` in `s`.
pub open spec fn position_of(s: Seq<Seq<char>>, x: Seq<char>) -> Option<int>
    decreases s.len(),
{
    if s.len() == 0 {
        None
    } else if s[0] == x {
        Some(0)
    } else {
        match position_of(s.drop_first(), x) {
            Some(i) => Some(i + 1),
            None => None,
        }
    }
}

/// `x` appended to `s` unless `s` already holds it.
pub open spec fn append_unique(s: Seq<Seq<char>>, x: Seq<char>) -> Seq<Seq<char>> {
    if s.contains(x) {
        s
    } else {
        s.push(x)
    }
}

/// Each of `xs` appended to `s` in turn, skipping the names already present.
pub open spec fn append_all_unique(s: Seq<Seq<char>>, xs: Seq<Seq<char>>) -> Seq<Seq<char>>
    decreases xs.len(),
{
    if xs.len() == 0 {
        s
    } else {
        append_unique(append_all_unique(s, xs.drop_last()), xs.last())
    }
}

/// `s` without the first occurrence of `x`.
pub open spec fn remove_first(s: Seq<Seq<char>>, x: Seq<char>) -> Seq<Seq<char>> {
    match position_of(s, x) {
        Some(i) => s.remove(i),
        None => s,
    }
}

/// `s` with the elements at `i` and `j` exchanged.
pub open spec fn swap_at(s: Seq<Seq<char>>, i: int, j: int) -> Seq<Seq<char>> {
    s.update(i, s[j]).update(j, s[i])
}

/// `x` moved one place towards the top of the load order, if it is there and
/// not already first.
pub open spec fn moved_up(s: Seq<Seq<char>>, x: Seq<char>) -> Seq<Seq<char>> {
    match position_of(s, x) {
        Some(i) => if i > 0 { swap_at(s, i - 1, i) } else { s },
        None => s,
    }
}

/// `x` moved one place towards the bottom of the load order, if it is there
/// and not already last.
pub open spec fn moved_down(s: Seq<Seq<char>>, x: Seq<char>) -> Seq<Seq<char>> {
    match position_of(s, x) {
        Some(i) => if i < s.len() - 1 { swap_at(s, i, i + 1) } else { s },
        None => s,
    }
}

/// `position_of` finds the first occurrence, and nothing when there is none.
pub proof fn lemma_position_of(s: Seq<Seq<char>>, x: Seq<char>)
    ensures
        match position_of(s, x) {
            Some(i) => 0 <= i < s.len() && s[i] == x && forall|j: int| 0 <= j < i ==> s[j] != x,
            None => !s.contains(x),
        },
    decreases s.len(),
{
    if s.len() > 0 && s[0] != x {
        lemma_position_of(s.drop_first(), x);
        match position_of(s.drop_first(), x) {
            Some(i) => {
                assert forall|j: int| 0 <= j < i + 1 implies s[j] != x by {
                    if j > 0 {
                        assert(s[j] == s.drop_first()[j - 1]);
                    }
                }
            },
            None => {
                if s.contains(x) {
                    let k = choose|k: int| 0 <= k < s.len() && s[k] == x;
                    assert(s.drop_first()[k - 1] == x);
                }
            },
        }
    }
}

/// A first occurrence found by a scan is the one `position_of` names.
pub proof fn lemma_position_of_is(s: Seq<Seq<char>>, x: Seq<char>, i: int)
    requires
        0 <= i < s.len(),
        s[i] == x,
        forall|j: int| 0 <= j < i ==> s[j] != x,
    ensures
        position_of(s, x) == Some(i),
{
    lemma_position_of(s, x);
    match position_of(s, x) {
        Some(k) => {
            if k < i {
                assert(s[k] != x);
            }
            if k > i {
                assert(s[i] != x);
            }
        },
        None => {
            assert(s.contains(x));
        },
    }
}

impl ModList {
    /// A modlist with the given name that imports nothing.
    pub fn new(name: String) -> (r: ModList)
        ensures
            r@ == (ModListView { name: name@, imports: Seq::empty(), visibility: 0 }),
    {
        let r = ModList { name, imported_modlists: Vec::new(), visibility: 0 };
        assert(r@.imports =~= Seq::<Seq<char>>::empty());
        r
    }

    /// The index of the first import named `modlist_name`.
    pub fn import_position(&self, modlist_name: &str) -> (r: Option<usize>)
        ensures
            match r {
                Some(i) => i < self.imported_modlists.len() && position_of(
                    self@.imports,
                    modlist_name@,
                ) == Some(i as int),
                None => position_of(self@.imports, modlist_name@) is None,
            },
    {
        let target: String = modlist_name.to_owned();
        let mut i: usize = 0;
        while i < self.imported_modlists.len()
            invariant
                i <= self.imported_modlists.len(),
                target@ == modlist_name@,
                forall|j: int| 0 <= j < i ==> self@.imports[j] != modlist_name@,
            decreases self.imported_modlists.len() - i,
        {
            if self.imported_modlists[i] == target {
                proof {
                    lemma_position_of_is(self@.imports, modlist_name@, i as int);
                }
                return Some(i);
            }
            i = i + 1;
        }
        proof {
            lemma_position_of(self@.imports, modlist_name@);
            if position_of(self@.imports, modlist_name@) is Some {
                let k = position_of(self@.imports, modlist_name@)->0;
                assert(self@.imports[k] != modlist_name@);
            }
        }
        None
    }

    /// Whether this modlist imports `modlist_name`.
    pub fn has_modlist_imported(&self, modlist_name: &str) -> (r: bool)
        ensures
            r == self@.imports.contains(modlist_name@),
    {
        proof {
            lemma_position_of(self@.imports, modlist_name@);
        }
        self.import_position(modlist_name).is_some()
    }

    /// Appends `modlist_name` to the imports unless it is already imported.
    pub fn import_modlist(&mut self, modlist_name: &str)
        ensures
            final(self)@ == (ModListView {
                imports: append_unique(old(self)@.imports, modlist_name@),
                ..old(self)@
            }),
    {
        if !self.has_modlist_imported(modlist_name) {
            let ghost before = self.imported_modlists@;
            self.imported_modlists.push(modlist_name.to_owned());
            assert(strings_view(self.imported_modlists@) =~= strings_view(before).push(
                modlist_name@,
            ));
        }
    }

    /// Removes the first import named `modlist_name`, if there is one.
    pub fn remove_import(&mut self, modlist_name: &str)
        ensures
            final(self)@ == (ModListView {
                imports: remove_first(old(self)@.imports, modlist_name@),
                ..old(self)@
            }),
    {
        if let Some(index) = self.import_position(modlist_name) {
            let ghost before = self.imported_modlists@;
            self.imported_modlists.remove(index);
            assert(strings_view(self.imported_modlists@) =~= strings_view(before).remove(
                index as int,
            ));
        }
    }

    /// Exchanges the adjacent imports at `index - 1` and `index`.
    fn swap_with_previous(&mut self, index: usize)
        requires
            0 < index < old(self).imported_modlists.len(),
        ensures
            final(self)@ == (ModListView {
                imports: swap_at(old(self)@.imports, index - 1, index as int),
                ..old(self)@
            }),
    {
        let ghost before = self.imported_modlists@;
        let moved = self.imported_modlists.remove(index);
        self.imported_modlists.insert(index - 1, moved);
        assert(strings_view(self.imported_modlists@) =~= swap_at(
            strings_view(before),
            index - 1,
            index as int,
        ));
    }

    /// Moves `modlist_name` one place higher in the load order, that is to a
    /// lower index, as the load order goes from top to bottom.
    pub fn move_import_up(&mut self, modlist_name: &str)
        ensures
            final(self)@ == (ModListView {
                imports: moved_up(old(self)@.imports, modlist_name@),
                ..old(self)@
            }),
    {
        if let Some(index) = self.import_position(modlist_name) {
            if index > 0 {
                self.swap_with_previous(index);
            }
        }
    }

    /// Moves `modlist_name` one place lower in the load order, that is to a
    /// higher index, as the load order goes from top to bottom.
    pub fn move_import_down(&mut self, modlist_name: &str)
        ensures
            final(self)@ == (ModListView {
                imports: moved_down(old(self)@.imports, modlist_name@),
                ..old(self)@
            }),
    {
        if let Some(index) = self.import_position(modlist_name) {
            if index < self.imported_modlists.len() - 1 {
                self.swap_with_previous(index + 1);
            }
        }
    }

    /// Fills the imports and the visibility from the configuration read from
    /// disk: each configured import is appended in turn unless already
    /// present, and a missing visibility counts as 0.
    pub fn read_metadata_from_disk(&mut self, config: &ModListConfig)
        ensures
            final(self)@ == (ModListView {
                name: old(self)@.name,
                imports: append_all_unique(old(self)@.imports, config@.imports),
                visibility: match config.visibility {
                    Some(v) => v,
                    None => 0,
                },
            }),
    {
        let mut i: usize = 0;
        while i < config.imports.len()
            invariant
                i <= config.imports.len(),
                self@.name == old(self)@.name,
                self.visibility == old(self).visibility,
                self@.imports == append_all_unique(
                    old(self)@.imports,
                    config@.imports.take(i as int),
                ),
            decreases config.imports.len() - i,
        {
            self.import_modlist(config.imports[i].as_str());
            proof {
                let xs = config@.imports.take(i + 1);
                assert(xs.drop_last() =~= config@.imports.take(i as int));
                assert(xs.last() == config.imports@[i as int]@);
            }
            i = i + 1;
        }
        assert(config@.imports.take(config.imports.len() as int) =~= config@.imports);
        self.visibility = match config.visibility {
            Some(v) => v,
            None => 0,
        };
    }

    /// The configuration to write to disk: this modlist's imports, in
    /// order, and its visibility.
    pub fn write_metadata_to_disk(&self) -> (r: ModListConfig)
        ensures
            r@ == (ModListConfigView { imports: self@.imports, visibility: Some(self.visibility) }),
    {
        ModListConfig { imports: copy_strings(&self.imported_modlists), visibility: Some(self.visibility) }
    }

    /// A copy of this modlist that has read the configuration `config`.
    pub fn read_metadata_from_disk_copy(&self, config: &ModListConfig) -> (r: ModList)
        ensures
            r@ == (ModListView {
                name: self@.name,
                imports: append_all_unique(self@.imports, config@.imports),
                visibility: match config.visibility {
                    Some(v) => v,
                    None => 0,
                },
            }),
    {
        let mut copy = ModList {
            name: self.name.clone(),
            imported_modlists: copy_strings(&self.imported_modlists),
            visibility: self.visibility,
        };
        copy.read_metadata_from_disk(config);
        copy
    }

    /// Raises the visibility level by one.
    pub fn raise_visibility(&mut self)
        requires
            old(self).visibility < i64::MAX,
        ensures
            final(self)@ == (ModListView { visibility: (old(self).visibility + 1) as i64, ..old(self)@ }),
    {
        self.visibility = self.visibility + 1;
    }

    /// Lowers the visibility level by one.
    pub fn lower_visibility(&mut self)
        requires
            old(self).visibility > i64::MIN,
        ensures
            final(self)@ == (ModListView { visibility: (old(self).visibility - 1) as i64, ..old(self)@ }),
    {
        self.visibility = self.visibility - 1;
    }
}

} // verus!

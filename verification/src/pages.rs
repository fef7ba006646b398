//! What the pages show: which modlists the home page lists and under which
//! visibility levels, which controls a modlist's page offers, and which
//! folders its folder lists hold.

use vstd::prelude::*;
use crate::components::{dlc_display, dlc_entry, menu_display, menu_entry, mod_display, mod_entry, FolderEntry};
use crate::facts::PathFacts;
use crate::layout::{modlist_dir, mods_dir};
use crate::modlist::{ModList, ModListView};
use crate::modlist_disk::spec_is_packed;
use crate::paths::FsPath;
use vstd::utf8::is_ascii_chars;
use crate::text::{ends_with, parse_i64, parsed_i64, spec_ends_with, trim_end_s, trim_trailing_s};

verus! {

/// The views of a sequence of modlists.
pub open spec fn modlists_view(ms: Seq<ModList>) -> Seq<ModListView> {
    ms.map_values(|m: ModList| m@)
}

/// A modlist can be installed when it is the vanilla modlist or imports it.
pub open spec fn is_installable(m: ModListView) -> bool {
    m.name == "vanilla"@ || m.imports.contains("vanilla"@)
}

/// The indices, in order, of the modlists that can be installed (when
/// `installable` holds) or cannot (otherwise).
pub open spec fn indices_where(ms: Seq<ModListView>, installable: bool) -> Seq<usize>
    decreases ms.len(),
{
    if ms.len() == 0 {
        Seq::empty()
    } else if is_installable(ms.last()) == installable {
        indices_where(ms.drop_last(), installable).push((ms.len() - 1) as usize)
    } else {
        indices_where(ms.drop_last(), installable)
    }
}

/// Strictly decreasing.
pub open spec fn strictly_decreasing(s: Seq<i64>) -> bool {
    forall|i: int, j: int| 0 <= i < j < s.len() ==> s[i] > s[j]
}

/// `levels` are the visibility levels of the modlists of `ms` that can be
/// installed (when `installable` holds) or cannot, each once, from the
/// highest to the lowest.
pub open spec fn are_levels(levels: Seq<i64>, ms: Seq<ModListView>, installable: bool) -> bool {
    &&& strictly_decreasing(levels)
    &&& forall|x: i64|
        levels.contains(x) <==> exists|j: int|
            0 <= j < ms.len() && is_installable(#[trigger] ms[j]) == installable && ms[j].visibility
                == x
}

/// The home page: whether the manager must first be initialised, and the
/// modlists that can be installed and the shared ones, each with their
/// visibility levels.
pub struct RootPage {
    pub should_initialize: bool,
    pub installable: Vec<usize>,
    pub shared: Vec<usize>,
    pub installable_levels: Vec<i64>,
    pub shared_levels: Vec<i64>,
}

/// Adds a level to a list of levels from the highest to the lowest.
#[verifier::spinoff_prover]
pub fn insert_level(levels: &mut Vec<i64>, v: i64)
    requires
        strictly_decreasing(old(levels)@),
    ensures
        strictly_decreasing(final(levels)@),
        forall|x: i64| final(levels)@.contains(x) <==> (old(levels)@.contains(x) || x == v),
{
    let mut k: usize = 0;
    while k < levels.len() && levels[k] > v
        invariant
            k <= levels.len(),
            levels@ == old(levels)@,
            forall|j: int| 0 <= j < k ==> levels@[j] > v,
        decreases levels.len() - k,
    {
        k = k + 1;
    }
    if k < levels.len() && levels[k] == v {
        assert(levels@[k as int] == v);
        return;
    }
    let ghost before = levels@;
    levels.insert(k, v);
    proof {
        lemma_insert_level(before, k as int, v);
        assert(levels@ == before.insert(k as int, v));
        assert(before == old(levels)@);
        assert forall|x: i64| #[trigger] levels@.contains(x) <==> (old(levels)@.contains(x) || x == v) by {
            assert(before.insert(k as int, v).contains(x) <==> (before.contains(x) || x == v));
        }
    }
}

/// Inserting `v` at `k` into a strictly decreasing sequence, after the
/// elements greater than `v` and before the others, none of them `v`,
/// keeps it strictly decreasing and adds `v` to its elements.
proof fn lemma_insert_level(before: Seq<i64>, k: int, v: i64)
    requires
        strictly_decreasing(before),
        0 <= k <= before.len(),
        forall|j: int| 0 <= j < k ==> before[j] > v,
        k < before.len() ==> before[k] < v,
    ensures
        strictly_decreasing(before.insert(k, v)),
        forall|x: i64| before.insert(k, v).contains(x) <==> (before.contains(x) || x == v),
{
    let after = before.insert(k, v);
    assert forall|i: int, j: int| 0 <= i < j < after.len() implies after[i] > after[j] by {
        if j < k {
        } else if j == k {
        } else if i < k {
            assert(before[j - 1] < v || before[j - 1] <= before[k]);
        } else if i == k {
            assert(before[k] < v);
            if j - 1 > k {
                assert(before[k] > before[j - 1]);
            }
        }
    }
    assert forall|x: i64| after.contains(x) <==> (before.contains(x) || x == v) by {
        if after.contains(x) {
            let i = choose|i: int| 0 <= i < after.len() && after[i] == x;
            if i < k {
                assert(before[i] == x);
            } else if i > k {
                assert(before[i - 1] == x);
            }
        }
        if before.contains(x) {
            let i = choose|i: int| 0 <= i < before.len() && before[i] == x;
            if i < k {
                assert(after[i] == x);
            } else {
                assert(after[i + 1] == x);
            }
        }
        if x == v {
            assert(after[k] == x);
        }
    }
}

/// Whether the modlist can be installed.
pub fn installable(m: &ModList) -> (r: bool)
    ensures
        r == is_installable(m@),
{
    m.name == "vanilla".to_owned() || m.has_modlist_imported("vanilla")
}

/// The home page of the modlists `modlists`, given what was observed of the
/// folder of the vanilla modlist.
pub fn root_page(modlists: &Vec<ModList>, facts: &PathFacts) -> (r: RootPage)
    ensures
        r.should_initialize == !facts.spec_exists(modlist_dir("vanilla"@)),
        r.installable@ == indices_where(modlists_view(modlists@), true),
        r.shared@ == indices_where(modlists_view(modlists@), false),
        are_levels(r.installable_levels@, modlists_view(modlists@), true),
        are_levels(r.shared_levels@, modlists_view(modlists@), false),
{
    let ghost ms = modlists_view(modlists@);
    let mut installable_ids: Vec<usize> = Vec::new();
    let mut shared_ids: Vec<usize> = Vec::new();
    let mut installable_levels: Vec<i64> = Vec::new();
    let mut shared_levels: Vec<i64> = Vec::new();
    let mut i: usize = 0;
    while i < modlists.len()
        invariant
            i <= modlists.len(),
            ms == modlists_view(modlists@),
            installable_ids@ == indices_where(ms.take(i as int), true),
            shared_ids@ == indices_where(ms.take(i as int), false),
            are_levels(installable_levels@, ms.take(i as int), true),
            are_levels(shared_levels@, ms.take(i as int), false),
        decreases modlists.len() - i,
    {
        let ghost t = ms.take(i + 1);
        proof {
            assert(t.drop_last() =~= ms.take(i as int));
            assert(t.last() == modlists@[i as int]@);
            assert(t.len() - 1 == i);
        }
        let m = &modlists[i];
        if installable(m) {
            installable_ids.push(i);
            insert_level(&mut installable_levels, m.visibility);
        } else {
            shared_ids.push(i);
            insert_level(&mut shared_levels, m.visibility);
        }
        proof {
            assert forall|x: i64|
                installable_levels@.contains(x) <==> exists|j: int|
                    0 <= j < t.len() && is_installable(#[trigger] t[j]) == true && t[j].visibility
                        == x by {
                if exists|j: int|
                    0 <= j < t.len() && is_installable(#[trigger] t[j]) == true && t[j].visibility == x {
                    let j = choose|j: int|
                        0 <= j < t.len() && is_installable(#[trigger] t[j]) == true && t[j].visibility
                            == x;
                    if j < i {
                        assert(ms.take(i as int)[j] == t[j]);
                    }
                }
                if installable_levels@.contains(x) {
                    if exists|j: int|
                        0 <= j < ms.take(i as int).len() && is_installable(
                            #[trigger] ms.take(i as int)[j],
                        ) == true && ms.take(i as int)[j].visibility == x {
                        let j = choose|j: int|
                            0 <= j < ms.take(i as int).len() && is_installable(
                                #[trigger] ms.take(i as int)[j],
                            ) == true && ms.take(i as int)[j].visibility == x;
                        assert(t[j] == ms.take(i as int)[j]);
                    } else {
                        assert(t[i as int].visibility == x);
                    }
                }
            }
            assert forall|x: i64|
                shared_levels@.contains(x) <==> exists|j: int|
                    0 <= j < t.len() && is_installable(#[trigger] t[j]) == false && t[j].visibility
                        == x by {
                if exists|j: int|
                    0 <= j < t.len() && is_installable(#[trigger] t[j]) == false && t[j].visibility
                        == x {
                    let j = choose|j: int|
                        0 <= j < t.len() && is_installable(#[trigger] t[j]) == false && t[j].visibility
                            == x;
                    if j < i {
                        assert(ms.take(i as int)[j] == t[j]);
                    }
                }
                if shared_levels@.contains(x) {
                    if exists|j: int|
                        0 <= j < ms.take(i as int).len() && is_installable(
                            #[trigger] ms.take(i as int)[j],
                        ) == false && ms.take(i as int)[j].visibility == x {
                        let j = choose|j: int|
                            0 <= j < ms.take(i as int).len() && is_installable(
                                #[trigger] ms.take(i as int)[j],
                            ) == false && ms.take(i as int)[j].visibility == x;
                        assert(t[j] == ms.take(i as int)[j]);
                    } else {
                        assert(t[i as int].visibility == x);
                    }
                }
            }
        }
        i = i + 1;
    }
    assert(ms.take(modlists.len() as int) =~= ms);
    let vanilla = ModList::new("vanilla".to_owned());
    let should_initialize = !facts.path_exists(&vanilla.path());
    RootPage {
        should_initialize,
        installable: installable_ids,
        shared: shared_ids,
        installable_levels,
        shared_levels,
    }
}

/// The value that `qstring` reads for the parameter `name` in the query
/// string `query`.
pub uninterp spec fn query_value(query: Seq<char>, name: Seq<char>) -> Option<Seq<char>>;

/// Reads the parameter `name` of the query string `query` with
/// `qstring::QString::from` and `QString::get`. The contract names the
/// result `query_value`, a function of the two strings alone; how the crate
/// splits the query at `&` and `=` and percent-decodes names and values is
/// not stated. It states that an empty query has no parameter. The crate
/// slices the first byte of the query and of the text after a `?`, a `&` or
/// a nameless `=` as a string, which panics on a character of more than one
/// byte, so the query must be ASCII.
#[verifier::external_body]
fn query_param(query: &str, name: &str) -> (r: Option<String>)
    requires
        is_ascii_chars(query@),
    ensures
        query_value(query@, name@) == match r {
            Some(v) => Some(v@),
            None => None,
        },
        query@.len() == 0 ==> r is None,
{
    let parsed = qstring::QString::from(query);
    match parsed.get(name) {
        Some(v) => Some(v.to_owned()),
        None => None,
    }
}

/// The visibility level that the home page is asked to show: the
/// `visibility` parameter of its query string, when it is a number. A query
/// that is not ASCII (a browser sends it percent-encoded) asks for none.
pub fn requested_visibility(query: &str) -> (r: Option<i64>)
    ensures
        r == if is_ascii_chars(query@) {
            match query_value(query@, "visibility"@) {
                Some(v) => parsed_i64(v),
                None => None,
            }
        } else {
            None
        },
        query@.len() == 0 ==> r is None,
{
    if !query.is_ascii() {
        return None;
    }
    match query_param(query, "visibility") {
        Some(v) => parse_i64(v.as_str()),
        None => None,
    }
}

/// The modlists of `ms` whose visibility level is `visibility`, in order.
pub open spec fn with_visibility(ms: Seq<ModListView>, visibility: i64) -> Seq<ModListView>
    decreases ms.len(),
{
    if ms.len() == 0 {
        Seq::empty()
    } else if ms.last().visibility == visibility {
        with_visibility(ms.drop_last(), visibility).push(ms.last())
    } else {
        with_visibility(ms.drop_last(), visibility)
    }
}

/// The modlists whose visibility level is `visibility`, in order.
pub fn filter_by_visibility(modlists: Vec<ModList>, visibility: i64) -> (r: Vec<ModList>)
    ensures
        modlists_view(r@) == with_visibility(modlists_view(modlists@), visibility),
{
    let ghost ms = modlists_view(modlists@);
    let mut out: Vec<ModList> = Vec::new();
    let mut rest = modlists;
    let ghost all = rest@;
    let mut i: usize = 0;
    let n = rest.len();
    let mut reversed: Vec<ModList> = Vec::new();
    while rest.len() > 0
        invariant
            rest@.len() + reversed@.len() == n,
            all.len() == n,
            ms == modlists_view(all),
            forall|j: int| 0 <= j < rest@.len() ==> rest@[j] == all[j],
            forall|j: int| 0 <= j < reversed@.len() ==> reversed@[j] == all[n - 1 - j],
        decreases rest.len(),
    {
        let m = rest.pop().unwrap();
        reversed.push(m);
    }
    while reversed.len() > 0
        invariant
            reversed@.len() + i == n,
            all.len() == n,
            ms == modlists_view(all),
            forall|j: int| 0 <= j < reversed@.len() ==> reversed@[j] == all[n - 1 - j],
            modlists_view(out@) == with_visibility(ms.take(i as int), visibility),
        decreases reversed.len(),
    {
        let m = reversed.pop().unwrap();
        proof {
            let t = ms.take(i + 1);
            assert(m == all[i as int]);
            assert(t.drop_last() =~= ms.take(i as int));
            assert(t.last() == m@);
        }
        if m.visibility == visibility {
            let ghost before = out@;
            out.push(m);
            assert(modlists_view(out@) =~= modlists_view(before).push(all[i as int]@));
        }
        i = i + 1;
    }
    assert(ms.take(n as int) =~= ms);
    out
}

/// Some import is not the vanilla modlist.
pub open spec fn imports_other_than_vanilla(imports: Seq<Seq<char>>) -> bool {
    exists|i: int| 0 <= i < imports.len() && imports[i] != "vanilla"@
}

/// The packing control of a modlist's page.
#[derive(Clone, Copy, Debug, PartialEq, Eq, Structural)]
pub enum PackControl {
    /// The modlist is packed and can be unpacked.
    Unpack,
    /// The modlist imports other modlists than vanilla: packing it would
    /// change them too, so the control is shown disabled.
    PackBlocked,
    /// The modlist can be packed.
    Pack,
}

/// The names of the modlists of `ms` other than `name`, in order.
pub open spec fn names_except(ms: Seq<ModListView>, name: Seq<char>) -> Seq<Seq<char>>
    decreases ms.len(),
{
    if ms.len() == 0 {
        Seq::empty()
    } else if ms.last().name != name {
        names_except(ms.drop_last(), name).push(ms.last().name)
    } else {
        names_except(ms.drop_last(), name)
    }
}

/// The names of the modlists of `all` other than `name`, in order.
pub fn other_modlist_names(all: &Vec<ModList>, name: &str) -> (r: Vec<String>)
    ensures
        r@.map_values(|s: String| s@) == names_except(modlists_view(all@), name@),
{
    let ghost ms = modlists_view(all@);
    let target: String = name.to_owned();
    let mut names: Vec<String> = Vec::new();
    let mut k: usize = 0;
    while k < all.len()
        invariant
            k <= all.len(),
            ms == modlists_view(all@),
            target@ == name@,
            names@.map_values(|s: String| s@) == names_except(ms.take(k as int), name@),
        decreases all.len() - k,
    {
        proof {
            let t = ms.take(k + 1);
            assert(t.drop_last() =~= ms.take(k as int));
            assert(t.last() == all@[k as int]@);
        }
        if all[k].name != target {
            let ghost before = names@;
            names.push(all[k].name.clone());
            assert(names@.map_values(|s: String| s@) =~= before.map_values(|s: String| s@).push(
                all@[k as int]@.name,
            ));
        }
        k = k + 1;
    }
    assert(ms.take(all.len() as int) =~= ms);
    names
}

/// A modlist's page: whether the merge controls are offered, which packing
/// control is, and which modlists can be chosen for import.
pub struct ModlistPage {
    pub show_merge: bool,
    pub pack_control: PackControl,
    pub import_choices: Vec<String>,
}

/// The page of `modlist`, with `all` the modlists of the database.
pub fn modlist_page(modlist: &ModList, all: &Vec<ModList>, facts: &PathFacts) -> (r: ModlistPage)
    ensures
        r.show_merge == !spec_is_packed(modlist@.name, *facts),
        r.pack_control == if spec_is_packed(modlist@.name, *facts) {
            PackControl::Unpack
        } else if imports_other_than_vanilla(modlist@.imports) {
            PackControl::PackBlocked
        } else {
            PackControl::Pack
        },
        r.import_choices@.map_values(|s: String| s@) == names_except(
            modlists_view(all@),
            modlist@.name,
        ),
{
    let packed = modlist.is_packed(facts);
    let mut imports_other = false;
    let vanilla = "vanilla".to_owned();
    let mut i: usize = 0;
    while i < modlist.imported_modlists.len()
        invariant
            i <= modlist.imported_modlists.len(),
            vanilla@ == "vanilla"@,
            imports_other == exists|j: int| 0 <= j < i && modlist@.imports[j] != "vanilla"@,
        decreases modlist.imported_modlists.len() - i,
    {
        if modlist.imported_modlists[i] != vanilla {
            assert(modlist@.imports[i as int] != "vanilla"@);
            imports_other = true;
        }
        i = i + 1;
    }
    let pack_control = if packed {
        PackControl::Unpack
    } else if imports_other {
        PackControl::PackBlocked
    } else {
        PackControl::Pack
    };
    let choices = other_modlist_names(all, modlist.name.as_str());
    ModlistPage { show_merge: !packed, pack_control, import_choices: choices }
}

/// The kinds of folders a modlist's page lists.
#[derive(Clone, Copy, Debug, PartialEq, Eq, Structural)]
pub enum FolderViewType {
    Mods,
    Dlcs,
    Menus,
}

/// The folder of `modlist` of the given kind.
pub fn get_folder_from_view_type(modlist: &ModList, view_type: FolderViewType) -> (r: FsPath)
    ensures
        r@ == match view_type {
            FolderViewType::Mods => mods_dir(modlist@.name),
            FolderViewType::Dlcs => modlist_dir(modlist@.name).join("dlcs"@),
            FolderViewType::Menus => modlist_dir(modlist@.name).join("menus"@),
        },
{
    match view_type {
        FolderViewType::Mods => modlist.mods_path(),
        FolderViewType::Dlcs => modlist.dlcs_path(),
        FolderViewType::Menus => modlist.menus_path(),
    }
}

/// An imported packed modlist shows only its pack among its mods.
pub fn shows_packed_summary(view_type: FolderViewType, is_top_level: bool, is_modlist_packed: bool) -> (r: bool)
    ensures
        r == (!is_top_level && view_type == FolderViewType::Mods && is_modlist_packed),
{
    !is_top_level && view_type == FolderViewType::Mods && is_modlist_packed
}

/// How a folder of the given kind is listed.
pub fn folder_entry(view_type: FolderViewType, name: &str, modlist_name: &str, is_modlist_packed: bool) -> (r: FolderEntry)
    ensures
        r@ == match view_type {
            FolderViewType::Mods => mod_entry(name@, modlist_name@, is_modlist_packed),
            FolderViewType::Dlcs => dlc_entry(name@, modlist_name@),
            FolderViewType::Menus => menu_entry(name@, modlist_name@),
        },
{
    match view_type {
        FolderViewType::Mods => mod_display(name, modlist_name, is_modlist_packed),
        FolderViewType::Dlcs => dlc_display(name, modlist_name),
        FolderViewType::Menus => menu_display(name, modlist_name),
    }
}

/// The imports of `imports` whose folder exists, in order.
pub open spec fn existing_imports(imports: Seq<Seq<char>>, facts: PathFacts) -> Seq<Seq<char>>
    decreases imports.len(),
{
    if imports.len() == 0 {
        Seq::empty()
    } else if facts.spec_exists(modlist_dir(imports.last())) {
        existing_imports(imports.drop_last(), facts).push(imports.last())
    } else {
        existing_imports(imports.drop_last(), facts)
    }
}

/// The imports of `modlist` whose folders are listed under its own: those
/// the database holds, in load order.
pub fn listed_imports(modlist: &ModList, facts: &PathFacts) -> (r: Vec<String>)
    ensures
        r@.map_values(|s: String| s@) == existing_imports(modlist@.imports, *facts),
{
    let ghost all = modlist@.imports;
    let mut out: Vec<String> = Vec::new();
    let mut i: usize = 0;
    while i < modlist.imported_modlists.len()
        invariant
            i <= modlist.imported_modlists.len(),
            all == modlist@.imports,
            out@.map_values(|s: String| s@) == existing_imports(all.take(i as int), *facts),
        decreases modlist.imported_modlists.len() - i,
    {
        proof {
            let t = all.take(i + 1);
            assert(t.drop_last() =~= all.take(i as int));
            assert(t.last() == all[i as int]);
        }
        let name = modlist.imported_modlists[i].as_str();
        if ModList::get_by_name(name, facts).is_some() {
            let ghost before = out@;
            out.push(name.to_owned());
            assert(out@.map_values(|s: String| s@) =~= before.map_values(|s: String| s@).push(
                all[i as int],
            ));
        }
        i = i + 1;
    }
    assert(all.take(modlist.imported_modlists.len() as int) =~= all);
    out
}

/// The singular of a folder kind for the editing page: without its trailing
/// `s` characters when it ends with one.
pub fn singular_form(folder_type: &str) -> (r: String)
    ensures
        r@ == if spec_ends_with(folder_type@, "s"@) {
            trim_trailing_s(folder_type@)
        } else {
            folder_type@
        },
{
    if ends_with(folder_type, "s") {
        trim_end_s(folder_type)
    } else {
        folder_type.to_owned()
    }
}

/// Every modlist of the home page is listed once: either among those that
/// can be installed or among the shared ones, according to whether it can be
/// installed.
pub proof fn law_home_page_partitions(ms: Seq<ModListView>, j: int)
    requires
        0 <= j < ms.len(),
        ms.len() <= usize::MAX,
    ensures
        indices_where(ms, true).contains(j as usize) != indices_where(ms, false).contains(j as usize),
        indices_where(ms, is_installable(ms[j])).contains(j as usize),
{
    lemma_indices_contains(ms, true, j);
    lemma_indices_contains(ms, false, j);
}

/// A modlist's index is listed exactly when the modlist is on that side.
pub proof fn lemma_indices_contains(ms: Seq<ModListView>, b: bool, j: int)
    requires
        0 <= j < ms.len(),
        ms.len() <= usize::MAX,
    ensures
        indices_where(ms, b).contains(j as usize) <==> is_installable(ms[j]) == b,
    decreases ms.len(),
{
    let init = ms.drop_last();
    let n = ms.len() - 1;
    lemma_indices_below(init, b);
    let prev = indices_where(init, b);
    let cur = indices_where(ms, b);
    if j < n {
        lemma_indices_contains(init, b, j);
        assert(init[j] == ms[j]);
        if cur.contains(j as usize) {
            let k = choose|k: int| 0 <= k < cur.len() && cur[k] == j as usize;
            if k < prev.len() {
                assert(prev[k] == j as usize);
            }
        }
        if prev.contains(j as usize) {
            let k = choose|k: int| 0 <= k < prev.len() && prev[k] == j as usize;
            assert(cur[k] == j as usize);
        }
    } else {
        if is_installable(ms[n]) == b {
            assert(cur[prev.len() as int] == n as usize);
        } else if cur.contains(j as usize) {
            let k = choose|k: int| 0 <= k < cur.len() && cur[k] == j as usize;
            assert(prev[k] < init.len());
        }
    }
}

/// The listed indices lie within the modlists.
pub proof fn lemma_indices_below(ms: Seq<ModListView>, b: bool)
    ensures
        forall|k: int| 0 <= k < indices_where(ms, b).len() ==> indices_where(ms, b)[k] < ms.len(),
        indices_where(ms, b).len() <= ms.len(),
    decreases ms.len(),
{
    if ms.len() > 0 {
        lemma_indices_below(ms.drop_last(), b);
    }
}

/// The import choices of a modlist's page are the names of the database's
/// modlists, in order, with every occurrence of the page's own name left
/// out and nothing else.
pub proof fn law_import_choices_are_the_others(ms: Seq<ModListView>, name: Seq<char>)
    ensures
        names_except(ms, name) == ms.map_values(|m: ModListView| m.name).filter(
            |n: Seq<char>| n != name,
        ),
        forall|n: Seq<char>|
            #[trigger] names_except(ms, name).contains(n) <==> (n != name && exists|i: int|
                0 <= i < ms.len() && ms[i].name == n),
    decreases ms.len(),
{
    reveal(Seq::filter);
    let names = ms.map_values(|m: ModListView| m.name);
    if ms.len() > 0 {
        law_import_choices_are_the_others(ms.drop_last(), name);
        assert(names.drop_last() =~= ms.drop_last().map_values(|m: ModListView| m.name));
        let prev = names_except(ms.drop_last(), name);
        let cur = names_except(ms, name);
        assert forall|n: Seq<char>| #[trigger] cur.contains(n) <==> (n != name && exists|i: int|
            0 <= i < ms.len() && ms[i].name == n) by {
            if cur.contains(n) {
                let k = choose|k: int| 0 <= k < cur.len() && cur[k] == n;
                if k < prev.len() {
                    assert(prev[k] == n);
                    assert(prev.contains(n));
                    let i = choose|i: int| 0 <= i < ms.drop_last().len() && ms.drop_last()[i].name == n;
                    assert(ms[i].name == n);
                } else {
                    assert(ms[ms.len() - 1].name == n);
                }
            }
            if n != name && exists|i: int| 0 <= i < ms.len() && ms[i].name == n {
                let i = choose|i: int| 0 <= i < ms.len() && ms[i].name == n;
                if i < ms.len() - 1 {
                    assert(ms.drop_last()[i].name == n);
                    assert(prev.contains(n));
                    let k = choose|k: int| 0 <= k < prev.len() && prev[k] == n;
                    assert(cur[k] == n);
                } else {
                    assert(cur[cur.len() - 1] == n);
                }
            }
        }
    } else {
        assert forall|n: Seq<char>| #[trigger] names_except(ms, name).contains(n) <==> (n != name
            && exists|i: int| 0 <= i < ms.len() && ms[i].name == n) by {}
    }
}

/// The imports listed under a modlist's folders are its imports whose
/// folders exist, each once in the place it has in the load order.
pub proof fn law_listed_imports_keep_load_order(imports: Seq<Seq<char>>, facts: PathFacts)
    ensures
        existing_imports(imports, facts) == imports.filter(
            |n: Seq<char>| facts.spec_exists(modlist_dir(n)),
        ),
    decreases imports.len(),
{
    reveal(Seq::filter);
    if imports.len() > 0 {
        law_listed_imports_keep_load_order(imports.drop_last(), facts);
    }
}

/// The home page lists each side's modlists in the order of the database:
/// the indices it gives are strictly increasing.
pub proof fn law_home_page_keeps_order(ms: Seq<ModListView>, b: bool)
    requires
        ms.len() <= usize::MAX,
    ensures
        forall|i: int, j: int|
            0 <= i < j < indices_where(ms, b).len() ==> indices_where(ms, b)[i] < indices_where(ms, b)[j],
    decreases ms.len(),
{
    if ms.len() > 0 {
        let init = ms.drop_last();
        law_home_page_keeps_order(init, b);
        lemma_indices_below(init, b);
        let prev = indices_where(init, b);
        let cur = indices_where(ms, b);
        assert forall|i: int, j: int| 0 <= i < j < cur.len() implies cur[i] < cur[j] by {
            if j < prev.len() {
                assert(cur[i] == prev[i] && cur[j] == prev[j]);
            } else {
                assert(cur[i] == prev[i]);
                assert(cur[j] == (ms.len() - 1) as usize);
            }
        }
    }
}

/// Filtering by visibility keeps the modlists of that level, in order, and
/// only them.
pub proof fn law_visibility_filter_keeps_order(ms: Seq<ModListView>, visibility: i64)
    ensures
        with_visibility(ms, visibility) == ms.filter(|m: ModListView| m.visibility == visibility),
    decreases ms.len(),
{
    reveal(Seq::filter);
    if ms.len() > 0 {
        law_visibility_filter_keeps_order(ms.drop_last(), visibility);
    }
}

} // verus!

//! The decisions a modlist takes over the file system: whether it is valid or
//! packed, which modlists the database holds, and the plans of work that
//! creating, installing, loading, packing and unpacking perform.

use vstd::prelude::*;
use crate::facts::PathFacts;
use crate::layout::{
    game_content_bundles, game_content_bundles_path, game_content_scripts,
    game_content_scripts_path, game_dlc, game_dlc_path, game_menus, game_menus_path, game_mods,
    game_mods_path, game_saves, game_saves_path, merges_mergedfiles_dir, modlist_dir, mods_dir,
    pack_folder_name,
    packbackup_folder_name, script_merger_program, script_merger_program_path, scriptmerger_dir,
    scriptmerger_path,
};
use crate::modlist::{ModList, ModListView};
use crate::text::{decimal, zero_padded, zero_padded_decimal};
use crate::paths::{FsPath, PathView};
use crate::plan::{add_step, add_steps, may, must, plan_view, ActionView, FsAction, OnFailure, PlanStep, StepView};

verus! {

/// The modlist named `name` has all its folders.
pub open spec fn spec_is_valid(name: Seq<char>, facts: PathFacts) -> bool {
    let d = modlist_dir(name);
    &&& facts.spec_exists(d)
    &&& facts.spec_exists(d.join("dlcs"@))
    &&& facts.spec_exists(d.join("mods"@))
    &&& facts.spec_exists(d.join("menus"@))
    &&& facts.spec_exists(d.join("saves"@))
    &&& facts.spec_exists(d.join("content"@))
    &&& facts.spec_exists(d.join("bundles"@))
}

/// The modlist named `name` is packed: both its pack and its pack backup
/// are directories.
pub open spec fn spec_is_packed(name: Seq<char>, facts: PathFacts) -> bool {
    &&& facts.spec_is_dir(mods_dir(name).join(packbackup_folder_name(name)))
    &&& facts.spec_is_dir(mods_dir(name).join(pack_folder_name(name)))
}

/// A modlist named `name` as it is before its configuration is read.
pub open spec fn fresh(name: Seq<char>) -> ModListView {
    ModListView { name, imports: Seq::empty(), visibility: 0 }
}

/// The names of `names` whose modlists are valid, in order.
pub open spec fn valid_names(names: Seq<Seq<char>>, facts: PathFacts) -> Seq<Seq<char>>
    decreases names.len(),
{
    if names.len() == 0 {
        Seq::empty()
    } else if spec_is_valid(names.last(), facts) {
        valid_names(names.drop_last(), facts).push(names.last())
    } else {
        valid_names(names.drop_last(), facts)
    }
}

/// The text of the Script Merger inventory of a new modlist.
pub open spec fn merge_inventory_template() -> Seq<char> {
    "<?xml version=\"1.0\" encoding=\"utf-8\"?>\n      <MergeInventory xmlns:xsi=\"http://www.w3.org/2001/XMLSchema-instance\" xmlns:xsd=\"http://www.w3.org/2001/XMLSchema\">\n        \n      </MergeInventory>"@
}

/// The work that creates the folders of the modlist named `name`.
pub open spec fn create_plan(name: Seq<char>) -> Seq<StepView> {
    let d = modlist_dir(name);
    seq![
        must(ActionView::CreateDirAll(d.join("dlcs"@))),
        must(ActionView::CreateDirAll(d.join("mods"@))),
        must(ActionView::CreateDirAll(d.join("menus"@))),
        must(ActionView::CreateDirAll(d.join("saves"@))),
        must(ActionView::CreateDirAll(d.join("content"@))),
        must(ActionView::CreateDirAll(d.join("bundles"@))),
        must(ActionView::WriteFile {
            path: d.join("MergeInventory.xml"@),
            content: merge_inventory_template(),
        })
    ]
}

/// The work that removes the links that loading the imports made.
pub open spec fn unload_plan(name: Seq<char>) -> Seq<StepView> {
    let d = modlist_dir(name);
    seq![
        must(ActionView::RemoveSymlinksIn(d.join("mods"@))),
        must(ActionView::RemoveSymlinksIn(d.join("dlcs"@))),
        must(ActionView::RemoveSymlinksIn(d.join("menus"@))),
        must(ActionView::RemoveSymlinksIn(d.join("saves"@))),
        must(ActionView::RemoveSymlinksIn(d.join("content"@))),
        must(ActionView::RemoveSymlinksIn(d.join("bundles"@)))
    ]
}

/// The work that links the folders of the modlist `from` into those of `to`.
pub open spec fn link_plan(from: Seq<char>, to: Seq<char>) -> Seq<StepView> {
    let s = modlist_dir(from);
    let d = modlist_dir(to);
    seq![
        must(ActionView::SymlinkChildren { source: s.join("dlcs"@), destination: d.join("dlcs"@) }),
        must(ActionView::SymlinkChildren { source: s.join("mods"@), destination: d.join("mods"@) }),
        must(ActionView::SymlinkChildren { source: s.join("menus"@), destination: d.join("menus"@) }),
        must(ActionView::SymlinkChildren {
            source: s.join("content"@),
            destination: d.join("content"@),
        }),
        must(ActionView::SymlinkChildren {
            source: s.join("bundles"@),
            destination: d.join("bundles"@),
        })
    ]
}

/// The links of the folders of the valid ones of `imports` into the modlist
/// `name`, in load order.
pub open spec fn import_links(name: Seq<char>, imports: Seq<Seq<char>>, facts: PathFacts) -> Seq<StepView>
    decreases imports.len(),
{
    if imports.len() == 0 {
        Seq::empty()
    } else if spec_is_valid(imports.last(), facts) {
        import_links(name, imports.drop_last(), facts) + link_plan(imports.last(), name)
    } else {
        import_links(name, imports.drop_last(), facts)
    }
}

/// The name of the link to the merges of the modlist `n`, imported at
/// position `k` (1 for the first): `mod_<k on six digits>_<n>_mergedfiles`,
/// so that the modlist's own merged files load first, then those of its
/// imports in import order.
pub open spec fn merge_link_name(k: nat, n: Seq<char>) -> Seq<char> {
    "mod_"@ + zero_padded(decimal(k), 6) + "_"@ + n + "_mergedfiles"@
}

/// For each valid one of `imports` that has merges, a link among the mods
/// of the modlist `name` to them, named after its position in `imports`.
pub open spec fn merge_links(name: Seq<char>, imports: Seq<Seq<char>>, facts: PathFacts) -> Seq<StepView>
    decreases imports.len(),
{
    if imports.len() == 0 {
        Seq::empty()
    } else {
        let n = imports.last();
        merge_links(name, imports.drop_last(), facts) + if spec_is_valid(n, facts) && facts.spec_exists(
            merges_mergedfiles_dir(n),
        ) {
            seq![
                may(ActionView::MakeSymlink {
                    link: mods_dir(name).join(merge_link_name(imports.len(), n)),
                    target: merges_mergedfiles_dir(n),
                })
            ]
        } else {
            Seq::empty()
        }
    }
}

/// The work that loads the valid ones of `imports` into the modlist `name`:
/// their folders are linked in load order, then their merges.
pub open spec fn load_plan(name: Seq<char>, imports: Seq<Seq<char>>, facts: PathFacts) -> Seq<StepView> {
    import_links(name, imports, facts) + merge_links(name, imports, facts)
}

/// The work that installs the modlist `name`: the game's folders become
/// links to the modlist's folders, the Script Merger inventory is swapped
/// when the tool is installed and the modlist has an inventory, and the
/// modlist's merges are linked among its mods when they exist and no such
/// link is there yet.
pub open spec fn install_plan(name: Seq<char>, facts: PathFacts) -> Seq<StepView> {
    let d = modlist_dir(name);
    let inventory = d.join("MergeInventory.xml"@);
    let merger_inventory = scriptmerger_dir().join("MergeInventory.xml"@);
    let own_merges = mods_dir(name).join("mod_000000_mergedfiles"@);
    seq![
        may(ActionView::RemoveSymlink(game_mods())),
        may(ActionView::RemoveSymlink(game_dlc())),
        may(ActionView::RemoveSymlink(game_menus())),
        may(ActionView::RemoveSymlink(game_saves())),
        may(ActionView::RemoveSymlink(game_content_scripts())),
        may(ActionView::RemoveSymlink(game_content_bundles())),
        must(ActionView::MakeSymlink { link: game_mods(), target: d.join("mods"@) }),
        must(ActionView::MakeSymlink { link: game_dlc(), target: d.join("dlcs"@) }),
        must(ActionView::MakeSymlink { link: game_menus(), target: d.join("menus"@) }),
        must(ActionView::MakeSymlink { link: game_saves(), target: d.join("saves"@) }),
        must(ActionView::MakeSymlink { link: game_content_scripts(), target: d.join("content"@) }),
        must(ActionView::MakeSymlink { link: game_content_bundles(), target: d.join("bundles"@) })
    ] + (if facts.spec_exists(scriptmerger_dir()) && facts.spec_exists(inventory) {
        seq![
            may(ActionView::RemoveSymlink(merger_inventory)),
            must(ActionView::MakeSymlink { link: merger_inventory, target: inventory })
        ]
    } else {
        Seq::empty()
    }) + if facts.spec_exists(merges_mergedfiles_dir(name)) && !facts.spec_exists(own_merges) {
        seq![must(ActionView::MakeSymlink { link: own_merges, target: merges_mergedfiles_dir(name) })]
    } else {
        Seq::empty()
    }
}

/// Why a modlist cannot be packed.
#[derive(Clone, Copy, Debug, PartialEq, Eq, Structural)]
pub enum PackError {
    /// There is no merged-files folder, so there is nothing to pack.
    NoMergedFiles,
}

/// The scripts folder of the pack of the modlist `name`.
pub open spec fn pack_scripts_dir(name: Seq<char>) -> PathView {
    mods_dir(name).join(pack_folder_name(name)).join("content"@).join("scripts"@)
}

/// The merged-files folder of the modlist `name`.
pub open spec fn mergedfiles_dir(name: Seq<char>) -> PathView {
    mods_dir(name).join("mod0000_MergedFiles"@)
}

/// The first part of packing: the pack backup is made afresh, and the pack's
/// scripts folder is made.
pub open spec fn pack_prepare_plan(name: Seq<char>, facts: PathFacts) -> Seq<StepView> {
    let backup = mods_dir(name).join(packbackup_folder_name(name));
    (if spec_is_packed(name, facts) {
        seq![must(ActionView::RemoveDirAll(backup))]
    } else {
        Seq::empty()
    }) + seq![
        must(ActionView::CreateDirAll(backup)),
        must(ActionView::CreateDirAll(pack_scripts_dir(name)))
    ]
}

/// A folder among the mods of a modlist, and whether it holds a
/// `content/scripts` directory.
pub struct ModFolder {
    pub name: String,
    pub has_scripts: bool,
}

/// The mathematical value of a mod folder.
pub struct ModFolderView {
    pub name: Seq<char>,
    pub has_scripts: bool,
}

impl View for ModFolder {
    type V = ModFolderView;

    open spec fn view(&self) -> ModFolderView {
        ModFolderView { name: self.name@, has_scripts: self.has_scripts }
    }
}

/// The name starts with `~`: a disabled folder.
pub open spec fn starts_with_tilde(s: Seq<char>) -> bool {
    s.len() > 0 && s[0] == '~'
}

/// The copies of the scripts of `mods` into the pack of the modlist `name`,
/// for the mods that are not disabled and have scripts.
pub open spec fn pack_copies(name: Seq<char>, mods: Seq<ModFolderView>) -> Seq<StepView>
    decreases mods.len(),
{
    if mods.len() == 0 {
        Seq::empty()
    } else {
        let m = mods.last();
        pack_copies(name, mods.drop_last()) + if !starts_with_tilde(m.name) && m.has_scripts {
            seq![
                must(ActionView::CopyDirContents {
                    from: mods_dir(name).join(m.name).join("content"@).join("scripts"@),
                    to: pack_scripts_dir(name),
                    overwrite: false,
                })
            ]
        } else {
            Seq::empty()
        }
    }
}

/// The second part of packing: the scripts of the mods are copied into the
/// pack without replacing what is there, the merged scripts are copied over
/// them, and the merged-files folder moves into the pack backup.
pub open spec fn pack_scripts_plan(name: Seq<char>, mods: Seq<ModFolderView>) -> Seq<StepView> {
    let backup = mods_dir(name).join(packbackup_folder_name(name));
    pack_copies(name, mods) + seq![
        must(ActionView::CopyDirContents {
            from: mergedfiles_dir(name).join("content"@).join("scripts"@),
            to: pack_scripts_dir(name),
            overwrite: true,
        }),
        must(ActionView::Rename {
            from: mergedfiles_dir(name),
            to: backup.join("mod0000_MergedFiles"@),
        })
    ]
}

/// The restoration of the backed-up `entries` of the modlist `name`.
pub open spec fn restore_entries(name: Seq<char>, entries: Seq<Seq<char>>) -> Seq<StepView>
    decreases entries.len(),
{
    if entries.len() == 0 {
        Seq::empty()
    } else {
        let e = entries.last();
        restore_entries(name, entries.drop_last()) + seq![
            must(ActionView::CreateDirAll(mods_dir(name).join(e))),
            restore_step(name, e)
        ]
    }
}

/// The work that unpacks the modlist `name`, whose pack backup holds
/// `entries`: nothing when it is not packed; otherwise each entry is
/// restored among the mods, and the pack backup is removed.
pub open spec fn unpack_plan(name: Seq<char>, facts: PathFacts, entries: Seq<Seq<char>>) -> Seq<StepView> {
    if !spec_is_packed(name, facts) {
        Seq::empty()
    } else {
        restore_entries(name, entries) + seq![
            must(ActionView::RemoveDirAll(mods_dir(name).join(packbackup_folder_name(name))))
        ]
    }
}

/// The paths of a run of the command-line script merger.
pub struct ScriptMergeCommand {
    pub program: FsPath,
    pub source: FsPath,
    pub input: FsPath,
    pub output: FsPath,
}

/// A modlist and the work that brings its folders into being.
pub struct Creation {
    pub modlist: ModList,
    pub steps: Vec<PlanStep>,
}

impl ModList {
    /// The paths whose existence decides whether this modlist is valid.
    pub fn validity_paths(&self) -> (r: Vec<FsPath>)
        ensures
            r@.map_values(|p: FsPath| p@) == seq![
                modlist_dir(self@.name),
                modlist_dir(self@.name).join("dlcs"@),
                modlist_dir(self@.name).join("mods"@),
                modlist_dir(self@.name).join("menus"@),
                modlist_dir(self@.name).join("saves"@),
                modlist_dir(self@.name).join("content"@),
                modlist_dir(self@.name).join("bundles"@)
            ],
    {
        let mut r: Vec<FsPath> = Vec::new();
        r.push(self.path());
        r.push(self.dlcs_path());
        r.push(self.mods_path());
        r.push(self.menus_path());
        r.push(self.saves_path());
        r.push(self.content_path());
        r.push(self.bundles_path());
        let ghost d = modlist_dir(self@.name);
        assert(r@.map_values(|p: FsPath| p@) =~= seq![
            d,
            d.join("dlcs"@),
            d.join("mods"@),
            d.join("menus"@),
            d.join("saves"@),
            d.join("content"@),
            d.join("bundles"@)
        ]);
        r
    }

    /// Whether the modlist has all its folders.
    pub fn is_valid(&self, facts: &PathFacts) -> (r: bool)
        ensures
            r == spec_is_valid(self@.name, *facts),
    {
        facts.path_exists(&self.path()) && facts.path_exists(&self.dlcs_path())
            && facts.path_exists(&self.mods_path()) && facts.path_exists(&self.menus_path())
            && facts.path_exists(&self.saves_path()) && facts.path_exists(&self.content_path())
            && facts.path_exists(&self.bundles_path())
    }

    /// Whether the modlist is packed.
    pub fn is_packed(&self, facts: &PathFacts) -> (r: bool)
        ensures
            r == spec_is_packed(self@.name, *facts),
    {
        facts.path_is_dir(&self.packbackup_path()) && facts.path_is_dir(&self.pack_path())
    }

    /// The modlist named `name`, if the database holds its folder.
    pub fn get_by_name(name: &str, facts: &PathFacts) -> (r: Option<ModList>)
        ensures
            match r {
                Some(m) => facts.spec_exists(modlist_dir(name@)) && m@ == fresh(name@),
                None => !facts.spec_exists(modlist_dir(name@)),
            },
    {
        let modlist = ModList::new(name.to_owned());
        if facts.path_exists(&modlist.path()) {
            Some(modlist)
        } else {
            None
        }
    }

    /// The valid modlists among the folders of the database named `names`.
    pub fn get_all(names: &Vec<String>, facts: &PathFacts) -> (r: Vec<ModList>)
        ensures
            r@.map_values(|m: ModList| m@) == valid_names(
                names@.map_values(|s: String| s@),
                *facts,
            ).map_values(|n: Seq<char>| fresh(n)),
    {
        let ghost all = names@.map_values(|s: String| s@);
        let mut r: Vec<ModList> = Vec::new();
        let mut i: usize = 0;
        while i < names.len()
            invariant
                i <= names.len(),
                all == names@.map_values(|s: String| s@),
                r@.map_values(|m: ModList| m@) == valid_names(all.take(i as int), *facts).map_values(
                    |n: Seq<char>| fresh(n),
                ),
            decreases names.len() - i,
        {
            let modlist = ModList::new(names[i].clone());
            proof {
                assert(all.take(i + 1).drop_last() =~= all.take(i as int));
                assert(all.take(i + 1).last() == names@[i as int]@);
            }
            if modlist.is_valid(facts) {
                let ghost before = r@;
                r.push(modlist);
                assert(r@.map_values(|m: ModList| m@) =~= before.map_values(|m: ModList| m@).push(
                    fresh(names@[i as int]@),
                ));
                assert(valid_names(all.take(i + 1), *facts).map_values(|n: Seq<char>| fresh(n))
                    =~= valid_names(all.take(i as int), *facts).map_values(|n: Seq<char>| fresh(n)).push(
                    fresh(names@[i as int]@),
                ));
            }
            i = i + 1;
        }
        assert(all.take(names.len() as int) =~= all);
        r
    }

    /// The modlist named `name`: the one the database holds if it holds
    /// it, with nothing to do, or a new one with the work that creates its
    /// folders and an empty Script Merger inventory.
    pub fn create(name: &str, facts: &PathFacts) -> (r: Creation)
        ensures
            r.modlist@ == fresh(name@),
            plan_view(r.steps@) == if facts.spec_exists(modlist_dir(name@)) {
                Seq::empty()
            } else {
                create_plan(name@)
            },
    {
        let modlist = ModList::new(name.to_owned());
        let mut steps: Vec<PlanStep> = Vec::new();
        if facts.path_exists(&modlist.path()) {
            assert(plan_view(steps@) =~= Seq::<StepView>::empty());
            return Creation { modlist, steps };
        }
        add_step(&mut steps, FsAction::CreateDirAll(modlist.dlcs_path()), OnFailure::Abort);
        add_step(&mut steps, FsAction::CreateDirAll(modlist.mods_path()), OnFailure::Abort);
        add_step(&mut steps, FsAction::CreateDirAll(modlist.menus_path()), OnFailure::Abort);
        add_step(&mut steps, FsAction::CreateDirAll(modlist.saves_path()), OnFailure::Abort);
        add_step(&mut steps, FsAction::CreateDirAll(modlist.content_path()), OnFailure::Abort);
        add_step(&mut steps, FsAction::CreateDirAll(modlist.bundles_path()), OnFailure::Abort);
        let content = String::from_str(
            "<?xml version=\"1.0\" encoding=\"utf-8\"?>\n      <MergeInventory xmlns:xsi=\"http://www.w3.org/2001/XMLSchema-instance\" xmlns:xsd=\"http://www.w3.org/2001/XMLSchema\">\n        \n      </MergeInventory>",
        );
        add_step(
            &mut steps,
            FsAction::WriteFile { path: modlist.mergeinventory_path(), content },
            OnFailure::Abort,
        );
        assert(plan_view(steps@) =~= create_plan(name@));
        Creation { modlist, steps }
    }

    /// The work that removes every link in the folders of this modlist,
    /// that is every import loaded into it.
    pub fn unload_imported_modlists(&self) -> (r: Vec<PlanStep>)
        ensures
            plan_view(r@) == unload_plan(self@.name),
    {
        let mut steps: Vec<PlanStep> = Vec::new();
        add_step(&mut steps, FsAction::RemoveSymlinksIn(self.mods_path()), OnFailure::Abort);
        add_step(&mut steps, FsAction::RemoveSymlinksIn(self.dlcs_path()), OnFailure::Abort);
        add_step(&mut steps, FsAction::RemoveSymlinksIn(self.menus_path()), OnFailure::Abort);
        add_step(&mut steps, FsAction::RemoveSymlinksIn(self.saves_path()), OnFailure::Abort);
        add_step(&mut steps, FsAction::RemoveSymlinksIn(self.content_path()), OnFailure::Abort);
        add_step(&mut steps, FsAction::RemoveSymlinksIn(self.bundles_path()), OnFailure::Abort);
        assert(plan_view(steps@) =~= unload_plan(self@.name));
        steps
    }

    /// The work that links the folders of `import` into this modlist's.
    fn link_steps(&self, import: &ModList) -> (r: Vec<PlanStep>)
        ensures
            plan_view(r@) == link_plan(import@.name, self@.name),
    {
        let mut steps: Vec<PlanStep> = Vec::new();
        add_step(
            &mut steps,
            FsAction::SymlinkChildren { source: import.dlcs_path(), destination: self.dlcs_path() },
            OnFailure::Abort,
        );
        add_step(
            &mut steps,
            FsAction::SymlinkChildren { source: import.mods_path(), destination: self.mods_path() },
            OnFailure::Abort,
        );
        add_step(
            &mut steps,
            FsAction::SymlinkChildren {
                source: import.menus_path(),
                destination: self.menus_path(),
            },
            OnFailure::Abort,
        );
        add_step(
            &mut steps,
            FsAction::SymlinkChildren {
                source: import.content_path(),
                destination: self.content_path(),
            },
            OnFailure::Abort,
        );
        add_step(
            &mut steps,
            FsAction::SymlinkChildren {
                source: import.bundles_path(),
                destination: self.bundles_path(),
            },
            OnFailure::Abort,
        );
        assert(plan_view(steps@) =~= link_plan(import@.name, self@.name));
        steps
    }

    /// The work that loads the imported modlists into this one, in load
    /// order: the children of the DLCs, mods, menus, content and bundles
    /// folders of each valid import are linked from this modlist's folders,
    /// then the merges of each valid import that has some are linked among
    /// this modlist's mods.
    pub fn load_imported_modlists(&self, facts: &PathFacts) -> (r: Vec<PlanStep>)
        ensures
            plan_view(r@) == load_plan(self@.name, self@.imports, *facts),
    {
        let mut steps: Vec<PlanStep> = Vec::new();
        let mut i: usize = 0;
        assert(plan_view(steps@) =~= import_links(self@.name, self@.imports.take(0), *facts));
        while i < self.imported_modlists.len()
            invariant
                i <= self.imported_modlists.len(),
                plan_view(steps@) == import_links(self@.name, self@.imports.take(i as int), *facts),
            decreases self.imported_modlists.len() - i,
        {
            proof {
                let t = self@.imports.take(i + 1);
                assert(t.drop_last() =~= self@.imports.take(i as int));
                assert(t.last() == self@.imports[i as int]);
            }
            match ModList::get_by_name(self.imported_modlists[i].as_str(), facts) {
                Some(import) => {
                    if import.is_valid(facts) {
                        let more = self.link_steps(&import);
                        add_steps(&mut steps, more);
                    }
                },
                None => {},
            }
            i = i + 1;
        }
        assert(self@.imports.take(self.imported_modlists.len() as int) =~= self@.imports);
        let mut merges: Vec<PlanStep> = Vec::new();
        let mut i: usize = 0;
        assert(plan_view(merges@) =~= merge_links(self@.name, self@.imports.take(0), *facts));
        while i < self.imported_modlists.len()
            invariant
                i <= self.imported_modlists.len(),
                plan_view(merges@) == merge_links(self@.name, self@.imports.take(i as int), *facts),
            decreases self.imported_modlists.len() - i,
        {
            proof {
                let t = self@.imports.take(i + 1);
                assert(t.drop_last() =~= self@.imports.take(i as int));
                assert(t.last() == self@.imports[i as int]);
                assert(t.len() == i + 1);
            }
            let import = ModList::new(self.imported_modlists[i].clone());
            let merged = import.merges_mergedfiles_path();
            if import.is_valid(facts) && facts.path_exists(&merged) {
                let link_name = "mod_".to_owned().concat(zero_padded_decimal(i + 1, 6).as_str()).concat(
                    "_",
                ).concat(import.name.as_str()).concat("_mergedfiles");
                add_step(
                    &mut merges,
                    FsAction::MakeSymlink { link: self.mods_path().join(link_name.as_str()), target: merged },
                    OnFailure::Ignore,
                );
                assert(plan_view(merges@) =~= merge_links(self@.name, self@.imports.take(i + 1), *facts));
            } else {
                assert(plan_view(merges@) =~= merge_links(self@.name, self@.imports.take(i + 1), *facts));
            }
            i = i + 1;
        }
        assert(self@.imports.take(self.imported_modlists.len() as int) =~= self@.imports);
        add_steps(&mut steps, merges);
        assert(plan_view(steps@) =~= load_plan(self@.name, self@.imports, *facts));
        steps
    }

    /// The work that installs this modlist into the game.
    pub fn install(&self, facts: &PathFacts) -> (r: Vec<PlanStep>)
        ensures
            plan_view(r@) == install_plan(self@.name, *facts),
    {
        let mut steps: Vec<PlanStep> = Vec::new();
        add_step(&mut steps, FsAction::RemoveSymlink(game_mods_path()), OnFailure::Ignore);
        add_step(&mut steps, FsAction::RemoveSymlink(game_dlc_path()), OnFailure::Ignore);
        add_step(&mut steps, FsAction::RemoveSymlink(game_menus_path()), OnFailure::Ignore);
        add_step(&mut steps, FsAction::RemoveSymlink(game_saves_path()), OnFailure::Ignore);
        add_step(&mut steps, FsAction::RemoveSymlink(game_content_scripts_path()), OnFailure::Ignore);
        add_step(&mut steps, FsAction::RemoveSymlink(game_content_bundles_path()), OnFailure::Ignore);
        add_step(
            &mut steps,
            FsAction::MakeSymlink { link: game_mods_path(), target: self.mods_path() },
            OnFailure::Abort,
        );
        add_step(
            &mut steps,
            FsAction::MakeSymlink { link: game_dlc_path(), target: self.dlcs_path() },
            OnFailure::Abort,
        );
        add_step(
            &mut steps,
            FsAction::MakeSymlink { link: game_menus_path(), target: self.menus_path() },
            OnFailure::Abort,
        );
        add_step(
            &mut steps,
            FsAction::MakeSymlink { link: game_saves_path(), target: self.saves_path() },
            OnFailure::Abort,
        );
        add_step(
            &mut steps,
            FsAction::MakeSymlink { link: game_content_scripts_path(), target: self.content_path() },
            OnFailure::Abort,
        );
        add_step(
            &mut steps,
            FsAction::MakeSymlink { link: game_content_bundles_path(), target: self.bundles_path() },
            OnFailure::Abort,
        );
        let inventory = self.mergeinventory_path();
        if facts.path_exists(&scriptmerger_path()) && facts.path_exists(&inventory) {
            let merger_inventory = scriptmerger_path().join("MergeInventory.xml");
            add_step(
                &mut steps,
                FsAction::RemoveSymlink(merger_inventory.duplicate()),
                OnFailure::Ignore,
            );
            add_step(
                &mut steps,
                FsAction::MakeSymlink { link: merger_inventory, target: inventory },
                OnFailure::Abort,
            );
        }
        let merged = self.merges_mergedfiles_path();
        let own_link = self.own_merges_link_path();
        if facts.path_exists(&merged) && !facts.path_exists(&own_link) {
            add_step(&mut steps, FsAction::MakeSymlink { link: own_link, target: merged }, OnFailure::Abort);
        }
        assert(plan_view(steps@) =~= install_plan(self@.name, *facts));
        steps
    }

    /// The first part of packing: refused when there are no merged files,
    /// otherwise the work that makes the pack backup afresh and the pack's
    /// scripts folder.
    pub fn pack(&self, facts: &PathFacts) -> (r: Result<Vec<PlanStep>, PackError>)
        ensures
            match r {
                Ok(steps) => facts.spec_exists(mergedfiles_dir(self@.name)) && plan_view(steps@)
                    == pack_prepare_plan(self@.name, *facts),
                Err(e) => !facts.spec_exists(mergedfiles_dir(self@.name)) && e
                    == PackError::NoMergedFiles,
            },
    {
        if !facts.path_exists(&self.mergedfiles_path()) {
            return Err(PackError::NoMergedFiles);
        }
        let mut steps: Vec<PlanStep> = Vec::new();
        if self.is_packed(facts) {
            add_step(&mut steps, FsAction::RemoveDirAll(self.packbackup_path()), OnFailure::Abort);
        }
        add_step(&mut steps, FsAction::CreateDirAll(self.packbackup_path()), OnFailure::Abort);
        let pack_scripts = self.pack_path().join("content").join("scripts");
        add_step(&mut steps, FsAction::CreateDirAll(pack_scripts), OnFailure::Abort);
        assert(plan_view(steps@) =~= pack_prepare_plan(self@.name, *facts));
        Ok(steps)
    }

    /// The second part of packing, given the folders found among the mods.
    pub fn pack_scripts(&self, mods: &Vec<ModFolder>) -> (r: Vec<PlanStep>)
        ensures
            plan_view(r@) == pack_scripts_plan(self@.name, mods@.map_values(|m: ModFolder| m@)),
    {
        let ghost all = mods@.map_values(|m: ModFolder| m@);
        let mut steps: Vec<PlanStep> = Vec::new();
        let mut i: usize = 0;
        assert(plan_view(steps@) =~= pack_copies(self@.name, all.take(0)));
        while i < mods.len()
            invariant
                i <= mods.len(),
                all == mods@.map_values(|m: ModFolder| m@),
                plan_view(steps@) == pack_copies(self@.name, all.take(i as int)),
            decreases mods.len() - i,
        {
            proof {
                let t = all.take(i + 1);
                assert(t.drop_last() =~= all.take(i as int));
                assert(t.last() == mods@[i as int]@);
            }
            let name = &mods[i].name;
            let disabled = name.as_str().unicode_len() > 0 && name.as_str().get_char(0) == '~';
            if !disabled && mods[i].has_scripts {
                let from = self.mods_path().join(name.as_str()).join("content").join("scripts");
                let to = self.pack_path().join("content").join("scripts");
                add_step(&mut steps, FsAction::CopyDirContents { from, to, overwrite: false }, OnFailure::Abort);
                assert(plan_view(steps@) =~= pack_copies(self@.name, all.take(i + 1)));
            } else {
                assert(plan_view(steps@) =~= pack_copies(self@.name, all.take(i + 1)));
            }
            i = i + 1;
        }
        assert(all.take(mods.len() as int) =~= all);
        let merged_scripts = self.mergedfiles_path().join("content").join("scripts");
        let to = self.pack_path().join("content").join("scripts");
        add_step(
            &mut steps,
            FsAction::CopyDirContents { from: merged_scripts, to, overwrite: true },
            OnFailure::Abort,
        );
        add_step(
            &mut steps,
            FsAction::Rename {
                from: self.mergedfiles_path(),
                to: self.packbackup_path().join("mod0000_MergedFiles"),
            },
            OnFailure::Abort,
        );
        assert(plan_view(steps@) =~= pack_scripts_plan(self@.name, all));
        steps
    }

    /// The work that unpacks this modlist, given the entries of its pack
    /// backup: each entry is restored among the mods, then the backup is
    /// removed; nothing when the modlist is not packed.
    pub fn unpack(&self, facts: &PathFacts, entries: &Vec<String>) -> (r: Vec<PlanStep>)
        ensures
            plan_view(r@) == unpack_plan(self@.name, *facts, entries@.map_values(|s: String| s@)),
    {
        let mut steps: Vec<PlanStep> = Vec::new();
        if !self.is_packed(facts) {
            assert(plan_view(steps@) =~= Seq::<StepView>::empty());
            return steps;
        }
        let ghost all = entries@.map_values(|s: String| s@);
        let mut i: usize = 0;
        assert(plan_view(steps@) =~= restore_entries(self@.name, all.take(0)));
        while i < entries.len()
            invariant
                i <= entries.len(),
                all == entries@.map_values(|s: String| s@),
                plan_view(steps@) == restore_entries(self@.name, all.take(i as int)),
            decreases entries.len() - i,
        {
            proof {
                let t = all.take(i + 1);
                assert(t.drop_last() =~= all.take(i as int));
                assert(t.last() == entries@[i as int]@);
            }
            let entry = entries[i].as_str();
            add_step(&mut steps, FsAction::CreateDirAll(self.mods_path().join(entry)), OnFailure::Abort);
            add_step(
                &mut steps,
                FsAction::CopyDirContents {
                    from: self.packbackup_path().join(entry),
                    to: self.mods_path().join(entry),
                    overwrite: true,
                },
                OnFailure::Abort,
            );
            assert(plan_view(steps@) =~= restore_entries(self@.name, all.take(i + 1)));
            i = i + 1;
        }
        assert(all.take(entries.len() as int) =~= all);
        add_step(&mut steps, FsAction::RemoveDirAll(self.packbackup_path()), OnFailure::Abort);
        assert(plan_view(steps@) =~= unpack_plan(self@.name, *facts, all));
        steps
    }

    /// The paths the command-line script merger works on for this modlist:
    /// the vanilla scripts of its content, its mods, and the scripts of its
    /// merged files.
    pub fn script_merge_command(&self) -> (r: ScriptMergeCommand)
        ensures
            r.program@ == script_merger_program(),
            r.source@ == modlist_dir(self@.name).join("content"@),
            r.input@ == mods_dir(self@.name),
            r.output@ == mergedfiles_dir(self@.name).join("content"@).join("scripts"@),
    {
        ScriptMergeCommand {
            program: script_merger_program_path(),
            source: self.content_path(),
            input: self.mods_path(),
            output: self.mergedfiles_path().join("content").join("scripts"),
        }
    }
}

/// Unloading removes the links in the folder `dir` of the modlist `name`.
pub open spec fn unload_clears(name: Seq<char>, dir: PathView) -> bool {
    exists|j: int| 0 <= j < unload_plan(name).len() && unload_plan(name)[j].action == ActionView::RemoveSymlinksIn(dir)
}

/// What loading does, unloading removes: each step of loading links the
/// children of an imported folder from a folder whose links unloading
/// removes, or makes one link among the mods, whose links unloading
/// removes.
pub open spec fn unloaded_by(name: Seq<char>, step: StepView) -> bool {
    match step.action {
        ActionView::SymlinkChildren { destination, .. } => unload_clears(name, destination),
        ActionView::MakeSymlink { link, .. } => unload_clears(name, mods_dir(name)) && exists|x: Seq<char>|
            link == #[trigger] mods_dir(name).join(x),
        _ => false,
    }
}

proof fn lemma_import_links_unloaded(name: Seq<char>, imports: Seq<Seq<char>>, facts: PathFacts)
    ensures
        forall|k: int|
            0 <= k < import_links(name, imports, facts).len() ==> unloaded_by(
                name,
                #[trigger] import_links(name, imports, facts)[k],
            ),
    decreases imports.len(),
{
    if imports.len() > 0 {
        lemma_import_links_unloaded(name, imports.drop_last(), facts);
        let prev = import_links(name, imports.drop_last(), facts);
        let cur = import_links(name, imports, facts);
        let u = unload_plan(name);
        let links = link_plan(imports.last(), name);
        assert forall|k: int| 0 <= k < cur.len() implies unloaded_by(name, #[trigger] cur[k]) by {
            if k < prev.len() {
                assert(cur[k] == prev[k]);
            } else {
                let l = k - prev.len();
                assert(cur[k] == links[l]);
                if l == 0 {
                    assert(u[1].action == ActionView::RemoveSymlinksIn(cur[k].action->destination));
                } else if l == 1 {
                    assert(u[0].action == ActionView::RemoveSymlinksIn(cur[k].action->destination));
                } else if l == 2 {
                    assert(u[2].action == ActionView::RemoveSymlinksIn(cur[k].action->destination));
                } else if l == 3 {
                    assert(u[4].action == ActionView::RemoveSymlinksIn(cur[k].action->destination));
                } else {
                    assert(u[5].action == ActionView::RemoveSymlinksIn(cur[k].action->destination));
                }
            }
        }
    }
}

proof fn lemma_merge_links_unloaded(name: Seq<char>, imports: Seq<Seq<char>>, facts: PathFacts)
    ensures
        forall|k: int|
            0 <= k < merge_links(name, imports, facts).len() ==> unloaded_by(
                name,
                #[trigger] merge_links(name, imports, facts)[k],
            ),
    decreases imports.len(),
{
    if imports.len() > 0 {
        lemma_merge_links_unloaded(name, imports.drop_last(), facts);
        let prev = merge_links(name, imports.drop_last(), facts);
        let cur = merge_links(name, imports, facts);
        let n = imports.last();
        assert(unload_plan(name)[0].action == ActionView::RemoveSymlinksIn(mods_dir(name)));
        assert forall|k: int| 0 <= k < cur.len() implies unloaded_by(name, #[trigger] cur[k]) by {
            if k < prev.len() {
                assert(cur[k] == prev[k]);
            } else {
                let x = merge_link_name(imports.len(), n);
                assert(cur[k].action == ActionView::MakeSymlink {
                    link: mods_dir(name).join(x),
                    target: merges_mergedfiles_dir(n),
                });
                assert(cur[k].action->link == mods_dir(name).join(x));
            }
        }
    }
}

/// Unloading undoes loading: every link that loading the imports makes,
/// directly or among the children of a folder, lies in a folder whose links
/// unloading removes.
pub proof fn law_unload_covers_load(name: Seq<char>, imports: Seq<Seq<char>>, facts: PathFacts)
    ensures
        forall|k: int|
            0 <= k < load_plan(name, imports, facts).len() ==> unloaded_by(
                name,
                #[trigger] load_plan(name, imports, facts)[k],
            ),
{
    lemma_import_links_unloaded(name, imports, facts);
    lemma_merge_links_unloaded(name, imports, facts);
    let a = import_links(name, imports, facts);
    let b = merge_links(name, imports, facts);
    let p = load_plan(name, imports, facts);
    assert forall|k: int| 0 <= k < p.len() implies unloaded_by(name, #[trigger] p[k]) by {
        if k < a.len() {
            assert(p[k] == a[k]);
        } else {
            assert(p[k] == b[k - a.len()]);
        }
    }
}

/// Every directory that a step of `plan` creates with its parents is
/// observed in `facts` to exist, and so is each of its parents.
pub open spec fn dirs_made(plan: Seq<StepView>, facts: PathFacts) -> bool {
    forall|k: int, q: PathView|
        #![trigger plan[k], facts.spec_exists(q)]
        0 <= k < plan.len() && (plan[k].action matches ActionView::CreateDirAll(p) && p.starts_with(q)
            && q.parts.len() > 0) ==> facts.spec_exists(q)
}

/// Creating a modlist makes it valid: once the directories of its creation
/// exist, with their parents, the modlist has all its folders.
pub proof fn law_created_modlist_is_valid(name: Seq<char>, facts: PathFacts)
    requires
        dirs_made(create_plan(name), facts),
    ensures
        spec_is_valid(name, facts),
{
    let plan = create_plan(name);
    let d = modlist_dir(name);
    let folders = seq!["dlcs"@, "mods"@, "menus"@, "saves"@, "content"@, "bundles"@];
    assert forall|k: int| 0 <= k < 6 implies facts.spec_exists(#[trigger] d.join(folders[k])) by {
        assert(plan[k].action == ActionView::CreateDirAll(d.join(folders[k])));
        assert(d.join(folders[k]).parts.subrange(0, 2) =~= d.join(folders[k]).parts);
    }
    assert(d.join("dlcs"@).parts.subrange(0, 1) =~= d.parts);
    assert(plan[0].action == ActionView::CreateDirAll(d.join("dlcs"@)));
    assert(facts.spec_exists(d));
    assert(facts.spec_exists(d.join(folders[0])));
    assert(facts.spec_exists(d.join(folders[1])));
    assert(facts.spec_exists(d.join(folders[2])));
    assert(facts.spec_exists(d.join(folders[3])));
    assert(facts.spec_exists(d.join(folders[4])));
    assert(facts.spec_exists(d.join(folders[5])));
}

/// The listing of the database shows exactly the valid modlists: each name
/// it gives is a folder of the database whose modlist is valid, and each
/// such folder is given.
pub proof fn law_listing_shows_exactly_valid(names: Seq<Seq<char>>, facts: PathFacts)
    ensures
        forall|k: int|
            0 <= k < valid_names(names, facts).len() ==> spec_is_valid(
                #[trigger] valid_names(names, facts)[k],
                facts,
            ) && names.contains(valid_names(names, facts)[k]),
        forall|n: Seq<char>|
            names.contains(n) && spec_is_valid(n, facts) ==> #[trigger] valid_names(
                names,
                facts,
            ).contains(n),
    decreases names.len(),
{
    if names.len() > 0 {
        let init = names.drop_last();
        law_listing_shows_exactly_valid(init, facts);
        let v = valid_names(names, facts);
        let vi = valid_names(init, facts);
        assert forall|k: int| 0 <= k < v.len() implies spec_is_valid(#[trigger] v[k], facts)
            && names.contains(v[k]) by {
            if k < vi.len() {
                assert(v[k] == vi[k]);
                let j = choose|j: int| 0 <= j < init.len() && init[j] == vi[k];
                assert(names[j] == v[k]);
            } else {
                assert(v[k] == names.last());
                assert(names[names.len() - 1] == v[k]);
            }
        }
        assert forall|n: Seq<char>| names.contains(n) && spec_is_valid(n, facts) implies #[trigger] v.contains(n) by {
            let j = choose|j: int| 0 <= j < names.len() && names[j] == n;
            if j < names.len() - 1 {
                assert(init[j] == n);
                assert(vi.contains(n));
                let i = choose|i: int| 0 <= i < vi.len() && vi[i] == n;
                assert(v[i] == n);
            } else {
                assert(v[v.len() - 1] == n);
            }
        }
    }
}

/// The links of the modlists `names`, one modlist after the other, into
/// the modlist `to`.
pub open spec fn links_of(names: Seq<Seq<char>>, to: Seq<char>) -> Seq<StepView>
    decreases names.len(),
{
    if names.len() == 0 {
        Seq::empty()
    } else {
        links_of(names.drop_last(), to) + link_plan(names.last(), to)
    }
}

proof fn lemma_import_links_of_valid(name: Seq<char>, imports: Seq<Seq<char>>, facts: PathFacts)
    ensures
        import_links(name, imports, facts) == links_of(valid_names(imports, facts), name),
    decreases imports.len(),
{
    if imports.len() > 0 {
        lemma_import_links_of_valid(name, imports.drop_last(), facts);
        let vi = valid_names(imports.drop_last(), facts);
        if spec_is_valid(imports.last(), facts) {
            let v = vi.push(imports.last());
            assert(v.drop_last() =~= vi);
        }
    }
}

/// Loading the imports links exactly the valid imported modlists, one after
/// the other in load order (an import whose modlist the listing would not
/// show is skipped), then the merges of those that have some.
pub proof fn law_load_links_valid_imports_in_order(name: Seq<char>, imports: Seq<Seq<char>>, facts: PathFacts)
    ensures
        load_plan(name, imports, facts) == links_of(valid_names(imports, facts), name) + merge_links(
            name,
            imports,
            facts,
        ),
{
    lemma_import_links_of_valid(name, imports, facts);
}

/// The restoration of the backed-up entry `e` of the modlist `name`.
pub open spec fn restore_step(name: Seq<char>, e: Seq<char>) -> StepView {
    must(ActionView::CopyDirContents {
        from: mods_dir(name).join(packbackup_folder_name(name)).join(e),
        to: mods_dir(name).join(e),
        overwrite: true,
    })
}

proof fn lemma_restore_entries_has(name: Seq<char>, entries: Seq<Seq<char>>, e: Seq<char>)
    requires
        entries.contains(e),
    ensures
        restore_entries(name, entries).contains(restore_step(name, e)),
    decreases entries.len(),
{
    let init = entries.drop_last();
    let r = restore_entries(name, entries);
    let ri = restore_entries(name, init);
    if entries.last() == e {
        assert(r[r.len() - 1] == restore_step(name, e));
    } else {
        let j = choose|j: int| 0 <= j < entries.len() && entries[j] == e;
        assert(init[j] == e);
        lemma_restore_entries_has(name, init, e);
        let i = choose|i: int| 0 <= i < ri.len() && ri[i] == restore_step(name, e);
        assert(r[i] == ri[i]);
    }
}

/// Unpacking undoes what packing did to the merged files: packing ends by
/// moving the merged-files folder into the pack backup, and unpacking a
/// packed modlist whose backup holds it copies it back where it was.
pub proof fn law_unpack_restores_merged_files(
    name: Seq<char>,
    mods: Seq<ModFolderView>,
    facts: PathFacts,
    entries: Seq<Seq<char>>,
)
    requires
        spec_is_packed(name, facts),
        entries.contains("mod0000_MergedFiles"@),
    ensures
        pack_scripts_plan(name, mods).last() == must(
            ActionView::Rename {
                from: mergedfiles_dir(name),
                to: mods_dir(name).join(packbackup_folder_name(name)).join("mod0000_MergedFiles"@),
            },
        ),
        unpack_plan(name, facts, entries).contains(
            must(
                ActionView::CopyDirContents {
                    from: mods_dir(name).join(packbackup_folder_name(name)).join(
                        "mod0000_MergedFiles"@,
                    ),
                    to: mergedfiles_dir(name),
                    overwrite: true,
                },
            ),
        ),
{
    let e = "mod0000_MergedFiles"@;
    lemma_restore_entries_has(name, entries, e);
    let r = restore_entries(name, entries);
    let u = unpack_plan(name, facts, entries);
    let i = choose|i: int| 0 <= i < r.len() && r[i] == restore_step(name, e);
    assert(u[i] == r[i]);
}

/// The link that loading makes to the merges of the import `n` at position
/// `k` (1 for the first) of the modlist `name`.
pub open spec fn merge_link_step(name: Seq<char>, k: nat, n: Seq<char>) -> StepView {
    may(ActionView::MakeSymlink {
        link: mods_dir(name).join(merge_link_name(k, n)),
        target: merges_mergedfiles_dir(n),
    })
}

proof fn lemma_merge_links_has(name: Seq<char>, imports: Seq<Seq<char>>, facts: PathFacts, i: int)
    requires
        0 <= i < imports.len(),
        spec_is_valid(imports[i], facts),
        facts.spec_exists(merges_mergedfiles_dir(imports[i])),
    ensures
        merge_links(name, imports, facts).contains(merge_link_step(name, (i + 1) as nat, imports[i])),
    decreases imports.len(),
{
    let init = imports.drop_last();
    let cur = merge_links(name, imports, facts);
    let prev = merge_links(name, init, facts);
    if i == imports.len() - 1 {
        assert(cur[cur.len() - 1] == merge_link_step(name, (i + 1) as nat, imports[i]));
    } else {
        assert(init[i] == imports[i]);
        lemma_merge_links_has(name, init, facts, i);
        let j = choose|j: int| 0 <= j < prev.len() && prev[j] == merge_link_step(name, (i + 1) as nat, imports[i]);
        assert(cur[j] == prev[j]);
    }
}

/// Merge imports: loading links, among the mods of the modlist `name`, the
/// merges of each valid import that has some, under the name
/// `mod_<position on six digits>_<import>_mergedfiles`, the first import at
/// position 1.
pub proof fn law_load_links_merges_of_imports(name: Seq<char>, imports: Seq<Seq<char>>, facts: PathFacts, i: int)
    requires
        0 <= i < imports.len(),
        spec_is_valid(imports[i], facts),
        facts.spec_exists(merges_mergedfiles_dir(imports[i])),
    ensures
        load_plan(name, imports, facts).contains(merge_link_step(name, (i + 1) as nat, imports[i])),
{
    lemma_merge_links_has(name, imports, facts, i);
    let a = import_links(name, imports, facts);
    let b = merge_links(name, imports, facts);
    let j = choose|j: int| 0 <= j < b.len() && b[j] == merge_link_step(name, (i + 1) as nat, imports[i]);
    assert(load_plan(name, imports, facts)[a.len() + j] == b[j]);
}

/// The operation `a` acts on the path `p`: it creates, removes, moves,
/// writes or links at `p`.
pub open spec fn acts_on(a: ActionView, p: PathView) -> bool {
    match a {
        ActionView::CreateDir(q) => q == p,
        ActionView::CreateDirAll(q) => q == p,
        ActionView::RemoveDirAll(q) => q == p,
        ActionView::Rename { from, to } => from == p || to == p,
        ActionView::WriteFile { path, .. } => path == p,
        ActionView::MakeSymlink { link, .. } => link == p,
        ActionView::RemoveSymlink(q) => q == p,
        ActionView::RemoveSymlinksIn(q) => q == p,
        ActionView::SymlinkChildren { destination, .. } => destination == p,
        ActionView::CopyDirContents { to, .. } => to == p,
        ActionView::CopyAcrossDrives { to, .. } => to == p,
    }
}

/// Installing touches the Script Merger inventory only when Script Merger
/// is installed and the modlist has an inventory, and then links the
/// inventory to the modlist's, a failure of which fails the install. Every
/// other step of installing points a folder of the game, or the link to the
/// modlist's own merges, at the modlist.
pub proof fn law_install_swaps_inventory_only_with_script_merger(name: Seq<char>, facts: PathFacts)
    ensures
        forall|k: int|
            0 <= k < install_plan(name, facts).len() && acts_on(
                #[trigger] install_plan(name, facts)[k].action,
                scriptmerger_dir().join("MergeInventory.xml"@),
            ) ==> facts.spec_exists(scriptmerger_dir()) && facts.spec_exists(
                modlist_dir(name).join("MergeInventory.xml"@),
            ),
        facts.spec_exists(scriptmerger_dir()) && facts.spec_exists(
            modlist_dir(name).join("MergeInventory.xml"@),
        ) ==> install_plan(name, facts).contains(
            must(
                ActionView::MakeSymlink {
                    link: scriptmerger_dir().join("MergeInventory.xml"@),
                    target: modlist_dir(name).join("MergeInventory.xml"@),
                },
            ),
        ),
        !facts.spec_exists(scriptmerger_dir()) ==> install_plan(name, facts).len() <= 13,
{
    let plan = install_plan(name, facts);
    let mi = scriptmerger_dir().join("MergeInventory.xml"@);
    let inv = modlist_dir(name).join("MergeInventory.xml"@);
    let own = mods_dir(name).join("mod_000000_mergedfiles"@);
    let swap = facts.spec_exists(scriptmerger_dir()) && facts.spec_exists(inv);
    assert forall|k: int| 0 <= k < plan.len() && acts_on(#[trigger] plan[k].action, mi) implies swap by {
        if !swap {
            if k < 6 {
                let p = plan[k].action->RemoveSymlink_0;
                assert(p.parts.len() != mi.parts.len() || p.base != mi.base);
            } else if k < 12 {
                let p = plan[k].action->link;
                assert(p.parts.len() != mi.parts.len() || p.base != mi.base);
            } else {
                assert(plan[k].action == ActionView::MakeSymlink { link: own, target: merges_mergedfiles_dir(name) });
                reveal_strlit("mods");
                reveal_strlit("scriptmerger");
                assert("mods"@.len() == 4);
                assert("scriptmerger"@.len() == 12);
                assert(own.parts[1] == "mods"@);
                assert(mi.parts[1] == "scriptmerger"@);
                assert(own.parts[1] != mi.parts[1]);
            }
        }
    }
    if swap {
        assert(plan[13] == must(ActionView::MakeSymlink { link: mi, target: inv }));
    }
}

/// The listing of the database keeps the order of its folders: it is the
/// names of the folders whose modlists are valid, in order.
pub proof fn law_listing_keeps_database_order(names: Seq<Seq<char>>, facts: PathFacts)
    ensures
        valid_names(names, facts) == names.filter(|n: Seq<char>| spec_is_valid(n, facts)),
    decreases names.len(),
{
    reveal(Seq::filter);
    if names.len() > 0 {
        law_listing_keeps_database_order(names.drop_last(), facts);
    }
}

} // verus!

//! Where a modlist keeps its folders and files, and where the game expects
//! the folders of the installed modlist.

use vstd::prelude::*;
use crate::modlist::ModList;
use crate::paths::{FsPath, PathBase, PathView};

verus! {

/// The folder of the modlist named `name`, in the modlist database.
pub open spec fn modlist_dir(name: Seq<char>) -> PathView {
    PathView { base: PathBase::WorkDir, parts: seq![name] }
}

/// The `mods` folder of the modlist named `name`.
pub open spec fn mods_dir(name: Seq<char>) -> PathView {
    modlist_dir(name).join("mods"@)
}

/// The folder where the merges of the modlist `name` are written: the merged
/// files of its mods, which installing links among its mods and loading
/// links among the mods of the modlists that import it.
pub open spec fn merges_mergedfiles_dir(name: Seq<char>) -> PathView {
    modlist_dir(name).join("merges"@).join("mod_000000_mergedfiles"@)
}

/// The name of the folder that packing creates among the mods of `name`.
pub open spec fn pack_folder_name(name: Seq<char>) -> Seq<char> {
    "mod0000_"@ + name
}

/// The name of the folder where packing keeps the original mods of `name`.
pub open spec fn packbackup_folder_name(name: Seq<char>) -> Seq<char> {
    "~"@ + name + ".pack-backup"@
}

/// The game folder, relative to the modlist database.
pub open spec fn game_root() -> PathView {
    PathView { base: PathBase::WorkDir, parts: seq![".."@] }
}

/// Where the game reads its mods.
pub open spec fn game_mods() -> PathView {
    game_root().join("mods"@)
}

/// Where the game reads its DLCs.
pub open spec fn game_dlc() -> PathView {
    game_root().join("dlc"@)
}

/// Where the game reads its content scripts.
pub open spec fn game_content_scripts() -> PathView {
    game_root().join("content"@).join("content0"@).join("scripts"@)
}

/// Where the game reads its content bundles.
pub open spec fn game_content_bundles() -> PathView {
    game_root().join("content"@).join("content0"@).join("bundles"@)
}

/// Where the game reads its menus.
pub open spec fn game_menus() -> PathView {
    game_root().join("bin"@).join("config"@).join("r4game"@).join("user_config_matrix"@).join(
        "pc"@,
    )
}

/// Where the game keeps its saves, in the user's documents.
pub open spec fn game_saves() -> PathView {
    PathView { base: PathBase::Documents, parts: seq!["The Witcher 3"@] }
}

/// Where the Script Merger tool is installed.
pub open spec fn scriptmerger_dir() -> PathView {
    game_root().join("scriptmerger"@)
}

/// Where the command-line script merger is installed.
pub open spec fn script_merger_program() -> PathView {
    game_root().join("tw3-script-merger"@).join("tw3-script-merger.exe"@)
}

/// The game folder, relative to the modlist database.
pub fn game_root_path() -> (r: FsPath)
    ensures
        r@ == game_root(),
{
    FsPath::root(PathBase::WorkDir).join("..")
}

/// Where the game reads its mods.
pub fn game_mods_path() -> (r: FsPath)
    ensures
        r@ == game_mods(),
{
    game_root_path().join("mods")
}

/// Where the game reads its DLCs.
pub fn game_dlc_path() -> (r: FsPath)
    ensures
        r@ == game_dlc(),
{
    game_root_path().join("dlc")
}

/// Where the game reads its content scripts.
pub fn game_content_scripts_path() -> (r: FsPath)
    ensures
        r@ == game_content_scripts(),
{
    game_root_path().join("content").join("content0").join("scripts")
}

/// Where the game reads its content bundles.
pub fn game_content_bundles_path() -> (r: FsPath)
    ensures
        r@ == game_content_bundles(),
{
    game_root_path().join("content").join("content0").join("bundles")
}

/// Where the game reads its menus.
pub fn game_menus_path() -> (r: FsPath)
    ensures
        r@ == game_menus(),
{
    game_root_path().join("bin").join("config").join("r4game").join("user_config_matrix").join("pc")
}

/// Where the game keeps its saves.
pub fn game_saves_path() -> (r: FsPath)
    ensures
        r@ == game_saves(),
{
    FsPath::root(PathBase::Documents).join("The Witcher 3")
}

/// Where the Script Merger tool is installed.
pub fn scriptmerger_path() -> (r: FsPath)
    ensures
        r@ == scriptmerger_dir(),
{
    game_root_path().join("scriptmerger")
}

/// Where the command-line script merger is installed.
pub fn script_merger_program_path() -> (r: FsPath)
    ensures
        r@ == script_merger_program(),
{
    game_root_path().join("tw3-script-merger").join("tw3-script-merger.exe")
}

/// The program of the Script Merger tool, in its folder.
pub fn scriptmerger_exe_name() -> (r: String)
    ensures
        r@ == "WitcherScriptMerger.exe"@,
{
    "WitcherScriptMerger.exe".to_owned()
}

impl ModList {
    /// The folder of this modlist.
    pub fn path(&self) -> (r: FsPath)
        ensures
            r@ == modlist_dir(self@.name),
    {
        FsPath::root(PathBase::WorkDir).join(self.name.as_str())
    }

    pub fn dlcs_path(&self) -> (r: FsPath)
        ensures
            r@ == modlist_dir(self@.name).join("dlcs"@),
    {
        self.path().join("dlcs")
    }

    pub fn mods_path(&self) -> (r: FsPath)
        ensures
            r@ == mods_dir(self@.name),
    {
        self.path().join("mods")
    }

    pub fn menus_path(&self) -> (r: FsPath)
        ensures
            r@ == modlist_dir(self@.name).join("menus"@),
    {
        self.path().join("menus")
    }

    pub fn saves_path(&self) -> (r: FsPath)
        ensures
            r@ == modlist_dir(self@.name).join("saves"@),
    {
        self.path().join("saves")
    }

    pub fn content_path(&self) -> (r: FsPath)
        ensures
            r@ == modlist_dir(self@.name).join("content"@),
    {
        self.path().join("content")
    }

    pub fn bundles_path(&self) -> (r: FsPath)
        ensures
            r@ == modlist_dir(self@.name).join("bundles"@),
    {
        self.path().join("bundles")
    }

    /// The configuration file of this modlist.
    pub fn config_path(&self) -> (r: FsPath)
        ensures
            r@ == modlist_dir(self@.name).join("modlist.toml"@),
    {
        self.path().join("modlist.toml")
    }

    /// The Script Merger inventory of this modlist.
    pub fn mergeinventory_path(&self) -> (r: FsPath)
        ensures
            r@ == modlist_dir(self@.name).join("MergeInventory.xml"@),
    {
        self.path().join("MergeInventory.xml")
    }

    /// The name of the folder that packing creates among the mods.
    pub fn packed_folder_name(&self) -> (r: String)
        ensures
            r@ == pack_folder_name(self@.name),
    {
        String::from_str("mod0000_").concat(self.name.as_str())
    }

    /// The folder where packing keeps the original mods.
    pub fn packbackup_path(&self) -> (r: FsPath)
        ensures
            r@ == mods_dir(self@.name).join(packbackup_folder_name(self@.name)),
    {
        let folder = String::from_str("~").concat(self.name.as_str()).concat(".pack-backup");
        self.mods_path().join(folder.as_str())
    }

    /// The mod that packing creates.
    pub fn pack_path(&self) -> (r: FsPath)
        ensures
            r@ == mods_dir(self@.name).join(pack_folder_name(self@.name)),
    {
        let folder = self.packed_folder_name();
        self.mods_path().join(folder.as_str())
    }

    /// The merged scripts that Script Merger produces.
    pub fn mergedfiles_path(&self) -> (r: FsPath)
        ensures
            r@ == mods_dir(self@.name).join("mod0000_MergedFiles"@),
    {
        self.mods_path().join("mod0000_MergedFiles")
    }

    /// The folder where the merges of this modlist are written.
    pub fn merges_mergedfiles_path(&self) -> (r: FsPath)
        ensures
            r@ == merges_mergedfiles_dir(self@.name),
    {
        self.path().join("merges").join("mod_000000_mergedfiles")
    }

    /// The link among this modlist's mods to its own merges.
    pub fn own_merges_link_path(&self) -> (r: FsPath)
        ensures
            r@ == mods_dir(self@.name).join("mod_000000_mergedfiles"@),
    {
        self.mods_path().join("mod_000000_mergedfiles")
    }
}

/// Every folder and file of a modlist lies inside the modlist's folder.
pub proof fn law_modlist_files_inside_its_folder(name: Seq<char>, part: Seq<char>, sub: Seq<char>)
    ensures
        modlist_dir(name).join(part).starts_with(modlist_dir(name)),
        mods_dir(name).join(sub).starts_with(modlist_dir(name)),
{
    assert(modlist_dir(name).join(part).parts.subrange(0, 1) =~= modlist_dir(name).parts);
    assert(mods_dir(name).join(sub).parts.subrange(0, 1) =~= modlist_dir(name).parts);
}

} // verus!

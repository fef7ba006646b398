use modlist_manager::facts::PathFacts;
use modlist_manager::modlist::{ModList, ModListConfig};
use modlist_manager::paths::{FsPath, PathBase};

fn names(v: &[&str]) -> Vec<String> {
    v.iter().map(|s| s.to_string()).collect()
}

fn with_imports(name: &str, imports: &[&str]) -> ModList {
    let mut m = ModList::new(name.to_string());
    for i in imports {
        m.import_modlist(i);
    }
    m
}

fn parts(p: &FsPath) -> Vec<String> {
    p.parts.clone()
}

#[test]
fn new_modlist_is_empty() {
    let m = ModList::new("ghostmode".to_string());
    assert_eq!(m.name, "ghostmode");
    assert!(m.imported_modlists.is_empty());
    assert_eq!(m.visibility, 0);
}

#[test]
fn import_appends_in_order_and_only_once() {
    let mut m = with_imports("a", &["vanilla", "shared"]);
    assert_eq!(m.imported_modlists, names(&["vanilla", "shared"]));
    m.import_modlist("vanilla");
    assert_eq!(m.imported_modlists, names(&["vanilla", "shared"]));
    m.import_modlist("rer");
    assert_eq!(m.imported_modlists, names(&["vanilla", "shared", "rer"]));
}

#[test]
fn has_modlist_imported_tells_membership() {
    let m = with_imports("a", &["vanilla"]);
    assert!(m.has_modlist_imported("vanilla"));
    assert!(!m.has_modlist_imported("shared"));
}

#[test]
fn remove_import_removes_the_name() {
    let mut m = with_imports("a", &["x", "y", "z"]);
    m.remove_import("y");
    assert_eq!(m.imported_modlists, names(&["x", "z"]));
    m.remove_import("absent");
    assert_eq!(m.imported_modlists, names(&["x", "z"]));
}

#[test]
fn remove_import_removes_only_the_first_occurrence() {
    let mut m = ModList::new("a".to_string());
    m.imported_modlists = names(&["x", "y", "x"]);
    m.remove_import("x");
    assert_eq!(m.imported_modlists, names(&["y", "x"]));
}

#[test]
fn remove_undoes_import() {
    let mut m = with_imports("a", &["x", "y"]);
    m.import_modlist("z");
    m.remove_import("z");
    assert_eq!(m.imported_modlists, names(&["x", "y"]));
}

#[test]
fn move_import_up_swaps_with_previous() {
    let mut m = with_imports("a", &["x", "y", "z"]);
    m.move_import_up("z");
    assert_eq!(m.imported_modlists, names(&["x", "z", "y"]));
    m.move_import_up("x");
    assert_eq!(m.imported_modlists, names(&["x", "z", "y"]));
    m.move_import_up("absent");
    assert_eq!(m.imported_modlists, names(&["x", "z", "y"]));
}

#[test]
fn move_import_down_swaps_with_next() {
    let mut m = with_imports("a", &["x", "y", "z"]);
    m.move_import_down("x");
    assert_eq!(m.imported_modlists, names(&["y", "x", "z"]));
    m.move_import_down("z");
    assert_eq!(m.imported_modlists, names(&["y", "x", "z"]));
}

#[test]
fn move_up_then_down_restores() {
    let mut m = with_imports("a", &["x", "y", "z"]);
    m.move_import_up("y");
    m.move_import_down("y");
    assert_eq!(m.imported_modlists, names(&["x", "y", "z"]));
    m.move_import_down("x");
    m.move_import_up("x");
    assert_eq!(m.imported_modlists, names(&["x", "y", "z"]));
}

#[test]
fn moves_on_single_import_change_nothing() {
    let mut m = with_imports("a", &["x"]);
    m.move_import_down("x");
    m.move_import_up("x");
    assert_eq!(m.imported_modlists, names(&["x"]));
}

#[test]
fn reading_metadata_appends_unique_imports_and_sets_visibility() {
    let mut m = with_imports("a", &["vanilla"]);
    let config = ModListConfig { imports: names(&["shared", "vanilla", "shared", "rer"]), visibility: Some(3) };
    m.read_metadata_from_disk(&config);
    assert_eq!(m.imported_modlists, names(&["vanilla", "shared", "rer"]));
    assert_eq!(m.visibility, 3);
}

#[test]
fn missing_visibility_reads_as_zero() {
    let mut m = ModList::new("a".to_string());
    m.visibility = 7;
    m.read_metadata_from_disk(&ModListConfig { imports: Vec::new(), visibility: None });
    assert_eq!(m.visibility, 0);
}

#[test]
fn reading_metadata_twice_is_reading_it_once() {
    let config = ModListConfig { imports: names(&["x", "y", "x"]), visibility: Some(-2) };
    let mut once = ModList::new("a".to_string());
    once.read_metadata_from_disk(&config);
    let mut twice = ModList::new("a".to_string());
    twice.read_metadata_from_disk(&config);
    twice.read_metadata_from_disk(&config);
    assert_eq!(once.imported_modlists, twice.imported_modlists);
    assert_eq!(once.visibility, twice.visibility);
}

#[test]
fn written_metadata_reads_back() {
    let mut m = with_imports("ghostmode", &["rer", "shared", "vanilla"]);
    m.visibility = -1;
    let config = m.write_metadata_to_disk();
    assert_eq!(config.imports, names(&["rer", "shared", "vanilla"]));
    assert_eq!(config.visibility, Some(-1));
    let mut back = ModList::new("ghostmode".to_string());
    back.read_metadata_from_disk(&config);
    assert_eq!(back.imported_modlists, m.imported_modlists);
    assert_eq!(back.visibility, m.visibility);
}

#[test]
fn metadata_copy_leaves_original_alone() {
    let m = with_imports("a", &["x"]);
    let config = ModListConfig { imports: names(&["y"]), visibility: Some(2) };
    let copy = m.read_metadata_from_disk_copy(&config);
    assert_eq!(copy.imported_modlists, names(&["x", "y"]));
    assert_eq!(copy.visibility, 2);
    assert_eq!(copy.name, "a");
    assert_eq!(m.imported_modlists, names(&["x"]));
    assert_eq!(m.visibility, 0);
}

#[test]
fn visibility_moves_by_one() {
    let mut m = ModList::new("a".to_string());
    m.raise_visibility();
    m.raise_visibility();
    assert_eq!(m.visibility, 2);
    m.lower_visibility();
    assert_eq!(m.visibility, 1);
}

#[test]
fn folder_paths_of_a_modlist() {
    let m = ModList::new("shared".to_string());
    assert_eq!(m.path().base, PathBase::WorkDir);
    assert_eq!(parts(&m.path()), names(&["shared"]));
    assert_eq!(parts(&m.dlcs_path()), names(&["shared", "dlcs"]));
    assert_eq!(parts(&m.mods_path()), names(&["shared", "mods"]));
    assert_eq!(parts(&m.menus_path()), names(&["shared", "menus"]));
    assert_eq!(parts(&m.saves_path()), names(&["shared", "saves"]));
    assert_eq!(parts(&m.content_path()), names(&["shared", "content"]));
    assert_eq!(parts(&m.bundles_path()), names(&["shared", "bundles"]));
    assert_eq!(parts(&m.config_path()), names(&["shared", "modlist.toml"]));
    assert_eq!(parts(&m.mergeinventory_path()), names(&["shared", "MergeInventory.xml"]));
}

#[test]
fn pack_paths_of_a_modlist() {
    let m = ModList::new("shared".to_string());
    assert_eq!(m.packed_folder_name(), "mod0000_shared");
    assert_eq!(parts(&m.pack_path()), names(&["shared", "mods", "mod0000_shared"]));
    assert_eq!(parts(&m.packbackup_path()), names(&["shared", "mods", "~shared.pack-backup"]));
    assert_eq!(parts(&m.mergedfiles_path()), names(&["shared", "mods", "mod0000_MergedFiles"]));
}

fn facts_of(paths: Vec<FsPath>, is_dir: bool) -> PathFacts {
    let mut f = PathFacts::new();
    for p in paths {
        f.record(p, true, is_dir);
    }
    f
}

#[test]
fn validity_needs_every_folder() {
    let m = ModList::new("a".to_string());
    let all = facts_of(m.validity_paths(), true);
    assert!(m.is_valid(&all));
    let mut some = m.validity_paths();
    some.remove(3);
    let partial = facts_of(some, true);
    assert!(!m.is_valid(&partial));
    assert!(!m.is_valid(&PathFacts::new()));
}

#[test]
fn a_path_observed_missing_does_not_exist() {
    let m = ModList::new("a".to_string());
    let mut f = PathFacts::new();
    f.record(m.path(), false, false);
    assert!(!f.path_exists(&m.path()));
    assert!(f.path_exists(&m.path()) == ModList::get_by_name("a", &f).is_some());
}

#[test]
fn packed_needs_both_pack_folders_as_directories() {
    let m = ModList::new("a".to_string());
    let both = facts_of(vec![m.pack_path(), m.packbackup_path()], true);
    assert!(m.is_packed(&both));
    let one = facts_of(vec![m.pack_path()], true);
    assert!(!m.is_packed(&one));
    let files = facts_of(vec![m.pack_path(), m.packbackup_path()], false);
    assert!(!m.is_packed(&files));
}

#[test]
fn get_by_name_finds_existing_folders() {
    let f = facts_of(vec![ModList::new("vanilla".to_string()).path()], true);
    let found = ModList::get_by_name("vanilla", &f).unwrap();
    assert_eq!(found.name, "vanilla");
    assert!(found.imported_modlists.is_empty());
    assert!(ModList::get_by_name("other", &f).is_none());
}

#[test]
fn get_all_keeps_valid_modlists_in_order() {
    let a = ModList::new("a".to_string());
    let c = ModList::new("c".to_string());
    let mut paths = a.validity_paths();
    paths.extend(c.validity_paths());
    paths.push(ModList::new("b".to_string()).path());
    let f = facts_of(paths, true);
    let all = ModList::get_all(&names(&["c", "b", "a"]), &f);
    let got: Vec<String> = all.iter().map(|m| m.name.clone()).collect();
    assert_eq!(got, names(&["c", "a"]));
}


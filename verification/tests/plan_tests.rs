use modlist_manager::facts::PathFacts;
use modlist_manager::layout::{game_mods_path, scriptmerger_path};
use modlist_manager::modlist::ModList;
use modlist_manager::modlist_disk::{ModFolder, PackError};
use modlist_manager::paths::{FsPath, PathBase};
use modlist_manager::plan::{next_run_state, start_run, FsAction, OnFailure, PlanStep, RunState};

fn parts(p: &FsPath) -> Vec<&str> {
    p.parts.iter().map(|s| s.as_str()).collect()
}

fn facts_of(paths: Vec<FsPath>) -> PathFacts {
    let mut f = PathFacts::new();
    for p in paths {
        f.record(p, true, true);
    }
    f
}

fn describe(step: &PlanStep) -> String {
    let tag = match step.on_failure {
        OnFailure::Abort => "!",
        OnFailure::Ignore => "?",
    };
    let p = |x: &FsPath| {
        let base = match x.base {
            PathBase::WorkDir => "",
            PathBase::Documents => "~docs/",
        };
        format!("{}{}", base, x.parts.join("/"))
    };
    let body = match &step.action {
        FsAction::CreateDir(x) => format!("mkdir {}", p(x)),
        FsAction::CreateDirAll(x) => format!("mkdir -p {}", p(x)),
        FsAction::RemoveDirAll(x) => format!("rm -r {}", p(x)),
        FsAction::Rename { from, to } => format!("mv {} {}", p(from), p(to)),
        FsAction::WriteFile { path, content } => format!("write {} ({} chars)", p(path), content.len()),
        FsAction::MakeSymlink { link, target } => format!("ln {} -> {}", p(link), p(target)),
        FsAction::RemoveSymlink(x) => format!("unlink {}", p(x)),
        FsAction::RemoveSymlinksIn(x) => format!("unlink-all {}", p(x)),
        FsAction::SymlinkChildren { source, destination } => format!("link-children {} -> {}", p(source), p(destination)),
        FsAction::CopyDirContents { from, to, overwrite } => format!("copy {} {} {}", p(from), p(to), overwrite),
        FsAction::CopyAcrossDrives { from, to } => format!("xcopy {} {}", p(from), p(to)),
    };
    format!("{}{}", tag, body)
}

fn describe_all(steps: &[PlanStep]) -> Vec<String> {
    steps.iter().map(describe).collect()
}

#[test]
fn create_makes_folders_and_inventory() {
    let c = ModList::create("new", &PathFacts::new());
    assert_eq!(c.modlist.name, "new");
    assert_eq!(
        describe_all(&c.steps),
        vec![
            "!mkdir -p new/dlcs",
            "!mkdir -p new/mods",
            "!mkdir -p new/menus",
            "!mkdir -p new/saves",
            "!mkdir -p new/content",
            "!mkdir -p new/bundles",
            "!write new/MergeInventory.xml (193 chars)",
        ]
    );
    match &c.steps[6].action {
        FsAction::WriteFile { content, .. } => {
            assert!(content.starts_with("<?xml version=\"1.0\" encoding=\"utf-8\"?>\n"));
            assert!(content.ends_with("</MergeInventory>"));
        }
        _ => panic!("expected a file write"),
    }
}

#[test]
fn create_of_existing_modlist_does_nothing() {
    let f = facts_of(vec![ModList::new("old".to_string()).path()]);
    let c = ModList::create("old", &f);
    assert_eq!(c.modlist.name, "old");
    assert!(c.steps.is_empty());
}

#[test]
fn unload_removes_links_in_every_folder() {
    let m = ModList::new("a".to_string());
    assert_eq!(
        describe_all(&m.unload_imported_modlists()),
        vec![
            "!unlink-all a/mods",
            "!unlink-all a/dlcs",
            "!unlink-all a/menus",
            "!unlink-all a/saves",
            "!unlink-all a/content",
            "!unlink-all a/bundles",
        ]
    );
}

#[test]
fn load_links_valid_imports_only() {
    let mut m = ModList::new("a".to_string());
    m.import_modlist("shared");
    m.import_modlist("missing");
    m.import_modlist("vanilla");
    let mut paths = ModList::new("shared".to_string()).validity_paths();
    paths.extend(ModList::new("vanilla".to_string()).validity_paths());
    let f = facts_of(paths);
    let steps = describe_all(&m.load_imported_modlists(&f));
    assert_eq!(steps.len(), 10);
    assert_eq!(steps[0], "!link-children shared/dlcs -> a/dlcs");
    assert_eq!(steps[1], "!link-children shared/mods -> a/mods");
    assert_eq!(steps[2], "!link-children shared/menus -> a/menus");
    assert_eq!(steps[3], "!link-children shared/content -> a/content");
    assert_eq!(steps[4], "!link-children shared/bundles -> a/bundles");
    assert_eq!(steps[5], "!link-children vanilla/dlcs -> a/dlcs");
    assert_eq!(steps[9], "!link-children vanilla/bundles -> a/bundles");
}

#[test]
fn every_loaded_folder_is_unloaded() {
    let mut m = ModList::new("a".to_string());
    m.import_modlist("vanilla");
    let f = facts_of(ModList::new("vanilla".to_string()).validity_paths());
    let unloaded: Vec<String> = describe_all(&m.unload_imported_modlists())
        .into_iter()
        .map(|s| s.trim_start_matches("!unlink-all ").to_string())
        .collect();
    for step in m.load_imported_modlists(&f) {
        match step.action {
            FsAction::SymlinkChildren { destination, .. } => {
                assert!(unloaded.contains(&destination.parts.join("/")));
            }
            _ => panic!("loading only links children"),
        }
    }
}

#[test]
fn install_links_game_folders_to_the_modlist() {
    let m = ModList::new("ghost".to_string());
    let steps = describe_all(&m.install(&PathFacts::new()));
    assert_eq!(
        steps,
        vec![
            "?unlink ../mods",
            "?unlink ../dlc",
            "?unlink ../bin/config/r4game/user_config_matrix/pc",
            "?unlink ~docs/The Witcher 3",
            "?unlink ../content/content0/scripts",
            "?unlink ../content/content0/bundles",
            "!ln ../mods -> ghost/mods",
            "!ln ../dlc -> ghost/dlcs",
            "!ln ../bin/config/r4game/user_config_matrix/pc -> ghost/menus",
            "!ln ~docs/The Witcher 3 -> ghost/saves",
            "!ln ../content/content0/scripts -> ghost/content",
            "!ln ../content/content0/bundles -> ghost/bundles",
        ]
    );
    assert_eq!(parts(&game_mods_path()), vec!["..", "mods"]);
}

#[test]
fn install_swaps_the_merge_inventory_when_possible() {
    let m = ModList::new("ghost".to_string());
    let only_tool = facts_of(vec![scriptmerger_path()]);
    assert_eq!(m.install(&only_tool).len(), 12);
    let both = facts_of(vec![scriptmerger_path(), m.mergeinventory_path()]);
    let steps = describe_all(&m.install(&both));
    assert_eq!(steps.len(), 14);
    assert_eq!(steps[12], "?unlink ../scriptmerger/MergeInventory.xml");
    assert_eq!(steps[13], "!ln ../scriptmerger/MergeInventory.xml -> ghost/MergeInventory.xml");
}

#[test]
fn pack_is_refused_without_merged_files() {
    let m = ModList::new("a".to_string());
    match m.pack(&PathFacts::new()) {
        Err(e) => assert_eq!(e, PackError::NoMergedFiles),
        Ok(_) => panic!("packing needs merged files"),
    }
}

#[test]
fn pack_prepares_backup_and_pack_folder() {
    let m = ModList::new("a".to_string());
    let f = facts_of(vec![m.mergedfiles_path()]);
    let steps = describe_all(&m.pack(&f).ok().unwrap());
    assert_eq!(
        steps,
        vec!["!mkdir -p a/mods/~a.pack-backup", "!mkdir -p a/mods/mod0000_a/content/scripts"]
    );
    let packed = facts_of(vec![m.mergedfiles_path(), m.pack_path(), m.packbackup_path()]);
    let steps = describe_all(&m.pack(&packed).ok().unwrap());
    assert_eq!(steps.len(), 3);
    assert_eq!(steps[0], "!rm -r a/mods/~a.pack-backup");
}

#[test]
fn pack_copies_enabled_script_mods_then_merged_files() {
    let m = ModList::new("a".to_string());
    let mods = vec![
        ModFolder { name: "modA".to_string(), has_scripts: true },
        ModFolder { name: "~a.pack-backup".to_string(), has_scripts: true },
        ModFolder { name: "modTextures".to_string(), has_scripts: false },
        ModFolder { name: "modB".to_string(), has_scripts: true },
    ];
    assert_eq!(
        describe_all(&m.pack_scripts(&mods)),
        vec![
            "!copy a/mods/modA/content/scripts a/mods/mod0000_a/content/scripts false",
            "!copy a/mods/modB/content/scripts a/mods/mod0000_a/content/scripts false",
            "!copy a/mods/mod0000_MergedFiles/content/scripts a/mods/mod0000_a/content/scripts true",
            "!mv a/mods/mod0000_MergedFiles a/mods/~a.pack-backup/mod0000_MergedFiles",
        ]
    );
}

#[test]
fn unpack_of_unpacked_modlist_does_nothing() {
    let m = ModList::new("a".to_string());
    assert!(m.unpack(&PathFacts::new(), &vec!["x".to_string()]).is_empty());
}

#[test]
fn unpack_restores_backup_then_removes_it() {
    let m = ModList::new("a".to_string());
    let f = facts_of(vec![m.pack_path(), m.packbackup_path()]);
    let entries = vec!["modA".to_string(), "mod0000_MergedFiles".to_string()];
    assert_eq!(
        describe_all(&m.unpack(&f, &entries)),
        vec![
            "!mkdir -p a/mods/modA",
            "!copy a/mods/~a.pack-backup/modA a/mods/modA true",
            "!mkdir -p a/mods/mod0000_MergedFiles",
            "!copy a/mods/~a.pack-backup/mod0000_MergedFiles a/mods/mod0000_MergedFiles true",
            "!rm -r a/mods/~a.pack-backup",
        ]
    );
}

#[test]
fn script_merge_command_paths() {
    let c = ModList::new("a".to_string()).script_merge_command();
    assert_eq!(parts(&c.program), vec!["..", "tw3-script-merger", "tw3-script-merger.exe"]);
    assert_eq!(parts(&c.source), vec!["a", "content"]);
    assert_eq!(parts(&c.input), vec!["a", "mods"]);
    assert_eq!(parts(&c.output), vec!["a", "mods", "mod0000_MergedFiles", "content", "scripts"]);
}

fn step(on_failure: OnFailure) -> PlanStep {
    PlanStep { action: FsAction::CreateDir(FsPath { base: PathBase::WorkDir, parts: vec!["x".to_string()] }), on_failure }
}

/// Runs `steps` with the given outcome for each step and gives the final
/// state and the indices of the steps that were carried out.
fn run_with(steps: &Vec<PlanStep>, oks: &[bool]) -> (RunState, Vec<usize>) {
    let mut state = start_run(steps);
    let mut tried = Vec::new();
    while let RunState::At(i) = state {
        tried.push(i);
        state = next_run_state(steps, state, oks[i]);
    }
    (state, tried)
}

#[test]
fn run_of_empty_plan_is_finished() {
    assert_eq!(start_run(&Vec::new()), RunState::Finished);
}

#[test]
fn run_finishes_when_every_step_succeeds() {
    let steps = vec![step(OnFailure::Abort), step(OnFailure::Ignore), step(OnFailure::Abort)];
    assert_eq!(run_with(&steps, &[true, true, true]), (RunState::Finished, vec![0, 1, 2]));
}

#[test]
fn run_goes_on_after_a_reported_failure() {
    let steps = vec![step(OnFailure::Ignore), step(OnFailure::Ignore), step(OnFailure::Abort)];
    assert_eq!(run_with(&steps, &[false, false, true]), (RunState::Finished, vec![0, 1, 2]));
}

#[test]
fn run_stops_at_first_aborting_failure() {
    let steps = vec![step(OnFailure::Ignore), step(OnFailure::Abort), step(OnFailure::Abort)];
    assert_eq!(run_with(&steps, &[false, false, false]), (RunState::Stopped(1), vec![0, 1]));
}

#[test]
fn finished_and_stopped_runs_stay_put() {
    let steps = vec![step(OnFailure::Abort)];
    assert_eq!(next_run_state(&steps, RunState::Finished, false), RunState::Finished);
    assert_eq!(next_run_state(&steps, RunState::Stopped(0), true), RunState::Stopped(0));
    assert_eq!(next_run_state(&steps, RunState::At(5), true), RunState::At(5));
}

#[test]
fn created_modlist_is_valid_once_its_folders_exist() {
    let c = ModList::create("fresh", &PathFacts::new());
    let mut made = vec![c.modlist.path()];
    for step in &c.steps {
        if let FsAction::CreateDirAll(p) = &step.action {
            made.push(p.duplicate());
        }
    }
    assert!(!c.modlist.is_valid(&PathFacts::new()));
    assert!(c.modlist.is_valid(&facts_of(made)));
}

#[test]
fn load_follows_the_import_order() {
    let mut m = ModList::new("a".to_string());
    m.import_modlist("second");
    m.import_modlist("first");
    let mut paths = ModList::new("first".to_string()).validity_paths();
    paths.extend(ModList::new("second".to_string()).validity_paths());
    let steps = describe_all(&m.load_imported_modlists(&facts_of(paths)));
    assert_eq!(steps.len(), 10);
    assert!(steps[..5].iter().all(|s| s.contains("second/")));
    assert!(steps[5..].iter().all(|s| s.contains("first/")));
}

#[test]
fn load_links_the_merges_of_imports_by_position() {
    let mut m = ModList::new("a".to_string());
    m.import_modlist("plain");
    m.import_modlist("shared.visuals");
    let plain = ModList::new("plain".to_string());
    let shared = ModList::new("shared.visuals".to_string());
    let mut paths = plain.validity_paths();
    paths.extend(shared.validity_paths());
    paths.push(shared.merges_mergedfiles_path());
    let steps = describe_all(&m.load_imported_modlists(&facts_of(paths)));
    assert_eq!(steps.len(), 11);
    assert_eq!(
        steps[10],
        "?ln a/mods/mod_000002_shared.visuals_mergedfiles -> shared.visuals/merges/mod_000000_mergedfiles"
    );
}

#[test]
fn install_links_the_own_merges_when_missing() {
    let m = ModList::new("a".to_string());
    let steps = describe_all(&m.install(&facts_of(vec![m.merges_mergedfiles_path()])));
    assert_eq!(steps.last().unwrap(), "!ln a/mods/mod_000000_mergedfiles -> a/merges/mod_000000_mergedfiles");
    let both = facts_of(vec![m.merges_mergedfiles_path(), m.own_merges_link_path()]);
    assert_eq!(m.install(&both).len(), 12);
    assert_eq!(m.install(&PathFacts::new()).len(), 12);
}

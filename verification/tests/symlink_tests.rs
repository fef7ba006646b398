use modlist_manager::modlist::ModList;
use modlist_manager::plan::{FsAction, OnFailure};
use modlist_manager::symlinks::{
    get_children_without_symlinks, remove_symlink, remove_symlinks, symlink_children, DirEntryInfo,
    RemovalMethod, SymlinkError,
};

#[test]
fn symlink_children_links_each_child() {
    let from = ModList::new("shared".to_string()).mods_path();
    let to = ModList::new("a".to_string()).mods_path();
    let steps = symlink_children(&from, &to, &vec!["modA".to_string(), "modB".to_string()]);
    assert_eq!(steps.len(), 2);
    for (step, name) in steps.iter().zip(["modA", "modB"]) {
        assert_eq!(step.on_failure, OnFailure::Ignore);
        match &step.action {
            FsAction::MakeSymlink { link, target } => {
                assert_eq!(link.parts.join("/"), format!("a/mods/{}", name));
                assert_eq!(target.parts.join("/"), format!("shared/mods/{}", name));
            }
            _ => panic!("expected a link"),
        }
    }
    assert!(symlink_children(&from, &to, &Vec::new()).is_empty());
}

#[test]
fn remove_symlinks_tries_each_child() {
    let dir = ModList::new("a".to_string()).dlcs_path();
    let steps = remove_symlinks(&dir, &vec!["dlc1".to_string()]);
    assert_eq!(steps.len(), 1);
    assert_eq!(steps[0].on_failure, OnFailure::Ignore);
    match &steps[0].action {
        FsAction::RemoveSymlink(p) => assert_eq!(p.parts.join("/"), "a/dlcs/dlc1"),
        _ => panic!("expected a removal"),
    }
}

#[test]
fn only_links_are_removed() {
    assert_eq!(remove_symlink(false, true, false), Err(SymlinkError::NotASymlink));
    assert_eq!(remove_symlink(true, true, false), Ok(RemovalMethod::RemoveDir));
    assert_eq!(remove_symlink(true, false, true), Ok(RemovalMethod::RemoveFile));
    assert_eq!(remove_symlink(true, false, false), Ok(RemovalMethod::RemoveFileElseDir));
}

#[test]
fn children_without_symlinks_skips_links_and_unreadable_entries() {
    let entries = vec![
        DirEntryInfo { name: Some("modA".to_string()), metadata_ok: true, is_symlink: false },
        DirEntryInfo { name: Some("linked".to_string()), metadata_ok: true, is_symlink: true },
        DirEntryInfo { name: Some("broken".to_string()), metadata_ok: false, is_symlink: false },
        DirEntryInfo { name: None, metadata_ok: true, is_symlink: false },
        DirEntryInfo { name: Some("modB".to_string()), metadata_ok: true, is_symlink: false },
    ];
    assert_eq!(get_children_without_symlinks(&entries), vec!["modA".to_string(), "modB".to_string()]);
}

#[test]
fn removal_reaches_every_link_made() {
    let from = ModList::new("shared".to_string()).mods_path();
    let to = ModList::new("a".to_string()).mods_path();
    let linked = vec!["modA".to_string(), "modB".to_string()];
    let present = vec!["modOwn".to_string(), "modB".to_string(), "modA".to_string()];
    let removals: Vec<String> = remove_symlinks(&to, &present)
        .iter()
        .map(|s| match &s.action {
            FsAction::RemoveSymlink(p) => p.parts.join("/"),
            _ => panic!("removal only removes links"),
        })
        .collect();
    for step in symlink_children(&from, &to, &linked) {
        match &step.action {
            FsAction::MakeSymlink { link, .. } => assert!(removals.contains(&link.parts.join("/"))),
            _ => panic!("linking only makes links"),
        }
    }
}

use modlist_manager::api::{
    api_error, api_error_reply, failure_reply, not_found_reply, success_reply, Endpoint, Failure,
    ImportModListBody,
};
use modlist_manager::setup::{
    initialize_rollback, initialize_transfers, next_setup_state, start_setup, transfer_error, SetupState,
};
use modlist_manager::plan::{FsAction, OnFailure};

#[test]
fn not_found_replies() {
    let r = not_found_reply(Endpoint::Import, "ghost");
    assert_eq!((r.status, r.location.as_deref(), r.body.as_str()), (404, Some("/modlist/ghost"), "no such modlist"));
    let r = not_found_reply(Endpoint::LoadImports, "ghost");
    assert_eq!((r.status, r.location.as_deref(), r.body.as_str()), (404, None, "modlist ghost not found"));
    let r = not_found_reply(Endpoint::Install, "ghost");
    assert_eq!((r.status, r.location.as_deref(), r.body.as_str()), (404, None, "no such modlist"));
    assert_eq!(r.content_type, "text/plain");
}

#[test]
fn success_replies() {
    let r = success_reply(Endpoint::Install, "ghost");
    assert_eq!((r.status, r.location.as_deref(), r.body.as_str()), (302, Some("/"), "installed"));
    let r = success_reply(Endpoint::MoveImportDown, "ghost");
    assert_eq!((r.status, r.location.as_deref(), r.body.as_str()), (302, Some("/modlist/ghost"), "import moved down"));
    let r = success_reply(Endpoint::VisibilityUp, "ghost");
    assert_eq!(r.body, "visibility decreased");
    let r = success_reply(Endpoint::VisibilityDown, "ghost");
    assert_eq!(r.body, "visibility increased");
    let r = success_reply(Endpoint::Ping, "");
    assert_eq!((r.status, r.location.as_deref(), r.body.as_str()), (302, None, ""));
}

#[test]
fn failure_replies() {
    let r = failure_reply(Failure::ReadMetadata, "ghost", "no file");
    assert_eq!(r.status, 500);
    assert_eq!(r.body, "Internal server error: could not read modlist metadata. no file");
    let r = failure_reply(Failure::Install, "ghost", "denied");
    assert_eq!(r.body, "Internal server error: could not install modlist ghost. denied");
    let r = failure_reply(Failure::Merge, "ghost", "not found");
    assert!(r.body.starts_with("Internal server error: could not merge modlist. not found.\n          Make sure"));
    assert!(r.body.ends_with("more information"));
    let r = failure_reply(Failure::Unpack, "ghost", "x");
    assert_eq!(r.body, "Internal server error: could not unpack the modlist. x");
}

#[test]
fn api_errors_answer_500_with_their_message() {
    let e = api_error("broken".to_string());
    assert_eq!(e.message(), "broken");
    let r = api_error_reply(&e);
    assert_eq!((r.status, r.body.as_str()), (500, "broken"));
    assert!(r.content_type.starts_with("text/html"));
}

#[test]
fn forms_carry_their_fields() {
    let b = ImportModListBody { modlist_name: "a".to_string(), imported_name: "b".to_string() };
    assert_eq!((b.modlist_name.as_str(), b.imported_name.as_str()), ("a", "b"));
}

#[test]
fn initialize_moves_game_folders_into_vanilla() {
    let t = initialize_transfers();
    assert_eq!(t.len(), 7);
    match &t[0].action {
        FsAction::CreateDirAll(p) => assert_eq!(p.parts.join("/"), "vanilla"),
        _ => panic!("the vanilla folder is made first"),
    }
    match &t[1].action {
        FsAction::Rename { from, to } => {
            assert_eq!(from.parts.join("/"), "../mods");
            assert_eq!(to.parts.join("/"), "vanilla/mods");
        }
        _ => panic!("the mods are moved"),
    }
    assert_eq!(t[1].fallback.len(), 1);
    assert_eq!(t[6].fallback.len(), 2);
    assert_eq!(t[2].error_message, "could not transfer the dlcs into the vanilla modlist: ");
    let e = transfer_error(&t[2], "denied");
    assert_eq!(e.message(), "could not transfer the dlcs into the vanilla modlist: denied");
}

#[test]
fn rollback_moves_each_folder_back() {
    let t = initialize_transfers();
    let r = initialize_rollback();
    assert_eq!(r.len(), 6);
    for k in 0..6 {
        assert_eq!(r[k].on_failure, OnFailure::Ignore);
        match (&t[k + 1].action, &r[k].action) {
            (FsAction::Rename { from: f1, to: t1 }, FsAction::Rename { from: f2, to: t2 }) => {
                assert_eq!(f1.parts, t2.parts);
                assert_eq!(t1.parts, f2.parts);
                assert_eq!(f1.base, t2.base);
            }
            _ => panic!("the setup and its rollback are moves"),
        }
    }
}

/// Runs the setup where the operations fail in the given states, and gives
/// the states visited and the final one.
fn setup_with(failing: &[SetupState]) -> (Vec<SetupState>, SetupState) {
    let t = initialize_transfers();
    let mut state = start_setup(&t);
    let mut visited = Vec::new();
    while matches!(state, SetupState::Transfer(_) | SetupState::Fallback(_, _)) {
        visited.push(state);
        state = next_setup_state(&t, state, !failing.contains(&state));
    }
    (visited, state)
}

#[test]
fn setup_tries_every_step_once_when_all_succeed() {
    let (visited, end) = setup_with(&[]);
    assert_eq!(visited, (0..7).map(SetupState::Transfer).collect::<Vec<_>>());
    assert_eq!(end, SetupState::Done);
}

#[test]
fn setup_makes_an_empty_mods_folder_when_the_game_has_none() {
    let (visited, end) = setup_with(&[SetupState::Transfer(1)]);
    assert_eq!(visited[1], SetupState::Transfer(1));
    assert_eq!(visited[2], SetupState::Fallback(1, 0));
    assert_eq!(visited[3], SetupState::Transfer(2));
    assert_eq!(end, SetupState::Done);
}

#[test]
fn setup_copies_saves_across_drives_when_moving_fails() {
    let (visited, end) = setup_with(&[SetupState::Transfer(6)]);
    assert_eq!(&visited[6..], &[SetupState::Transfer(6), SetupState::Fallback(6, 0), SetupState::Fallback(6, 1)]);
    assert_eq!(end, SetupState::Done);
}

#[test]
fn setup_fails_at_a_step_without_fallback() {
    let (visited, end) = setup_with(&[SetupState::Transfer(3)]);
    assert_eq!(visited.len(), 4);
    assert_eq!(end, SetupState::Failed(3));
}

#[test]
fn setup_fails_when_a_fallback_fails() {
    let (_, end) = setup_with(&[SetupState::Transfer(6), SetupState::Fallback(6, 1)]);
    assert_eq!(end, SetupState::Failed(6));
    let (_, end) = setup_with(&[SetupState::Transfer(1), SetupState::Fallback(1, 0)]);
    assert_eq!(end, SetupState::Failed(1));
}

#[test]
fn setup_of_no_steps_is_done() {
    assert_eq!(start_setup(&Vec::new()), SetupState::Done);
}

//! The first setup of the manager: the files of the game become the
//! `vanilla` modlist, and everything goes back where it was if a step fails.

use vstd::prelude::*;
use crate::api::{api_error, ApiError};
use crate::layout::{
    game_content_bundles, game_content_bundles_path, game_content_scripts,
    game_content_scripts_path, game_dlc, game_dlc_path, game_menus, game_menus_path, game_mods,
    game_mods_path, game_saves, game_saves_path, modlist_dir,
};
use crate::paths::{FsPath, PathBase, PathView};
use crate::plan::{add_step, may, plan_view, ActionView, FsAction, OnFailure, PlanStep, StepView};

verus! {

/// One step of the setup: an operation, the operations tried in its place
/// when it fails, and the text of the error when those fail as well.
pub struct Transfer {
    pub action: FsAction,
    pub fallback: Vec<FsAction>,
    pub error_message: String,
}

/// The mathematical value of a step of the setup.
pub struct TransferView {
    pub action: ActionView,
    pub fallback: Seq<ActionView>,
    pub error_message: Seq<char>,
}

impl View for Transfer {
    type V = TransferView;

    open spec fn view(&self) -> TransferView {
        TransferView {
            action: self.action@,
            fallback: self.fallback@.map_values(|a: FsAction| a@),
            error_message: self.error_message@,
        }
    }
}

/// The folder of the `vanilla` modlist.
pub open spec fn vanilla() -> PathView {
    modlist_dir("vanilla"@)
}

/// The moves of the setup, from the game's folders to the vanilla modlist's.
pub open spec fn transfer_pairs() -> Seq<(PathView, PathView)> {
    seq![
        (game_mods(), vanilla().join("mods"@)),
        (game_dlc(), vanilla().join("dlcs"@)),
        (game_menus(), vanilla().join("menus"@)),
        (game_content_scripts(), vanilla().join("content"@)),
        (game_content_bundles(), vanilla().join("bundles"@)),
        (game_saves(), vanilla().join("saves"@))
    ]
}

/// The steps of the setup: the vanilla modlist's folder is made, then each
/// folder of the game moves into it. The game may have no mods folder, and
/// then an empty one is made; the saves may lie on another drive, and then
/// they are copied and removed.
pub open spec fn initialize_plan() -> Seq<TransferView> {
    seq![
        TransferView {
            action: ActionView::CreateDirAll(vanilla()),
            fallback: Seq::empty(),
            error_message: "could not create the vanilla modlist directory: "@,
        },
        TransferView {
            action: ActionView::Rename { from: game_mods(), to: vanilla().join("mods"@) },
            fallback: seq![ActionView::CreateDir(vanilla().join("mods"@))],
            error_message: "could not transfer the mods into the vanilla modlist: "@,
        },
        TransferView {
            action: ActionView::Rename { from: game_dlc(), to: vanilla().join("dlcs"@) },
            fallback: Seq::empty(),
            error_message: "could not transfer the dlcs into the vanilla modlist: "@,
        },
        TransferView {
            action: ActionView::Rename { from: game_menus(), to: vanilla().join("menus"@) },
            fallback: Seq::empty(),
            error_message: "could not transfer the menus into the vanilla modlist: "@,
        },
        TransferView {
            action: ActionView::Rename { from: game_content_scripts(), to: vanilla().join("content"@) },
            fallback: Seq::empty(),
            error_message: "could not transfer the content scripts into the vanilla modlist: "@,
        },
        TransferView {
            action: ActionView::Rename { from: game_content_bundles(), to: vanilla().join("bundles"@) },
            fallback: Seq::empty(),
            error_message: "could not transfer the content bundles into the vanilla modlist: "@,
        },
        TransferView {
            action: ActionView::Rename { from: game_saves(), to: vanilla().join("saves"@) },
            fallback: seq![
                ActionView::CopyAcrossDrives { from: game_saves(), to: vanilla().join("saves"@) },
                ActionView::RemoveDirAll(game_saves())
            ],
            error_message: "could not transfer the save into the vanilla modlist: "@,
        }
    ]
}

/// The work that puts every folder back in the game after a failed setup;
/// a folder that cannot be moved back is reported.
pub open spec fn rollback_plan() -> Seq<StepView> {
    seq![
        may(ActionView::Rename { from: vanilla().join("mods"@), to: game_mods() }),
        may(ActionView::Rename { from: vanilla().join("dlcs"@), to: game_dlc() }),
        may(ActionView::Rename { from: vanilla().join("menus"@), to: game_menus() }),
        may(ActionView::Rename { from: vanilla().join("content"@), to: game_content_scripts() }),
        may(ActionView::Rename { from: vanilla().join("bundles"@), to: game_content_bundles() }),
        may(ActionView::Rename { from: vanilla().join("saves"@), to: game_saves() })
    ]
}

fn vanilla_path() -> (r: FsPath)
    ensures
        r@ == vanilla(),
{
    FsPath::root(PathBase::WorkDir).join("vanilla")
}

fn transfer(action: FsAction, fallback: Vec<FsAction>, message: &str) -> (r: Transfer)
    ensures
        r@ == (TransferView {
            action: action@,
            fallback: fallback@.map_values(|a: FsAction| a@),
            error_message: message@,
        }),
{
    Transfer { action, fallback, error_message: message.to_owned() }
}

fn no_fallback() -> (r: Vec<FsAction>)
    ensures
        r@.map_values(|a: FsAction| a@) == Seq::<ActionView>::empty(),
{
    let r: Vec<FsAction> = Vec::new();
    assert(r@.map_values(|a: FsAction| a@) =~= Seq::<ActionView>::empty());
    r
}

/// The steps of the setup.
pub fn initialize_transfers() -> (r: Vec<Transfer>)
    ensures
        r@.map_values(|t: Transfer| t@) == initialize_plan(),
{
    let v = vanilla_path();
    let mut r: Vec<Transfer> = Vec::new();
    r.push(transfer(
        FsAction::CreateDirAll(v.duplicate()),
        no_fallback(),
        "could not create the vanilla modlist directory: ",
    ));
    let mut mods_fallback: Vec<FsAction> = Vec::new();
    mods_fallback.push(FsAction::CreateDir(v.join("mods")));
    assert(mods_fallback@.map_values(|a: FsAction| a@) =~= seq![
        ActionView::CreateDir(vanilla().join("mods"@))
    ]);
    r.push(transfer(
        FsAction::Rename { from: game_mods_path(), to: v.join("mods") },
        mods_fallback,
        "could not transfer the mods into the vanilla modlist: ",
    ));
    r.push(transfer(
        FsAction::Rename { from: game_dlc_path(), to: v.join("dlcs") },
        no_fallback(),
        "could not transfer the dlcs into the vanilla modlist: ",
    ));
    r.push(transfer(
        FsAction::Rename { from: game_menus_path(), to: v.join("menus") },
        no_fallback(),
        "could not transfer the menus into the vanilla modlist: ",
    ));
    r.push(transfer(
        FsAction::Rename { from: game_content_scripts_path(), to: v.join("content") },
        no_fallback(),
        "could not transfer the content scripts into the vanilla modlist: ",
    ));
    r.push(transfer(
        FsAction::Rename { from: game_content_bundles_path(), to: v.join("bundles") },
        no_fallback(),
        "could not transfer the content bundles into the vanilla modlist: ",
    ));
    let mut saves_fallback: Vec<FsAction> = Vec::new();
    saves_fallback.push(FsAction::CopyAcrossDrives { from: game_saves_path(), to: v.join("saves") });
    saves_fallback.push(FsAction::RemoveDirAll(game_saves_path()));
    assert(saves_fallback@.map_values(|a: FsAction| a@) =~= seq![
        ActionView::CopyAcrossDrives { from: game_saves(), to: vanilla().join("saves"@) },
        ActionView::RemoveDirAll(game_saves())
    ]);
    r.push(transfer(
        FsAction::Rename { from: game_saves_path(), to: v.join("saves") },
        saves_fallback,
        "could not transfer the save into the vanilla modlist: ",
    ));
    assert(r@.map_values(|t: Transfer| t@) =~= initialize_plan());
    r
}

/// The work that puts the game's folders back after a failed setup.
pub fn initialize_rollback() -> (r: Vec<PlanStep>)
    ensures
        plan_view(r@) == rollback_plan(),
{
    let v = vanilla_path();
    let mut steps: Vec<PlanStep> = Vec::new();
    add_step(&mut steps, FsAction::Rename { from: v.join("mods"), to: game_mods_path() }, OnFailure::Ignore);
    add_step(&mut steps, FsAction::Rename { from: v.join("dlcs"), to: game_dlc_path() }, OnFailure::Ignore);
    add_step(&mut steps, FsAction::Rename { from: v.join("menus"), to: game_menus_path() }, OnFailure::Ignore);
    add_step(
        &mut steps,
        FsAction::Rename { from: v.join("content"), to: game_content_scripts_path() },
        OnFailure::Ignore,
    );
    add_step(
        &mut steps,
        FsAction::Rename { from: v.join("bundles"), to: game_content_bundles_path() },
        OnFailure::Ignore,
    );
    add_step(&mut steps, FsAction::Rename { from: v.join("saves"), to: game_saves_path() }, OnFailure::Ignore);
    assert(plan_view(steps@) =~= rollback_plan());
    steps
}

/// The error of a failed step of the setup, given the text of the error
/// that made it fail.
pub fn transfer_error(t: &Transfer, error: &str) -> (r: ApiError)
    ensures
        r@ == t@.error_message + error@,
{
    api_error(t.error_message.clone().concat(error))
}

/// Each move of the setup is a move of a game folder into the vanilla
/// modlist, and the rollback moves each of them back, in the same order.
pub proof fn law_rollback_reverses_transfers()
    ensures
        forall|k: int|
            0 <= k < 6 ==> {
                &&& #[trigger] initialize_plan()[k + 1].action == ActionView::Rename {
                    from: transfer_pairs()[k].0,
                    to: transfer_pairs()[k].1,
                }
                &&& rollback_plan()[k].action == ActionView::Rename {
                    from: transfer_pairs()[k].1,
                    to: transfer_pairs()[k].0,
                }
            },
{
}

/// Where the setup stands.
#[derive(Clone, Copy, Debug, PartialEq, Eq, Structural)]
pub enum SetupState {
    /// The operation of step `k` is to be tried.
    Transfer(usize),
    /// Operation `j` of the fallback of step `k` is to be tried.
    Fallback(usize, usize),
    /// Every step is done.
    Done,
    /// Step `k` failed: its error is the setup's, and everything goes back.
    Failed(usize),
}

/// The state has an operation to try.
pub open spec fn setup_active(plan: Seq<TransferView>, s: SetupState) -> bool {
    match s {
        SetupState::Transfer(k) => k < plan.len(),
        SetupState::Fallback(k, j) => k < plan.len() && j < plan[k as int].fallback.len(),
        _ => false,
    }
}

/// The operation to try in an active state.
pub open spec fn setup_operation(plan: Seq<TransferView>, s: SetupState) -> ActionView
    recommends
        setup_active(plan, s),
{
    match s {
        SetupState::Transfer(k) => plan[k as int].action,
        SetupState::Fallback(k, j) => plan[k as int].fallback[j as int],
        _ => plan[0].action,
    }
}

/// The state in which the setup `plan` begins.
pub open spec fn setup_start(plan: Seq<TransferView>) -> SetupState {
    if plan.len() == 0 {
        SetupState::Done
    } else {
        SetupState::Transfer(0)
    }
}

/// The state after step `k` is done: the next step, or the end.
pub open spec fn after_step(plan: Seq<TransferView>, k: usize) -> SetupState {
    if k + 1 < plan.len() {
        SetupState::Transfer((k + 1) as usize)
    } else {
        SetupState::Done
    }
}

/// The state that follows `s` once its operation has succeeded (`ok`) or
/// failed. A step whose operation succeeds is done. When it fails, its
/// fallback is tried in order, and the step is done when every operation of
/// the fallback succeeds; the step fails when it has no fallback or an
/// operation of its fallback fails. A state with nothing to try stays.
pub open spec fn setup_after(plan: Seq<TransferView>, s: SetupState, ok: bool) -> SetupState {
    if !setup_active(plan, s) {
        s
    } else {
        match s {
            SetupState::Transfer(k) => if ok {
                after_step(plan, k)
            } else if plan[k as int].fallback.len() > 0 {
                SetupState::Fallback(k, 0)
            } else {
                SetupState::Failed(k)
            },
            SetupState::Fallback(k, j) => if !ok {
                SetupState::Failed(k)
            } else if j + 1 < plan[k as int].fallback.len() {
                SetupState::Fallback(k, (j + 1) as usize)
            } else {
                after_step(plan, k)
            },
            _ => s,
        }
    }
}

/// The state is one the setup can be in: active, done, or failed at a step.
pub open spec fn setup_valid(plan: Seq<TransferView>, s: SetupState) -> bool {
    match s {
        SetupState::Failed(k) => k < plan.len(),
        SetupState::Done => true,
        _ => setup_active(plan, s),
    }
}

/// `b` comes strictly after `a` in the order of the setup: a later step, a
/// later operation of the same step, or the end.
pub open spec fn setup_precedes(a: SetupState, b: SetupState) -> bool {
    match (a, b) {
        (SetupState::Transfer(_), SetupState::Done) => true,
        (SetupState::Fallback(_, _), SetupState::Done) => true,
        (SetupState::Transfer(k), SetupState::Failed(k2)) => k == k2,
        (SetupState::Fallback(k, _), SetupState::Failed(k2)) => k == k2,
        (SetupState::Transfer(k), SetupState::Transfer(k2)) => k < k2,
        (SetupState::Transfer(k), SetupState::Fallback(k2, _)) => k <= k2,
        (SetupState::Fallback(k, _), SetupState::Transfer(k2)) => k < k2,
        (SetupState::Fallback(k, j), SetupState::Fallback(k2, j2)) => k < k2 || (k == k2 && j < j2),
        _ => false,
    }
}

/// The state in which the setup `transfers` begins.
pub fn start_setup(transfers: &Vec<Transfer>) -> (r: SetupState)
    ensures
        r == setup_start(transfers@.map_values(|t: Transfer| t@)),
        setup_valid(transfers@.map_values(|t: Transfer| t@), r),
{
    if transfers.len() == 0 {
        SetupState::Done
    } else {
        SetupState::Transfer(0)
    }
}

/// The state of the setup `transfers` after the operation of state `s` has
/// succeeded (`ok`) or failed.
pub fn next_setup_state(transfers: &Vec<Transfer>, s: SetupState, ok: bool) -> (r: SetupState)
    ensures
        r == setup_after(transfers@.map_values(|t: Transfer| t@), s, ok),
{
    let ghost plan = transfers@.map_values(|t: Transfer| t@);
    match s {
        SetupState::Transfer(k) => {
            if k >= transfers.len() {
                return s;
            }
            assert(plan[k as int] == transfers@[k as int]@);
            if ok {
                if k + 1 < transfers.len() {
                    SetupState::Transfer(k + 1)
                } else {
                    SetupState::Done
                }
            } else if transfers[k].fallback.len() > 0 {
                SetupState::Fallback(k, 0)
            } else {
                SetupState::Failed(k)
            }
        },
        SetupState::Fallback(k, j) => {
            if k >= transfers.len() {
                return s;
            }
            assert(plan[k as int] == transfers@[k as int]@);
            if j >= transfers[k].fallback.len() {
                return s;
            }
            if !ok {
                SetupState::Failed(k)
            } else if j + 1 < transfers[k].fallback.len() {
                SetupState::Fallback(k, j + 1)
            } else if k + 1 < transfers.len() {
                SetupState::Transfer(k + 1)
            } else {
                SetupState::Done
            }
        },
        _ => s,
    }
}

/// Every answer moves the setup forward: from a state with an operation to
/// try, the setup goes to a state it can be in that comes strictly after,
/// so no operation is tried twice and the setup ends; and a failure is the
/// failure of the step being tried.
pub proof fn law_setup_moves_forward(plan: Seq<TransferView>, s: SetupState, ok: bool)
    requires
        setup_active(plan, s),
        plan.len() <= usize::MAX,
        forall|k: int| 0 <= k < plan.len() ==> #[trigger] plan[k].fallback.len() <= usize::MAX,
    ensures
        setup_valid(plan, setup_after(plan, s, ok)),
        setup_precedes(s, setup_after(plan, s, ok)),
{
}

/// The operation `a` brings the path `p` into being: it creates it, moves
/// something to it, or copies something to it.
pub open spec fn makes(a: ActionView, p: PathView) -> bool {
    match a {
        ActionView::CreateDir(q) => q == p,
        ActionView::CreateDirAll(q) => q == p,
        ActionView::Rename { to, .. } => to == p,
        ActionView::CopyAcrossDrives { to, .. } => to == p,
        _ => false,
    }
}

/// The setup makes a valid vanilla modlist: its folder and each of the six
/// folders a modlist must have are brought into being by a step of the
/// setup, and when that step has a fallback, the fallback brings the same
/// folder into being. So whichever way each step succeeds, a setup that is
/// done leaves every folder of the vanilla modlist in place.
pub proof fn law_setup_makes_every_vanilla_folder(folder: Seq<char>)
    requires
        folder == "dlcs"@ || folder == "mods"@ || folder == "menus"@ || folder == "saves"@ || folder
            == "content"@ || folder == "bundles"@,
    ensures
        makes(initialize_plan()[0].action, modlist_dir("vanilla"@)),
        exists|k: int|
            0 <= k < initialize_plan().len() && #[trigger] makes(
                initialize_plan()[k].action,
                modlist_dir("vanilla"@).join(folder),
            ) && (initialize_plan()[k].fallback.len() == 0 || exists|j: int|
                0 <= j < initialize_plan()[k].fallback.len() && makes(
                    initialize_plan()[k].fallback[j],
                    modlist_dir("vanilla"@).join(folder),
                )),
{
    let plan = initialize_plan();
    let v = modlist_dir("vanilla"@);
    if folder == "mods"@ {
        assert(makes(plan[1].action, v.join(folder)));
        assert(makes(plan[1].fallback[0], v.join(folder)));
    } else if folder == "dlcs"@ {
        assert(makes(plan[2].action, v.join(folder)));
    } else if folder == "menus"@ {
        assert(makes(plan[3].action, v.join(folder)));
    } else if folder == "content"@ {
        assert(makes(plan[4].action, v.join(folder)));
    } else if folder == "bundles"@ {
        assert(makes(plan[5].action, v.join(folder)));
    } else {
        assert(makes(plan[6].action, v.join(folder)));
        assert(makes(plan[6].fallback[0], v.join(folder)));
    }
}

} // verus!

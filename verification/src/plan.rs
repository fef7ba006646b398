//! Plans of file-system work. The library decides what to create, move,
//! copy, link or remove, and in which order; the program carries the plan
//! out, step by step, and stops at the first failing step that aborts.

use vstd::prelude::*;
use crate::paths::{FsPath, PathView};

verus! {

/// One operation on the file system.
pub enum FsAction {
    /// Create one directory.
    CreateDir(FsPath),
    /// Create a directory and its missing parents.
    CreateDirAll(FsPath),
    /// Remove a directory and everything in it.
    RemoveDirAll(FsPath),
    /// Move a file or directory.
    Rename { from: FsPath, to: FsPath },
    /// Write a text file.
    WriteFile { path: FsPath, content: String },
    /// Create a symbolic link at `link` that points to `target`.
    MakeSymlink { link: FsPath, target: FsPath },
    /// Remove the symbolic link at the path.
    RemoveSymlink(FsPath),
    /// Remove every symbolic link directly inside the directory.
    RemoveSymlinksIn(FsPath),
    /// Link every child of `source` from `destination`.
    SymlinkChildren { source: FsPath, destination: FsPath },
    /// Copy the content of directory `from` into directory `to`: files that
    /// exist already are overwritten when `overwrite` holds, kept otherwise.
    CopyDirContents { from: FsPath, to: FsPath, overwrite: bool },
    /// Copy a directory, also across drives.
    CopyAcrossDrives { from: FsPath, to: FsPath },
}

/// The mathematical value of an operation.
pub enum ActionView {
    CreateDir(PathView),
    CreateDirAll(PathView),
    RemoveDirAll(PathView),
    Rename { from: PathView, to: PathView },
    WriteFile { path: PathView, content: Seq<char> },
    MakeSymlink { link: PathView, target: PathView },
    RemoveSymlink(PathView),
    RemoveSymlinksIn(PathView),
    SymlinkChildren { source: PathView, destination: PathView },
    CopyDirContents { from: PathView, to: PathView, overwrite: bool },
    CopyAcrossDrives { from: PathView, to: PathView },
}

impl View for FsAction {
    type V = ActionView;

    open spec fn view(&self) -> ActionView {
        match self {
            FsAction::CreateDir(p) => ActionView::CreateDir(p@),
            FsAction::CreateDirAll(p) => ActionView::CreateDirAll(p@),
            FsAction::RemoveDirAll(p) => ActionView::RemoveDirAll(p@),
            FsAction::Rename { from, to } => ActionView::Rename { from: from@, to: to@ },
            FsAction::WriteFile { path, content } => ActionView::WriteFile {
                path: path@,
                content: content@,
            },
            FsAction::MakeSymlink { link, target } => ActionView::MakeSymlink {
                link: link@,
                target: target@,
            },
            FsAction::RemoveSymlink(p) => ActionView::RemoveSymlink(p@),
            FsAction::RemoveSymlinksIn(p) => ActionView::RemoveSymlinksIn(p@),
            FsAction::SymlinkChildren { source, destination } => ActionView::SymlinkChildren {
                source: source@,
                destination: destination@,
            },
            FsAction::CopyDirContents { from, to, overwrite } => ActionView::CopyDirContents {
                from: from@,
                to: to@,
                overwrite: *overwrite,
            },
            FsAction::CopyAcrossDrives { from, to } => ActionView::CopyAcrossDrives {
                from: from@,
                to: to@,
            },
        }
    }
}

/// What a failure of a step does to the rest of the plan.
#[derive(Clone, Copy, Debug, PartialEq, Eq, Structural)]
pub enum OnFailure {
    /// The failure is reported and the plan goes on.
    Ignore,
    /// The plan stops and its failure is the failure of the step.
    Abort,
}

/// A step of a plan.
pub struct PlanStep {
    pub action: FsAction,
    pub on_failure: OnFailure,
}

/// The mathematical value of a step.
pub struct StepView {
    pub action: ActionView,
    pub on_failure: OnFailure,
}

impl View for PlanStep {
    type V = StepView;

    open spec fn view(&self) -> StepView {
        StepView { action: self.action@, on_failure: self.on_failure }
    }
}

/// The mathematical value of a plan.
pub open spec fn plan_view(steps: Seq<PlanStep>) -> Seq<StepView> {
    steps.map_values(|s: PlanStep| s@)
}

/// A step whose failure stops the plan.
pub open spec fn must(a: ActionView) -> StepView {
    StepView { action: a, on_failure: OnFailure::Abort }
}

/// A step whose failure is only reported.
pub open spec fn may(a: ActionView) -> StepView {
    StepView { action: a, on_failure: OnFailure::Ignore }
}

/// Appends a step to a plan.
pub fn add_step(plan: &mut Vec<PlanStep>, action: FsAction, on_failure: OnFailure)
    ensures
        plan_view(final(plan)@) == plan_view(old(plan)@).push(
            StepView { action: action@, on_failure },
        ),
{
    let ghost before = plan@;
    let ghost a = action@;
    plan.push(PlanStep { action, on_failure });
    assert(plan_view(plan@) =~= plan_view(before).push(StepView { action: a, on_failure }));
}

/// Appends the steps of `more` to a plan.
pub fn add_steps(plan: &mut Vec<PlanStep>, more: Vec<PlanStep>)
    ensures
        plan_view(final(plan)@) == plan_view(old(plan)@) + plan_view(more@),
{
    let ghost before = plan@;
    let mut more = more;
    let ghost m = more@;
    plan.append(&mut more);
    assert(plan_view(plan@) =~= plan_view(before) + plan_view(m));
}

/// Where a run of a plan stands.
#[derive(Clone, Copy, Debug, PartialEq, Eq, Structural)]
pub enum RunState {
    /// The step at this index is to be carried out next.
    At(usize),
    /// Every step was carried out.
    Finished,
    /// The step at this index failed, and its failure stops the plan.
    Stopped(usize),
}

/// The state in which a run of `plan` begins.
pub open spec fn run_start(plan: Seq<StepView>) -> RunState {
    if plan.len() == 0 {
        RunState::Finished
    } else {
        RunState::At(0)
    }
}

/// The step at `i` failed, and its failure stops the plan.
pub open spec fn aborts_at(plan: Seq<StepView>, oks: Seq<bool>, i: int) -> bool {
    !oks[i] && plan[i].on_failure == OnFailure::Abort
}

/// The state that follows `s` once its step has succeeded (`ok`) or failed:
/// a failure that aborts stops the run, anything else moves on to the next
/// step, or finishes the run after the last one. Any other state stays.
pub open spec fn run_after(plan: Seq<StepView>, s: RunState, ok: bool) -> RunState {
    match s {
        RunState::At(n) => if n >= plan.len() {
            s
        } else if !ok && plan[n as int].on_failure == OnFailure::Abort {
            RunState::Stopped(n)
        } else if n + 1 < plan.len() {
            RunState::At((n + 1) as usize)
        } else {
            RunState::Finished
        },
        _ => s,
    }
}

/// The steps still ahead of a run in state `s`.
pub open spec fn steps_ahead(plan: Seq<StepView>, s: RunState) -> int {
    match s {
        RunState::At(n) => plan.len() - n,
        _ => 0,
    }
}

/// How a run of `plan` from state `s` ends when the step at each index `i`
/// succeeds exactly when `oks[i]` holds (for a plan that fits in memory).
pub open spec fn run_from(plan: Seq<StepView>, s: RunState, oks: Seq<bool>) -> RunState
    decreases steps_ahead(plan, s),
{
    match s {
        RunState::At(n) => if n < plan.len() <= usize::MAX {
            run_from(plan, run_after(plan, s, oks[n as int]), oks)
        } else {
            s
        },
        _ => s,
    }
}

/// The state in which a run of `steps` begins: its first step, or the end
/// of the run when there is none.
pub fn start_run(steps: &Vec<PlanStep>) -> (r: RunState)
    ensures
        r == run_start(plan_view(steps@)),
{
    if steps.len() == 0 {
        RunState::Finished
    } else {
        RunState::At(0)
    }
}

/// The state of a run of `steps` after the step of state `s` has succeeded
/// (`ok`) or failed.
pub fn next_run_state(steps: &Vec<PlanStep>, s: RunState, ok: bool) -> (r: RunState)
    ensures
        r == run_after(plan_view(steps@), s, ok),
{
    match s {
        RunState::At(n) => {
            if n >= steps.len() {
                s
            } else if !ok && steps[n].on_failure == OnFailure::Abort {
                RunState::Stopped(n)
            } else if n + 1 < steps.len() {
                RunState::At(n + 1)
            } else {
                RunState::Finished
            }
        },
        _ => s,
    }
}

proof fn lemma_run_from(plan: Seq<StepView>, n: usize, oks: Seq<bool>)
    requires
        oks.len() == plan.len(),
        plan.len() <= usize::MAX,
        n < plan.len(),
    ensures
        match run_from(plan, RunState::At(n), oks) {
            RunState::Finished => forall|i: int| n <= i < plan.len() ==> !aborts_at(plan, oks, i),
            RunState::Stopped(i) => n <= i < plan.len() && aborts_at(plan, oks, i as int) && forall|
                j: int,
            |
                n <= j < i ==> !aborts_at(plan, oks, j),
            RunState::At(_) => false,
        },
    decreases plan.len() - n,
{
    let s = RunState::At(n);
    let next = run_after(plan, s, oks[n as int]);
    assert(run_from(plan, s, oks) == run_from(plan, next, oks));
    if aborts_at(plan, oks, n as int) {
        assert(next == RunState::Stopped(n));
        assert(run_from(plan, next, oks) == next);
    } else if n + 1 < plan.len() {
        assert(next == RunState::At((n + 1) as usize));
        lemma_run_from(plan, (n + 1) as usize, oks);
    } else {
        assert(next == RunState::Finished);
        assert(run_from(plan, next, oks) == next);
    }
}

/// A run stops at the first step whose failure aborts the plan, and nowhere
/// else: it finishes when no such step fails, and a step whose failure is
/// only reported never stops it.
pub proof fn law_run_stops_at_first_abort(plan: Seq<StepView>, oks: Seq<bool>)
    requires
        oks.len() == plan.len(),
        plan.len() <= usize::MAX,
    ensures
        match run_from(plan, run_start(plan), oks) {
            RunState::Finished => forall|i: int| 0 <= i < plan.len() ==> !aborts_at(plan, oks, i),
            RunState::Stopped(i) => i < plan.len() && aborts_at(plan, oks, i as int) && forall|
                j: int,
            |
                0 <= j < i ==> !aborts_at(plan, oks, j),
            RunState::At(_) => false,
        },
{
    if plan.len() > 0 {
        lemma_run_from(plan, 0, oks);
    }
}

} // verus!

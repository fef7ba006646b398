//! Links between modlists: which links to make or remove in a folder, how a
//! link is removed, and which children of a folder are not links.

use vstd::prelude::*;
use crate::paths::{FsPath, PathView};
use crate::plan::{add_step, may, plan_view, ActionView, FsAction, OnFailure, PlanStep, StepView};

verus! {

/// For each child of `source`, a link in `destination` to it.
pub open spec fn symlink_children_plan(
    source: PathView,
    destination: PathView,
    children: Seq<Seq<char>>,
) -> Seq<StepView>
    decreases children.len(),
{
    if children.len() == 0 {
        Seq::empty()
    } else {
        symlink_children_plan(source, destination, children.drop_last()).push(
            may(ActionView::MakeSymlink {
                link: destination.join(children.last()),
                target: source.join(children.last()),
            }),
        )
    }
}

/// For each child of `directory`, the removal of the link it may be.
pub open spec fn remove_symlinks_plan(directory: PathView, children: Seq<Seq<char>>) -> Seq<StepView>
    decreases children.len(),
{
    if children.len() == 0 {
        Seq::empty()
    } else {
        remove_symlinks_plan(directory, children.drop_last()).push(
            may(ActionView::RemoveSymlink(directory.join(children.last()))),
        )
    }
}

/// The work that links every child of `source`, named in `children`, from
/// `destination`. A link that cannot be made is reported and skipped.
pub fn symlink_children(source: &FsPath, destination: &FsPath, children: &Vec<String>) -> (r: Vec<PlanStep>)
    ensures
        plan_view(r@) == symlink_children_plan(
            source@,
            destination@,
            children@.map_values(|s: String| s@),
        ),
{
    let ghost all = children@.map_values(|s: String| s@);
    let mut steps: Vec<PlanStep> = Vec::new();
    let mut i: usize = 0;
    assert(plan_view(steps@) =~= symlink_children_plan(source@, destination@, all.take(0)));
    while i < children.len()
        invariant
            i <= children.len(),
            all == children@.map_values(|s: String| s@),
            plan_view(steps@) == symlink_children_plan(source@, destination@, all.take(i as int)),
        decreases children.len() - i,
    {
        proof {
            let t = all.take(i + 1);
            assert(t.drop_last() =~= all.take(i as int));
            assert(t.last() == children@[i as int]@);
        }
        let child = children[i].as_str();
        add_step(
            &mut steps,
            FsAction::MakeSymlink { link: destination.join(child), target: source.join(child) },
            OnFailure::Ignore,
        );
        i = i + 1;
    }
    assert(all.take(children.len() as int) =~= all);
    steps
}

/// The work that removes the links among the children of `directory`, named
/// in `children`. A child that is not a link, or cannot be removed, is
/// reported and skipped.
pub fn remove_symlinks(directory: &FsPath, children: &Vec<String>) -> (r: Vec<PlanStep>)
    ensures
        plan_view(r@) == remove_symlinks_plan(directory@, children@.map_values(|s: String| s@)),
{
    let ghost all = children@.map_values(|s: String| s@);
    let mut steps: Vec<PlanStep> = Vec::new();
    let mut i: usize = 0;
    assert(plan_view(steps@) =~= remove_symlinks_plan(directory@, all.take(0)));
    while i < children.len()
        invariant
            i <= children.len(),
            all == children@.map_values(|s: String| s@),
            plan_view(steps@) == remove_symlinks_plan(directory@, all.take(i as int)),
        decreases children.len() - i,
    {
        proof {
            let t = all.take(i + 1);
            assert(t.drop_last() =~= all.take(i as int));
            assert(t.last() == children@[i as int]@);
        }
        add_step(
            &mut steps,
            FsAction::RemoveSymlink(directory.join(children[i].as_str())),
            OnFailure::Ignore,
        );
        i = i + 1;
    }
    assert(all.take(children.len() as int) =~= all);
    steps
}

/// Why a path cannot be removed as a link.
#[derive(Clone, Copy, Debug, PartialEq, Eq, Structural)]
pub enum SymlinkError {
    /// The path is not a symbolic link.
    NotASymlink,
}

/// How a symbolic link is removed.
#[derive(Clone, Copy, Debug, PartialEq, Eq, Structural)]
pub enum RemovalMethod {
    /// As a directory.
    RemoveDir,
    /// As a file.
    RemoveFile,
    /// As a file, and as a directory if that fails: a link whose target is
    /// gone is neither a file nor a directory on some systems.
    RemoveFileElseDir,
}

/// How to remove the path, given whether it is a symbolic link and, for a
/// link, whether its target is a directory or a file. Only a link is
/// removed.
pub fn remove_symlink(is_symlink: bool, target_is_dir: bool, target_is_file: bool) -> (r: Result<RemovalMethod, SymlinkError>)
    ensures
        r == if !is_symlink {
            Err(SymlinkError::NotASymlink)
        } else if target_is_dir {
            Ok(RemovalMethod::RemoveDir)
        } else if !target_is_file {
            Ok(RemovalMethod::RemoveFileElseDir)
        } else {
            Ok(RemovalMethod::RemoveFile)
        },
{
    if !is_symlink {
        Err(SymlinkError::NotASymlink)
    } else if target_is_dir {
        Ok(RemovalMethod::RemoveDir)
    } else if !target_is_file {
        Ok(RemovalMethod::RemoveFileElseDir)
    } else {
        Ok(RemovalMethod::RemoveFile)
    }
}

/// A child of a directory as it was observed: its name when it is valid
/// Unicode, whether its metadata could be read, and whether it is a link.
pub struct DirEntryInfo {
    pub name: Option<String>,
    pub metadata_ok: bool,
    pub is_symlink: bool,
}

/// The mathematical value of an observed child.
pub struct DirEntryView {
    pub name: Option<Seq<char>>,
    pub metadata_ok: bool,
    pub is_symlink: bool,
}

impl View for DirEntryInfo {
    type V = DirEntryView;

    open spec fn view(&self) -> DirEntryView {
        DirEntryView {
            name: match self.name {
                Some(n) => Some(n@),
                None => None,
            },
            metadata_ok: self.metadata_ok,
            is_symlink: self.is_symlink,
        }
    }
}

/// The names of the children that are not links, in order.
pub open spec fn names_without_symlinks(entries: Seq<DirEntryView>) -> Seq<Seq<char>>
    decreases entries.len(),
{
    if entries.len() == 0 {
        Seq::empty()
    } else {
        let e = entries.last();
        let rest = names_without_symlinks(entries.drop_last());
        if e.metadata_ok && !e.is_symlink && e.name is Some {
            rest.push(e.name->0)
        } else {
            rest
        }
    }
}

/// The names of the children of a directory that are not links: children
/// whose metadata cannot be read, links, and names that are not valid
/// Unicode are left out.
pub fn get_children_without_symlinks(entries: &Vec<DirEntryInfo>) -> (r: Vec<String>)
    ensures
        r@.map_values(|s: String| s@) == names_without_symlinks(
            entries@.map_values(|e: DirEntryInfo| e@),
        ),
{
    let ghost all = entries@.map_values(|e: DirEntryInfo| e@);
    let mut out: Vec<String> = Vec::new();
    let mut i: usize = 0;
    assert(out@.map_values(|s: String| s@) =~= names_without_symlinks(all.take(0)));
    while i < entries.len()
        invariant
            i <= entries.len(),
            all == entries@.map_values(|e: DirEntryInfo| e@),
            out@.map_values(|s: String| s@) == names_without_symlinks(all.take(i as int)),
        decreases entries.len() - i,
    {
        proof {
            let t = all.take(i + 1);
            assert(t.drop_last() =~= all.take(i as int));
            assert(t.last() == entries@[i as int]@);
        }
        let e = &entries[i];
        if e.metadata_ok && !e.is_symlink {
            match &e.name {
                Some(n) => {
                    let ghost before = out@;
                    out.push(n.clone());
                    assert(out@.map_values(|s: String| s@) =~= before.map_values(|s: String| s@).push(
                        n@,
                    ));
                },
                None => {},
            }
        }
        i = i + 1;
    }
    assert(all.take(entries.len() as int) =~= all);
    out
}

/// Linking the children of a folder makes one link per child, in order, in
/// `destination` to the child in `source`; a link that cannot be made, as
/// when the name is already taken in `destination`, is only reported, so
/// what the destination already holds is kept.
pub proof fn law_links_never_overwrite(source: PathView, destination: PathView, children: Seq<Seq<char>>)
    ensures
        symlink_children_plan(source, destination, children).len() == children.len(),
        forall|k: int|
            0 <= k < children.len() ==> #[trigger] symlink_children_plan(source, destination, children)[k]
                == may(
                ActionView::MakeSymlink {
                    link: destination.join(children[k]),
                    target: source.join(children[k]),
                },
            ),
    decreases children.len(),
{
    if children.len() > 0 {
        let init = children.drop_last();
        law_links_never_overwrite(source, destination, init);
        assert forall|k: int| 0 <= k < children.len() implies #[trigger] symlink_children_plan(
            source,
            destination,
            children,
        )[k] == may(
            ActionView::MakeSymlink {
                link: destination.join(children[k]),
                target: source.join(children[k]),
            },
        ) by {
            if k < init.len() {
                assert(init[k] == children[k]);
                assert(symlink_children_plan(source, destination, children)[k]
                    == symlink_children_plan(source, destination, init)[k]);
            }
        }
    }
}

proof fn lemma_remove_plan_elements(directory: PathView, children: Seq<Seq<char>>)
    ensures
        remove_symlinks_plan(directory, children).len() == children.len(),
        forall|k: int|
            0 <= k < children.len() ==> #[trigger] remove_symlinks_plan(directory, children)[k] == may(
                ActionView::RemoveSymlink(directory.join(children[k])),
            ),
    decreases children.len(),
{
    if children.len() > 0 {
        let init = children.drop_last();
        lemma_remove_plan_elements(directory, init);
        assert forall|k: int| 0 <= k < children.len() implies #[trigger] remove_symlinks_plan(
            directory,
            children,
        )[k] == may(ActionView::RemoveSymlink(directory.join(children[k]))) by {
            if k < init.len() {
                assert(init[k] == children[k]);
                assert(remove_symlinks_plan(directory, children)[k] == remove_symlinks_plan(directory, init)[k]);
            }
        }
    }
}

/// Removing the links of a folder reaches every link that linking the
/// children of another folder made in it: once the folder lists each linked
/// name among its children, the removal tries each of those links.
pub proof fn law_removal_reaches_every_link(
    source: PathView,
    destination: PathView,
    linked: Seq<Seq<char>>,
    present: Seq<Seq<char>>,
)
    requires
        forall|k: int| 0 <= k < linked.len() ==> present.contains(#[trigger] linked[k]),
    ensures
        forall|k: int|
            #![trigger symlink_children_plan(source, destination, linked)[k]]
            0 <= k < linked.len() ==> exists|j: int|
                #![trigger remove_symlinks_plan(destination, present)[j]]
                0 <= j < present.len() && remove_symlinks_plan(destination, present)[j].action
                    == ActionView::RemoveSymlink(
                    symlink_children_plan(source, destination, linked)[k].action->link,
                ),
{
    law_links_never_overwrite(source, destination, linked);
    lemma_remove_plan_elements(destination, present);
    assert forall|k: int|
        #![trigger symlink_children_plan(source, destination, linked)[k]]
        0 <= k < linked.len() implies exists|j: int|
        #![trigger remove_symlinks_plan(destination, present)[j]]
        0 <= j < present.len() && remove_symlinks_plan(destination, present)[j].action
            == ActionView::RemoveSymlink(
            symlink_children_plan(source, destination, linked)[k].action->link,
        ) by {
        assert(present.contains(linked[k]));
        let j = choose|j: int| 0 <= j < present.len() && present[j] == linked[k];
        assert(remove_symlinks_plan(destination, present)[j] == may(
            ActionView::RemoveSymlink(destination.join(present[j])),
        ));
        assert(symlink_children_plan(source, destination, linked)[k] == may(
            ActionView::MakeSymlink {
                link: destination.join(linked[k]),
                target: source.join(linked[k]),
            },
        ));
    }
}

/// A child is kept when its metadata was read, it is not a link, and its
/// name is valid Unicode.
pub open spec fn kept_child(e: DirEntryView) -> bool {
    e.metadata_ok && !e.is_symlink && e.name is Some
}

/// The children that are not links are listed by name, in the order of the
/// directory, and no other child is listed.
pub proof fn law_children_keep_directory_order(entries: Seq<DirEntryView>)
    ensures
        names_without_symlinks(entries) == entries.filter(|e: DirEntryView| kept_child(e)).map_values(
            |e: DirEntryView| e.name->0,
        ),
    decreases entries.len(),
{
    reveal(Seq::filter);
    if entries.len() > 0 {
        law_children_keep_directory_order(entries.drop_last());
        let f = entries.drop_last().filter(|e: DirEntryView| kept_child(e));
        if kept_child(entries.last()) {
            assert(f.push(entries.last()).map_values(|e: DirEntryView| e.name->0) =~= f.map_values(
                |e: DirEntryView| e.name->0,
            ).push(entries.last().name->0));
        }
    }
}

} // verus!

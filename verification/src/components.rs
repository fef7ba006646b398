//! What the pieces of the pages show: how a folder of a modlist is listed,
//! which link edits it, and which menu entry is active.

use vstd::prelude::*;
use crate::text::{ends_with, spec_ends_with, spec_starts_with, starts_with};

verus! {

/// The edit link shown after a listed folder.
pub enum EditLink {
    /// No edit link.
    Absent,
    /// An edit link that leads nowhere.
    Inert,
    /// An edit link to the given page.
    To(String),
    /// An edit link shown as disabled, with the reason as its title.
    Blocked(String),
}

/// The mathematical value of an edit link.
pub enum EditLinkView {
    Absent,
    Inert,
    To(Seq<char>),
    Blocked(Seq<char>),
}

impl View for EditLink {
    type V = EditLinkView;

    open spec fn view(&self) -> EditLinkView {
        match self {
            EditLink::Absent => EditLinkView::Absent,
            EditLink::Inert => EditLinkView::Inert,
            EditLink::To(h) => EditLinkView::To(h@),
            EditLink::Blocked(t) => EditLinkView::Blocked(t@),
        }
    }
}

/// How a folder of a modlist is listed: its name, whether it is shown as
/// disabled, and its edit link.
pub struct FolderEntry {
    pub label: String,
    pub disabled: bool,
    pub edit: EditLink,
}

/// The mathematical value of a listed folder.
pub struct FolderEntryView {
    pub label: Seq<char>,
    pub disabled: bool,
    pub edit: EditLinkView,
}

impl View for FolderEntry {
    type V = FolderEntryView;

    open spec fn view(&self) -> FolderEntryView {
        FolderEntryView { label: self.label@, disabled: self.disabled, edit: self.edit@ }
    }
}

/// The page that edits the folder `name` of kind `kind` in the modlist
/// `modlist_name`.
pub open spec fn edit_page(modlist_name: Seq<char>, kind: Seq<char>, name: Seq<char>) -> Seq<char> {
    "/modlist/"@ + modlist_name + "/edit/"@ + kind + "/"@ + name
}

/// The title of the edit link of a mod of a packed modlist.
pub open spec fn packed_edit_title() -> Seq<char> {
    "You cannot edit this file because the modlist it's in is currently packed."@
}

/// How a DLC folder is listed.
pub open spec fn dlc_entry(name: Seq<char>, modlist_name: Seq<char>) -> FolderEntryView {
    FolderEntryView {
        label: name,
        disabled: !spec_starts_with(name, "dlc"@),
        edit: EditLinkView::To(edit_page(modlist_name, "dlcs"@, name)),
    }
}

/// How a menu file is listed.
pub open spec fn menu_entry(name: Seq<char>, modlist_name: Seq<char>) -> FolderEntryView {
    FolderEntryView {
        label: name,
        disabled: !spec_ends_with(name, ".xml"@),
        edit: EditLinkView::To(edit_page(modlist_name, "menus"@, name)),
    }
}

/// How a mod folder is listed.
pub open spec fn mod_entry(name: Seq<char>, modlist_name: Seq<char>, packed: bool) -> FolderEntryView {
    FolderEntryView {
        label: name,
        disabled: !spec_starts_with(name, "mod"@),
        edit: if packed {
            EditLinkView::Blocked(packed_edit_title())
        } else {
            EditLinkView::To(edit_page(modlist_name, "mods"@, name))
        },
    }
}

fn edit_href(modlist_name: &str, kind: &str, name: &str) -> (r: String)
    ensures
        r@ == edit_page(modlist_name@, kind@, name@),
{
    "/modlist/".to_owned().concat(modlist_name).concat("/edit/").concat(kind).concat("/").concat(name)
}

/// A DLC folder; it is shown as disabled unless its name starts with `dlc`.
pub fn dlc_display(name: &str, modlist_name: &str) -> (r: FolderEntry)
    ensures
        r@ == dlc_entry(name@, modlist_name@),
{
    FolderEntry {
        label: name.to_owned(),
        disabled: !starts_with(name, "dlc"),
        edit: EditLink::To(edit_href(modlist_name, "dlcs", name)),
    }
}

/// A menu file; it is shown as disabled unless its name ends with `.xml`.
pub fn menu_display(name: &str, modlist_name: &str) -> (r: FolderEntry)
    ensures
        r@ == menu_entry(name@, modlist_name@),
{
    FolderEntry {
        label: name.to_owned(),
        disabled: !ends_with(name, ".xml"),
        edit: EditLink::To(edit_href(modlist_name, "menus", name)),
    }
}

/// A mod folder; it is shown as disabled unless its name starts with
/// `mod`, and it cannot be edited while its modlist is packed.
pub fn mod_display(name: &str, modlist_name: &str, is_modlist_packed: bool) -> (r: FolderEntry)
    ensures
        r@ == mod_entry(name@, modlist_name@, is_modlist_packed),
{
    let edit = if is_modlist_packed {
        EditLink::Blocked(
            "You cannot edit this file because the modlist it's in is currently packed.".to_owned(),
        )
    } else {
        EditLink::To(edit_href(modlist_name, "mods", name))
    };
    FolderEntry { label: name.to_owned(), disabled: !starts_with(name, "mod"), edit }
}

/// Any folder; one whose name starts with `~` is shown as disabled and
/// without an edit link.
pub fn folder_display(name: &str) -> (r: FolderEntry)
    ensures
        r@ == (FolderEntryView {
            label: name@,
            disabled: spec_starts_with(name@, "~"@),
            edit: if spec_starts_with(name@, "~"@) {
                EditLinkView::Absent
            } else {
                EditLinkView::Inert
            },
        }),
{
    let disabled = starts_with(name, "~");
    FolderEntry {
        label: name.to_owned(),
        disabled,
        edit: if disabled {
            EditLink::Absent
        } else {
            EditLink::Inert
        },
    }
}

/// A link to a modlist's page.
pub struct Link {
    pub href: String,
    pub label: String,
}

/// The link to the page of the modlist `name`, labelled with its name.
pub fn modlist_link(name: &str) -> (r: Link)
    ensures
        r.href@ == "/modlist/"@ + name@,
        r.label@ == name@,
{
    Link { href: "/modlist/".to_owned().concat(name), label: name.to_owned() }
}

/// Whether the menu's link to the home page is the active one: it is on
/// the page titled `root`.
pub fn menu(page_title: &str) -> (r: bool)
    ensures
        r == (page_title@ == "root"@),
{
    page_title.to_owned() == "root".to_owned()
}

} // verus!

//! Verified core of the Witcher 3 modlist manager: the model of a modlist
//! and its import list, the paths of its folders, the plans of file-system
//! work that installing, packing or initialising performs, the resolution of
//! script-merge conflicts, and the decisions behind the pages and the API.

pub mod paths;
pub mod modlist;
pub mod import_laws;
pub mod layout;
pub mod facts;
pub mod plan;
pub mod modlist_disk;
pub mod symlinks;
pub mod merge;
pub mod api;
pub mod setup;
pub mod text;
pub mod components;
pub mod pages;
pub mod assets;

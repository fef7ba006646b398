//! The requests of the web API and what each of them is answered.

use vstd::prelude::*;

verus! {

/// Form of the request that installs a modlist.
pub struct InstallModListBody {
    pub name: String,
}

/// Form of the request that creates a modlist.
pub struct CreateModListBody {
    pub modlist_name: String,
}

/// Form of the request that imports a modlist into another.
pub struct ImportModListBody {
    pub modlist_name: String,
    pub imported_name: String,
}

/// Form of the request that removes an import.
pub struct RemoveImportModListBody {
    pub modlist_name: String,
    pub imported_name: String,
}

/// Form of the request that loads the imports of a modlist.
pub struct ModListLoadImportsBody {
    pub modlist_name: String,
}

/// Form of the request that unloads the imports of a modlist.
pub struct ModListUnloadImportsBody {
    pub modlist_name: String,
}

/// Form of the request that moves an import down the load order.
pub struct MoveModListDownBody {
    pub modlist_name: String,
    pub imported_modlist_name: String,
}

/// Form of the request that moves an import up the load order.
pub struct MoveModListUpBody {
    pub modlist_name: String,
    pub imported_modlist_name: String,
}

/// Form of the request that opens a folder of a modlist.
pub struct ViewModListBody {
    pub modlist_name: String,
    pub folder_name: String,
}

/// Form of the request that merges the scripts of a modlist.
pub struct MergeModListBody {
    pub modlist_name: String,
}

/// Form of the request that raises the visibility level of a modlist.
pub struct ModlistVisibilityUpBody {
    pub modlist_name: String,
}

/// Form of the request that lowers the visibility level of a modlist.
pub struct ModlistVisibilityDownBody {
    pub modlist_name: String,
}

/// Form of the request that packs a modlist.
pub struct PackModlistBody {
    pub modlist_name: String,
}

/// Form of the request that unpacks a modlist.
pub struct UnpackModlistBody {
    pub modlist_name: String,
}

/// An error of the API, answered with status 500 and its message.
pub struct ApiError {
    message: String,
}

impl View for ApiError {
    type V = Seq<char>;

    closed spec fn view(&self) -> Seq<char> {
        self.message@
    }
}

impl ApiError {
    /// The message of the error.
    pub fn message(&self) -> (r: String)
        ensures
            r@ == self@,
    {
        self.message.clone()
    }
}

/// An error with the given message.
pub fn api_error(message: String) -> (r: ApiError)
    ensures
        r@ == message@,
{
    ApiError { message }
}

/// The answer to a request.
pub struct Reply {
    pub status: u16,
    pub content_type: String,
    pub location: Option<String>,
    pub body: String,
}

/// The mathematical value of an answer.
pub struct ReplyView {
    pub status: u16,
    pub content_type: Seq<char>,
    pub location: Option<Seq<char>>,
    pub body: Seq<char>,
}

impl View for Reply {
    type V = ReplyView;

    open spec fn view(&self) -> ReplyView {
        ReplyView {
            status: self.status,
            content_type: self.content_type@,
            location: match self.location {
                Some(l) => Some(l@),
                None => None,
            },
            body: self.body@,
        }
    }
}

/// The endpoints of the API.
#[derive(Clone, Copy, Debug, PartialEq, Eq, Structural)]
pub enum Endpoint {
    Initialize,
    Create,
    Install,
    Import,
    RemoveImport,
    LoadImports,
    UnloadImports,
    MoveImportDown,
    MoveImportUp,
    View,
    Merge,
    VisibilityUp,
    VisibilityDown,
    Pack,
    Unpack,
    Ping,
}

/// The page of the modlist named `name`.
pub open spec fn modlist_page(name: Seq<char>) -> Seq<char> {
    "/modlist/"@ + name
}

/// A plain-text answer.
pub open spec fn text_reply(status: u16, location: Option<Seq<char>>, body: Seq<char>) -> ReplyView {
    ReplyView { status, content_type: "text/plain"@, location, body }
}

/// The answer to a request about the modlist `name`, which the database does
/// not hold.
pub open spec fn not_found_reply_spec(endpoint: Endpoint, name: Seq<char>) -> ReplyView {
    match endpoint {
        Endpoint::Import | Endpoint::RemoveImport => text_reply(
            404,
            Some(modlist_page(name)),
            "no such modlist"@,
        ),
        Endpoint::LoadImports | Endpoint::UnloadImports => text_reply(
            404,
            None,
            "modlist "@ + name + " not found"@,
        ),
        _ => text_reply(404, None, "no such modlist"@),
    }
}

/// The answer to a request about the modlist `name` that succeeded.
pub open spec fn success_reply_spec(endpoint: Endpoint, name: Seq<char>) -> ReplyView {
    match endpoint {
        Endpoint::Initialize => text_reply(302, Some("/"@), "initialized"@),
        Endpoint::Create => text_reply(302, Some("/"@), "created"@),
        Endpoint::Install => text_reply(302, Some("/"@), "installed"@),
        Endpoint::Import => text_reply(302, Some(modlist_page(name)), "imported"@),
        Endpoint::RemoveImport => text_reply(302, Some(modlist_page(name)), "removed"@),
        Endpoint::LoadImports => text_reply(302, Some(modlist_page(name)), "loaded"@),
        Endpoint::UnloadImports => text_reply(302, Some(modlist_page(name)), "unloaded"@),
        Endpoint::MoveImportDown => text_reply(302, Some(modlist_page(name)), "import moved down"@),
        Endpoint::MoveImportUp => text_reply(302, Some(modlist_page(name)), "import moved up"@),
        Endpoint::View => text_reply(302, Some(modlist_page(name)), "modlist viewed"@),
        Endpoint::Merge => text_reply(302, Some(modlist_page(name)), "modlist merged"@),
        Endpoint::VisibilityUp => text_reply(302, Some(modlist_page(name)), "visibility decreased"@),
        Endpoint::VisibilityDown => text_reply(302, Some(modlist_page(name)), "visibility increased"@),
        Endpoint::Pack => text_reply(302, Some(modlist_page(name)), "modlist packed"@),
        Endpoint::Unpack => text_reply(302, Some(modlist_page(name)), "modlist unpacked"@),
        Endpoint::Ping => text_reply(302, None, ""@),
    }
}

/// What failed while serving a request.
#[derive(Clone, Copy, Debug, PartialEq, Eq, Structural)]
pub enum Failure {
    ReadMetadata,
    WriteMetadata,
    Install,
    LoadImports,
    UnloadImports,
    View,
    Merge,
    Pack,
    Unpack,
}

/// What the answer says of a failure of the modlist `name`, with the
/// error's own text `error`.
pub open spec fn failure_text(failure: Failure, name: Seq<char>, error: Seq<char>) -> Seq<char> {
    match failure {
        Failure::ReadMetadata => "could not read modlist metadata. "@ + error,
        Failure::WriteMetadata => "could not write modlist metadata. "@ + error,
        Failure::Install => "could not install modlist "@ + name + ". "@ + error,
        Failure::LoadImports => "could not load all imported modlists. "@ + error,
        Failure::UnloadImports => "could not unload all imported modlists. "@ + error,
        Failure::View => "could not view modlist. "@ + error,
        Failure::Merge => "could not merge modlist. "@ + error
            + ".\n          Make sure your scriptmerger is installed in the correct directory,\n          please refer to the written documentation about merging modlists for\n          more information"@,
        Failure::Pack => "could not pack the modlist. "@ + error,
        Failure::Unpack => "could not unpack the modlist. "@ + error,
    }
}

/// The answer to a request that failed.
pub open spec fn failure_reply_spec(failure: Failure, name: Seq<char>, error: Seq<char>) -> ReplyView {
    text_reply(500, None, "Internal server error: "@ + failure_text(failure, name, error))
}

fn text(s: &str) -> (r: String)
    ensures
        r@ == s@,
{
    s.to_owned()
}

fn page_of(name: &str) -> (r: String)
    ensures
        r@ == modlist_page(name@),
{
    text("/modlist/").concat(name)
}

fn plain(status: u16, location: Option<String>, body: String) -> (r: Reply)
    ensures
        r@ == text_reply(
            status,
            match location {
                Some(l) => Some(l@),
                None => None,
            },
            body@,
        ),
{
    Reply { status, content_type: text("text/plain"), location, body }
}

/// The answer to a request about the modlist `modlist_name`, which the
/// database does not hold.
pub fn not_found_reply(endpoint: Endpoint, modlist_name: &str) -> (r: Reply)
    ensures
        r@ == not_found_reply_spec(endpoint, modlist_name@),
{
    match endpoint {
        Endpoint::Import | Endpoint::RemoveImport => plain(
            404,
            Some(page_of(modlist_name)),
            text("no such modlist"),
        ),
        Endpoint::LoadImports | Endpoint::UnloadImports => plain(
            404,
            None,
            text("modlist ").concat(modlist_name).concat(" not found"),
        ),
        _ => plain(404, None, text("no such modlist")),
    }
}

/// The answer to a request about the modlist `modlist_name` that succeeded.
pub fn success_reply(endpoint: Endpoint, modlist_name: &str) -> (r: Reply)
    ensures
        r@ == success_reply_spec(endpoint, modlist_name@),
{
    match endpoint {
        Endpoint::Initialize => plain(302, Some(text("/")), text("initialized")),
        Endpoint::Create => plain(302, Some(text("/")), text("created")),
        Endpoint::Install => plain(302, Some(text("/")), text("installed")),
        Endpoint::Import => plain(302, Some(page_of(modlist_name)), text("imported")),
        Endpoint::RemoveImport => plain(302, Some(page_of(modlist_name)), text("removed")),
        Endpoint::LoadImports => plain(302, Some(page_of(modlist_name)), text("loaded")),
        Endpoint::UnloadImports => plain(302, Some(page_of(modlist_name)), text("unloaded")),
        Endpoint::MoveImportDown => plain(302, Some(page_of(modlist_name)), text("import moved down")),
        Endpoint::MoveImportUp => plain(302, Some(page_of(modlist_name)), text("import moved up")),
        Endpoint::View => plain(302, Some(page_of(modlist_name)), text("modlist viewed")),
        Endpoint::Merge => plain(302, Some(page_of(modlist_name)), text("modlist merged")),
        Endpoint::VisibilityUp => plain(302, Some(page_of(modlist_name)), text("visibility decreased")),
        Endpoint::VisibilityDown => plain(302, Some(page_of(modlist_name)), text("visibility increased")),
        Endpoint::Pack => plain(302, Some(page_of(modlist_name)), text("modlist packed")),
        Endpoint::Unpack => plain(302, Some(page_of(modlist_name)), text("modlist unpacked")),
        Endpoint::Ping => plain(302, None, text("")),
    }
}

/// The answer to a request about the modlist `modlist_name` that failed
/// with an error whose text is `error`.
pub fn failure_reply(failure: Failure, modlist_name: &str, error: &str) -> (r: Reply)
    ensures
        r@ == failure_reply_spec(failure, modlist_name@, error@),
{
    let detail = match failure {
        Failure::ReadMetadata => text("could not read modlist metadata. ").concat(error),
        Failure::WriteMetadata => text("could not write modlist metadata. ").concat(error),
        Failure::Install => text("could not install modlist ").concat(modlist_name).concat(". ").concat(error),
        Failure::LoadImports => text("could not load all imported modlists. ").concat(error),
        Failure::UnloadImports => text("could not unload all imported modlists. ").concat(error),
        Failure::View => text("could not view modlist. ").concat(error),
        Failure::Merge => text("could not merge modlist. ").concat(error).concat(
            ".\n          Make sure your scriptmerger is installed in the correct directory,\n          please refer to the written documentation about merging modlists for\n          more information",
        ),
        Failure::Pack => text("could not pack the modlist. ").concat(error),
        Failure::Unpack => text("could not unpack the modlist. ").concat(error),
    };
    plain(500, None, text("Internal server error: ").concat(detail.as_str()))
}

/// The answer to an API error: status 500, its message as an HTML body.
pub fn api_error_reply(e: &ApiError) -> (r: Reply)
    ensures
        r@ == (ReplyView { status: 500, content_type: "text/html; charset=utf-8"@, location: None, body: e@ }),
{
    Reply { status: 500, content_type: text("text/html; charset=utf-8"), location: None, body: e.message() }
}

} // verus!

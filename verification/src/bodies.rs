//! The JSON bodies the API calls send, and what a session download gives.

use vstd::prelude::*;
use crate::endpoint::APIEndpoint;
use crate::models::Token;

verus! {

/// The body of an error report.
#[allow(non_snake_case)]
pub struct ErrorLogBody<'a> {
    pub operatingSystem: &'a str,
    pub uniqueClientId: &'a str,
    pub clientVersion: &'a str,
    pub description: &'a str,
    pub context: &'a str,
    pub log: &'a [&'a str],
}

/// The body of a client registration.
#[allow(non_snake_case)]
pub struct RegisterClientBody<'a> {
    pub operatingSystem: &'a str,
    pub email: &'a str,
    pub password: &'a str,
    pub language: &'a str,
    pub uniqueClientId: &'a str,
}

/// The body that creates a folder.
#[allow(non_snake_case)]
pub struct CreateFolderBody<'a> {
    pub folderName: &'a str,
    pub folderPath: &'a str,
    pub encrypted: bool,
}

/// A downloaded sync session: its name, its data and its folder.
pub struct SyncSessionResponse<'a> {
    pub name: &'a str,
    pub chunk_data: Vec<u8>,
    pub folder_id: u64,
}

/// The language a client registers with.
pub open spec fn client_language() -> Seq<char> {
    "en_US"@
}

/// The endpoint and the body of an error report; it carries no token.
#[allow(non_snake_case)]
pub fn error_log_request<'a>(clientVersion: &'a str, uniqueClientId: &'a str, operatingSystem: &'a str,
    description: &'a str, context: &'a str, log: &'a [&'a str]) -> (r: (APIEndpoint<'a>, ErrorLogBody<'a>))
    ensures
        r.0 == (APIEndpoint::ErrorLog { operatingSystem, clientVersion, uniqueClientId, description, context, log }),
        r.1 == (ErrorLogBody { operatingSystem, uniqueClientId, clientVersion, description, context, log }),
{
    (
        APIEndpoint::ErrorLog { operatingSystem, clientVersion, uniqueClientId, description, context, log },
        ErrorLogBody { operatingSystem, uniqueClientId, clientVersion, description, context, log },
    )
}

/// The endpoint and the body of a client registration from the operating
/// system `operatingSystem`, in the language "en_US"; it carries no token.
#[allow(non_snake_case)]
pub fn register_client_request<'a>(uniqueClientId: &'a str, email: &'a str, password: &'a str,
    operatingSystem: &'a str) -> (r: (APIEndpoint<'a>, RegisterClientBody<'a>))
    ensures
        r.0 matches APIEndpoint::RegisterClient { email: e, password: p, operatingSystem: o, language: l, uniqueClientId: u }
            && e == email && p == password && o == operatingSystem && l@ == client_language() && u == uniqueClientId,
        r.1.operatingSystem == operatingSystem,
        r.1.email == email,
        r.1.password == password,
        r.1.language@ == client_language(),
        r.1.uniqueClientId == uniqueClientId,
{
    let language = "en_US";
    (
        APIEndpoint::RegisterClient { email, password, operatingSystem, language, uniqueClientId },
        RegisterClientBody { operatingSystem, email, password, language, uniqueClientId },
    )
}

/// The endpoint and the body that create the folder `name` at `path`: the
/// name goes to `folderName`, the path to `folderPath`.
pub fn create_folder_request<'a>(token: &'a Token, path: &'a str, name: &'a str, encrypted: bool)
    -> (r: (APIEndpoint<'a>, CreateFolderBody<'a>))
    ensures
        r.0 == (APIEndpoint::CreateFolder { token, path, name, encrypted }),
        r.1.folderName == name,
        r.1.folderPath == path,
        r.1.encrypted == encrypted,
{
    (
        APIEndpoint::CreateFolder { token, path, name, encrypted },
        CreateFolderBody { folderName: name, folderPath: path, encrypted },
    )
}

impl<'a> SyncSessionResponse<'a> {
    /// The session `name` of the folder `folder_id`, downloaded as `chunk_data`.
    pub fn new(name: &'a str, chunk_data: Vec<u8>, folder_id: u64) -> (r: SyncSessionResponse<'a>)
        ensures
            r.name == name,
            r.chunk_data@ == chunk_data@,
            r.folder_id == folder_id,
    {
        SyncSessionResponse { name, chunk_data, folder_id }
    }
}

} // verus!

//! The SafeDrive API endpoints: where each request goes and how it is sent.

use vstd::prelude::*;
use crate::models::{Configuration, Token};
use crate::text::{decimal, decimal_string, slash_count, lemma_slash_count_concat, lemma_decimal_has_no_slash, lemma_decimal_injective};

verus! {

pub const SDAPIDOMAIN_STAGING: &'static str = "staging.safedrive.io";
pub const SDAPIDOMAIN_PRODUCTION: &'static str = "safedrive.io";

/// The HTTP methods the API uses.
#[derive(PartialEq, Eq, Structural, Clone, Copy, Debug)]
pub enum HttpMethod {
    Get,
    Post,
    Delete,
    Head,
}

/// One request of the SafeDrive API, with what it carries.
#[allow(non_snake_case)]
pub enum APIEndpoint<'a> {
    ErrorLog { operatingSystem: &'a str, clientVersion: &'a str, uniqueClientId: &'a str, description: &'a str, context: &'a str, log: &'a [&'a str] },
    RegisterClient { email: &'a str, password: &'a str, operatingSystem: &'a str, language: &'a str, uniqueClientId: &'a str },
    AccountStatus { token: &'a Token },
    AccountDetails { token: &'a Token },
    AccountKey { token: &'a Token, master: &'a str, main: &'a str, hmac: &'a str, tweak: &'a str },
    ReadFolders { token: &'a Token },
    CreateFolder { token: &'a Token, path: &'a str, name: &'a str, encrypted: bool },
    DeleteFolder { token: &'a Token, folder_id: u64 },
    RegisterSyncSession { token: &'a Token, folder_id: u64, name: &'a str, encrypted: bool },
    FinishSyncSession { token: &'a Token, folder_id: u64, name: &'a str, encrypted: bool, size: usize, session_data: &'a [u8] },
    ReadSyncSession { token: &'a Token, name: &'a str, encrypted: bool },
    ReadSyncSessions { token: &'a Token, encrypted: bool },
    CheckBlock { token: &'a Token, name: &'a str },
    WriteBlock { token: &'a Token, session: &'a str, name: &'a str },
    ReadBlock { token: &'a Token, name: &'a str },
}

#[verifier::external_type_specification]
#[verifier::external_body]
pub struct ExUrl(reqwest::Url);

/// The URL that `reqwest::Url::parse` makes of `input`, or `None` where it
/// refuses the text.
pub uninterp spec fn parsed_url(input: Seq<char>) -> Option<reqwest::Url>;

/// The URL that `reqwest::Url::join` resolves `input` to against `base`, or
/// `None` where it refuses.
pub uninterp spec fn joined_url(base: reqwest::Url, input: Seq<char>) -> Option<reqwest::Url>;

/// `url` with its query replaced by the single pair `key=value`, as
/// `query_pairs_mut().clear().append_pair(key, value)` leaves it.
pub uninterp spec fn url_with_query_pair(url: reqwest::Url, key: Seq<char>, value: Seq<char>) -> reqwest::Url;

/// Calls `reqwest::Url::parse`; the result is named, a failure becomes `None`.
#[verifier::external_body]
fn parse_url(input: &str) -> (r: Option<reqwest::Url>)
    ensures
        r == parsed_url(input@),
{
    reqwest::Url::parse(input).ok()
}

/// Calls `reqwest::Url::join`; the result is named, a failure becomes `None`.
#[verifier::external_body]
fn join_url(base: &reqwest::Url, input: &str) -> (r: Option<reqwest::Url>)
    ensures
        r == joined_url(*base, input@),
{
    base.join(input).ok()
}

/// Replaces the query of `url` through `Url::query_pairs_mut`, clearing it and
/// appending the one pair; the new URL is named.
#[verifier::external_body]
fn set_single_query_pair(url: &mut reqwest::Url, key: &str, value: &str)
    ensures
        *final(url) == url_with_query_pair(*old(url), key@, value@),
{
    url.query_pairs_mut().clear().append_pair(key, value);
}

/// The host name of a deployment.
pub open spec fn domain_of(config: Configuration) -> Seq<char> {
    match config {
        Configuration::Staging => SDAPIDOMAIN_STAGING@,
        Configuration::Production => SDAPIDOMAIN_PRODUCTION@,
    }
}

/// The text the request URL is parsed from: the scheme and the host.
pub open spec fn url_base(config: Configuration) -> Seq<char> {
    "https://"@ + domain_of(config)
}

impl<'a> APIEndpoint<'a> {
    /// Whether the URL of this endpoint can be built for `config`: the
    /// base parses and the path resolves against it.
    pub open spec fn url_resolves(&self, config: Configuration) -> bool {
        &&& parsed_url(url_base(config)) is Some
        &&& joined_url(parsed_url(url_base(config))->0, self.spec_path()) is Some
    }

    /// The URL of this endpoint on the deployment `config`, where it resolves.
    pub open spec fn spec_url(&self, config: Configuration) -> reqwest::Url {
        let joined = joined_url(parsed_url(url_base(config))->0, self.spec_path())->0;
        match *self {
            APIEndpoint::DeleteFolder { folder_id, .. } =>
                url_with_query_pair(joined, "folderIds"@, decimal(folder_id as nat)),
            _ => joined,
        }
    }

    /// The method each endpoint is sent with.
    pub open spec fn spec_method(&self) -> HttpMethod {
        match *self {
            APIEndpoint::ErrorLog { .. } => HttpMethod::Post,
            APIEndpoint::RegisterClient { .. } => HttpMethod::Post,
            APIEndpoint::AccountStatus { .. } => HttpMethod::Get,
            APIEndpoint::AccountDetails { .. } => HttpMethod::Get,
            APIEndpoint::AccountKey { .. } => HttpMethod::Post,
            APIEndpoint::ReadFolders { .. } => HttpMethod::Get,
            APIEndpoint::CreateFolder { .. } => HttpMethod::Post,
            APIEndpoint::DeleteFolder { .. } => HttpMethod::Delete,
            APIEndpoint::RegisterSyncSession { .. } => HttpMethod::Post,
            APIEndpoint::FinishSyncSession { .. } => HttpMethod::Post,
            APIEndpoint::ReadSyncSession { .. } => HttpMethod::Get,
            APIEndpoint::ReadSyncSessions { .. } => HttpMethod::Get,
            APIEndpoint::CheckBlock { .. } => HttpMethod::Head,
            APIEndpoint::WriteBlock { .. } => HttpMethod::Post,
            APIEndpoint::ReadBlock { .. } => HttpMethod::Get,
        }
    }

    /// The path of each endpoint below the API host.
    pub open spec fn spec_path(&self) -> Seq<char> {
        match *self {
            APIEndpoint::ErrorLog { .. } => "/api/1/error/log"@,
            APIEndpoint::RegisterClient { .. } => "/api/1/client/register"@,
            APIEndpoint::AccountStatus { .. } => "/api/1/account/status"@,
            APIEndpoint::AccountDetails { .. } => "/api/1/account/details"@,
            APIEndpoint::AccountKey { .. } => "/api/1/account/key"@,
            APIEndpoint::ReadFolders { .. } => "/api/1/folder"@,
            APIEndpoint::CreateFolder { .. } => "/api/1/folder"@,
            APIEndpoint::DeleteFolder { .. } => "/api/1/folder"@,
            APIEndpoint::RegisterSyncSession { folder_id, name, .. } =>
                "/api/1/sync/session/register/"@ + decimal(folder_id as nat) + "/"@ + name@,
            APIEndpoint::FinishSyncSession { name, size, .. } =>
                "/api/1/sync/session/"@ + name@ + "/"@ + decimal(size as nat),
            APIEndpoint::ReadSyncSession { name, .. } => "/api/1/sync/session/"@ + name@,
            APIEndpoint::ReadSyncSessions { .. } => "/api/1/sync/session"@,
            APIEndpoint::CheckBlock { name, .. } => "/api/1/sync/block/"@ + name@,
            APIEndpoint::WriteBlock { session, name, .. } =>
                "/api/1/sync/block/"@ + name@ + "/"@ + session@,
            APIEndpoint::ReadBlock { name, .. } => "/api/1/sync/block/"@ + name@,
        }
    }

    /// The token text a request carries in its `SD-Auth-Token` header: the
    /// endpoint's own token for every endpoint that holds one, none for the
    /// error log and client registration.
    pub open spec fn spec_auth_token(&self) -> Option<Seq<char>> {
        match *self {
            APIEndpoint::ErrorLog { .. } => None,
            APIEndpoint::RegisterClient { .. } => None,
            APIEndpoint::AccountStatus { token } => Some(token.token@),
            APIEndpoint::AccountDetails { token } => Some(token.token@),
            APIEndpoint::AccountKey { token, .. } => Some(token.token@),
            APIEndpoint::ReadFolders { token } => Some(token.token@),
            APIEndpoint::CreateFolder { token, .. } => Some(token.token@),
            APIEndpoint::DeleteFolder { token, .. } => Some(token.token@),
            APIEndpoint::RegisterSyncSession { token, .. } => Some(token.token@),
            APIEndpoint::FinishSyncSession { token, .. } => Some(token.token@),
            APIEndpoint::ReadSyncSession { token, .. } => Some(token.token@),
            APIEndpoint::ReadSyncSessions { token, .. } => Some(token.token@),
            APIEndpoint::CheckBlock { token, .. } => Some(token.token@),
            APIEndpoint::WriteBlock { token, .. } => Some(token.token@),
            APIEndpoint::ReadBlock { token, .. } => Some(token.token@),
        }
    }

    /// The value of the `SD-Auth-Token` header this request is sent with, if any.
    pub fn auth_token(&self) -> (t: Option<String>)
        ensures
            match t {
                Some(text) => self.spec_auth_token() == Some(text@),
                None => self.spec_auth_token() is None,
            },
            (*self is ErrorLog || *self is RegisterClient) ==> t is None,
            *self matches APIEndpoint::AccountStatus { token, .. } ==> (t matches Some(text) && text@ == token.token@),
            *self matches APIEndpoint::AccountDetails { token, .. } ==> (t matches Some(text) && text@ == token.token@),
            *self matches APIEndpoint::AccountKey { token, .. } ==> (t matches Some(text) && text@ == token.token@),
            *self matches APIEndpoint::ReadFolders { token, .. } ==> (t matches Some(text) && text@ == token.token@),
            *self matches APIEndpoint::CreateFolder { token, .. } ==> (t matches Some(text) && text@ == token.token@),
            *self matches APIEndpoint::DeleteFolder { token, .. } ==> (t matches Some(text) && text@ == token.token@),
            *self matches APIEndpoint::RegisterSyncSession { token, .. } ==> (t matches Some(text) && text@ == token.token@),
            *self matches APIEndpoint::FinishSyncSession { token, .. } ==> (t matches Some(text) && text@ == token.token@),
            *self matches APIEndpoint::ReadSyncSession { token, .. } ==> (t matches Some(text) && text@ == token.token@),
            *self matches APIEndpoint::ReadSyncSessions { token, .. } ==> (t matches Some(text) && text@ == token.token@),
            *self matches APIEndpoint::CheckBlock { token, .. } ==> (t matches Some(text) && text@ == token.token@),
            *self matches APIEndpoint::WriteBlock { token, .. } ==> (t matches Some(text) && text@ == token.token@),
            *self matches APIEndpoint::ReadBlock { token, .. } ==> (t matches Some(text) && text@ == token.token@),
    {
        match *self {
            APIEndpoint::ErrorLog { .. } => None,
            APIEndpoint::RegisterClient { .. } => None,
            APIEndpoint::AccountStatus { token } => Some(token.token.clone()),
            APIEndpoint::AccountDetails { token } => Some(token.token.clone()),
            APIEndpoint::AccountKey { token, .. } => Some(token.token.clone()),
            APIEndpoint::ReadFolders { token } => Some(token.token.clone()),
            APIEndpoint::CreateFolder { token, .. } => Some(token.token.clone()),
            APIEndpoint::DeleteFolder { token, .. } => Some(token.token.clone()),
            APIEndpoint::RegisterSyncSession { token, .. } => Some(token.token.clone()),
            APIEndpoint::FinishSyncSession { token, .. } => Some(token.token.clone()),
            APIEndpoint::ReadSyncSession { token, .. } => Some(token.token.clone()),
            APIEndpoint::ReadSyncSessions { token, .. } => Some(token.token.clone()),
            APIEndpoint::CheckBlock { token, .. } => Some(token.token.clone()),
            APIEndpoint::WriteBlock { token, .. } => Some(token.token.clone()),
            APIEndpoint::ReadBlock { token, .. } => Some(token.token.clone()),
        }
    }

    /// The scheme every request uses.
    pub fn protocol(&self) -> (s: String)
        ensures
            s@ == "https://"@,
    {
        String::from_str("https://")
    }

    /// The host of the deployment `config`.
    pub fn domain(&self, config: &Configuration) -> (s: String)
        ensures
            s@ == domain_of(*config),
    {
        match config {
            Configuration::Staging => String::from_str(SDAPIDOMAIN_STAGING),
            Configuration::Production => String::from_str(SDAPIDOMAIN_PRODUCTION),
        }
    }

    /// The HTTP method of this endpoint.
    pub fn method(&self) -> (m: HttpMethod)
        ensures
            m == self.spec_method(),
    {
        match *self {
            APIEndpoint::ErrorLog { .. } => HttpMethod::Post,
            APIEndpoint::RegisterClient { .. } => HttpMethod::Post,
            APIEndpoint::AccountStatus { .. } => HttpMethod::Get,
            APIEndpoint::AccountDetails { .. } => HttpMethod::Get,
            APIEndpoint::AccountKey { .. } => HttpMethod::Post,
            APIEndpoint::ReadFolders { .. } => HttpMethod::Get,
            APIEndpoint::CreateFolder { .. } => HttpMethod::Post,
            APIEndpoint::DeleteFolder { .. } => HttpMethod::Delete,
            APIEndpoint::RegisterSyncSession { .. } => HttpMethod::Post,
            APIEndpoint::FinishSyncSession { .. } => HttpMethod::Post,
            APIEndpoint::ReadSyncSession { .. } => HttpMethod::Get,
            APIEndpoint::ReadSyncSessions { .. } => HttpMethod::Get,
            APIEndpoint::CheckBlock { .. } => HttpMethod::Head,
            APIEndpoint::WriteBlock { .. } => HttpMethod::Post,
            APIEndpoint::ReadBlock { .. } => HttpMethod::Get,
        }
    }

    /// The path of this endpoint, with its identifiers filled in.
    pub fn path(&self) -> (s: String)
        ensures
            s@ == self.spec_path(),
            *self is ErrorLog ==> s@ == "/api/1/error/log"@,
            *self is RegisterClient ==> s@ == "/api/1/client/register"@,
            *self is AccountStatus ==> s@ == "/api/1/account/status"@,
            *self is AccountDetails ==> s@ == "/api/1/account/details"@,
            *self is AccountKey ==> s@ == "/api/1/account/key"@,
            (*self is ReadFolders || *self is CreateFolder || *self is DeleteFolder) ==> s@ == "/api/1/folder"@,
            *self matches APIEndpoint::RegisterSyncSession { folder_id, name, .. }
                ==> s@ == "/api/1/sync/session/register/"@ + decimal(folder_id as nat) + "/"@ + name@,
            *self matches APIEndpoint::FinishSyncSession { name, size, .. }
                ==> s@ == "/api/1/sync/session/"@ + name@ + "/"@ + decimal(size as nat),
            *self matches APIEndpoint::ReadSyncSession { name, .. } ==> s@ == "/api/1/sync/session/"@ + name@,
            *self is ReadSyncSessions ==> s@ == "/api/1/sync/session"@,
            *self matches APIEndpoint::CheckBlock { name, .. } ==> s@ == "/api/1/sync/block/"@ + name@,
            *self matches APIEndpoint::ReadBlock { name, .. } ==> s@ == "/api/1/sync/block/"@ + name@,
            *self matches APIEndpoint::WriteBlock { session, name, .. }
                ==> s@ == "/api/1/sync/block/"@ + name@ + "/"@ + session@,
    {
        match *self {
            APIEndpoint::ErrorLog { .. } => String::from_str("/api/1/error/log"),
            APIEndpoint::RegisterClient { .. } => String::from_str("/api/1/client/register"),
            APIEndpoint::AccountStatus { .. } => String::from_str("/api/1/account/status"),
            APIEndpoint::AccountDetails { .. } => String::from_str("/api/1/account/details"),
            APIEndpoint::AccountKey { .. } => String::from_str("/api/1/account/key"),
            APIEndpoint::ReadFolders { .. } => String::from_str("/api/1/folder"),
            APIEndpoint::CreateFolder { .. } => String::from_str("/api/1/folder"),
            APIEndpoint::DeleteFolder { .. } => String::from_str("/api/1/folder"),
            APIEndpoint::RegisterSyncSession { folder_id, name, .. } => {
                let id = decimal_string(folder_id);
                String::from_str("/api/1/sync/session/register/").concat(id.as_str()).concat("/").concat(name)
            },
            APIEndpoint::FinishSyncSession { name, size, .. } => {
                let size_text = decimal_string(size as u64);
                String::from_str("/api/1/sync/session/").concat(name).concat("/").concat(size_text.as_str())
            },
            APIEndpoint::ReadSyncSession { name, .. } => String::from_str("/api/1/sync/session/").concat(name),
            APIEndpoint::ReadSyncSessions { .. } => String::from_str("/api/1/sync/session"),
            APIEndpoint::CheckBlock { name, .. } => String::from_str("/api/1/sync/block/").concat(name),
            APIEndpoint::WriteBlock { session, name, .. } =>
                String::from_str("/api/1/sync/block/").concat(name).concat("/").concat(session),
            APIEndpoint::ReadBlock { name, .. } => String::from_str("/api/1/sync/block/").concat(name),
        }
    }

    /// The full URL of this endpoint on the deployment `config`.
    pub fn url(&self, config: &Configuration) -> (u: reqwest::Url)
        requires
            self.url_resolves(*config),
        ensures
            u == self.spec_url(*config),
            *self matches APIEndpoint::DeleteFolder { folder_id, .. } ==> u == url_with_query_pair(
                joined_url(parsed_url("https://"@ + domain_of(*config))->0, "/api/1/folder"@)->0,
                "folderIds"@,
                decimal(folder_id as nat),
            ),
            !(*self is DeleteFolder) ==> u == joined_url(parsed_url("https://"@ + domain_of(*config))->0, self.spec_path())->0,
    {
        let base = self.protocol().concat(self.domain(config).as_str());
        let parsed = parse_url(base.as_str());
        let url_base = match parsed {
            Some(u) => u,
            None => vstd::pervasive::unreached(),
        };
        let path = self.path();
        let joined = join_url(&url_base, path.as_str());
        let mut url = match joined {
            Some(u) => u,
            None => vstd::pervasive::unreached(),
        };
        match *self {
            APIEndpoint::DeleteFolder { folder_id, .. } => {
                let id = decimal_string(folder_id);
                set_single_query_pair(&mut url, "folderIds", id.as_str());
            },
            _ => {},
        }
        url
    }

    /// The full URL of this endpoint on `config`, or `None` where the base
    /// does not parse or the path does not resolve.
    pub fn checked_url(&self, config: &Configuration) -> (u: Option<reqwest::Url>)
        ensures
            u is Some <==> self.url_resolves(*config),
            u is Some ==> u->0 == self.spec_url(*config),
            *self matches APIEndpoint::DeleteFolder { folder_id, .. } ==> u is Some ==> u->0 == url_with_query_pair(
                joined_url(parsed_url("https://"@ + domain_of(*config))->0, "/api/1/folder"@)->0,
                "folderIds"@,
                decimal(folder_id as nat),
            ),
            !(*self is DeleteFolder) ==> u is Some ==> u->0 == joined_url(parsed_url("https://"@ + domain_of(*config))->0, self.spec_path())->0,
    {
        let base = self.protocol().concat(self.domain(config).as_str());
        match parse_url(base.as_str()) {
            None => None,
            Some(url_base) => {
                let path = self.path();
                match join_url(&url_base, path.as_str()) {
                    None => None,
                    Some(_) => Some(self.url(config)),
                }
            },
        }
    }
}

/// Every endpoint lives under version 1 of the API: its path starts with
/// `/api/1/`.
pub proof fn lemma_paths_under_api_root(e: APIEndpoint)
    ensures
        e.spec_path().len() >= 7,
        e.spec_path().subrange(0, 7) == "/api/1/"@,
{
    reveal_strlit("/api/1/error/log");
    reveal_strlit("/api/1/client/register");
    reveal_strlit("/api/1/account/status");
    reveal_strlit("/api/1/account/details");
    reveal_strlit("/api/1/account/key");
    reveal_strlit("/api/1/folder");
    reveal_strlit("/api/1/sync/session/register/");
    reveal_strlit("/api/1/sync/session/");
    reveal_strlit("/api/1/sync/session");
    reveal_strlit("/api/1/sync/block/");
    reveal_strlit("/api/1/");
    let p = e.spec_path();
    assert(p.subrange(0, 7) =~= "/api/1/"@);
}

/// Checking for a block and reading it address the same resource, by HEAD
/// and by GET; writing it addresses that resource followed by the session.
pub proof fn lemma_block_endpoints_share_resource(token: &Token, name: &str, session: &str)
    ensures
        (APIEndpoint::CheckBlock { token, name }).spec_path()
            == (APIEndpoint::ReadBlock { token, name }).spec_path(),
        (APIEndpoint::CheckBlock { token, name }).spec_method() == HttpMethod::Head,
        (APIEndpoint::ReadBlock { token, name }).spec_method() == HttpMethod::Get,
        (APIEndpoint::WriteBlock { token, session, name }).spec_path()
            == (APIEndpoint::ReadBlock { token, name }).spec_path() + "/"@ + session@,
        (APIEndpoint::WriteBlock { token, session, name }).spec_method() == HttpMethod::Post,
{
}

/// Reading, creating and deleting folders address one collection, with GET,
/// POST and DELETE.
pub proof fn lemma_folder_endpoints_share_collection(token: &Token, path: &str, name: &str, encrypted: bool, folder_id: u64)
    ensures
        (APIEndpoint::ReadFolders { token }).spec_path() == "/api/1/folder"@,
        (APIEndpoint::CreateFolder { token, path, name, encrypted }).spec_path() == "/api/1/folder"@,
        (APIEndpoint::DeleteFolder { token, folder_id }).spec_path() == "/api/1/folder"@,
        (APIEndpoint::ReadFolders { token }).spec_method() == HttpMethod::Get,
        (APIEndpoint::CreateFolder { token, path, name, encrypted }).spec_method() == HttpMethod::Post,
        (APIEndpoint::DeleteFolder { token, folder_id }).spec_method() == HttpMethod::Delete,
{
}

/// The kinds of request the API knows, one per endpoint.
#[derive(PartialEq, Eq, Structural, Clone, Copy, Debug)]
pub enum EndpointKind {
    ErrorLog,
    RegisterClient,
    AccountStatus,
    AccountDetails,
    AccountKey,
    ReadFolders,
    CreateFolder,
    DeleteFolder,
    RegisterSyncSession,
    FinishSyncSession,
    ReadSyncSession,
    ReadSyncSessions,
    CheckBlock,
    WriteBlock,
    ReadBlock,
}

/// The kind of an endpoint.
pub open spec fn kind_of(e: APIEndpoint) -> EndpointKind {
    match e {
        APIEndpoint::ErrorLog { .. } => EndpointKind::ErrorLog,
        APIEndpoint::RegisterClient { .. } => EndpointKind::RegisterClient,
        APIEndpoint::AccountStatus { .. } => EndpointKind::AccountStatus,
        APIEndpoint::AccountDetails { .. } => EndpointKind::AccountDetails,
        APIEndpoint::AccountKey { .. } => EndpointKind::AccountKey,
        APIEndpoint::ReadFolders { .. } => EndpointKind::ReadFolders,
        APIEndpoint::CreateFolder { .. } => EndpointKind::CreateFolder,
        APIEndpoint::DeleteFolder { .. } => EndpointKind::DeleteFolder,
        APIEndpoint::RegisterSyncSession { .. } => EndpointKind::RegisterSyncSession,
        APIEndpoint::FinishSyncSession { .. } => EndpointKind::FinishSyncSession,
        APIEndpoint::ReadSyncSession { .. } => EndpointKind::ReadSyncSession,
        APIEndpoint::ReadSyncSessions { .. } => EndpointKind::ReadSyncSessions,
        APIEndpoint::CheckBlock { .. } => EndpointKind::CheckBlock,
        APIEndpoint::WriteBlock { .. } => EndpointKind::WriteBlock,
        APIEndpoint::ReadBlock { .. } => EndpointKind::ReadBlock,
    }
}

/// The names and sessions that an endpoint puts into its path hold no '/'.
pub open spec fn path_names_without_slash(e: APIEndpoint) -> bool {
    match e {
        APIEndpoint::RegisterSyncSession { name, .. } => slash_count(name@) == 0,
        APIEndpoint::FinishSyncSession { name, .. } => slash_count(name@) == 0,
        APIEndpoint::ReadSyncSession { name, .. } => slash_count(name@) == 0,
        APIEndpoint::CheckBlock { name, .. } => slash_count(name@) == 0,
        APIEndpoint::WriteBlock { session, name, .. } => slash_count(name@) == 0 && slash_count(session@) == 0,
        APIEndpoint::ReadBlock { name, .. } => slash_count(name@) == 0,
        _ => true,
    }
}

/// Which endpoint a request with method `m` and path `p` was made for: read
/// from the method, the first letters of the path's segments, its length and
/// its slashes.
pub open spec fn kind_of_request(m: HttpMethod, p: Seq<char>) -> EndpointKind {
    match m {
        HttpMethod::Delete => EndpointKind::DeleteFolder,
        HttpMethod::Head => EndpointKind::CheckBlock,
        HttpMethod::Post => {
            if p[7] == 'e' { EndpointKind::ErrorLog }
            else if p[7] == 'c' { EndpointKind::RegisterClient }
            else if p[7] == 'a' { EndpointKind::AccountKey }
            else if p[7] == 'f' { EndpointKind::CreateFolder }
            else if p[12] == 'b' { EndpointKind::WriteBlock }
            else if slash_count(p.subrange(20, p.len() as int)) == 2 { EndpointKind::RegisterSyncSession }
            else { EndpointKind::FinishSyncSession }
        },
        HttpMethod::Get => {
            if p[7] == 'a' {
                if p[15] == 's' { EndpointKind::AccountStatus } else { EndpointKind::AccountDetails }
            }
            else if p[7] == 'f' { EndpointKind::ReadFolders }
            else if p[12] == 'b' { EndpointKind::ReadBlock }
            else if p.len() == 19 { EndpointKind::ReadSyncSessions }
            else { EndpointKind::ReadSyncSession }
        },
    }
}

proof fn lemma_single_slash(c: char)
    ensures
        slash_count(seq![c]) == if c == '/' { 1nat } else { 0nat },
{
    assert(seq![c].drop_last() =~= Seq::<char>::empty());
    reveal_with_fuel(slash_count, 2);
}

/// The method and the path of a request tell which endpoint it was made for,
/// provided the names in the path hold no '/'.
pub proof fn lemma_request_identifies_endpoint(e: APIEndpoint)
    requires
        path_names_without_slash(e),
    ensures
        kind_of_request(e.spec_method(), e.spec_path()) == kind_of(e),
{
    reveal_strlit("/api/1/error/log");
    reveal_strlit("/api/1/client/register");
    reveal_strlit("/api/1/account/status");
    reveal_strlit("/api/1/account/details");
    reveal_strlit("/api/1/account/key");
    reveal_strlit("/api/1/folder");
    reveal_strlit("/api/1/sync/session/register/");
    reveal_strlit("/api/1/sync/session/");
    reveal_strlit("/api/1/sync/session");
    reveal_strlit("/api/1/sync/block/");
    reveal_strlit("/");
    reveal_strlit("register/");
    match e {
        APIEndpoint::RegisterSyncSession { folder_id, name, .. } => {
            let p = e.spec_path();
            let tail = "register/"@ + decimal(folder_id as nat) + "/"@ + name@;
            assert(p.subrange(20, p.len() as int) =~= tail);
            lemma_decimal_has_no_slash(folder_id as nat);
            lemma_single_slash('/');
            assert("/"@ =~= seq!['/']);
            lemma_slash_count_concat("register/"@, decimal(folder_id as nat));
            lemma_slash_count_concat("register/"@ + decimal(folder_id as nat), "/"@);
            lemma_slash_count_concat("register/"@ + decimal(folder_id as nat) + "/"@, name@);
            reveal_with_fuel(slash_count, 10);
            assert(slash_count("register/"@) == 1);
        },
        APIEndpoint::FinishSyncSession { name, size, .. } => {
            let p = e.spec_path();
            let tail = name@ + "/"@ + decimal(size as nat);
            assert(p.subrange(20, p.len() as int) =~= tail);
            lemma_decimal_has_no_slash(size as nat);
            lemma_single_slash('/');
            assert("/"@ =~= seq!['/']);
            lemma_slash_count_concat(name@, "/"@);
            lemma_slash_count_concat(name@ + "/"@, decimal(size as nat));
        },
        _ => {},
    }
}

/// Two endpoints of different kinds never send the same request: they
/// differ in method or in path, provided the names in their paths hold no
/// '/'.
pub proof fn lemma_distinct_endpoints_distinct_requests(e1: APIEndpoint, e2: APIEndpoint)
    requires
        path_names_without_slash(e1),
        path_names_without_slash(e2),
        kind_of(e1) != kind_of(e2),
    ensures
        (e1.spec_method(), e1.spec_path()) != (e2.spec_method(), e2.spec_path()),
{
    lemma_request_identifies_endpoint(e1);
    lemma_request_identifies_endpoint(e2);
}

/// Every request of an endpoint that holds a token is authenticated with
/// exactly that token's text; the error log and client registration carry
/// none.
pub proof fn lemma_requests_carry_their_token(e: APIEndpoint)
    ensures
        (e is ErrorLog || e is RegisterClient) <==> e.spec_auth_token() is None,
        e matches APIEndpoint::AccountStatus { token, .. } ==> e.spec_auth_token() == Some(token.token@),
        e matches APIEndpoint::AccountDetails { token, .. } ==> e.spec_auth_token() == Some(token.token@),
        e matches APIEndpoint::AccountKey { token, .. } ==> e.spec_auth_token() == Some(token.token@),
        e matches APIEndpoint::ReadFolders { token, .. } ==> e.spec_auth_token() == Some(token.token@),
        e matches APIEndpoint::CreateFolder { token, .. } ==> e.spec_auth_token() == Some(token.token@),
        e matches APIEndpoint::DeleteFolder { token, .. } ==> e.spec_auth_token() == Some(token.token@),
        e matches APIEndpoint::RegisterSyncSession { token, .. } ==> e.spec_auth_token() == Some(token.token@),
        e matches APIEndpoint::FinishSyncSession { token, .. } ==> e.spec_auth_token() == Some(token.token@),
        e matches APIEndpoint::ReadSyncSession { token, .. } ==> e.spec_auth_token() == Some(token.token@),
        e matches APIEndpoint::ReadSyncSessions { token, .. } ==> e.spec_auth_token() == Some(token.token@),
        e matches APIEndpoint::CheckBlock { token, .. } ==> e.spec_auth_token() == Some(token.token@),
        e matches APIEndpoint::WriteBlock { token, .. } ==> e.spec_auth_token() == Some(token.token@),
        e matches APIEndpoint::ReadBlock { token, .. } ==> e.spec_auth_token() == Some(token.token@),
{
}

/// A block endpoint addresses the whole block name: its path is the block
/// prefix (18 characters) followed by the name, and for a write by `/` and
/// the session; the name reads back from the path.
pub proof fn lemma_block_paths_hold_the_name(e: APIEndpoint)
    ensures
        e matches APIEndpoint::CheckBlock { name, .. } ==> e.spec_path() == "/api/1/sync/block/"@ + name@
            && e.spec_path().subrange(18, e.spec_path().len() as int) == name@,
        e matches APIEndpoint::ReadBlock { name, .. } ==> e.spec_path() == "/api/1/sync/block/"@ + name@
            && e.spec_path().subrange(18, e.spec_path().len() as int) == name@,
        e matches APIEndpoint::WriteBlock { session, name, .. } ==> e.spec_path() == "/api/1/sync/block/"@ + name@ + "/"@ + session@
            && e.spec_path().subrange(18, 18 + name@.len() as int) == name@,
{
    reveal_strlit("/api/1/sync/block/");
    match e {
        APIEndpoint::CheckBlock { name, .. } => {
            assert(e.spec_path().subrange(18, e.spec_path().len() as int) =~= name@);
        },
        APIEndpoint::ReadBlock { name, .. } => {
            assert(e.spec_path().subrange(18, e.spec_path().len() as int) =~= name@);
        },
        APIEndpoint::WriteBlock { name, .. } => {
            assert(e.spec_path().subrange(18, 18 + name@.len() as int) =~= name@);
        },
        _ => {},
    }
}

/// Deleting a folder names it in full: the URL's query is the single pair
/// `folderIds` = the folder id in decimal, so two deletions with the same URL
/// on the same deployment delete the same folder.
pub proof fn lemma_delete_folder_url_names_the_folder(token: &Token, folder_id: u64, other_token: &Token, other_id: u64, config: Configuration)
    ensures
        (APIEndpoint::DeleteFolder { token, folder_id }).spec_url(config) == url_with_query_pair(
            joined_url(parsed_url("https://"@ + domain_of(config))->0, "/api/1/folder"@)->0,
            "folderIds"@,
            decimal(folder_id as nat),
        ),
        decimal(folder_id as nat) == decimal(other_id as nat) ==> folder_id == other_id,
{
    lemma_decimal_injective(folder_id as nat, other_id as nat);
}

} // verus!

use safedrive::endpoint::{APIEndpoint, HttpMethod, SDAPIDOMAIN_PRODUCTION, SDAPIDOMAIN_STAGING};
use safedrive::models::{Configuration, Token};
use safedrive::text::decimal_string;

fn token() -> Token {
    Token { token: "SECRET-REDACTED".to_string() }
}

#[test]
fn decimal_string_renders_like_display() {
    assert_eq!(decimal_string(0), "0");
    assert_eq!(decimal_string(7), "7");
    assert_eq!(decimal_string(10), "10");
    assert_eq!(decimal_string(1234567890123), "1234567890123");
    assert_eq!(decimal_string(u64::MAX), u64::MAX.to_string());
}

#[test]
fn protocol_and_domain() {
    let t = token();
    let e = APIEndpoint::ReadFolders { token: &t };
    assert_eq!(e.protocol(), "https://");
    assert_eq!(e.domain(&Configuration::Production), SDAPIDOMAIN_PRODUCTION);
    assert_eq!(e.domain(&Configuration::Staging), SDAPIDOMAIN_STAGING);
}

#[test]
fn fixed_paths_and_methods() {
    let t = token();
    let log: [&str; 2] = ["line one", "line two"];
    let cases: Vec<(APIEndpoint, &str, HttpMethod)> = vec![
        (APIEndpoint::ErrorLog { operatingSystem: "linux", clientVersion: "0.1", uniqueClientId: "id", description: "d", context: "c", log: &log }, "/api/1/error/log", HttpMethod::Post),
        (APIEndpoint::RegisterClient { email: "a@b.c", password: "pw", operatingSystem: "linux", language: "en_US", uniqueClientId: "id" }, "/api/1/client/register", HttpMethod::Post),
        (APIEndpoint::AccountStatus { token: &t }, "/api/1/account/status", HttpMethod::Get),
        (APIEndpoint::AccountDetails { token: &t }, "/api/1/account/details", HttpMethod::Get),
        (APIEndpoint::AccountKey { token: &t, master: "aa", main: "bb", hmac: "cc", tweak: "dd" }, "/api/1/account/key", HttpMethod::Post),
        (APIEndpoint::ReadFolders { token: &t }, "/api/1/folder", HttpMethod::Get),
        (APIEndpoint::CreateFolder { token: &t, path: "/home/u/docs", name: "docs", encrypted: true }, "/api/1/folder", HttpMethod::Post),
        (APIEndpoint::DeleteFolder { token: &t, folder_id: 5 }, "/api/1/folder", HttpMethod::Delete),
        (APIEndpoint::ReadSyncSessions { token: &t, encrypted: true }, "/api/1/sync/session", HttpMethod::Get),
    ];
    for (endpoint, path, method) in cases {
        assert_eq!(endpoint.path(), path);
        assert_eq!(endpoint.method(), method);
    }
}

#[test]
fn session_paths_carry_identifiers() {
    let t = token();
    let register = APIEndpoint::RegisterSyncSession { token: &t, folder_id: 42, name: "session-a", encrypted: true };
    assert_eq!(register.path(), "/api/1/sync/session/register/42/session-a");
    assert_eq!(register.method(), HttpMethod::Post);

    let data = [1u8, 2, 3];
    let finish = APIEndpoint::FinishSyncSession { token: &t, folder_id: 42, name: "session-a", encrypted: true, size: 9001, session_data: &data };
    assert_eq!(finish.path(), "/api/1/sync/session/session-a/9001");
    assert_eq!(finish.method(), HttpMethod::Post);

    let read = APIEndpoint::ReadSyncSession { token: &t, name: "session-a", encrypted: true };
    assert_eq!(read.path(), "/api/1/sync/session/session-a");
    assert_eq!(read.method(), HttpMethod::Get);
}

#[test]
fn block_paths_share_the_resource() {
    let t = token();
    let check = APIEndpoint::CheckBlock { token: &t, name: "abc123" };
    let read = APIEndpoint::ReadBlock { token: &t, name: "abc123" };
    let write = APIEndpoint::WriteBlock { token: &t, session: "session-a", name: "abc123" };
    assert_eq!(check.path(), "/api/1/sync/block/abc123");
    assert_eq!(read.path(), check.path());
    assert_eq!(write.path(), "/api/1/sync/block/abc123/session-a");
    assert_eq!(check.method(), HttpMethod::Head);
    assert_eq!(read.method(), HttpMethod::Get);
    assert_eq!(write.method(), HttpMethod::Post);
}

#[test]
fn every_path_is_under_api_root() {
    let t = token();
    let endpoints = vec![
        APIEndpoint::AccountStatus { token: &t },
        APIEndpoint::RegisterSyncSession { token: &t, folder_id: 0, name: "n", encrypted: false },
        APIEndpoint::WriteBlock { token: &t, session: "s", name: "n" },
    ];
    for e in endpoints {
        assert!(e.path().starts_with("/api/1/"));
    }
}

#[test]
fn urls_join_base_and_path() {
    let t = token();
    let e = APIEndpoint::ReadFolders { token: &t };
    assert_eq!(e.url(&Configuration::Production).as_str(), "https://safedrive.io/api/1/folder");
    assert_eq!(e.url(&Configuration::Staging).as_str(), "https://staging.safedrive.io/api/1/folder");
    let b = APIEndpoint::WriteBlock { token: &t, session: "s1", name: "b1" };
    assert_eq!(b.url(&Configuration::Production).as_str(), "https://safedrive.io/api/1/sync/block/b1/s1");
}

#[test]
fn delete_folder_url_names_the_folder_in_the_query() {
    let t = token();
    let e = APIEndpoint::DeleteFolder { token: &t, folder_id: 77 };
    assert_eq!(e.url(&Configuration::Production).as_str(), "https://safedrive.io/api/1/folder?folderIds=77");
    let checked = e.checked_url(&Configuration::Production).expect("url resolves");
    assert_eq!(checked.as_str(), "https://safedrive.io/api/1/folder?folderIds=77");
}

#[test]
fn method_and_path_tell_endpoints_apart() {
    let t = token();
    let data = [0u8];
    let log: [&str; 0] = [];
    let endpoints = vec![
        APIEndpoint::ErrorLog { operatingSystem: "", clientVersion: "", uniqueClientId: "", description: "", context: "", log: &log },
        APIEndpoint::RegisterClient { email: "", password: "", operatingSystem: "", language: "en_US", uniqueClientId: "" },
        APIEndpoint::AccountStatus { token: &t },
        APIEndpoint::AccountDetails { token: &t },
        APIEndpoint::AccountKey { token: &t, master: "", main: "", hmac: "", tweak: "" },
        APIEndpoint::ReadFolders { token: &t },
        APIEndpoint::CreateFolder { token: &t, path: "", name: "", encrypted: true },
        APIEndpoint::DeleteFolder { token: &t, folder_id: 1 },
        APIEndpoint::RegisterSyncSession { token: &t, folder_id: 5, name: "x", encrypted: true },
        APIEndpoint::FinishSyncSession { token: &t, folder_id: 5, name: "register", encrypted: true, size: 5, session_data: &data },
        APIEndpoint::ReadSyncSession { token: &t, name: "", encrypted: true },
        APIEndpoint::ReadSyncSessions { token: &t, encrypted: true },
        APIEndpoint::CheckBlock { token: &t, name: "b" },
        APIEndpoint::WriteBlock { token: &t, session: "s", name: "b" },
        APIEndpoint::ReadBlock { token: &t, name: "b" },
    ];
    let requests: Vec<(HttpMethod, String)> = endpoints.iter().map(|e| (e.method(), e.path())).collect();
    for i in 0..requests.len() {
        for j in 0..requests.len() {
            if i != j {
                assert_ne!(requests[i], requests[j]);
            }
        }
    }
}

#[test]
fn auth_token_header_per_endpoint() {
    let t = token();
    let log: [&str; 0] = [];
    assert_eq!(APIEndpoint::ErrorLog { operatingSystem: "", clientVersion: "", uniqueClientId: "", description: "", context: "", log: &log }.auth_token(), None);
    assert_eq!(APIEndpoint::RegisterClient { email: "", password: "", operatingSystem: "", language: "en_US", uniqueClientId: "" }.auth_token(), None);
    assert_eq!(APIEndpoint::AccountStatus { token: &t }.auth_token(), Some("SECRET-REDACTED".to_string()));
    assert_eq!(APIEndpoint::WriteBlock { token: &t, session: "s", name: "b" }.auth_token(), Some("SECRET-REDACTED".to_string()));
    assert_eq!(APIEndpoint::DeleteFolder { token: &t, folder_id: 3 }.auth_token(), Some("SECRET-REDACTED".to_string()));
}

#[test]
fn request_bodies() {
    let t = token();
    let (endpoint, body) = safedrive::bodies::create_folder_request(&t, "/home/u/docs", "docs", true);
    assert_eq!(endpoint.path(), "/api/1/folder");
    assert_eq!(endpoint.method(), HttpMethod::Post);
    assert_eq!(body.folderName, "docs");
    assert_eq!(body.folderPath, "/home/u/docs");
    assert!(body.encrypted);

    let (endpoint, body) = safedrive::bodies::register_client_request("id-1", "a@b.c", "pw", "linux");
    assert_eq!(endpoint.path(), "/api/1/client/register");
    assert_eq!(endpoint.auth_token(), None);
    assert_eq!(body.language, "en_US");
    assert_eq!((body.operatingSystem, body.email, body.password, body.uniqueClientId), ("linux", "a@b.c", "pw", "id-1"));

    let log = ["one"];
    let (endpoint, body) = safedrive::bodies::error_log_request("0.1", "id-1", "linux", "crash", "sync", &log);
    assert_eq!(endpoint.path(), "/api/1/error/log");
    assert_eq!((body.clientVersion, body.uniqueClientId, body.operatingSystem, body.description, body.context), ("0.1", "id-1", "linux", "crash", "sync"));
    assert_eq!(body.log, &log[..]);

    let r = safedrive::bodies::SyncSessionResponse::new("s", vec![1, 2], 9);
    assert_eq!((r.name, r.chunk_data, r.folder_id), ("s", vec![1, 2], 9));
}

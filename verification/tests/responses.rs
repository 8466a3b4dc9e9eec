use safedrive::error::SDAPIError;
use safedrive::responses::{
    authorized_response, check_block_response, read_block_response, read_session_response,
    report_error_response, session_upload_response, write_block_response,
};
use safedrive::status::status_text;

fn internal(r: Result<(), SDAPIError>) -> String {
    match r {
        Err(SDAPIError::Internal(m)) => m,
        other => panic!("expected an internal error, got {:?}", other),
    }
}

#[test]
fn status_text_has_number_and_reason() {
    assert_eq!(status_text(200), "200 OK");
    assert_eq!(status_text(404), "404 Not Found");
    assert_eq!(status_text(500), "500 Internal Server Error");
    assert_eq!(status_text(799), "799 <unknown status code>");
    assert_eq!(status_text(42), "42 <unknown status code>");
}

#[test]
fn report_error_accepts_only_ok() {
    assert!(report_error_response(200, "").is_ok());
    assert_eq!(internal(report_error_response(401, "no")), "unexpected response(HTTP401 Unauthorized): no");
    assert_eq!(internal(report_error_response(201, "")), "unexpected response(HTTP201 Created): ");
}

#[test]
fn authorized_calls() {
    assert!(authorized_response(200, "{}").is_ok());
    assert!(matches!(authorized_response(401, ""), Err(SDAPIError::Authentication)));
    assert_eq!(internal(authorized_response(500, "oops")), "unexpected response(HTTP500 Internal Server Error): oops");
    assert_eq!(internal(authorized_response(201, "x")), "unexpected response(HTTP201 Created): x");
}

#[test]
fn session_uploads_accept_created() {
    assert!(session_upload_response(200, "").is_ok());
    assert!(session_upload_response(201, "").is_ok());
    assert!(matches!(session_upload_response(401, ""), Err(SDAPIError::Authentication)));
    assert_eq!(internal(session_upload_response(404, "gone")), "unexpected response(HTTP404 Not Found): gone");
}

#[test]
fn read_session_statuses() {
    assert!(read_session_response(200).is_ok());
    assert!(matches!(read_session_response(404), Err(SDAPIError::SessionMissing)));
    assert!(matches!(read_session_response(401), Err(SDAPIError::Authentication)));
    assert_eq!(internal(read_session_response(503)), "unexpected status code: 503 Service Unavailable");
}

#[test]
fn check_block_statuses() {
    assert!(matches!(check_block_response(200, ""), Ok(true)));
    assert!(matches!(check_block_response(404, ""), Ok(false)));
    assert!(matches!(check_block_response(401, ""), Err(SDAPIError::Authentication)));
    match check_block_response(500, "bad") {
        Err(SDAPIError::Internal(m)) => assert_eq!(m, "unexpected response(HTTP500 Internal Server Error): bad"),
        other => panic!("unexpected {:?}", other),
    }
}

#[test]
fn write_block_statuses() {
    assert!(write_block_response(200, "").is_ok());
    assert!(write_block_response(201, "").is_ok());
    assert!(matches!(write_block_response(400, ""), Err(SDAPIError::RetryUpload)));
    assert!(matches!(write_block_response(404, ""), Err(SDAPIError::RetryUpload)));
    assert!(matches!(write_block_response(401, ""), Err(SDAPIError::Authentication)));
    assert_eq!(internal(write_block_response(409, "c")), "unexpected response(HTTP409 Conflict): c");
}

#[test]
fn read_block_statuses() {
    assert!(read_block_response(200).is_ok());
    assert!(matches!(read_block_response(404), Err(SDAPIError::BlockMissing)));
    assert!(matches!(read_block_response(401), Err(SDAPIError::Authentication)));
    assert_eq!(internal(read_block_response(502)), "unexpected status code: 502 Bad Gateway");
}

#[test]
fn api_error_messages() {
    assert_eq!(SDAPIError::Internal("x".to_string()).message(), "x");
    assert_eq!(SDAPIError::Authentication.message(), "authentication failed");
    assert_eq!(SDAPIError::SessionMissing.message(), "sync session missing");
    assert_eq!(SDAPIError::BlockMissing.message(), "block missing");
    assert_eq!(SDAPIError::RetryUpload.message(), "block upload should be retried");
    assert_eq!(SDAPIError::RequestFailure("timeout".to_string()).message(), "timeout");
}

//! What each API call makes of the status code and text the server answers.

use vstd::prelude::*;
use crate::error::SDAPIError;
use crate::status::{status_display, status_text, HTTP_BAD_REQUEST, HTTP_CREATED, HTTP_NOT_FOUND, HTTP_OK, HTTP_UNAUTHORIZED};

verus! {

/// The message of an answer that the call does not expect.
pub open spec fn unexpected_response(code: u16, response: Seq<char>) -> Seq<char> {
    "unexpected response(HTTP"@ + status_display(code) + "): "@ + response
}

/// The message of a status that a download call does not expect.
pub open spec fn unexpected_status(code: u16) -> Seq<char> {
    "unexpected status code: "@ + status_display(code)
}

/// `e` is an internal error with the message `m`.
pub open spec fn is_internal(e: SDAPIError, m: Seq<char>) -> bool {
    e matches SDAPIError::Internal(text) && text@ == m
}

fn unexpected_response_error(code: u16, response: &str) -> (e: SDAPIError)
    ensures
        is_internal(e, unexpected_response(code, response@)),
{
    let message = String::from_str("unexpected response(HTTP")
        .concat(status_text(code).as_str())
        .concat("): ")
        .concat(response);
    SDAPIError::Internal(message)
}

fn unexpected_status_error(code: u16) -> (e: SDAPIError)
    ensures
        is_internal(e, unexpected_status(code)),
{
    SDAPIError::Internal(String::from_str("unexpected status code: ").concat(status_text(code).as_str()))
}

/// The outcome of posting an error report: only 200 is success; this call
/// does not single out a refused token.
pub fn report_error_response(status: u16, response: &str) -> (r: Result<(), SDAPIError>)
    ensures
        r is Ok <==> status == HTTP_OK,
        r matches Err(e) ==> is_internal(e, unexpected_response(status, response@)),
{
    if status == HTTP_OK {
        Ok(())
    } else {
        Err(unexpected_response_error(status, response))
    }
}

/// The outcome of a call that answers 200 on success: client registration,
/// account status, details and key, reading, creating and deleting folders,
/// and reading the session list.
pub fn authorized_response(status: u16, response: &str) -> (r: Result<(), SDAPIError>)
    ensures
        r is Ok <==> status == HTTP_OK,
        status == HTTP_UNAUTHORIZED ==> r matches Err(SDAPIError::Authentication),
        status != HTTP_OK && status != HTTP_UNAUTHORIZED ==> (r matches Err(e)
            && is_internal(e, unexpected_response(status, response@))),
{
    if status == HTTP_OK {
        Ok(())
    } else if status == HTTP_UNAUTHORIZED {
        Err(SDAPIError::Authentication)
    } else {
        Err(unexpected_response_error(status, response))
    }
}

/// The outcome of registering or finishing a sync session: 200 and 201 are
/// both success.
pub fn session_upload_response(status: u16, response: &str) -> (r: Result<(), SDAPIError>)
    ensures
        r is Ok <==> (status == HTTP_OK || status == HTTP_CREATED),
        status == HTTP_UNAUTHORIZED ==> r matches Err(SDAPIError::Authentication),
        status != HTTP_OK && status != HTTP_CREATED && status != HTTP_UNAUTHORIZED ==> (r matches Err(e)
            && is_internal(e, unexpected_response(status, response@))),
{
    if status == HTTP_OK || status == HTTP_CREATED {
        Ok(())
    } else if status == HTTP_UNAUTHORIZED {
        Err(SDAPIError::Authentication)
    } else {
        Err(unexpected_response_error(status, response))
    }
}

/// Whether the body of a sync session download is to be read: on 200 only;
/// 404 means the session is missing.
pub fn read_session_response(status: u16) -> (r: Result<(), SDAPIError>)
    ensures
        r is Ok <==> status == HTTP_OK,
        status == HTTP_NOT_FOUND ==> r matches Err(SDAPIError::SessionMissing),
        status == HTTP_UNAUTHORIZED ==> r matches Err(SDAPIError::Authentication),
        status != HTTP_OK && status != HTTP_NOT_FOUND && status != HTTP_UNAUTHORIZED ==> (r matches Err(e)
            && is_internal(e, unexpected_status(status))),
{
    if status == HTTP_OK {
        Ok(())
    } else if status == HTTP_NOT_FOUND {
        Err(SDAPIError::SessionMissing)
    } else if status == HTTP_UNAUTHORIZED {
        Err(SDAPIError::Authentication)
    } else {
        Err(unexpected_status_error(status))
    }
}

/// Whether the server holds a block: 200 says yes, 404 says no.
pub fn check_block_response(status: u16, response: &str) -> (r: Result<bool, SDAPIError>)
    ensures
        r == Ok::<bool, SDAPIError>(true) <==> status == HTTP_OK,
        r == Ok::<bool, SDAPIError>(false) <==> status == HTTP_NOT_FOUND,
        status == HTTP_UNAUTHORIZED ==> r matches Err(SDAPIError::Authentication),
        status != HTTP_OK && status != HTTP_NOT_FOUND && status != HTTP_UNAUTHORIZED ==> (r matches Err(e)
            && is_internal(e, unexpected_response(status, response@))),
{
    if status == HTTP_OK {
        Ok(true)
    } else if status == HTTP_NOT_FOUND {
        Ok(false)
    } else if status == HTTP_UNAUTHORIZED {
        Err(SDAPIError::Authentication)
    } else {
        Err(unexpected_response_error(status, response))
    }
}

/// The outcome of writing a block: 200 and 201 are success, 400 and 404 ask
/// for the block to be uploaded again.
pub fn write_block_response(status: u16, response: &str) -> (r: Result<(), SDAPIError>)
    ensures
        r is Ok <==> (status == HTTP_OK || status == HTTP_CREATED),
        (status == HTTP_BAD_REQUEST || status == HTTP_NOT_FOUND) ==> r matches Err(SDAPIError::RetryUpload),
        status == HTTP_UNAUTHORIZED ==> r matches Err(SDAPIError::Authentication),
        status != HTTP_OK && status != HTTP_CREATED && status != HTTP_BAD_REQUEST && status != HTTP_NOT_FOUND
            && status != HTTP_UNAUTHORIZED ==> (r matches Err(e)
            && is_internal(e, unexpected_response(status, response@))),
{
    if status == HTTP_OK || status == HTTP_CREATED {
        Ok(())
    } else if status == HTTP_BAD_REQUEST || status == HTTP_NOT_FOUND {
        Err(SDAPIError::RetryUpload)
    } else if status == HTTP_UNAUTHORIZED {
        Err(SDAPIError::Authentication)
    } else {
        Err(unexpected_response_error(status, response))
    }
}

/// Whether the body of a block download is to be read: on 200 only; 404
/// means the block is missing.
pub fn read_block_response(status: u16) -> (r: Result<(), SDAPIError>)
    ensures
        r is Ok <==> status == HTTP_OK,
        status == HTTP_NOT_FOUND ==> r matches Err(SDAPIError::BlockMissing),
        status == HTTP_UNAUTHORIZED ==> r matches Err(SDAPIError::Authentication),
        status != HTTP_OK && status != HTTP_NOT_FOUND && status != HTTP_UNAUTHORIZED ==> (r matches Err(e)
            && is_internal(e, unexpected_status(status))),
{
    if status == HTTP_OK {
        Ok(())
    } else if status == HTTP_NOT_FOUND {
        Err(SDAPIError::BlockMissing)
    } else if status == HTTP_UNAUTHORIZED {
        Err(SDAPIError::Authentication)
    } else {
        Err(unexpected_status_error(status))
    }
}

} // verus!

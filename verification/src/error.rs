//! Errors of the API client and of a sync session.

use vstd::prelude::*;

verus! {

/// What an API call can fail with.
#[derive(Debug, Clone)]
pub enum SDAPIError {
    /// The server answered in a way the client did not expect; the text says how.
    Internal(String),
    /// The server refused the credentials.
    Authentication,
    /// The requested sync session does not exist on the server.
    SessionMissing,
    /// The requested block does not exist on the server.
    BlockMissing,
    /// The server did not take a block; it should be uploaded again.
    RetryUpload,
    /// The request could not be sent, or its answer not read or decoded.
    RequestFailure(String),
}

/// What a sync session can fail with.
#[derive(Debug, Clone)]
pub enum SDError {
    /// Something failed inside the client; the text says what.
    Internal(String),
    /// The server refused the credentials.
    Authentication,
    /// The sync was cancelled by the user.
    Cancelled,
    /// The folder to sync is not a directory on disk.
    FolderMissing,
    /// Encrypting a block or the session failed; the text says why.
    CryptoError(String),
    /// An API request failed.
    RequestFailure(SDAPIError),
}

/// The text that describes an API error.
pub open spec fn api_error_message(e: SDAPIError) -> Seq<char> {
    match e {
        SDAPIError::Internal(m) => m@,
        SDAPIError::Authentication => "authentication failed"@,
        SDAPIError::SessionMissing => "sync session missing"@,
        SDAPIError::BlockMissing => "block missing"@,
        SDAPIError::RetryUpload => "block upload should be retried"@,
        SDAPIError::RequestFailure(m) => m@,
    }
}

impl SDAPIError {
    /// The text that describes this error.
    pub fn message(&self) -> (s: String)
        ensures
            s@ == api_error_message(*self),
    {
        match self {
            SDAPIError::Internal(m) => m.clone(),
            SDAPIError::Authentication => String::from_str("authentication failed"),
            SDAPIError::SessionMissing => String::from_str("sync session missing"),
            SDAPIError::BlockMissing => String::from_str("block missing"),
            SDAPIError::RetryUpload => String::from_str("block upload should be retried"),
            SDAPIError::RequestFailure(m) => m.clone(),
        }
    }
}

} // verus!

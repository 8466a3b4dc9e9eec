//! Verified core of the SafeDrive client: the API endpoint table, request
//! framing, response interpretation and the bookkeeping of a sync session.

pub mod text;
pub mod error;
pub mod models;
pub mod status;
pub mod endpoint;
pub mod multipart;
pub mod responses;
pub mod keys;
pub mod sync;
pub mod sync_machine;
pub mod bodies;

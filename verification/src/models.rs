//! The plain data that requests are built from.

use vstd::prelude::*;

verus! {

/// An authentication token issued by the server.
#[derive(Debug, Clone)]
pub struct Token {
    pub token: String,
}

/// Which SafeDrive deployment the client talks to.
#[derive(PartialEq, Eq, Structural, Clone, Copy, Debug)]
pub enum Configuration {
    Staging,
    Production,
}

} // verus!

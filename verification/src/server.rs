//! Where the backend listens.

use crate::db_context::{address_of, configured_or, join_address, value_or};
use vstd::prelude::*;

verus! {

/// The host and the port that the server binds.
#[derive(Debug, PartialEq, Eq)]
pub struct ServerConfig {
    host: String,
    port: String,
}

impl ServerConfig {
    /// The host to bind.
    pub closed spec fn host(&self) -> Seq<char> {
        self.host@
    }

    /// The port to bind.
    pub closed spec fn port(&self) -> Seq<char> {
        self.port@
    }

    /// The configuration from what the process was given: the host defaults
    /// to `127.0.0.1`, the port to `3000`.
    pub fn new(host: Option<String>, port: Option<String>) -> (r: ServerConfig)
        ensures
            r.host() == value_or(host, "127.0.0.1"@),
            r.port() == value_or(port, "3000"@),
    {
        ServerConfig { host: configured_or(host, "127.0.0.1"), port: configured_or(port, "3000") }
    }

    /// The address to listen on.
    pub fn address(&self) -> (r: String)
        ensures
            r@ == address_of(self.host(), self.port()),
    {
        join_address(self.host.as_str(), self.port.as_str())
    }
}

} // verus!

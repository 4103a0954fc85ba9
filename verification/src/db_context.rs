//! Where the database is reached.

use vstd::prelude::*;
use vstd::string::StringExecFns;

verus! {

/// The host and the port of the database.
#[derive(Debug, PartialEq, Eq)]
pub struct DatabaseConfig {
    pub host: String,
    pub port: String,
}

/// What is needed to open the connection: the address, and the namespace
/// and the database to use on it.
#[derive(Debug, PartialEq, Eq)]
pub struct DatabaseTarget {
    pub address: String,
    pub namespace: String,
    pub database: String,
}

/// The configured value, or `fallback` where none is configured.
pub open spec fn value_or(configured: Option<String>, fallback: Seq<char>) -> Seq<char> {
    match configured {
        Some(value) => value@,
        None => fallback,
    }
}

/// A host and a port as one address: the two with a colon between them.
pub open spec fn address_of(host: Seq<char>, port: Seq<char>) -> Seq<char> {
    host + ":"@ + port
}

/// Takes the configured value, or `fallback` where none is configured.
pub fn configured_or(configured: Option<String>, fallback: &str) -> (r: String)
    ensures
        r@ == value_or(configured, fallback@),
{
    match configured {
        Some(value) => value,
        None => fallback.to_owned(),
    }
}

/// Joins a host and a port to an address.
pub fn join_address(host: &str, port: &str) -> (r: String)
    ensures
        r@ == address_of(host@, port@),
{
    String::from_str(host).concat(":").concat(port)
}

impl DatabaseConfig {
    /// The configuration from what the process was given: the host defaults
    /// to `127.0.0.1`, the port to `8000`.
    pub fn new(host: Option<String>, port: Option<String>) -> (r: DatabaseConfig)
        ensures
            r.host@ == value_or(host, "127.0.0.1"@),
            r.port@ == value_or(port, "8000"@),
    {
        DatabaseConfig { host: configured_or(host, "127.0.0.1"), port: configured_or(port, "8000") }
    }

    /// The address to connect to.
    pub fn address(&self) -> (r: String)
        ensures
            r@ == address_of(self.host@, self.port@),
    {
        join_address(self.host.as_str(), self.port.as_str())
    }
}

/// Where the database of the backend is reached, from the host and the
/// port that the process was given: at their address, in the namespace
/// `posts` and the database `posts`.
pub fn get_database(host: Option<String>, port: Option<String>) -> (r: DatabaseTarget)
    ensures
        r.address@ == address_of(value_or(host, "127.0.0.1"@), value_or(port, "8000"@)),
        r.namespace@ == "posts"@,
        r.database@ == "posts"@,
{
    let db_config = DatabaseConfig::new(host, port);
    DatabaseTarget {
        address: db_config.address(),
        namespace: "posts".to_owned(),
        database: "posts".to_owned(),
    }
}

} // verus!

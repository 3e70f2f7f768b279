//! Settings and session set-up of the database connection pool.

use vstd::prelude::*;
use crate::pool::ResourcePool;

verus! {

/// How to reach the database and how to size the pool.
#[derive(Debug)]
pub struct PostgresConfig {
    pub url: String,
    /// Most connections leased at once.
    pub max_connections: u32,
    /// Connections kept open even when idle.
    pub min_connections: u32,
    /// Seconds to wait for a connection before failing.
    pub acquire_timeout: u64,
    /// Seconds after which an idle connection is closed.
    pub idle_timeout: u64,
    /// Seconds after which a connection is retired.
    pub max_lifetime: u64,
}

/// Why pool settings were refused.
#[derive(Debug, Clone, Copy, PartialEq, Eq, Structural)]
pub enum PoolConfigError {
    /// More connections are to be kept open than may ever be leased.
    MinAboveMax,
}

impl PostgresConfig {
    /// The pool's sizing bounds are consistent.
    pub open spec fn is_valid(&self) -> bool {
        self.min_connections <= self.max_connections
    }

    /// Accepts exactly the settings whose sizing bounds are consistent.
    pub fn check(&self) -> (r: Result<(), PoolConfigError>)
        ensures
            r is Ok <==> self.is_valid(),
            r is Err ==> r == Err::<(), PoolConfigError>(PoolConfigError::MinAboveMax),
    {
        if self.min_connections <= self.max_connections {
            Ok(())
        } else {
            Err(PoolConfigError::MinAboveMax)
        }
    }
}

#[verifier::external_type_specification]
#[verifier::external_body]
pub struct ExGetTimezoneError(iana_time_zone::GetTimezoneError);

/// Relies on iana_time_zone::get_timezone: the machine's time zone name, or
/// an error when it cannot be found. What it returns depends on the machine.
#[verifier::external_body]
fn system_timezone() -> (r: Result<String, iana_time_zone::GetTimezoneError>) {
    iana_time_zone::get_timezone()
}

/// The time zone used when the machine's cannot be found.
pub open spec fn fallback_timezone() -> Seq<char> {
    "UTC"@
}

/// The session time zone, given the outcome of looking up the machine's:
/// the machine's own, or UTC when the lookup failed.
pub fn session_timezone(detected: Result<String, iana_time_zone::GetTimezoneError>) -> (r: String)
    ensures
        detected is Ok ==> r@ == detected->Ok_0@,
        detected is Err ==> r@ == fallback_timezone(),
{
    match detected {
        Ok(tz) => tz,
        Err(_) => String::from_str("UTC"),
    }
}

/// The session time zone of this machine: its own, or UTC when it cannot be
/// found.
pub fn local_session_timezone() -> (r: String) {
    session_timezone(system_timezone())
}

/// The statement that sets a connection's session time zone.
pub open spec fn set_time_zone_spec(tz: Seq<char>) -> Seq<char> {
    "SET TIME ZONE '"@ + tz + "';"@
}

/// `SET TIME ZONE '<tz>';`, run on each new connection.
pub fn set_time_zone_statement(tz: &str) -> (r: String)
    ensures
        r@ == set_time_zone_spec(tz@),
{
    let mut s = String::from_str("SET TIME ZONE '");
    s.append(tz);
    s.append("';");
    s
}

/// The session time zone published at start-up.
pub fn pg_session_timezone(timezone: &ResourcePool<String>) -> (r: &str)
    requires
        timezone@ is Some,
    ensures
        r@ == timezone@->Some_0@,
{
    timezone.handle().as_str()
}

} // verus!

//! The whole configuration of a service.

use vstd::prelude::*;
use crate::general::GeneralConfig;
use crate::logger::LoggerConfig;
use crate::postgres::PostgresConfig;
use crate::redis::RedisConfig;

verus! {

/// One section per component.
#[derive(Debug)]
pub struct Config {
    pub general: GeneralConfig,
    pub logger: LoggerConfig,
    pub postgres: PostgresConfig,
    pub redis: RedisConfig,
}

} // verus!

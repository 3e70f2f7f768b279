//! Building blocks for network services: write-once shared resource slots,
//! an ordered bootstrap sequence, and a body-buffering request interceptor.

pub mod pool;
pub mod bootstrap;
pub mod middleware;
pub mod config;
pub mod general;
pub mod logger;
pub mod postgres;
pub mod redis;
pub mod error;

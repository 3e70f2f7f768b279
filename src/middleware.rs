//! Request/response body interception.

pub mod body;
pub mod trace_body;
pub mod request_response_logger;

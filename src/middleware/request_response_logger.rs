//! The printing middleware: like the interceptor it buffers and logs each
//! body, but its answer to a body that cannot be read names the cause: a
//! client error for a request body, a server error for a response body.

use vstd::prelude::*;
use crate::middleware::body::{Direction, read_failure_spec, read_failure_message};

verus! {

/// The status that answers a request body that could not be read.
pub const BAD_REQUEST: u16 = 400;

/// The status that answers a response body that could not be read.
pub const INTERNAL_SERVER_ERROR: u16 = 500;

/// The status that answers a body of this direction that could not be read.
pub open spec fn unreadable_status(d: Direction) -> u16 {
    match d {
        Direction::Request => BAD_REQUEST,
        Direction::Response => INTERNAL_SERVER_ERROR,
    }
}

/// The bytes to pass on, or the status and message that answer a body of
/// direction `direction` that could not be read.
pub fn buffer_outcome(direction: Direction, read: Result<Vec<u8>, String>) -> (r: Result<
    Vec<u8>,
    (u16, String),
>)
    ensures
        read is Ok ==> r == Ok::<Vec<u8>, (u16, String)>(read->Ok_0),
        read is Err ==> r is Err && r->Err_0.0 == unreadable_status(direction) && r->Err_0.1@ == read_failure_spec(
            direction,
            read->Err_0@,
        ),
{
    match read {
        Ok(bytes) => Ok(bytes),
        Err(cause) => {
            let status = match direction {
                Direction::Request => BAD_REQUEST,
                Direction::Response => INTERNAL_SERVER_ERROR,
            };
            Err((status, read_failure_message(direction, cause.as_str())))
        },
    }
}

} // verus!

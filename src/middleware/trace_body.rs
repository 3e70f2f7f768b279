//! The body-buffering interceptor: each body is read whole, logged when it
//! is text, and passed on unchanged; a body that cannot be read becomes an
//! error response instead of an error value.

use vstd::prelude::*;
use vstd::utf8::*;
use crate::middleware::body::{Direction, body_text, log_text};

verus! {

/// Wraps a request pipeline in a [`TraceBody`].
#[derive(Debug, Clone, Copy)]
pub struct TraceBodyLayer;

/// A request pipeline whose request and response bodies are buffered and
/// logged on the way through.
#[derive(Debug, Clone)]
pub struct TraceBody<S> {
    inner: S,
}

/// The interceptor's layer.
pub fn trace_body() -> (r: TraceBodyLayer) {
    TraceBodyLayer
}

impl TraceBodyLayer {
    /// Wraps `inner`.
    pub fn layer<S>(&self, inner: S) -> (r: TraceBody<S>)
        ensures
            r.inner() == inner,
    {
        TraceBody { inner }
    }
}

impl<S> TraceBody<S> {
    pub closed spec fn inner(&self) -> S {
        self.inner
    }

    /// The wrapped pipeline.
    pub fn inner_ref(&self) -> (r: &S)
        ensures
            *r == self.inner(),
    {
        &self.inner
    }

    /// The wrapped pipeline, for use on one request.
    pub fn inner_mut(&mut self) -> (r: &mut S)
        ensures
            *r == old(self).inner(),
            final(self).inner() == *final(r),
    {
        &mut self.inner
    }
}

/// What becomes of a body once it has been read, or has failed to read.
#[derive(Debug)]
pub enum BodyVerdict {
    /// Pass `body` on; log `text` when there is one.
    Pass { body: Vec<u8>, text: Option<String> },
    /// Answer with `status` and `message` in place of the exchange; `cause`
    /// is what went wrong, for the log.
    Reject { status: u16, message: String, cause: String },
}

/// A verdict as plain values.
pub enum VerdictModel {
    Pass { body: Seq<u8>, text: Option<Seq<char>> },
    Reject { status: u16, message: Seq<char>, cause: Seq<char> },
}

impl View for BodyVerdict {
    type V = VerdictModel;

    open spec fn view(&self) -> VerdictModel {
        match self {
            BodyVerdict::Pass { body, text } => VerdictModel::Pass {
                body: body@,
                text: match text {
                    Some(t) => Some(t@),
                    None => None,
                },
            },
            BodyVerdict::Reject { status, message, cause } => VerdictModel::Reject {
                status: *status,
                message: message@,
                cause: cause@,
            },
        }
    }
}

/// The status that answers a body of this direction that could not be read:
/// the client's fault for a request, the server's for a response.
pub open spec fn failure_status(d: Direction) -> u16 {
    match d {
        Direction::Request => 400,
        Direction::Response => 500,
    }
}

/// The message that answers a body of this direction that could not be read.
pub open spec fn failure_text(d: Direction) -> Seq<char> {
    match d {
        Direction::Request => "Bad Request"@,
        Direction::Response => "Internal Server Error"@,
    }
}

/// The outcome of reading a body as plain values.
pub open spec fn read_view(read: Result<Vec<u8>, String>) -> Result<Seq<u8>, Seq<char>> {
    match read {
        Ok(b) => Ok(b@),
        Err(c) => Err(c@),
    }
}

/// What becomes of a body of direction `d` given the outcome of reading it.
pub open spec fn verdict_spec(d: Direction, read: Result<Seq<u8>, Seq<char>>) -> VerdictModel {
    match read {
        Ok(b) => VerdictModel::Pass { body: b, text: body_text(b) },
        Err(c) => VerdictModel::Reject { status: failure_status(d), message: failure_text(d), cause: c },
    }
}

/// Decides what becomes of a body of direction `direction` that has been
/// read whole (`Ok`) or whose stream failed (`Err`, with the cause).
pub fn inspect_body(direction: Direction, read: Result<Vec<u8>, String>) -> (r: BodyVerdict)
    ensures
        r@ == verdict_spec(direction, read_view(read)),
{
    match read {
        Ok(body) => {
            let text = log_text(body.as_slice());
            BodyVerdict::Pass { body, text }
        },
        Err(cause) => {
            let (status, message) = match direction {
                Direction::Request => (400u16, "Bad Request"),
                Direction::Response => (500u16, "Internal Server Error"),
            };
            BodyVerdict::Reject { status, message: String::from_str(message), cause }
        },
    }
}

/// A text body echoed by the inner pipeline is logged, in both directions, as
/// exactly its own bytes, and reaches the client unchanged.
pub proof fn lemma_echo_is_logged_verbatim(body: Seq<u8>)
    requires
        valid_utf8(body),
    ensures
        ({
            let req = verdict_spec(Direction::Request, Ok(body));
            let resp = verdict_spec(Direction::Response, Ok(body));
            &&& req matches VerdictModel::Pass { body: b, text: Some(t) } && b == body
                && encode_utf8(t) == body
            &&& resp matches VerdictModel::Pass { body: b, text: Some(t) } && b == body
                && encode_utf8(t) == body
        }),
{
    decode_utf8_encode_utf8(body);
}

/// A request body that fails to read is answered with a client error and is
/// never passed on; a response body that fails to read is answered with a
/// server error.
pub proof fn lemma_read_failures_become_error_responses(cause: Seq<char>)
    ensures
        verdict_spec(Direction::Request, Err(cause)) matches VerdictModel::Reject { status, .. }
            && 400 <= status < 500,
        verdict_spec(Direction::Response, Err(cause)) matches VerdictModel::Reject { status, .. }
            && 500 <= status < 600,
{
}

/// A binary body is passed on byte for byte and is not logged as text.
pub proof fn lemma_binary_body_passes_unchanged(d: Direction, body: Seq<u8>)
    requires
        !valid_utf8(body),
    ensures
        verdict_spec(d, Ok(body)) == (VerdictModel::Pass { body, text: None }),
{
}

} // verus!

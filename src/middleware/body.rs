//! What the body interceptors decide about one buffered body: the text to
//! log, and the message that reports a body that could not be read.

use vstd::prelude::*;
use vstd::utf8::*;

verus! {

/// Which message of an exchange a body belongs to.
#[derive(Debug, Clone, Copy, PartialEq, Eq, Structural)]
pub enum Direction {
    Request,
    Response,
}

/// The tag under which a body of this direction is logged.
pub open spec fn direction_name(d: Direction) -> Seq<char> {
    match d {
        Direction::Request => "request"@,
        Direction::Response => "response"@,
    }
}

impl Direction {
    /// The tag under which a body of this direction is logged.
    pub fn as_str(&self) -> (r: &'static str)
        ensures
            r@ == direction_name(*self),
    {
        match self {
            Direction::Request => "request",
            Direction::Response => "response",
        }
    }
}

/// The text a body is logged as: present exactly when the bytes are UTF-8.
pub open spec fn body_text(bytes: Seq<u8>) -> Option<Seq<char>> {
    if valid_utf8(bytes) {
        Some(decode_utf8(bytes))
    } else {
        None
    }
}

#[verifier::external_type_specification]
#[verifier::external_body]
pub struct ExUtf8Error(std::str::Utf8Error);

/// Relies on std::str::from_utf8: it succeeds exactly on valid UTF-8, and
/// then yields the text those bytes encode, without copying.
#[verifier::external_body]
fn utf8_str<'a>(bytes: &'a [u8]) -> (r: Result<&'a str, std::str::Utf8Error>)
    ensures
        r is Ok <==> valid_utf8(bytes@),
        r is Ok ==> r->Ok_0@ == decode_utf8(bytes@),
{
    std::str::from_utf8(bytes)
}

/// The text to log for a body: the body decoded as UTF-8, or nothing for a
/// binary body.
pub fn log_text(bytes: &[u8]) -> (r: Option<String>)
    ensures
        r is Some <==> body_text(bytes@) is Some,
        r is Some ==> r->Some_0@ == body_text(bytes@)->Some_0,
{
    match utf8_str(bytes) {
        Ok(s) => Some(String::from_str(s)),
        Err(_) => None,
    }
}

/// The message that reports a body that could not be read.
pub open spec fn read_failure_spec(d: Direction, cause: Seq<char>) -> Seq<char> {
    "failed to read "@ + direction_name(d) + " body: "@ + cause
}

/// `failed to read <direction> body: <cause>`.
pub fn read_failure_message(direction: Direction, cause: &str) -> (r: String)
    ensures
        r@ == read_failure_spec(direction, cause@),
{
    let mut m = String::from_str("failed to read ");
    m.append(direction.as_str());
    m.append(" body: ");
    m.append(cause);
    m
}

/// Logged text is the body itself: encoding it again gives back exactly the
/// bytes that were read.
pub proof fn lemma_logged_text_is_body(bytes: Seq<u8>)
    requires
        body_text(bytes) is Some,
    ensures
        encode_utf8(body_text(bytes)->Some_0) == bytes,
{
    decode_utf8_encode_utf8(bytes);
}

} // verus!

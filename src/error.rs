//! Errors of request handlers, and the response each one becomes.

use vstd::prelude::*;

verus! {

/// An error of a request handler. Errors of outside libraries are held as
/// their message.
#[derive(Debug)]
pub enum Error {
    /// Becomes `401 Unauthorized`.
    Unauthorized,
    /// Becomes `403 Forbidden`.
    Forbidden,
    /// Becomes `404 Not Found`.
    NotFound,
    /// A request body refused by the JSON extractor, with the status and text
    /// the extractor chose (400, 415 or 422).
    JsonExtractorRejection { status: u16, body_text: String },
    /// Input that failed validation; becomes `422 Unprocessable Entity`.
    ValidationError(String),
    /// A cache error; becomes `500 Internal Server Error`.
    Redis(String),
    /// A database error; becomes `500 Internal Server Error`.
    Sqlx(String),
    /// Any other error; becomes `500 Internal Server Error`.
    Anyhow(String),
    /// A status and message of the handler's own choosing.
    Custom(u16, String),
}

impl Error {
    /// Whether the error is a failure of the server, whose cause is logged
    /// and not shown to the client.
    pub open spec fn is_internal_spec(&self) -> bool {
        self is Redis || self is Sqlx || self is Anyhow
    }

    /// The status and message of the response the error becomes.
    pub open spec fn response_spec(&self) -> (u16, Seq<char>) {
        match self {
            Error::Unauthorized => (401, "Unauthorized"@),
            Error::Forbidden => (403, "Forbidden"@),
            Error::NotFound => (404, "Not Found"@),
            Error::JsonExtractorRejection { status, body_text } => (*status, body_text@),
            Error::ValidationError(m) => (422, m@),
            Error::Redis(_) => (500, "Internal Server Error"@),
            Error::Sqlx(_) => (500, "Internal Server Error"@),
            Error::Anyhow(_) => (500, "Internal Server Error"@),
            Error::Custom(status, m) => (*status, m@),
        }
    }

    /// Whether the error is a failure of the server.
    pub fn is_internal(&self) -> (r: bool)
        ensures
            r == self.is_internal_spec(),
    {
        match self {
            Error::Redis(_) | Error::Sqlx(_) | Error::Anyhow(_) => true,
            _ => false,
        }
    }

    /// The status and message of the response the error becomes.
    pub fn response(&self) -> (r: (u16, String))
        ensures
            r.0 == self.response_spec().0,
            r.1@ == self.response_spec().1,
    {
        match self {
            Error::Unauthorized => (401, String::from_str("Unauthorized")),
            Error::Forbidden => (403, String::from_str("Forbidden")),
            Error::NotFound => (404, String::from_str("Not Found")),
            Error::JsonExtractorRejection { status, body_text } => (*status, body_text.clone()),
            Error::ValidationError(m) => (422, m.clone()),
            Error::Redis(_) | Error::Sqlx(_) | Error::Anyhow(_) => (
                500,
                String::from_str("Internal Server Error"),
            ),
            Error::Custom(status, m) => (*status, m.clone()),
        }
    }
}

} // verus!

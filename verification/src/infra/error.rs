//! The service's error type and the HTTP reply each error is answered with.
use vstd::prelude::*;
use vstd::string::*;

verus! {

/// An HTTP status code and a plain-text body.
#[derive(Debug, PartialEq, Eq)]
pub struct HttpReply {
    pub status: u16,
    pub body: String,
}

/// What a request handler fails with.
#[derive(Debug, PartialEq, Eq)]
pub enum AppError {
    NotFound(String),
    InternalError(String),
    BadRequest(String),
}

/// The status code each error is answered with.
pub open spec fn error_status(e: AppError) -> u16 {
    match e {
        AppError::NotFound(_) => 404,
        AppError::InternalError(_) => 500,
        AppError::BadRequest(_) => 400,
    }
}

/// The body each error is answered with.
pub open spec fn error_body(e: AppError) -> Seq<char> {
    match e {
        AppError::NotFound(m) => m@,
        AppError::InternalError(m) => "An internal error occurred: "@ + m@,
        AppError::BadRequest(m) => m@,
    }
}

/// The one-line description of an error.
pub open spec fn error_text(e: AppError) -> Seq<char> {
    match e {
        AppError::NotFound(_) => "Not Found"@,
        AppError::InternalError(m) => "Internal Server Error: "@ + m@,
        AppError::BadRequest(m) => "Bad Request: "@ + m@,
    }
}

impl AppError {
    /// The error for a database call that failed, with the failure's text.
    pub fn database_failure(reason: String) -> (e: AppError)
        ensures
            e matches AppError::InternalError(m) && m@ == reason@,
    {
        AppError::InternalError(reason)
    }

    /// The status code of the reply to this error.
    pub fn status_code(&self) -> (r: u16)
        ensures
            r == error_status(*self),
    {
        match self {
            AppError::NotFound(_) => 404,
            AppError::InternalError(_) => 500,
            AppError::BadRequest(_) => 400,
        }
    }

    /// The reply that answers this error: not found gives 404 with the message,
    /// an internal error gives 500 with the message behind a fixed lead-in, and
    /// a bad request gives 400 with the message.
    pub fn into_response(self) -> (r: HttpReply)
        ensures
            r.status == error_status(self),
            r.body@ == error_body(self),
    {
        let status = self.status_code();
        match self {
            AppError::NotFound(msg) => HttpReply { status, body: msg },
            AppError::InternalError(msg) => {
                let mut body = String::from_str("An internal error occurred: ");
                body.append(msg.as_str());
                HttpReply { status, body }
            },
            AppError::BadRequest(msg) => HttpReply { status, body: msg },
        }
    }

    /// The one-line description of this error.
    pub fn to_string(&self) -> (r: String)
        ensures
            r@ == error_text(*self),
    {
        match self {
            AppError::NotFound(_) => String::from_str("Not Found"),
            AppError::InternalError(msg) => {
                let mut text = String::from_str("Internal Server Error: ");
                text.append(msg.as_str());
                text
            },
            AppError::BadRequest(msg) => {
                let mut text = String::from_str("Bad Request: ");
                text.append(msg.as_str());
                text
            },
        }
    }
}

} // verus!

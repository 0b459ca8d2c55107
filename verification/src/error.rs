//! Errors that go back to clients.
//!
//! A reply never reveals what went wrong inside the service: it says only
//! whether the fault was the service's or the request's.

use vstd::prelude::*;

verus! {

/// Errors that are used to return back to Client
pub enum Error {
    Internal(String),
    InvalidRequest(String),
}

/// What a client is told of an error: the HTTP status and a fixed message.
pub struct ErrorReply {
    pub status: u16,
    pub message: &'static str,
}

/// The status every error reply carries in its body.
pub const ERROR_STATUS: &'static str = "error";

impl Error {
    /// The HTTP status of the error: 500 for the service's faults, 400 for the request's.
    pub open spec fn status_code(&self) -> u16 {
        match self {
            Error::Internal(_) => 500,
            Error::InvalidRequest(_) => 400,
        }
    }

    /// The message of the error's reply.
    pub open spec fn reply_message(&self) -> Seq<char> {
        match self {
            Error::Internal(_) => "error occured internally"@,
            Error::InvalidRequest(_) => "error occured with request"@,
        }
    }

    /// The reply for the error; the detail it carries stays out of it.
    pub fn to_reply(&self) -> (r: ErrorReply)
        ensures
            r.status == self.status_code(),
            r.message@ == self.reply_message(),
    {
        match self {
            Error::Internal(_) => ErrorReply { status: 500, message: "error occured internally" },
            Error::InvalidRequest(_) => ErrorReply { status: 400, message: "error occured with request" },
        }
    }

    /// The detail the error carries, for the service's own log.
    pub fn detail(&self) -> (r: &String)
        ensures
            r == match self {
                Error::Internal(s) => s,
                Error::InvalidRequest(s) => s,
            },
    {
        match self {
            Error::Internal(s) => s,
            Error::InvalidRequest(s) => s,
        }
    }
}

impl From<Error> for ErrorReply {
    /// The reply a client gets for the error.
    fn from(e: Error) -> (r: ErrorReply) {
        match e {
            Error::Internal(_) => ErrorReply { status: 500, message: "error occured internally" },
            Error::InvalidRequest(_) => ErrorReply { status: 400, message: "error occured with request" },
        }
    }
}

impl vstd::std_specs::convert::FromSpecImpl<Error> for ErrorReply {
    open spec fn obeys_from_spec() -> bool {
        true
    }

    open spec fn from_spec(e: Error) -> ErrorReply {
        match e {
            Error::Internal(_) => ErrorReply { status: 500, message: "error occured internally" },
            Error::InvalidRequest(_) => ErrorReply { status: 400, message: "error occured with request" },
        }
    }
}

/// What a client is told of an error depends on its kind alone: two errors
/// of the same kind get the same reply, whatever detail they carry.
pub proof fn law_reply_hides_detail(first: Error, second: Error)
    requires
        (first is Internal) == (second is Internal),
    ensures
        first.status_code() == second.status_code(),
        first.reply_message() == second.reply_message(),
{
}

} // verus!

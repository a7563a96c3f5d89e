//! The error taxonomy of the retrieval pipeline: four kinds, each carrying a
//! human-readable message.

use vstd::prelude::*;
use vstd::string::StringExecFns;

verus! {

/// The kind of a retrieval failure.
#[derive(Clone, Copy, Debug, PartialEq, Eq, Structural)]
pub enum ErrorKind {
    /// The request could not be sent or no response was obtained.
    RequestFailure,
    /// The server rejected the access token.
    InvalidAccessToken,
    /// The payload was not a valid archive, or extraction to disk failed.
    DecompressFailure,
    /// Malformed header construction, body-read failure, or an unexpected
    /// response status.
    UnexpectedError,
}

/// A retrieval failure: a kind tag and a message for the user.
#[derive(Clone, Debug, PartialEq, Eq)]
pub struct RetrieverError {
    pub kind: ErrorKind,
    pub message: String,
}

/// The stable label of each error kind.
pub open spec fn kind_label(kind: ErrorKind) -> Seq<char> {
    match kind {
        ErrorKind::RequestFailure => "request_failure"@,
        ErrorKind::InvalidAccessToken => "invalid_access_token"@,
        ErrorKind::DecompressFailure => "decompress_failure"@,
        ErrorKind::UnexpectedError => "unexpected_error"@,
    }
}

impl RetrieverError {
    pub fn new(kind: ErrorKind, message: String) -> (r: RetrieverError)
        ensures
            r.kind == kind,
            r.message@ == message@,
    {
        RetrieverError { kind, message }
    }

    /// One line for the user: the kind's label, then the message.
    pub fn describe(&self) -> (r: String)
        ensures
            r@ == kind_label(self.kind) + ": "@ + self.message@,
    {
        let label: &str = match self.kind {
            ErrorKind::RequestFailure => "request_failure",
            ErrorKind::InvalidAccessToken => "invalid_access_token",
            ErrorKind::DecompressFailure => "decompress_failure",
            ErrorKind::UnexpectedError => "unexpected_error",
        };
        let mut out = label.to_owned();
        out.append(": ");
        out.append(self.message.as_str());
        proof {
            assert(out@ =~= kind_label(self.kind) + ": "@ + self.message@);
        }
        out
    }
}

/// A failure with the given kind and a message made of a fixed prefix and a
/// detail handed in by the caller.
pub fn prefixed_error(kind: ErrorKind, prefix: &str, detail: &str) -> (r: RetrieverError)
    ensures
        r.kind == kind,
        r.message@ == prefix@ + detail@,
{
    let message = prefix.to_owned().concat(detail);
    RetrieverError { kind, message }
}

/// The failure reported when the request cannot be sent or no response is
/// obtained; `detail` describes the network-level cause.
pub fn request_failure_error(detail: &str) -> (r: RetrieverError)
    ensures
        r.kind == ErrorKind::RequestFailure,
        r.message@ == "failed to get configuration from server: "@ + detail@,
{
    prefixed_error(
        ErrorKind::RequestFailure,
        "failed to get configuration from server: ",
        detail,
    )
}

/// The failure reported when the response body cannot be drained; `detail`
/// describes the stream-level cause.
pub fn body_read_error(detail: &str) -> (r: RetrieverError)
    ensures
        r.kind == ErrorKind::UnexpectedError,
        r.message@ == "failed to read response's bytes: "@ + detail@,
{
    prefixed_error(ErrorKind::UnexpectedError, "failed to read response's bytes: ", detail)
}

} // verus!

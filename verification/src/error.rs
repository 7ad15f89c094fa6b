//! The failures that end a request without an answer.

use vstd::prelude::*;

verus! {

/// Status of an answered request.
pub const STATUS_OK: u16 = 200;

/// Status for a request that the client has to mend.
pub const STATUS_BAD_REQUEST: u16 = 400;

/// Status for a path that is not served.
pub const STATUS_NOT_FOUND: u16 = 404;

/// Status for a failure on the server's side.
pub const STATUS_INTERNAL_SERVER_ERROR: u16 = 500;

/// Why a request body was not read as a request.
#[derive(Copy, Clone, Debug, PartialEq, Eq, Structural)]
pub enum DecodeError {
    /// There is no body, or it is empty.
    Absent,
    /// The body is not a JSON object with a string member `sentence`.
    Malformed,
}

/// A failure that ends a request without an answer.
#[derive(Copy, Clone, Debug, PartialEq, Eq, Structural)]
pub enum Failure {
    /// The request could not be read: the client's fault.
    Decode(DecodeError),
    /// The generation model could not be invoked.
    Inference,
    /// The answer could not be put into its wire form, or the pipeline was
    /// driven out of turn.
    Internal,
}

/// Whether `status` tells the client that the request was at fault.
pub open spec fn is_client_error(status: u16) -> bool {
    400 <= status < 500
}

/// Whether `status` tells the client that the server was at fault.
pub open spec fn is_server_error(status: u16) -> bool {
    500 <= status < 600
}

impl Failure {
    /// The status under which the failure is reported.
    pub open spec fn spec_status(&self) -> u16 {
        match *self {
            Failure::Decode(_) => STATUS_BAD_REQUEST,
            Failure::Inference => STATUS_INTERNAL_SERVER_ERROR,
            Failure::Internal => STATUS_INTERNAL_SERVER_ERROR,
        }
    }

    /// The plain text that is sent with the failure.
    pub open spec fn spec_message(&self) -> Seq<char> {
        match *self {
            Failure::Decode(DecodeError::Absent) => "Request body is missing"@,
            Failure::Decode(DecodeError::Malformed) => "Request body is malformed"@,
            Failure::Inference => "Inference failed"@,
            Failure::Internal => "Internal error"@,
        }
    }

    /// The status under which the failure is reported: a client error for a
    /// request that could not be read, a server error for every other
    /// failure.
    #[verifier::when_used_as_spec(spec_status)]
    pub fn status(&self) -> (status: u16)
        ensures
            status == self.spec_status(),
            (*self is Decode) ==> is_client_error(status),
            !(*self is Decode) ==> is_server_error(status),
    {
        match self {
            Failure::Decode(_) => STATUS_BAD_REQUEST,
            Failure::Inference => STATUS_INTERNAL_SERVER_ERROR,
            Failure::Internal => STATUS_INTERNAL_SERVER_ERROR,
        }
    }

    /// The plain text that is sent with the failure.
    pub fn message(&self) -> (text: &'static str)
        ensures
            text@ == self.spec_message(),
    {
        match self {
            Failure::Decode(DecodeError::Absent) => "Request body is missing",
            Failure::Decode(DecodeError::Malformed) => "Request body is malformed",
            Failure::Inference => "Inference failed",
            Failure::Internal => "Internal error",
        }
    }
}

} // verus!

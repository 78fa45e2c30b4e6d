//! The bridge's error taxonomy. Every failure is classified once; none is
//! retried. The caller maps any of these to a non-zero exit with the
//! diagnostic on standard error.

use vstd::prelude::*;

verus! {

/// A fatal outcome of one bridge invocation.
#[derive(Debug, PartialEq, Eq)]
pub enum BridgeError {
    /// The since token could not be parsed as unsigned nanoseconds (V1 only;
    /// V2 degrades gracefully instead).
    InvalidArgument,
    /// The file-watching service could not be reached at all (a
    /// transport-level failure, distinct from an error reply).
    ServiceUnavailable { message: String },
    /// The service replied with an error that does not mean "root not
    /// watched"; its message is kept verbatim for diagnosis.
    UnexpectedServiceError { message: String },
    /// A success reply arrived without the file-list field: a protocol-shape
    /// violation this bridge does not understand.
    MalformedResponse,
    /// Establishing a watch during recovery failed.
    WatchFailed { message: String },
    /// Requesting a fresh clock during V2 recovery failed.
    ClockFailed { message: String },
}

impl BridgeError {
    /// The diagnostic text for this error, with the service's own message
    /// appended verbatim where there is one.
    pub open spec fn spec_describe(&self) -> Seq<char> {
        match self {
            BridgeError::InvalidArgument => "since token is not an unsigned nanosecond timestamp"@,
            BridgeError::ServiceUnavailable { message } => "cannot reach the file-watching service: "@
                + message@,
            BridgeError::UnexpectedServiceError { message } => "the file-watching service failed for an unexpected reason: "@
                + message@,
            BridgeError::MalformedResponse => "missing file data in the file-watching service's response"@,
            BridgeError::WatchFailed { message } => "establishing a watch failed: "@ + message@,
            BridgeError::ClockFailed { message } => "requesting a fresh clock failed: "@
                + message@,
        }
    }

    /// Renders the diagnostic for standard error.
    pub fn describe(&self) -> (out: String)
        ensures
            out@ == self.spec_describe(),
    {
        match self {
            BridgeError::InvalidArgument => String::from_str(
                "since token is not an unsigned nanosecond timestamp",
            ),
            BridgeError::ServiceUnavailable { message } => String::from_str(
                "cannot reach the file-watching service: ",
            ).concat(message.as_str()),
            BridgeError::UnexpectedServiceError { message } => String::from_str(
                "the file-watching service failed for an unexpected reason: ",
            ).concat(message.as_str()),
            BridgeError::MalformedResponse => String::from_str(
                "missing file data in the file-watching service's response",
            ),
            BridgeError::WatchFailed { message } => String::from_str(
                "establishing a watch failed: ",
            ).concat(message.as_str()),
            BridgeError::ClockFailed { message } => String::from_str(
                "requesting a fresh clock failed: ",
            ).concat(message.as_str()),
        }
    }
}

} // verus!

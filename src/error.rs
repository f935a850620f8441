//! The ways in which dispatching one request can fail.

use vstd::prelude::*;

verus! {

/// Why a request could not be answered by a backend node.
#[derive(Clone, Debug, PartialEq, Eq)]
pub enum DispatchError {
    /// The role that must serve the request has no known live node.
    NoNodesAvailable,
    /// The chosen node could not be reached; `reason` describes the transport failure.
    UpstreamUnreachable { reason: String },
    /// The backend's response body is longer than `limit` bytes.
    PayloadTooLarge { limit: usize },
}

/// The text that describes an error to the caller.
pub open spec fn error_text(e: DispatchError) -> Seq<char> {
    match e {
        DispatchError::NoNodesAvailable => "No online nodes"@,
        DispatchError::UpstreamUnreachable { reason } => reason@,
        DispatchError::PayloadTooLarge { .. } => "Response payload is larger than the configured limit"@,
    }
}

impl DispatchError {
    /// The text that describes this error to the caller.
    pub fn message(&self) -> (r: String)
        ensures
            r@ == error_text(*self),
    {
        match self {
            DispatchError::NoNodesAvailable => "No online nodes".to_owned(),
            DispatchError::UpstreamUnreachable { reason } => reason.clone(),
            DispatchError::PayloadTooLarge { .. } => {
                "Response payload is larger than the configured limit".to_owned()
            },
        }
    }
}

} // verus!

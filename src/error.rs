//! Failures of the gateway, each surfaced to callers as a typed value.
use vstd::prelude::*;
use crate::wire::RequestKind;

verus! {

/// Every way a gateway operation can fail.
#[derive(Clone, Debug, PartialEq, Eq)]
pub enum RpcError {
    /// The stream to the node could not be opened or used.
    Connection(String),
    /// The node reported a domain-level error.
    Kaspa(String),
    /// The node's reply lacked data that the gateway needs.
    InvalidResponse(String),
    Auth(String),
    /// Caller input failed a local precondition before any network call.
    BadRequest(String),
    Internal(String),
    /// The stream ended before any reply arrived.
    EmptyResponse,
    /// The reply's payload is not the one that a request of this kind expects.
    ProtocolMismatch(RequestKind),
    /// The stream driver reported an event that the current phase does not await.
    OutOfOrder,
}

impl RpcError {
    /// HTTP status under which this error is reported.
    pub open spec fn spec_status_code(&self) -> u16 {
        match self {
            RpcError::Connection(_) => 502,
            RpcError::Kaspa(_) => 400,
            RpcError::InvalidResponse(_) => 500,
            RpcError::Auth(_) => 401,
            RpcError::BadRequest(_) => 400,
            RpcError::Internal(_) => 500,
            RpcError::EmptyResponse => 502,
            RpcError::ProtocolMismatch(_) => 500,
            RpcError::OutOfOrder => 500,
        }
    }

    #[verifier::when_used_as_spec(spec_status_code)]
    pub fn status_code(&self) -> (r: u16)
        ensures
            r == self.spec_status_code(),
    {
        match self {
            RpcError::Connection(_) => 502,
            RpcError::Kaspa(_) => 400,
            RpcError::InvalidResponse(_) => 500,
            RpcError::Auth(_) => 401,
            RpcError::BadRequest(_) => 400,
            RpcError::Internal(_) => 500,
            RpcError::EmptyResponse => 502,
            RpcError::ProtocolMismatch(_) => 500,
            RpcError::OutOfOrder => 500,
        }
    }
}

} // verus!

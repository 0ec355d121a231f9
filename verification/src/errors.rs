//! The error taxonomy surfaced to callers.
//!
//! All four kinds are returned to the immediate caller through the call's
//! result type; none is swallowed, and no call is ever retried by this layer.

use crate::value::JVal;
use crate::value::Json;
use vstd::prelude::*;

verus! {

/// A typed parameter could not be converted to the wire value model, or a
/// reply value could not be converted back to the expected typed result.
/// Raised before any network effect; the caller can retry with corrected
/// input.
#[derive(Debug, PartialEq, Eq)]
pub struct EncodeError {
    /// A human-readable description of what failed to convert.
    pub reason: String,
}

/// Why a call could not be completed.
#[derive(Debug, PartialEq, Eq)]
pub enum ClientError {
    /// The transport could not hand off a fire-and-forget message (for
    /// example, the connection is down).
    NotifyFailed,
    /// A request's future resolved to a transport-level failure (disconnect,
    /// malformed reply, timeout) rather than an application-level reply.
    RequestFailed,
    /// The remote core explicitly replied with an application error payload,
    /// preserved here uninterpreted for the caller.
    ErrorReturned(Json),
    /// A value could not be converted to or from the wire value model; no
    /// message was sent for this call.
    SerializeFailed(EncodeError),
}

impl View for EncodeError {
    type V = Seq<char>;

    open spec fn view(&self) -> Seq<char> {
        self.reason@
    }
}

/// Model of a client error.
#[verifier::ext_equal]
pub enum ClientErrorV {
    NotifyFailed,
    RequestFailed,
    ErrorReturned(JVal),
    SerializeFailed(Seq<char>),
}

impl View for ClientError {
    type V = ClientErrorV;

    open spec fn view(&self) -> ClientErrorV {
        match self {
            ClientError::NotifyFailed => ClientErrorV::NotifyFailed,
            ClientError::RequestFailed => ClientErrorV::RequestFailed,
            ClientError::ErrorReturned(v) => ClientErrorV::ErrorReturned(v@),
            ClientError::SerializeFailed(e) => ClientErrorV::SerializeFailed(e@),
        }
    }
}

} // verus!

//! The boundary between this layer and the transport.
//!
//! The transport is an external collaborator: it frames and sends messages
//! and correlates replies by message id. This layer hands it `Outbound`
//! values and interprets the `RequestOutcome` it eventually resolves each
//! pending request to.

use crate::value::JVal;
use crate::value::Json;
use vstd::prelude::*;

verus! {

/// One outbound message: exactly one method name and one parameter value.
#[derive(Debug, PartialEq, Eq)]
pub struct Message {
    pub method: String,
    pub params: Json,
}

/// Model of an outbound message.
#[verifier::ext_equal]
pub struct MessageV {
    pub method: Seq<char>,
    pub params: JVal,
}

impl View for Message {
    type V = MessageV;

    open spec fn view(&self) -> MessageV {
        MessageV { method: self.method@, params: self.params@ }
    }
}

/// An outbound call, distinguishing whether a correlated reply is expected.
#[derive(Debug, PartialEq, Eq)]
pub enum Outbound {
    /// Fire-and-forget: no reply path exists for this message.
    Notification(Message),
    /// A correlated reply is expected; the transport resolves it to a
    /// `RequestOutcome`.
    Request(Message),
}

/// Model of an outbound call.
#[verifier::ext_equal]
pub enum OutboundV {
    Notification(MessageV),
    Request(MessageV),
}

impl View for Outbound {
    type V = OutboundV;

    open spec fn view(&self) -> OutboundV {
        match self {
            Outbound::Notification(m) => OutboundV::Notification(m@),
            Outbound::Request(m) => OutboundV::Request(m@),
        }
    }
}

/// The model of a notification carrying `method` and `params`.
pub open spec fn notification_v(method: Seq<char>, params: JVal) -> OutboundV {
    OutboundV::Notification(MessageV { method, params })
}

/// The model of a request carrying `method` and `params`.
pub open spec fn request_v(method: Seq<char>, params: JVal) -> OutboundV {
    OutboundV::Request(MessageV { method, params })
}

/// A transport-level failure: the connection dropped, the reply was
/// malformed, or the call timed out. Opaque to this layer.
#[derive(Clone, Copy, Debug, PartialEq, Eq)]
pub struct TransportError;

/// What the transport eventually resolves a pending request to.
#[derive(Debug, PartialEq, Eq)]
pub enum RequestOutcome {
    /// The remote side processed the call and replied with a payload.
    Reply(Json),
    /// The remote side explicitly replied with an application error payload.
    ErrorReply(Json),
    /// The call never reached or never returned from the remote side.
    Failed(TransportError),
}

/// Model of a resolved request outcome.
#[verifier::ext_equal]
pub enum RequestOutcomeV {
    Reply(JVal),
    ErrorReply(JVal),
    Failed,
}

impl View for RequestOutcome {
    type V = RequestOutcomeV;

    open spec fn view(&self) -> RequestOutcomeV {
        match self {
            RequestOutcome::Reply(v) => RequestOutcomeV::Reply(v@),
            RequestOutcome::ErrorReply(v) => RequestOutcomeV::ErrorReply(v@),
            RequestOutcome::Failed(_) => RequestOutcomeV::Failed,
        }
    }
}

} // verus!

//! Client-side RPC layer for a text-editing core process.
//!
//! Editor operations (cursor movement, selection, editing, search, view and
//! plugin lifecycle) are exposed as typed calls and translated into one of two
//! wire primitives: a fire-and-forget notification or a response-expecting
//! request. This crate builds and specifies the outbound envelopes and the
//! translation of transport outcomes into a typed error taxonomy; the
//! transport itself (framing, sending, reply correlation) is an external
//! collaborator that consumes the values produced here.

pub mod client;
pub mod errors;
pub mod protocol;
pub mod structs;
pub mod value;

pub use client::compose_edit_params;
pub use client::new_view_outcome;
pub use client::notify_outcome;
pub use client::request_outcome;
pub use client::view_id_from_wire;
pub use client::Client;
pub use client::ClientResult;
pub use errors::ClientError;
pub use errors::EncodeError;
pub use protocol::Message;
pub use protocol::Outbound;
pub use protocol::RequestOutcome;
pub use protocol::TransportError;
pub use structs::ModifySelection;
pub use structs::ViewId;
pub use value::JVal;
pub use value::Json;

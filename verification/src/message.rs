//! Wire messages: the envelope that crosses the byte stream and the typed
//! wrappers under which peers hand envelopes to the dispatch core.

use vstd::prelude::*;

use crate::conn_id::ConnID;

verus! {

/// Wire intent of an envelope.
///
/// Only `ReceiveRequest`, `Response` and `Error` take part in the dispatch
/// contract.  `PleaseAck`, `Ack` and `Broadcast` are reserved: they are
/// parsed and routed to a drop-with-warning path, and nothing depends on
/// their semantics.  `SendRequest` marks an outgoing request locally and is
/// rewritten to `ReceiveRequest` before transmission.
#[derive(Debug, Copy, Clone, PartialEq, Eq, Structural)]
pub enum MessageType {
    SendRequest,
    ReceiveRequest,
    Response,
    PleaseAck,
    Ack,
    Broadcast,
    Error,
}

/// Mathematical model of an envelope.
#[verifier::ext_equal]
pub struct EnvelopeView {
    /// Service name, as a character sequence.
    pub service: Seq<char>,
    /// Correlation token.
    pub conn_id: ConnID,
    /// Wire intent.
    pub ms_type: MessageType,
    /// Opaque payload bytes.
    pub payload: Seq<u8>,
}

/// A message that goes over the wire: a service name for dispatch in the
/// receiving application, a correlation token, a kind tag, and the encoded
/// service message as opaque bytes.
///
/// Invariants of the wire protocol: the service name is non-empty and the
/// payload is always present (possibly zero-length).  The codec enforces
/// both when framing and unframing.
#[derive(Debug, PartialEq, Eq)]
pub struct IpcMessage {
    /// The name of the service this envelope is addressed to.
    pub service: String,
    /// Correlation token.  A request and its response carry the same value.
    pub conn_id: ConnID,
    /// Whether this envelope is a request, a response, an error, or one of
    /// the reserved kinds.
    pub ms_type: MessageType,
    /// Encoded service message.
    pub payload: Vec<u8>,
}

impl View for IpcMessage {
    type V = EnvelopeView;

    open spec fn view(&self) -> EnvelopeView {
        EnvelopeView {
            service: self.service@,
            conn_id: self.conn_id,
            ms_type: self.ms_type,
            payload: self.payload@,
        }
    }
}

impl IpcMessage {
    /// An envelope from an already-encoded payload.  Typed payloads are
    /// encoded by the host (they carry arbitrary user schemas); the core
    /// only ever stores and moves the bytes.
    pub fn new(service: String, payload: Vec<u8>, ms_type: MessageType, conn_id: ConnID) -> (r:
        Self)
        ensures
            r@ == (EnvelopeView { service: service@, conn_id, ms_type, payload: payload@ }),
    {
        IpcMessage { service, conn_id, ms_type, payload }
    }
}

/// An outgoing request, handed to the dispatch core.  `ipc_peer` is the
/// handle of the peer that owns the connection the request should travel
/// on; the core returns the rewritten envelope for that peer to transmit.
pub struct SendRequest {
    /// Handle of the peer that will carry the request.
    pub ipc_peer: u64,
    /// The request envelope.
    pub ipc_msg: IpcMessage,
}

/// An inbound request, forwarded by a peer to the dispatch core so the
/// matching service handler can be found.
pub struct ReceiveRequest {
    /// Handle of the peer the request arrived on; the response travels back
    /// through it.
    pub ipc_peer: u64,
    /// The request envelope.
    pub ipc_msg: IpcMessage,
}

/// An inbound response, forwarded by a peer to the dispatch core so the
/// pending exchange with the same correlation token can be resolved.
pub struct IpcResponse {
    /// Handle of the peer the response arrived on.
    pub ipc_peer: u64,
    /// The response envelope.
    pub ipc_msg: IpcMessage,
}

/// An inbound peer-generated error, forwarded by a peer to the dispatch
/// core; it fails the pending exchange with the same correlation token.
pub struct IpcError {
    /// Handle of the peer the error arrived on.
    pub ipc_peer: u64,
    /// The error envelope; its payload is the encoded error message.
    pub ipc_msg: IpcMessage,
}

/// Reserved: a sender's wish to be acknowledged.  Parsed and dropped with a
/// warning; no dispatch semantics.
pub struct PleaseAck {
    /// Handle of the peer the envelope arrived on.
    pub ipc_peer: u64,
    /// The envelope.
    pub ipc_msg: IpcMessage,
}

/// Reserved: an acknowledgement.  Parsed and dropped with a warning.
pub struct Ack {
    /// Handle of the peer the envelope arrived on.
    pub ipc_peer: u64,
    /// The envelope.
    pub ipc_msg: IpcMessage,
}

/// Reserved: an envelope addressed to all connected peers.  Parsed and
/// dropped with a warning.
pub struct Broadcast {
    /// Handle of the peer the envelope arrived on.
    pub ipc_peer: u64,
    /// The envelope.
    pub ipc_msg: IpcMessage,
}

} // verus!

//! The failures this runtime can surface, and their renderings.

use vstd::prelude::*;

use crate::cbor::cbor_decode_str;
use crate::cbor::cbor_str_enc;
use crate::message::IpcError;
use crate::text::str_concat3;

verus! {

/// Result type of the runtime's fallible operations.
pub type EkkeResult<T> = Result<T, EkkeIoError>;

/// The failures the IPC runtime surfaces.
///
/// Expected peer-induced failures (bad payloads, unknown services, remote
/// errors, lost connections) are surfaced to the originating caller or to
/// the remote peer.  Internal invariant violations — a double service
/// registration, a downcast failure, a dead handler mailbox — are
/// unrecoverable: the host logs them at critical level and aborts.
#[derive(Debug, PartialEq, Eq)]
pub enum EkkeIoError {
    /// A socket operation before a connection exists: local API misuse.
    UseSocketBeforeConnect,
    /// The transport acceptor closed without producing a connection.
    NoConnectionsReceived,
    /// The named handler's mailbox cannot keep up or closed too early.
    /// Unrecoverable: dropping the request would hang the remote caller.
    HandlerMailboxFailure(String),
    /// No handler is registered for the named service.
    NoHandlerForService(String),
    /// The registry entry for the named service would not downcast to its
    /// typed delivery handle: an internal invariant violation.
    DowncastRecipientFailed(String),
    /// A second registration for a service (first field) already claimed;
    /// the second field names the offending actor.  Unrecoverable.
    DoubleServiceRegistration(String, String),
    /// A payload could not be decoded.
    DecodeFailure(String),
    /// The peer failed to handle a request; the field is the peer's
    /// message.
    IpcError(String),
    /// The connection was lost while the exchange was pending.
    ConnectionLost,
}

impl EkkeIoError {
    /// The rendering of each failure, for logs and for the host.
    pub open spec fn spec_message(self) -> Seq<char> {
        match self {
            EkkeIoError::UseSocketBeforeConnect => "Cannot use socket before connecting"@,
            EkkeIoError::NoConnectionsReceived => "Nobody connected to the socket"@,
            EkkeIoError::HandlerMailboxFailure(actor) => "The mailbox of the ["@ + actor@
                + "] actor cannot keep up with the message flow, or it was closed too early"@,
            EkkeIoError::NoHandlerForService(service) => "No handler is registered for service: ["@
                + service@ + "]"@,
            EkkeIoError::DowncastRecipientFailed(service) => "Failed to downcast the delivery handle for service: ["@
                + service@ + "]"@,
            EkkeIoError::DoubleServiceRegistration(service, actor) => "Handler for service ["@
                + service@ + "] is already registered. Second attempt was by: ["@ + actor@ + "]"@,
            EkkeIoError::DecodeFailure(what) => "Could not deserialize: ["@ + what@ + "]"@,
            EkkeIoError::IpcError(peer_msg) => "Peer failed to handle request: ["@ + peer_msg@
                + "]"@,
            EkkeIoError::ConnectionLost => "Connection was lost before the exchange resolved"@,
        }
    }

    /// Renders the failure.
    pub fn message(&self) -> (r: String)
        ensures
            r@ == self.spec_message(),
    {
        match self {
            EkkeIoError::UseSocketBeforeConnect => {
                let r = "Cannot use socket before connecting".to_owned();
                r
            },
            EkkeIoError::NoConnectionsReceived => {
                let r = "Nobody connected to the socket".to_owned();
                r
            },
            EkkeIoError::HandlerMailboxFailure(actor) => str_concat3(
                "The mailbox of the [",
                actor.as_str(),
                "] actor cannot keep up with the message flow, or it was closed too early",
            ),
            EkkeIoError::NoHandlerForService(service) => str_concat3(
                "No handler is registered for service: [",
                service.as_str(),
                "]",
            ),
            EkkeIoError::DowncastRecipientFailed(service) => str_concat3(
                "Failed to downcast the delivery handle for service: [",
                service.as_str(),
                "]",
            ),
            EkkeIoError::DoubleServiceRegistration(service, actor) => {
                let head = str_concat3(
                    "Handler for service [",
                    service.as_str(),
                    "] is already registered. Second attempt was by: [",
                );
                let r = str_concat3(head.as_str(), actor.as_str(), "]");
                r
            },
            EkkeIoError::DecodeFailure(what) => str_concat3(
                "Could not deserialize: [",
                what.as_str(),
                "]",
            ),
            EkkeIoError::IpcError(peer_msg) => str_concat3(
                "Peer failed to handle request: [",
                peer_msg.as_str(),
                "]",
            ),
            EkkeIoError::ConnectionLost => {
                let r = "Connection was lost before the exchange resolved".to_owned();
                r
            },
        }
    }

    /// The failure an inbound `Error` envelope stands for: its payload
    /// decoded as the peer's message, or a fixed note when that decode
    /// itself fails.
    pub fn from_ipc_error(err: &IpcError) -> (r: EkkeIoError)
        ensures
            r is IpcError,
            forall|s: Seq<char>|
                err.ipc_msg@.payload == cbor_str_enc(s) ==> (r matches EkkeIoError::IpcError(m)
                    && m@ == s),
    {
        match cbor_decode_str(err.ipc_msg.payload.as_slice()) {
            Some(peer_msg) => EkkeIoError::IpcError(peer_msg),
            None => EkkeIoError::IpcError("Failed to deserialize Error Message".to_owned()),
        }
    }
}

} // verus!

//! Core of a lightweight actor-oriented IPC/RPC runtime.
//!
//! The library multiplexes one duplex byte stream into typed, correlated
//! request/response exchanges.  Envelopes ([`IpcMessage`]) carry a service
//! name, a 128-bit correlation token ([`ConnID`]), a kind tag and an opaque
//! payload.  A verified codec ([`Codec`]) frames envelopes on the wire, a
//! registry maps service types to delivery handles, the peer ([`IpcPeer`])
//! owns one connection's stream halves, and the dispatch core ([`Rpc`])
//! correlates outbound requests with inbound responses through a pending
//! table.  Transport I/O, task scheduling and typed payload serialization
//! live in the host binary; the decisions they act on are made and proved
//! here.

mod cbor;
mod codec;
mod conn_id;
mod errors;
mod message;
mod peer;
mod pending;
mod registry;
mod rpc;
mod text;

pub use cbor::cbor_str_enc;
pub use codec::Codec;
pub use codec::FrameStep;
pub use codec::decode_body;
pub use codec::encode_body;
pub use codec::encode_envelope;
pub use codec::envelope_wf;
pub use codec::kind_tag;
pub use codec::lemma_codec_round_trip;
pub use codec::lemma_decoded_wf;
pub use codec::lemma_frame_in_stream;
pub use codec::lemma_frame_round_trip;
pub use codec::spec_body;
pub use codec::spec_body_len;
pub use codec::spec_decode_body;
pub use codec::spec_frame;
pub use codec::stream_front_body;
pub use codec::stream_has_frame;
pub use codec::stream_rest;
pub use codec::tag_kind;
pub use codec::wf_envelope;
pub use conn_id::ConnID;
pub use errors::EkkeIoError;
pub use errors::EkkeResult;
pub use message::Ack;
pub use message::Broadcast;
pub use message::EnvelopeView;
pub use message::IpcError;
pub use message::IpcMessage;
pub use message::IpcResponse;
pub use message::MessageType;
pub use message::PleaseAck;
pub use message::ReceiveRequest;
pub use message::SendRequest;
pub use peer::InboundStep;
pub use peer::IpcPeer;
pub use peer::lemma_peer_writes_in_order;
pub use peer::lemma_spec_wire_app;
pub use peer::lemma_spec_wire_singleton;
pub use peer::lemma_wire_decodes_in_order;
pub use peer::lemma_writes_in_order;
pub use peer::spec_wire;
pub use peer::wire_offset;
pub use registry::RegisterOutcome;
pub use registry::Registry;
pub use registry::RegistryEntry;
pub use registry::RegistryEntryView;
pub use rpc::Dispatch;
pub use rpc::RegisterService;
pub use rpc::Rpc;
pub use rpc::decode_failure_message;
pub use rpc::lemma_at_most_one_response;
pub use rpc::lemma_registry_uniqueness;
pub use rpc::lemma_response_correlation;
pub use rpc::no_handler_message;
pub use rpc::tokens_unique;
pub use text::str_concat;
pub use text::str_concat3;

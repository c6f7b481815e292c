//! The dispatch core: routes inbound requests to registered handlers,
//! tracks outbound requests in a pending table keyed by the correlation
//! token, resolves completions, and propagates peer errors to their
//! originators.
//!
//! The core decides; the host acts.  The host supplies the *matcher*: the
//! one place that knows which service names map to which payload types.  On
//! an inbound request the host's matcher resolves the service name to a
//! type tag and calls [`Rpc::deser_into`]; on [`Dispatch::Deliver`] it
//! decodes the typed payload (falling back to
//! [`Rpc::decode_failure_response`] when that fails) and delivers it to the
//! handler's mailbox.  Completion tokens returned by [`Rpc::send_request`]
//! stand for the host's one-shot completion sinks.

use vstd::prelude::*;
use vstd::map::*;

use crate::cbor::cbor_encode_str;
use crate::cbor::cbor_str_enc;
use crate::cbor::cbor_decode_str;
use crate::conn_id::ConnID;
use crate::errors::EkkeIoError;
use crate::errors::EkkeResult;
use crate::message::IpcError;
use crate::message::IpcMessage;
use crate::message::IpcResponse;
use crate::message::MessageType;
use crate::message::SendRequest;
use crate::registry::Registry;
use crate::registry::RegisterOutcome;
use crate::registry::RegistryEntryView;
use crate::pending::ConnMap;
use crate::text::str_concat3;

verus! {

/// The registration message: installs `recipient` as the handler for
/// requests whose payload type carries `type_id`.  The names are kept for
/// diagnostics.
pub struct RegisterService {
    /// The service (message type) name.
    pub service: String,
    /// The name of the registering actor.
    pub actor: String,
    /// Process-local tag of the concrete message type.
    pub type_id: u64,
    /// Host-side handle of the handler's mailbox.
    pub recipient: u64,
}

/// What the core decides for an inbound request once the matcher resolved
/// its type tag.
pub enum Dispatch {
    /// A handler is registered: the host decodes the typed payload and
    /// delivers it to this mailbox, then sends the handler's response back
    /// through the reply channel.
    Deliver {
        /// Host-side handle of the handler's mailbox.
        recipient: u64,
    },
    /// No handler is registered for the tag: the host sends this error
    /// envelope back through the reply channel and the request terminates.
    NoHandler {
        /// The error envelope, carrying the original correlation token.
        reply: IpcMessage,
    },
}

/// The message sent back for a request whose service has no handler.
pub open spec fn no_handler_message(service: Seq<char>) -> Seq<char> {
    "No handler is registered for service: \""@ + service + "\""@
}

/// The message sent back for a request whose payload would not decode.
pub open spec fn decode_failure_message(service: Seq<char>) -> Seq<char> {
    "Rpc component could not deserialize your message for service: \""@ + service + "\""@
}

/// No two pending entries share a completion token.
pub open spec fn tokens_unique(m: Map<(u64, u64), (u64, u64)>) -> bool {
    forall|k1: (u64, u64), k2: (u64, u64)|
        m.dom().contains(k1) && m.dom().contains(k2) && k1 != k2 ==> (#[trigger] m[k1]).0 != (
        #[trigger] m[k2]).0
}

/// The dispatch core: the registry of service handlers and the pending
/// table of outbound exchanges, both owned by this one component and
/// mutated only through its methods.
pub struct Rpc {
    handlers: Registry,
    responses: ConnMap,
    next_completion: u64,
}

impl Rpc {
    /// The registered services: type tag → entry.
    pub closed spec fn services(self) -> Map<u64, RegistryEntryView> {
        self.handlers@
    }

    /// The pending table: correlation-token words → (completion token,
    /// peer handle).
    pub closed spec fn pending(self) -> Map<(u64, u64), (u64, u64)> {
        self.responses@
    }

    /// The completion token the next outbound request will get.
    pub closed spec fn next_token(self) -> u64 {
        self.next_completion
    }

    /// The core's invariant: the registry is well formed, completion
    /// tokens are pairwise distinct, and all stored tokens are below the
    /// next one.
    pub closed spec fn wf(self) -> bool {
        &&& self.handlers.wf()
        &&& tokens_unique(self.pending())
        &&& forall|k: (u64, u64)|
            self.pending().dom().contains(k) ==> (#[trigger] self.pending()[k]).0
                < self.next_completion
    }

    /// The invariant keeps completion tokens unique, so resolutions
    /// correlate unambiguously.
    pub proof fn lemma_wf_tokens_unique(self)
        requires
            self.wf(),
        ensures
            tokens_unique(self.pending()),
    {
    }

    /// A fresh core: nothing registered, nothing pending.
    pub fn new() -> (r: Rpc)
        ensures
            r.wf(),
            forall|t: u64| !r.services().dom().contains(t),
            forall|k: (u64, u64)| !r.pending().dom().contains(k),
            r.next_token() == 0,
    {
        Rpc { handlers: Registry::new(), responses: ConnMap::new(), next_completion: 0 }
    }

    /// The `Error`-kind envelope that reports `error` to the peer for the
    /// exchange `conn_id` of `service`.
    pub fn error_response(&self, service: &str, error: &str, conn_id: ConnID) -> (r: IpcMessage)
        ensures
            r@.service == service@,
            r@.conn_id == conn_id,
            r@.ms_type == MessageType::Error,
            r@.payload == cbor_str_enc(error@),
    {
        IpcMessage::new(service.to_owned(), cbor_encode_str(error), MessageType::Error, conn_id)
    }

    /// Decodes a text payload, surfacing the failure instead of handling
    /// it: every payload the core's own codec produced decodes back to its
    /// string.
    pub fn deserialize(payload: &[u8]) -> (r: EkkeResult<String>)
        ensures
            forall|s: Seq<char>| payload@ == cbor_str_enc(s) ==> (r matches Ok(t) && t@ == s),
            r matches Err(e) ==> (e matches EkkeIoError::DecodeFailure(m) && m@
                == "text payload"@),
    {
        match cbor_decode_str(payload) {
            Some(s) => Ok(s),
            None => Err(EkkeIoError::DecodeFailure("text payload".to_owned())),
        }
    }

    /// Whether another outbound request can mint a completion token: the
    /// host checks this before [`Rpc::send_request`], whose contract asks
    /// for headroom on the 64-bit counter.
    pub fn has_token_headroom(&self) -> (r: bool)
        ensures
            r == (self.next_token() < u64::MAX),
    {
        self.next_completion < u64::MAX
    }

    /// Installs a service handler.  A tag that is already claimed leaves
    /// the core unchanged and reports a fatal duplicate for the host to
    /// abort on.
    pub fn register_service(&mut self, msg: RegisterService) -> (r: RegisterOutcome)
        requires
            old(self).wf(),
        ensures
            final(self).wf(),
            final(self).pending() == old(self).pending(),
            final(self).next_token() == old(self).next_token(),
            old(self).services().dom().contains(msg.type_id) ==> r is FatalDuplicate && final(self).services() == old(self).services(),
            !old(self).services().dom().contains(msg.type_id) ==> r is Registered && final(self).services() == old(self).services().insert(
                msg.type_id,
                RegistryEntryView {
                    service: msg.service@,
                    actor: msg.actor@,
                    recipient: msg.recipient,
                },
            ),
    {
        self.handlers.register(msg.type_id, msg.service, msg.actor, msg.recipient)
    }

    /// Routes an inbound request whose matcher resolved `tag`: to the
    /// registered handler's mailbox, or into a no-handler error envelope
    /// that echoes the service and correlation token.
    pub fn deser_into(&self, tag: u64, msg: &IpcMessage) -> (d: Dispatch)
        requires
            self.wf(),
        ensures
            self.services().dom().contains(tag) ==> (d matches Dispatch::Deliver { recipient }
                && recipient == self.services()[tag].recipient),
            !self.services().dom().contains(tag) ==> (d matches Dispatch::NoHandler { reply }
                && reply@.service == msg@.service && reply@.conn_id == msg@.conn_id
                && reply@.ms_type == MessageType::Error && reply@.payload == cbor_str_enc(
                no_handler_message(msg@.service),
            )),
    {
        match self.handlers.lookup(tag) {
            Some(e) => Dispatch::Deliver { recipient: e.recipient },
            None => {
                let text = str_concat3(
                    "No handler is registered for service: \"",
                    msg.service.as_str(),
                    "\"",
                );
                let reply = self.error_response(
                    msg.service.as_str(),
                    text.as_str(),
                    msg.conn_id,
                );
                Dispatch::NoHandler { reply }
            },
        }
    }

    /// The error envelope sent back when the typed payload of an inbound
    /// request would not decode.
    pub fn decode_failure_response(&self, msg: &IpcMessage) -> (r: IpcMessage)
        ensures
            r@.service == msg@.service,
            r@.conn_id == msg@.conn_id,
            r@.ms_type == MessageType::Error,
            r@.payload == cbor_str_enc(decode_failure_message(msg@.service)),
    {
        let text = str_concat3(
            "Rpc component could not deserialize your message for service: \"",
            msg.service.as_str(),
            "\"",
        );
        self.error_response(msg.service.as_str(), text.as_str(), msg.conn_id)
    }

    /// Begins an outbound exchange: installs a fresh completion token in
    /// the pending table under the envelope's correlation token, rewrites
    /// the kind to `ReceiveRequest`, and returns the envelope for the peer
    /// together with the token the host's completion sink is keyed by.
    pub fn send_request(&mut self, req: SendRequest) -> (r: (IpcMessage, u64))
        requires
            old(self).wf(),
            old(self).next_token() < u64::MAX,
        ensures
            final(self).wf(),
            final(self).services() == old(self).services(),
            final(self).next_token() == old(self).next_token() + 1,
            r.1 == old(self).next_token(),
            final(self).pending() == old(self).pending().insert(
                req.ipc_msg@.conn_id.spec_words(),
                (r.1, req.ipc_peer),
            ),
            r.0@.service == req.ipc_msg@.service,
            r.0@.conn_id == req.ipc_msg@.conn_id,
            r.0@.ms_type == MessageType::ReceiveRequest,
            r.0@.payload == req.ipc_msg@.payload,
    {
        let token = self.next_completion;
        self.next_completion = self.next_completion + 1;
        let k = req.ipc_msg.conn_id.words();
        self.responses.insert(k, (token, req.ipc_peer));
        proof {
            let p0 = old(self).pending();
            let p1 = self.pending();
            assert(p1 == p0.insert(k, (token, req.ipc_peer)));
            assert forall|k1: (u64, u64), k2: (u64, u64)|
                p1.dom().contains(k1) && p1.dom().contains(k2) && k1 != k2 implies (
            #[trigger] p1[k1]).0 != (#[trigger] p1[k2]).0 by {
                if k1 == k {
                    assert(p1[k1] == (token, req.ipc_peer));
                    assert(p0.dom().contains(k2) && p1[k2] == p0[k2]);
                    assert(p0[k2].0 < token);
                } else if k2 == k {
                    assert(p1[k2] == (token, req.ipc_peer));
                    assert(p0.dom().contains(k1) && p1[k1] == p0[k1]);
                    assert(p0[k1].0 < token);
                } else {
                    assert(p0.dom().contains(k1) && p1[k1] == p0[k1]);
                    assert(p0.dom().contains(k2) && p1[k2] == p0[k2]);
                }
            }
        }
        let mut m = req.ipc_msg;
        m.ms_type = MessageType::ReceiveRequest;
        (m, token)
    }

    /// Resolves an inbound response: takes the pending entry stored under
    /// the response's correlation token out of the table and hands back
    /// its completion token with the envelope.  An unknown token is a
    /// protocol violation: the envelope is dropped (the host logs it) and
    /// nothing changes, so each entry resolves at most once.
    pub fn on_inbound_response(&mut self, msg: IpcResponse) -> (r: Option<(u64, IpcMessage)>)
        requires
            old(self).wf(),
        ensures
            final(self).wf(),
            final(self).services() == old(self).services(),
            final(self).next_token() == old(self).next_token(),
            old(self).pending().dom().contains(msg.ipc_msg@.conn_id.spec_words()) ==> (r matches
            Some(p) && p.0 == old(self).pending()[msg.ipc_msg@.conn_id.spec_words()].0 && p.1@
                == msg.ipc_msg@ && final(self).pending() == old(self).pending().remove(
                msg.ipc_msg@.conn_id.spec_words(),
            )),
            !old(self).pending().dom().contains(msg.ipc_msg@.conn_id.spec_words()) ==> (r is None
                && final(self).pending() == old(self).pending()),
    {
        let k = msg.ipc_msg.conn_id.words();
        match self.responses.remove(k) {
            Some(entry) => Some((entry.0, msg.ipc_msg)),
            None => {
                proof {
                    assert(self.pending() =~= old(self).pending());
                }
                None
            },
        }
    }

    /// Resolves an inbound peer error: like a response, but the pending
    /// exchange fails with the peer's decoded message.
    pub fn on_inbound_error(&mut self, msg: IpcError) -> (r: Option<(u64, EkkeIoError)>)
        requires
            old(self).wf(),
        ensures
            final(self).wf(),
            final(self).services() == old(self).services(),
            final(self).next_token() == old(self).next_token(),
            old(self).pending().dom().contains(msg.ipc_msg@.conn_id.spec_words()) ==> (r matches
            Some(p) && p.0 == old(self).pending()[msg.ipc_msg@.conn_id.spec_words()].0 && p.1
                is IpcError && final(self).pending() == old(self).pending().remove(
                msg.ipc_msg@.conn_id.spec_words(),
            )),
            old(self).pending().dom().contains(msg.ipc_msg@.conn_id.spec_words()) ==> (forall|
                s: Seq<char>,
            |
                msg.ipc_msg@.payload == cbor_str_enc(s) ==> (r matches Some(p)
                    && p.1 matches EkkeIoError::IpcError(m) && m@ == s)),
            !old(self).pending().dom().contains(msg.ipc_msg@.conn_id.spec_words()) ==> (r is None
                && final(self).pending() == old(self).pending()),
    {
        let k = msg.ipc_msg.conn_id.words();
        match self.responses.remove(k) {
            Some(entry) => {
                let e = EkkeIoError::from_ipc_error(&msg);
                Some((entry.0, e))
            },
            None => {
                proof {
                    assert(self.pending() =~= old(self).pending());
                }
                None
            },
        }
    }

    /// Cancels every exchange pending on `peer` when its connection is
    /// lost: the entries leave the table and their correlation and
    /// completion tokens come back, each exactly once, for the host to
    /// fail with [`EkkeIoError::ConnectionLost`].  Exchanges pending on
    /// other peers keep their entries.
    pub fn connection_lost(&mut self, peer: u64) -> (r: Vec<(ConnID, u64)>)
        requires
            old(self).wf(),
        ensures
            final(self).wf(),
            final(self).services() == old(self).services(),
            final(self).next_token() == old(self).next_token(),
            forall|k: (u64, u64)| #[trigger]
                final(self).pending().dom().contains(k) ==> old(self).pending().dom().contains(k)
                    && final(self).pending()[k] == old(self).pending()[k] && old(self).pending()[k].1 != peer,
            forall|k: (u64, u64)|
                old(self).pending().dom().contains(k) && (#[trigger] old(self).pending()[k]).1
                    != peer ==> final(self).pending().dom().contains(k),
            forall|i: int|
                0 <= i < r@.len() ==> old(self).pending().contains_pair(
                    (#[trigger] r@[i]).0.spec_words(),
                    (r@[i].1, peer),
                ),
            forall|k: (u64, u64)|
                old(self).pending().dom().contains(k) && (#[trigger] old(self).pending()[k]).1
                    == peer ==> exists|i: int|
                    0 <= i < r@.len() && (#[trigger] r@[i]).0.spec_words() == k && r@[i].1 == old(self).pending()[k].0,
            forall|i: int, j: int|
                0 <= i < j < r@.len() ==> (#[trigger] r@[i]).0.spec_words() != (
                #[trigger] r@[j]).0.spec_words(),
    {
        let ghost p0 = old(self).pending();
        let drained = self.responses.drain();
        let mut out: Vec<(ConnID, u64)> = Vec::new();
        let mut i: usize = 0;
        while i < drained.len()
            invariant
                0 <= i <= drained@.len(),
                self.handlers == old(self).handlers,
                self.next_completion == old(self).next_completion,
                forall|j: int|
                    0 <= j < drained@.len() ==> p0.contains_pair(
                        (#[trigger] drained@[j]).0,
                        drained@[j].1,
                    ),
                forall|j: int, l: int|
                    0 <= j < l < drained@.len() ==> (#[trigger] drained@[j]).0 != (
                    #[trigger] drained@[l]).0,
                forall|k: (u64, u64)| #[trigger]
                    p0.dom().contains(k) ==> exists|j: int|
                        0 <= j < drained@.len() && drained@[j] == (k, p0[k]),
                forall|k: (u64, u64)| #[trigger]
                    self.pending().dom().contains(k) ==> exists|j: int|
                        0 <= j < i && drained@[j] == (k, self.pending()[k]) && drained@[j].1.1
                            != peer,
                forall|j: int|
                    0 <= j < i && (#[trigger] drained@[j]).1.1 != peer ==> self.pending(
                    ).contains_pair(drained@[j].0, drained@[j].1),
                forall|l: int|
                    0 <= l < out@.len() ==> exists|j: int|
                        0 <= j < i && (#[trigger] out@[l]).0.spec_words() == drained@[j].0
                            && drained@[j].1 == (out@[l].1, peer),
                forall|j: int|
                    0 <= j < i && (#[trigger] drained@[j]).1.1 == peer ==> exists|l: int|
                        0 <= l < out@.len() && (#[trigger] out@[l]).0.spec_words()
                            == drained@[j].0 && out@[l].1 == drained@[j].1.0,
                forall|l1: int, l2: int|
                    0 <= l1 < l2 < out@.len() ==> (#[trigger] out@[l1]).0.spec_words() != (
                    #[trigger] out@[l2]).0.spec_words(),
            decreases drained@.len() - i,
        {
            let ghost out0 = out@;
            let ghost pend0 = self.pending();
            let entry = drained[i];
            if entry.1.1 == peer {
                let cid = ConnID::from_words(entry.0.0, entry.0.1);
                proof {
                    cid.lemma_words_bijective(entry.0.0, entry.0.1);
                    assert(cid.spec_words() == entry.0);
                }
                out.push((cid, entry.1.0));
                proof {
                    assert forall|j: int|
                        0 <= j < i + 1 && (#[trigger] drained@[j]).1.1 == peer implies exists|
                        l: int,
                    |
                        0 <= l < out@.len() && (#[trigger] out@[l]).0.spec_words()
                            == drained@[j].0 && out@[l].1 == drained@[j].1.0 by {
                        if j < i {
                            let l = choose|l: int|
                                0 <= l < out0.len() && (#[trigger] out0[l]).0.spec_words()
                                    == drained@[j].0 && out0[l].1 == drained@[j].1.0;
                            assert(out@[l] == out0[l]);
                        } else {
                            let l = out0.len() as int;
                            assert(out@[l] == (cid, entry.1.0));
                        }
                    }
                }
            } else {
                self.responses.insert(entry.0, entry.1);
                proof {
                    assert(self.pending() == pend0.insert(entry.0, entry.1));
                    assert forall|k: (u64, u64)| #[trigger]
                        self.pending().dom().contains(k) implies exists|j: int|
                        0 <= j < i + 1 && drained@[j] == (k, self.pending()[k])
                            && drained@[j].1.1 != peer by {
                        if k == entry.0 {
                            assert(self.pending()[k] == entry.1);
                            assert(drained@[i as int] == (k, self.pending()[k]));
                        } else {
                            assert(pend0.dom().contains(k) && self.pending()[k] == pend0[k]);
                            let j = choose|j: int|
                                0 <= j < i && drained@[j] == (k, pend0[k]) && drained@[j].1.1
                                    != peer;
                            assert(drained@[j] == (k, self.pending()[k]));
                        }
                    }
                }
            }
            i = i + 1;
        }
        out
    }
}

/// Correlation: [`Rpc::send_request`] stores the fresh completion token
/// under the request envelope's correlation token, and
/// [`Rpc::on_inbound_response`] resolves the token stored under the
/// response envelope's.  On a well-formed core completion tokens are
/// unique, so when a response resolves a request's completion token, the
/// two envelopes carry the same correlation token: every completed
/// exchange answers under the token it was issued under.
pub proof fn lemma_response_correlation(rpc: Rpc, req_key: (u64, u64), resp_key: (u64, u64))
    requires
        rpc.wf(),
        rpc.pending().dom().contains(req_key),
        rpc.pending().dom().contains(resp_key),
        rpc.pending()[req_key].0 == rpc.pending()[resp_key].0,
    ensures
        req_key == resp_key,
{
    rpc.lemma_wf_tokens_unique();
}

/// At most one resolution: [`Rpc::on_inbound_response`] removes the entry
/// it resolves, so in the state it leaves behind the same correlation
/// token finds no entry — a second inbound response for it is dropped.
pub proof fn lemma_at_most_one_response(before: Rpc, after: Rpc, k: (u64, u64))
    requires
        after.pending() == before.pending().remove(k),
    ensures
        !after.pending().dom().contains(k),
{
}

/// Registry uniqueness: a successful [`Rpc::register_service`] leaves the
/// tag claimed, and its contract then forces every further registration
/// for the same tag to report a fatal duplicate — on which the host
/// aborts the process — and to leave the registry unchanged.
pub proof fn lemma_registry_uniqueness(
    before: Rpc,
    after: Rpc,
    tag: u64,
    entry: RegistryEntryView,
)
    requires
        after.services() == before.services().insert(tag, entry),
    ensures
        after.services().dom().contains(tag),
{
}

} // verus!

//! The peer: owns one connection's two stream halves.
//!
//! Outbound, the peer serializes envelopes onto its write buffer in the
//! order they are handed to it — the single-writer invariant: only the
//! peer touches the write half, and [`lemma_writes_in_order`] states that
//! the wire carries the frames in submission order.  Inbound, it decodes
//! frames from the bytes the host reads off the transport and routes each
//! envelope by kind to the dispatch core.  The host performs the reads and
//! writes; it must hand [`IpcPeer::take_output`]'s bytes to the transport
//! unchanged and in order.

use vstd::prelude::*;

use crate::codec::Codec;
use crate::codec::FrameStep;
use crate::codec::encode_envelope;
use crate::codec::spec_decode_body;
use crate::codec::spec_frame;
use crate::codec::stream_front_body;
use crate::codec::stream_has_frame;
use crate::codec::stream_rest;
use crate::codec::wf_envelope;
use crate::message::EnvelopeView;
use crate::message::IpcError;
use crate::message::IpcMessage;
use crate::message::IpcResponse;
use crate::message::MessageType;
use crate::message::ReceiveRequest;

verus! {

/// The wire image of a submission sequence: the envelopes' frames,
/// concatenated in order.
pub open spec fn spec_wire(es: Seq<EnvelopeView>) -> Seq<u8>
    decreases es.len(),
{
    if es.len() == 0 {
        Seq::empty()
    } else {
        spec_wire(es.drop_last()) + spec_frame(es.last())
    }
}

/// The wire image of a concatenation is the concatenation of the wire
/// images.
pub proof fn lemma_spec_wire_app(es1: Seq<EnvelopeView>, es2: Seq<EnvelopeView>)
    ensures
        spec_wire(es1 + es2) == spec_wire(es1) + spec_wire(es2),
    decreases es2.len(),
{
    if es2.len() == 0 {
        assert(es1 + es2 =~= es1);
        assert(spec_wire(es1) + spec_wire(es2) =~= spec_wire(es1));
    } else {
        lemma_spec_wire_app(es1, es2.drop_last());
        assert((es1 + es2).drop_last() =~= es1 + es2.drop_last());
        assert((es1 + es2).last() == es2.last());
        assert(spec_wire(es1) + spec_wire(es2) =~= (spec_wire(es1) + spec_wire(es2.drop_last()))
            + spec_frame(es2.last()));
    }
}

/// Where envelope `i`'s frame begins on the wire.
pub open spec fn wire_offset(es: Seq<EnvelopeView>, i: int) -> int
    recommends
        0 <= i <= es.len(),
{
    spec_wire(es.take(i)).len() as int
}

/// Ordering of writes: envelope `i`'s frame occupies the wire bytes from
/// its own offset to the next envelope's offset, so envelopes submitted in
/// order e₁ … eₙ are transmitted in that same order.
pub proof fn lemma_writes_in_order(es: Seq<EnvelopeView>, i: int)
    requires
        0 <= i < es.len(),
    ensures
        wire_offset(es, i + 1) == wire_offset(es, i) + spec_frame(es[i]).len(),
        0 <= wire_offset(es, i),
        wire_offset(es, i + 1) <= spec_wire(es).len(),
        spec_wire(es).subrange(wire_offset(es, i), wire_offset(es, i + 1)) == spec_frame(es[i]),
{
    let head = es.take(i);
    let next = es.take(i + 1);
    assert(next.drop_last() =~= head);
    assert(next.last() == es[i]);
    assert(spec_wire(next) == spec_wire(head) + spec_frame(es[i]));
    assert(es =~= next + es.skip(i + 1));
    lemma_spec_wire_app(next, es.skip(i + 1));
    assert(spec_wire(es) == spec_wire(next) + spec_wire(es.skip(i + 1)));
    assert(spec_wire(es).subrange(wire_offset(es, i), wire_offset(es, i + 1)) =~= spec_frame(
        es[i],
    ));
}

/// The wire of a single submission is that envelope's frame.
pub proof fn lemma_spec_wire_singleton(e: EnvelopeView)
    ensures
        spec_wire(seq![e]) == spec_frame(e),
{
    assert(seq![e].drop_last() =~= Seq::empty());
    assert(spec_wire(seq![e].drop_last()) + spec_frame(e) =~= spec_frame(e));
}

/// What the receiver sees: a decode stream holding the wire of the
/// submissions e₁ … eₙ yields a complete front frame that decodes to e₁,
/// and what remains is the wire of e₂ … eₙ.  Applied frame by frame, the
/// receiver decodes exactly the submitted envelopes, in submission order.
pub proof fn lemma_wire_decodes_in_order(es: Seq<EnvelopeView>)
    requires
        es.len() > 0,
        forall|i: int| 0 <= i < es.len() ==> wf_envelope(#[trigger] es[i]),
    ensures
        stream_has_frame(spec_wire(es)),
        spec_decode_body(stream_front_body(spec_wire(es))) == Some(es[0]),
        stream_rest(spec_wire(es)) == spec_wire(es.drop_first()),
{
    let rest = es.drop_first();
    assert(es =~= seq![es[0]] + rest);
    lemma_spec_wire_app(seq![es[0]], rest);
    lemma_spec_wire_singleton(es[0]);
    assert(spec_wire(es) == spec_frame(es[0]) + spec_wire(rest));
    crate::codec::lemma_frame_in_stream(es[0], spec_wire(rest));
    crate::codec::lemma_codec_round_trip(es[0]);
}

/// One step of the peer's inbound loop: where the next decoded envelope
/// goes.
pub enum InboundStep {
    /// An inbound request, to be forwarded to the dispatch core.
    Request(ReceiveRequest),
    /// An inbound response, to be forwarded to the dispatch core.
    Response(IpcResponse),
    /// A peer-generated error, to be forwarded to the dispatch core.
    PeerError(IpcError),
    /// A reserved kind: the host logs a warning and drops the envelope.
    Reserved(IpcMessage),
    /// A malformed frame: the host logs it; decoding continues at the next
    /// frame boundary.
    Corrupt,
    /// No complete frame buffered; the host reads more bytes, or resolves
    /// every pending exchange as connection-lost when the stream has
    /// ended.
    Pending,
}

/// One connection's endpoint: the write buffer it alone owns, the decode
/// buffer of the read half, and its own address (the handle under which
/// inbound envelopes carry their reply channel).
pub struct IpcPeer {
    addr: u64,
    codec: Codec,
    out_buf: Vec<u8>,
    flushed: Ghost<Seq<u8>>,
    submitted: Ghost<Seq<EnvelopeView>>,
}

impl IpcPeer {
    /// The peer's own address handle.
    pub closed spec fn peer_addr(self) -> u64 {
        self.addr
    }

    /// Every envelope handed to the peer so far, in order.
    pub closed spec fn submitted(self) -> Seq<EnvelopeView> {
        self.submitted@
    }

    /// The bytes already handed to the transport.
    pub closed spec fn flushed(self) -> Seq<u8> {
        self.flushed@
    }

    /// The whole outbound wire: flushed bytes followed by the bytes still
    /// buffered.
    pub closed spec fn wire_bytes(self) -> Seq<u8> {
        self.flushed@ + self.out_buf@
    }

    /// The inbound bytes not yet decoded.
    pub closed spec fn inbound(self) -> Seq<u8> {
        self.codec@
    }

    /// The peer's invariant: the wire is exactly the frames of the
    /// submitted envelopes, in order.
    pub closed spec fn wf(self) -> bool {
        self.wire_bytes() == spec_wire(self.submitted())
    }

    /// A fresh peer endpoint under the given address handle.
    pub fn new(addr: u64) -> (r: IpcPeer)
        ensures
            r.wf(),
            r.peer_addr() == addr,
            r.submitted().len() == 0,
            r.flushed().len() == 0,
            r.wire_bytes().len() == 0,
            r.inbound().len() == 0,
    {
        let r = IpcPeer {
            addr,
            codec: Codec::new(),
            out_buf: Vec::new(),
            flushed: Ghost(Seq::empty()),
            submitted: Ghost(Seq::empty()),
        };
        proof {
            assert(r.wire_bytes() =~= spec_wire(r.submitted()));
        }
        r
    }

    /// Queues one envelope on the write half: its frame goes after
    /// everything submitted earlier, and nothing is dropped.
    pub fn send_envelope(&mut self, msg: IpcMessage)
        requires
            old(self).wf(),
            wf_envelope(msg@),
        ensures
            final(self).wf(),
            final(self).peer_addr() == old(self).peer_addr(),
            final(self).inbound() == old(self).inbound(),
            final(self).flushed() == old(self).flushed(),
            final(self).submitted() == old(self).submitted().push(msg@),
            final(self).wire_bytes() == old(self).wire_bytes() + spec_frame(msg@),
    {
        let mut frame = encode_envelope(&msg);
        self.out_buf.append(&mut frame);
        proof {
            let es = old(self).submitted().push(msg@);
            assert(es.drop_last() =~= old(self).submitted());
            assert(es.last() == msg@);
        }
        self.submitted = Ghost(self.submitted@.push(msg@));
        proof {
            assert(self.wire_bytes() =~= old(self).wire_bytes() + spec_frame(msg@));
            assert(self.wire_bytes() =~= spec_wire(self.submitted()));
        }
    }

    /// Hands the buffered outbound bytes to the host, which must write
    /// them to the transport unchanged and in order before asking again.
    pub fn take_output(&mut self) -> (r: Vec<u8>)
        requires
            old(self).wf(),
        ensures
            final(self).wf(),
            final(self).peer_addr() == old(self).peer_addr(),
            final(self).inbound() == old(self).inbound(),
            final(self).submitted() == old(self).submitted(),
            final(self).wire_bytes() == old(self).wire_bytes(),
            final(self).flushed() == old(self).flushed() + r@,
            old(self).wire_bytes() == old(self).flushed() + r@,
    {
        let r = self.out_buf.split_off(0);
        proof {
            assert(r@ =~= old(self).out_buf@);
            assert(self.out_buf@ =~= Seq::empty());
        }
        self.flushed = Ghost(self.flushed@ + r@);
        proof {
            assert(self.wire_bytes() =~= old(self).wire_bytes());
        }
        r
    }

    /// Buffers bytes the host read from the transport.
    pub fn feed_bytes(&mut self, bytes: &[u8])
        requires
            old(self).wf(),
        ensures
            final(self).wf(),
            final(self).peer_addr() == old(self).peer_addr(),
            final(self).submitted() == old(self).submitted(),
            final(self).flushed() == old(self).flushed(),
            final(self).wire_bytes() == old(self).wire_bytes(),
            final(self).inbound() == old(self).inbound() + bytes@,
    {
        self.codec.feed(bytes);
    }

    /// Takes one step of the inbound loop: pops the front frame, if one is
    /// complete, and routes the envelope by kind — requests, responses and
    /// errors to the dispatch core, reserved kinds to a logged drop.
    pub fn next_inbound(&mut self) -> (r: InboundStep)
        requires
            old(self).wf(),
        ensures
            final(self).wf(),
            final(self).peer_addr() == old(self).peer_addr(),
            final(self).submitted() == old(self).submitted(),
            final(self).flushed() == old(self).flushed(),
            final(self).wire_bytes() == old(self).wire_bytes(),
            !stream_has_frame(old(self).inbound()) ==> r is Pending && final(self).inbound()
                == old(self).inbound(),
            stream_has_frame(old(self).inbound()) ==> {
                &&& final(self).inbound() == stream_rest(old(self).inbound())
                &&& match spec_decode_body(stream_front_body(old(self).inbound())) {
                    Some(e) => match e.ms_type {
                        MessageType::ReceiveRequest => r matches InboundStep::Request(q)
                            && q.ipc_msg@ == e && q.ipc_peer == old(self).peer_addr(),
                        MessageType::Response => r matches InboundStep::Response(q)
                            && q.ipc_msg@ == e && q.ipc_peer == old(self).peer_addr(),
                        MessageType::Error => r matches InboundStep::PeerError(q) && q.ipc_msg@
                            == e && q.ipc_peer == old(self).peer_addr(),
                        _ => r matches InboundStep::Reserved(m) && m@ == e,
                    },
                    None => r is Corrupt,
                }
            },
            r matches InboundStep::Request(q) ==> wf_envelope(q.ipc_msg@),
            r matches InboundStep::Response(q) ==> wf_envelope(q.ipc_msg@),
            r matches InboundStep::PeerError(q) ==> wf_envelope(q.ipc_msg@),
            r matches InboundStep::Reserved(m) ==> wf_envelope(m@),
    {
        match self.codec.next_frame() {
            FrameStep::Pending => InboundStep::Pending,
            FrameStep::Corrupt => InboundStep::Corrupt,
            FrameStep::Frame(m) => match m.ms_type {
                MessageType::ReceiveRequest => InboundStep::Request(
                    ReceiveRequest { ipc_peer: self.addr, ipc_msg: m },
                ),
                MessageType::Response => InboundStep::Response(
                    IpcResponse { ipc_peer: self.addr, ipc_msg: m },
                ),
                MessageType::Error => InboundStep::PeerError(
                    IpcError { ipc_peer: self.addr, ipc_msg: m },
                ),
                _ => InboundStep::Reserved(m),
            },
        }
    }
}

/// On a well-formed peer the ordering law reads directly off the wire:
/// the bytes of submission `i` stand between its offset and the next.
pub proof fn lemma_peer_writes_in_order(p: IpcPeer, i: int)
    requires
        p.wf(),
        0 <= i < p.submitted().len(),
    ensures
        p.wire_bytes().subrange(
            wire_offset(p.submitted(), i),
            wire_offset(p.submitted(), i + 1),
        ) == spec_frame(p.submitted()[i]),
{
    lemma_writes_in_order(p.submitted(), i);
}

} // verus!

//! Frames envelopes on a byte stream.
//!
//! A frame is a 32-bit little-endian length prefix followed by the body; the
//! body carries, in order, the service name (its UTF-8 byte length and
//! bytes), the two 64-bit words of the correlation token, one kind tag byte,
//! and the payload (its byte length and bytes).  [`spec_body`] and
//! [`spec_decode_body`] are the mathematical statement of the format;
//! encoding and decoding are proved against them, and
//! [`lemma_codec_round_trip`] states that decoding inverts encoding.

use vstd::prelude::*;
use vstd::bytes::*;
use vstd::utf8::decode_utf8;
use vstd::utf8::encode_utf8;
use vstd::utf8::encode_utf8_decode_utf8;
use vstd::utf8::encode_utf8_valid_utf8;
use vstd::utf8::valid_utf8;

use crate::conn_id::ConnID;
use crate::message::EnvelopeView;
use crate::message::IpcMessage;
use crate::message::MessageType;
use crate::text::string_from_utf8;

verus! {

/// The wire tag of a message kind.
pub open spec fn kind_tag(k: MessageType) -> u8 {
    match k {
        MessageType::SendRequest => 0,
        MessageType::ReceiveRequest => 1,
        MessageType::Response => 2,
        MessageType::PleaseAck => 3,
        MessageType::Ack => 4,
        MessageType::Broadcast => 5,
        MessageType::Error => 6,
    }
}

/// The message kind of a wire tag, if the tag is assigned.
pub open spec fn tag_kind(t: u8) -> Option<MessageType> {
    if t == 0 {
        Some(MessageType::SendRequest)
    } else if t == 1 {
        Some(MessageType::ReceiveRequest)
    } else if t == 2 {
        Some(MessageType::Response)
    } else if t == 3 {
        Some(MessageType::PleaseAck)
    } else if t == 4 {
        Some(MessageType::Ack)
    } else if t == 5 {
        Some(MessageType::Broadcast)
    } else if t == 6 {
        Some(MessageType::Error)
    } else {
        None
    }
}

/// Reading back a written kind tag yields the kind.
pub proof fn lemma_tag_kind_inverse(k: MessageType)
    ensures
        tag_kind(kind_tag(k)) == Some(k),
{
}

/// The byte length of an envelope's body: the fixed fields (4 bytes of
/// service length, 16 of token words, 1 of kind tag, 4 of payload length)
/// plus the two variable parts.
pub open spec fn spec_body_len(e: EnvelopeView) -> int {
    25 + encode_utf8(e.service).len() as int + e.payload.len() as int
}

/// An envelope the codec can frame: non-empty service name and a body whose
/// length fits the 32-bit length prefix.
pub open spec fn wf_envelope(e: EnvelopeView) -> bool {
    &&& e.service.len() > 0
    &&& spec_body_len(e) <= u32::MAX
}

/// The body bytes of an envelope.
pub open spec fn spec_body(e: EnvelopeView) -> Seq<u8> {
    spec_u32_to_le_bytes(encode_utf8(e.service).len() as u32) + encode_utf8(e.service)
        + spec_u64_to_le_bytes(e.conn_id.spec_words().0) + spec_u64_to_le_bytes(
        e.conn_id.spec_words().1,
    ) + seq![kind_tag(e.ms_type)] + spec_u32_to_le_bytes(e.payload.len() as u32) + e.payload
}

/// The full frame of an envelope: length prefix plus body.
pub open spec fn spec_frame(e: EnvelopeView) -> Seq<u8> {
    spec_u32_to_le_bytes(spec_body_len(e) as u32) + spec_body(e)
}

/// The body is as long as [`spec_body_len`] says.
pub proof fn lemma_spec_body_len(e: EnvelopeView)
    ensures
        spec_body(e).len() == spec_body_len(e),
{
    lemma_auto_spec_u32_to_from_le_bytes();
    lemma_auto_spec_u64_to_from_le_bytes();
}

/// UTF-8 encoding maps exactly the empty sequence to the empty sequence.
pub proof fn lemma_encode_utf8_len_zero(s: Seq<char>)
    ensures
        encode_utf8(s).len() == 0 <==> s.len() == 0,
{
    if s.len() > 0 {
        assert(encode_utf8(s).len() >= vstd::utf8::encode_scalar(s[0] as u32).len());
    }
}

/// What a body decodes to, if anything: the total mathematical parser for
/// the body format.  `None` stands for a malformed body: too short, an
/// empty or over-long or ill-encoded service name, an unassigned kind tag,
/// or a length mismatch.
pub open spec fn spec_decode_body(b: Seq<u8>) -> Option<EnvelopeView> {
    if b.len() < 25 {
        None
    } else {
        let sl = spec_u32_from_le_bytes(b.subrange(0, 4)) as int;
        if sl == 0 || sl > b.len() - 25 {
            None
        } else {
            let sbytes = b.subrange(4, 4 + sl);
            let pl = spec_u32_from_le_bytes(b.subrange(21 + sl, 25 + sl)) as int;
            if !valid_utf8(sbytes) {
                None
            } else if tag_kind(b[20 + sl]) is None {
                None
            } else if b.len() != 25 + sl + pl {
                None
            } else {
                Some(
                    EnvelopeView {
                        service: decode_utf8(sbytes),
                        conn_id: ConnID::spec_from_words(
                            spec_u64_from_le_bytes(b.subrange(4 + sl, 12 + sl)),
                            spec_u64_from_le_bytes(b.subrange(12 + sl, 20 + sl)),
                        ),
                        ms_type: tag_kind(b[20 + sl]).unwrap(),
                        payload: b.subrange(25 + sl, b.len() as int),
                    },
                )
            }
        }
    }
}

/// Decoding inverts encoding: every envelope the codec can frame comes back
/// from its own body bytes unchanged.
pub proof fn lemma_codec_round_trip(e: EnvelopeView)
    requires
        wf_envelope(e),
    ensures
        spec_decode_body(spec_body(e)) == Some(e),
{
    lemma_auto_spec_u32_to_from_le_bytes();
    lemma_auto_spec_u64_to_from_le_bytes();
    lemma_spec_body_len(e);
    lemma_encode_utf8_len_zero(e.service);
    let sb = encode_utf8(e.service);
    let sl = sb.len() as int;
    let pl = e.payload.len() as int;
    let b = spec_body(e);
    assert(b.subrange(0, 4) =~= spec_u32_to_le_bytes(sl as u32));
    assert(spec_u32_from_le_bytes(b.subrange(0, 4)) == sl as u32);
    assert(b.subrange(4, 4 + sl) =~= sb);
    assert(b.subrange(4 + sl, 12 + sl) =~= spec_u64_to_le_bytes(e.conn_id.spec_words().0));
    assert(b.subrange(12 + sl, 20 + sl) =~= spec_u64_to_le_bytes(e.conn_id.spec_words().1));
    assert(b[20 + sl] == kind_tag(e.ms_type));
    assert(b.subrange(21 + sl, 25 + sl) =~= spec_u32_to_le_bytes(pl as u32));
    assert(b.subrange(25 + sl, b.len() as int) =~= e.payload);
    encode_utf8_valid_utf8(e.service);
    encode_utf8_decode_utf8(e.service);
    lemma_tag_kind_inverse(e.ms_type);
    e.conn_id.lemma_words_bijective(e.conn_id.spec_words().0, e.conn_id.spec_words().1);
    assert(spec_decode_body(b).unwrap() =~= e);
}

/// A body no longer than the length prefix admits decodes, if at all, to
/// an envelope the codec can frame again: decoding re-establishes the
/// envelope invariant.
pub proof fn lemma_decoded_wf(b: Seq<u8>)
    requires
        b.len() <= u32::MAX,
        spec_decode_body(b) is Some,
    ensures
        wf_envelope(spec_decode_body(b).unwrap()),
{
    let e = spec_decode_body(b).unwrap();
    let sl = spec_u32_from_le_bytes(b.subrange(0, 4)) as int;
    let sbytes = b.subrange(4, 4 + sl);
    vstd::utf8::decode_utf8_encode_utf8(sbytes);
    lemma_encode_utf8_len_zero(e.service);
}

/// The wire tag of a kind.
pub(crate) fn tag_of_kind(k: MessageType) -> (r: u8)
    ensures
        r == kind_tag(k),
{
    match k {
        MessageType::SendRequest => 0,
        MessageType::ReceiveRequest => 1,
        MessageType::Response => 2,
        MessageType::PleaseAck => 3,
        MessageType::Ack => 4,
        MessageType::Broadcast => 5,
        MessageType::Error => 6,
    }
}

/// The kind of a wire tag, if assigned.
pub(crate) fn kind_of_tag(t: u8) -> (r: Option<MessageType>)
    ensures
        r == tag_kind(t),
{
    if t == 0 {
        Some(MessageType::SendRequest)
    } else if t == 1 {
        Some(MessageType::ReceiveRequest)
    } else if t == 2 {
        Some(MessageType::Response)
    } else if t == 3 {
        Some(MessageType::PleaseAck)
    } else if t == 4 {
        Some(MessageType::Ack)
    } else if t == 5 {
        Some(MessageType::Broadcast)
    } else if t == 6 {
        Some(MessageType::Error)
    } else {
        None
    }
}

/// Whether the codec can frame this envelope: non-empty service name, body
/// within the 32-bit length prefix.
pub fn envelope_wf(msg: &IpcMessage) -> (r: bool)
    ensures
        r == wf_envelope(msg@),
{
    proof {
        lemma_encode_utf8_len_zero(msg.service@);
    }
    let sl: usize = msg.service.as_str().as_bytes().len();
    let pl: usize = msg.payload.len();
    if sl == 0 {
        return false;
    }
    if sl > (u32::MAX as usize) || pl > (u32::MAX as usize) {
        return false;
    }
    25u64 + sl as u64 + pl as u64 <= u32::MAX as u64
}

/// The body bytes of an envelope.
pub fn encode_body(msg: &IpcMessage) -> (r: Vec<u8>)
    requires
        wf_envelope(msg@),
    ensures
        r@ == spec_body(msg@),
{
    let sbytes: &[u8] = msg.service.as_str().as_bytes();
    let sl: usize = sbytes.len();
    let mut out: Vec<u8> = Vec::new();
    let mut piece = u32_to_le_bytes(sl as u32);
    out.append(&mut piece);
    out.extend_from_slice(sbytes);
    let words = msg.conn_id.words();
    let mut piece = u64_to_le_bytes(words.0);
    out.append(&mut piece);
    let mut piece = u64_to_le_bytes(words.1);
    out.append(&mut piece);
    out.push(tag_of_kind(msg.ms_type));
    let mut piece = u32_to_le_bytes(msg.payload.len() as u32);
    out.append(&mut piece);
    out.extend_from_slice(msg.payload.as_slice());
    proof {
        assert(out@ =~= spec_body(msg@));
    }
    out
}

/// The full frame of an envelope: length prefix plus body.
pub fn encode_envelope(msg: &IpcMessage) -> (r: Vec<u8>)
    requires
        wf_envelope(msg@),
    ensures
        r@ == spec_frame(msg@),
{
    proof {
        lemma_spec_body_len(msg@);
    }
    let mut body = encode_body(msg);
    let n: usize = body.len();
    let mut out = u32_to_le_bytes(n as u32);
    out.append(&mut body);
    proof {
        assert(out@ =~= spec_frame(msg@));
    }
    out
}

/// Decodes one body.  Returns the envelope exactly when
/// [`spec_decode_body`] accepts the bytes, and `None` exactly when it
/// rejects them.
pub fn decode_body(body: &[u8]) -> (r: Option<IpcMessage>)
    ensures
        match r {
            Some(m) => spec_decode_body(body@) == Some(m@),
            None => spec_decode_body(body@) is None,
        },
        r matches Some(m) ==> m@.service.len() > 0 && spec_body_len(m@) == body@.len(),
{
    let ghost bs = body@;
    let n: usize = body.len();
    if n < 25 {
        return None;
    }
    let sl32 = u32_from_le_bytes(&body[0..4]);
    let sl = sl32 as usize;
    proof {
        assert(sl as int == spec_u32_from_le_bytes(bs.subrange(0, 4)) as int);
    }
    if sl == 0 || sl > n - 25 {
        return None;
    }
    let ghost sli = sl as int;
    let mut svec: Vec<u8> = Vec::new();
    svec.extend_from_slice(&body[4..4 + sl]);
    proof {
        assert(svec@ =~= bs.subrange(4, 4 + sli));
    }
    let service = match string_from_utf8(svec) {
        Some(s) => s,
        None => {
            assert(!valid_utf8(bs.subrange(4, 4 + sli)));
            return None;
        },
    };
    let wa = u64_from_le_bytes(&body[4 + sl..12 + sl]);
    let wb = u64_from_le_bytes(&body[12 + sl..20 + sl]);
    let kind = match kind_of_tag(body[20 + sl]) {
        Some(k) => k,
        None => {
            return None;
        },
    };
    let pl32 = u32_from_le_bytes(&body[21 + sl..25 + sl]);
    let pl = pl32 as usize;
    if pl != n - 25 - sl {
        return None;
    }
    let mut payload: Vec<u8> = Vec::new();
    payload.extend_from_slice(&body[25 + sl..n]);
    let m = IpcMessage {
        service,
        conn_id: ConnID::from_words(wa, wb),
        ms_type: kind,
        payload,
    };
    proof {
        assert(valid_utf8(bs.subrange(4, 4 + sli)));
        assert(tag_kind(bs[20 + sli]) == Some(kind));
        assert(bs.len() == 25 + sli + pl as int);
        assert(spec_decode_body(bs) is Some);
        assert(m@.service == decode_utf8(bs.subrange(4, 4 + sli)));
        assert(m@.payload =~= bs.subrange(25 + sli, bs.len() as int));
        assert(m@.conn_id == ConnID::spec_from_words(
            spec_u64_from_le_bytes(bs.subrange(4 + sli, 12 + sli)),
            spec_u64_from_le_bytes(bs.subrange(12 + sli, 20 + sli)),
        ));
        assert(spec_decode_body(bs).unwrap() =~= m@);
        vstd::utf8::decode_utf8_encode_utf8(bs.subrange(4, 4 + sli));
        lemma_encode_utf8_len_zero(m@.service);
        assert(spec_body_len(m@) == bs.len());
    }
    Some(m)
}

/// Whether the buffered bytes begin with one complete frame: a full length
/// prefix and as many body bytes as it announces.
pub open spec fn stream_has_frame(b: Seq<u8>) -> bool {
    b.len() >= 4 && b.len() - 4 >= spec_u32_from_le_bytes(b.subrange(0, 4)) as int
}

/// The body length the front length prefix announces.
pub open spec fn stream_front_len(b: Seq<u8>) -> int
    recommends
        b.len() >= 4,
{
    spec_u32_from_le_bytes(b.subrange(0, 4)) as int
}

/// The body bytes of the front frame.
pub open spec fn stream_front_body(b: Seq<u8>) -> Seq<u8>
    recommends
        stream_has_frame(b),
{
    b.subrange(4, 4 + stream_front_len(b))
}

/// The buffered bytes after the front frame.
pub open spec fn stream_rest(b: Seq<u8>) -> Seq<u8>
    recommends
        stream_has_frame(b),
{
    b.subrange(4 + stream_front_len(b), b.len() as int)
}

/// One step of the lazy decode stream.
#[derive(Debug, PartialEq, Eq)]
pub enum FrameStep {
    /// A complete, well-formed frame: the decoded envelope.
    Frame(IpcMessage),
    /// A complete frame whose body is malformed.  The frame is dropped;
    /// decoding continues at the next frame boundary.
    Corrupt,
    /// No complete frame is buffered yet.
    Pending,
}

/// Frames envelopes on a byte stream: buffers inbound bytes and yields the
/// decoded envelopes one frame at a time, dropping malformed frames while
/// the length-prefix layer still synchronizes the stream.
pub struct Codec {
    buf: Vec<u8>,
}

impl View for Codec {
    type V = Seq<u8>;

    closed spec fn view(&self) -> Seq<u8> {
        self.buf@
    }
}

impl Codec {
    /// An empty decode buffer.
    pub fn new() -> (r: Codec)
        ensures
            r@ == Seq::<u8>::empty(),
    {
        let r = Codec { buf: Vec::new() };
        proof {
            assert(r@ =~= Seq::<u8>::empty());
        }
        r
    }

    /// Buffers bytes read from the transport.
    pub fn feed(&mut self, bytes: &[u8])
        ensures
            final(self)@ == old(self)@ + bytes@,
    {
        self.buf.extend_from_slice(bytes);
    }

    /// Takes one step of the decode stream: pops the front frame, if one is
    /// complete, and decodes its body.
    pub fn next_frame(&mut self) -> (r: FrameStep)
        ensures
            !stream_has_frame(old(self)@) ==> final(self)@ == old(self)@ && r is Pending,
            stream_has_frame(old(self)@) ==> {
                &&& final(self)@ == stream_rest(old(self)@)
                &&& match spec_decode_body(stream_front_body(old(self)@)) {
                    Some(e) => r matches FrameStep::Frame(m) && m@ == e,
                    None => r is Corrupt,
                }
            },
            r matches FrameStep::Frame(m) ==> wf_envelope(m@),
    {
        let ghost b0 = self.buf@;
        if self.buf.len() < 4 {
            return FrameStep::Pending;
        }
        let n32 = u32_from_le_bytes(&self.buf.as_slice()[0..4]);
        let n = n32 as usize;
        if self.buf.len() - 4 < n {
            return FrameStep::Pending;
        }
        let rest = self.buf.split_off(4 + n);
        proof {
            assert(self.buf@ =~= b0.subrange(0, 4 + n as int));
            assert(self.buf@.subrange(4, 4 + n as int) =~= stream_front_body(b0));
            assert(rest@ =~= stream_rest(b0));
        }
        let r = match decode_body(&self.buf.as_slice()[4..4 + n]) {
            Some(m) => {
                proof {
                    assert(wf_envelope(m@));
                }
                FrameStep::Frame(m)
            },
            None => FrameStep::Corrupt,
        };
        self.buf = rest;
        r
    }
}

/// Round-trip at the frame level: the frame of a well-formed envelope,
/// handed whole to the decode stream, is complete and decodes back to
/// that envelope.
pub proof fn lemma_frame_round_trip(e: EnvelopeView)
    requires
        wf_envelope(e),
    ensures
        stream_has_frame(spec_frame(e)),
        spec_decode_body(stream_front_body(spec_frame(e))) == Some(e),
{
    lemma_frame_in_stream(e, Seq::empty());
    assert(spec_frame(e) + Seq::<u8>::empty() =~= spec_frame(e));
    lemma_codec_round_trip(e);
}

/// A buffered byte sequence that begins with the frame of a well-formed
/// envelope has that frame complete at its front: its body is the
/// envelope's body and the bytes after it are untouched.
pub proof fn lemma_frame_in_stream(e: EnvelopeView, rest: Seq<u8>)
    requires
        wf_envelope(e),
    ensures
        stream_has_frame(spec_frame(e) + rest),
        stream_front_body(spec_frame(e) + rest) == spec_body(e),
        stream_rest(spec_frame(e) + rest) == rest,
{
    lemma_auto_spec_u32_to_from_le_bytes();
    lemma_spec_body_len(e);
    let b = spec_frame(e) + rest;
    assert(b.subrange(0, 4) =~= spec_u32_to_le_bytes(spec_body_len(e) as u32));
    assert(stream_front_len(b) == spec_body_len(e));
    assert(stream_front_body(b) =~= spec_body(e));
    assert(stream_rest(b) =~= rest);
}

} // verus!

use ekke_io::Codec;
use ekke_io::ConnID;
use ekke_io::FrameStep;
use ekke_io::IpcMessage;
use ekke_io::MessageType;
use ekke_io::decode_body;
use ekke_io::encode_body;
use ekke_io::encode_envelope;
use ekke_io::envelope_wf;

fn sample(service: &str, a: u64, b: u64, kind: MessageType, payload: Vec<u8>) -> IpcMessage {
    IpcMessage::new(service.to_string(), payload, kind, ConnID::from_words(a, b))
}

#[test]
fn codec_frame_layout_exact() {
    let m = sample("Ab", 1, 2, MessageType::Error, vec![9, 10]);
    let frame = encode_envelope(&m);
    let mut expected: Vec<u8> = Vec::new();
    expected.extend_from_slice(&[29, 0, 0, 0]); // body length
    expected.extend_from_slice(&[2, 0, 0, 0]); // service byte length
    expected.extend_from_slice(&[0x41, 0x62]); // "Ab"
    expected.extend_from_slice(&[1, 0, 0, 0, 0, 0, 0, 0]); // token word a
    expected.extend_from_slice(&[2, 0, 0, 0, 0, 0, 0, 0]); // token word b
    expected.push(6); // Error kind tag
    expected.extend_from_slice(&[2, 0, 0, 0]); // payload length
    expected.extend_from_slice(&[9, 10]);
    assert_eq!(frame, expected);
}

#[test]
fn codec_round_trip_single() {
    let m = sample("Echo", 11, 22, MessageType::ReceiveRequest, vec![1, 2, 3]);
    let body = encode_body(&m);
    let back = decode_body(&body).expect("body must decode");
    assert_eq!(back, m);
}

#[test]
fn codec_round_trip_empty_payload_and_unicode_service() {
    let m = sample("Écho\u{1F600}", u64::MAX, 0, MessageType::Response, Vec::new());
    let body = encode_body(&m);
    let back = decode_body(&body).expect("body must decode");
    assert_eq!(back, m);
}

#[test]
fn codec_stream_round_trip_and_order() {
    let m1 = sample("One", 1, 1, MessageType::ReceiveRequest, vec![1]);
    let m2 = sample("Two", 2, 2, MessageType::Response, vec![2, 2]);
    let mut bytes = encode_envelope(&m1);
    bytes.extend_from_slice(&encode_envelope(&m2));
    let mut codec = Codec::new();
    codec.feed(&bytes);
    assert_eq!(codec.next_frame(), FrameStep::Frame(m1));
    assert_eq!(codec.next_frame(), FrameStep::Frame(m2));
    assert_eq!(codec.next_frame(), FrameStep::Pending);
}

#[test]
fn codec_stream_partial_frames_pend() {
    let m = sample("Echo", 3, 4, MessageType::ReceiveRequest, vec![7; 10]);
    let frame = encode_envelope(&m);
    let mut codec = Codec::new();
    codec.feed(&frame[..3]);
    assert_eq!(codec.next_frame(), FrameStep::Pending);
    codec.feed(&frame[3..frame.len() - 1]);
    assert_eq!(codec.next_frame(), FrameStep::Pending);
    codec.feed(&frame[frame.len() - 1..]);
    assert_eq!(codec.next_frame(), FrameStep::Frame(m));
}

#[test]
fn codec_corrupt_frame_is_dropped_and_stream_resyncs() {
    // A complete frame whose body is garbage: announced length 3, bytes
    // that parse as nothing.
    let mut bytes: Vec<u8> = vec![3, 0, 0, 0, 0xff, 0xff, 0xff];
    let m = sample("Next", 5, 6, MessageType::Response, vec![1]);
    bytes.extend_from_slice(&encode_envelope(&m));
    let mut codec = Codec::new();
    codec.feed(&bytes);
    assert_eq!(codec.next_frame(), FrameStep::Corrupt);
    assert_eq!(codec.next_frame(), FrameStep::Frame(m));
}

#[test]
fn codec_rejects_empty_service() {
    let m = sample("", 1, 2, MessageType::Response, vec![1]);
    assert!(!envelope_wf(&m));
    // A hand-built body with a zero service length is malformed.
    let mut body: Vec<u8> = Vec::new();
    body.extend_from_slice(&[0, 0, 0, 0]);
    body.extend_from_slice(&[0; 16]);
    body.push(2);
    body.extend_from_slice(&[0, 0, 0, 0]);
    assert!(decode_body(&body).is_none());
}

#[test]
fn codec_rejects_unknown_kind_tag() {
    let m = sample("Svc", 1, 2, MessageType::Response, vec![]);
    let mut body = encode_body(&m);
    // The kind tag sits after the length, service bytes and two words.
    let tag_at = 4 + 3 + 8 + 8;
    body[tag_at] = 200;
    assert!(decode_body(&body).is_none());
}

#[test]
fn codec_rejects_bad_utf8_service() {
    let m = sample("AB", 1, 2, MessageType::Response, vec![]);
    let mut body = encode_body(&m);
    body[4] = 0xff;
    body[5] = 0xfe;
    assert!(decode_body(&body).is_none());
}

#[test]
fn codec_rejects_length_mismatch() {
    let m = sample("Svc", 1, 2, MessageType::Response, vec![1, 2, 3]);
    let mut body = encode_body(&m);
    body.push(0); // trailing byte the lengths do not account for
    assert!(decode_body(&body).is_none());
    let short = &body[..body.len() - 2];
    assert!(decode_body(short).is_none());
}

#[test]
fn envelope_wf_accepts_ordinary_envelopes() {
    let m = sample("Echo", 1, 2, MessageType::ReceiveRequest, vec![0; 64]);
    assert!(envelope_wf(&m));
}

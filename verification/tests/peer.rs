use ekke_io::ConnID;
use ekke_io::InboundStep;
use ekke_io::IpcMessage;
use ekke_io::IpcPeer;
use ekke_io::MessageType;
use ekke_io::encode_envelope;

fn sample(service: &str, kind: MessageType, payload: Vec<u8>) -> IpcMessage {
    IpcMessage::new(service.to_string(), payload, kind, ConnID::from_words(1, 2))
}

#[test]
fn peer_writes_frames_in_submission_order() {
    let m1 = sample("One", MessageType::ReceiveRequest, vec![1]);
    let m2 = sample("Two", MessageType::Response, vec![2, 2]);
    let mut expected = encode_envelope(&m1);
    expected.extend_from_slice(&encode_envelope(&m2));
    let mut peer = IpcPeer::new(5);
    peer.send_envelope(m1);
    peer.send_envelope(m2);
    assert_eq!(peer.take_output(), expected);
    // Nothing is written twice.
    assert!(peer.take_output().is_empty());
}

#[test]
fn peer_keeps_order_across_flushes() {
    let m1 = sample("One", MessageType::ReceiveRequest, vec![1]);
    let m2 = sample("Two", MessageType::Response, vec![2, 2]);
    let mut expected = encode_envelope(&m1);
    expected.extend_from_slice(&encode_envelope(&m2));
    let mut peer = IpcPeer::new(5);
    peer.send_envelope(m1);
    let mut wire = peer.take_output();
    peer.send_envelope(m2);
    wire.extend_from_slice(&peer.take_output());
    assert_eq!(wire, expected);
}

#[test]
fn peer_routes_inbound_by_kind() {
    let mut peer = IpcPeer::new(9);
    let req = sample("Echo", MessageType::ReceiveRequest, vec![1]);
    let resp = sample("Echo", MessageType::Response, vec![2]);
    let err = sample("Echo", MessageType::Error, vec![3]);
    let ack = sample("Echo", MessageType::Ack, vec![4]);
    let mut bytes = encode_envelope(&req);
    bytes.extend_from_slice(&encode_envelope(&resp));
    bytes.extend_from_slice(&encode_envelope(&err));
    bytes.extend_from_slice(&encode_envelope(&ack));
    peer.feed_bytes(&bytes);
    match peer.next_inbound() {
        InboundStep::Request(q) => {
            assert_eq!(q.ipc_peer, 9);
            assert_eq!(q.ipc_msg, req);
        },
        other => panic!("expected a request, got {:?}", step_name(&other)),
    }
    match peer.next_inbound() {
        InboundStep::Response(q) => {
            assert_eq!(q.ipc_peer, 9);
            assert_eq!(q.ipc_msg, resp);
        },
        other => panic!("expected a response, got {:?}", step_name(&other)),
    }
    match peer.next_inbound() {
        InboundStep::PeerError(q) => {
            assert_eq!(q.ipc_peer, 9);
            assert_eq!(q.ipc_msg, err);
        },
        other => panic!("expected a peer error, got {:?}", step_name(&other)),
    }
    match peer.next_inbound() {
        InboundStep::Reserved(m) => assert_eq!(m, ack),
        other => panic!("expected a reserved kind, got {:?}", step_name(&other)),
    }
    assert!(matches!(peer.next_inbound(), InboundStep::Pending));
}

#[test]
fn peer_drops_corrupt_frame_and_continues() {
    let mut peer = IpcPeer::new(9);
    let mut bytes: Vec<u8> = vec![2, 0, 0, 0, 0xde, 0xad];
    let m = sample("Echo", MessageType::Response, vec![1]);
    bytes.extend_from_slice(&encode_envelope(&m));
    peer.feed_bytes(&bytes);
    assert!(matches!(peer.next_inbound(), InboundStep::Corrupt));
    match peer.next_inbound() {
        InboundStep::Response(q) => assert_eq!(q.ipc_msg, m),
        _ => panic!("stream must resynchronize after a corrupt frame"),
    }
}

fn step_name(step: &InboundStep) -> &'static str {
    match step {
        InboundStep::Request(_) => "Request",
        InboundStep::Response(_) => "Response",
        InboundStep::PeerError(_) => "PeerError",
        InboundStep::Reserved(_) => "Reserved",
        InboundStep::Corrupt => "Corrupt",
        InboundStep::Pending => "Pending",
    }
}

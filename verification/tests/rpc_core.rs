use ekke_io::ConnID;
use ekke_io::Dispatch;
use ekke_io::EkkeIoError;
use ekke_io::IpcError;
use ekke_io::IpcMessage;
use ekke_io::IpcResponse;
use ekke_io::MessageType;
use ekke_io::RegisterOutcome;
use ekke_io::RegisterService;
use ekke_io::Rpc;
use ekke_io::SendRequest;

const ECHO_TAG: u64 = 17;

fn register_echo(rpc: &mut Rpc, actor: &str) -> RegisterOutcome {
    rpc.register_service(RegisterService {
        service: "Echo".to_string(),
        actor: actor.to_string(),
        type_id: ECHO_TAG,
        recipient: 42,
    })
}

fn text_payload(s: &str) -> Vec<u8> {
    serde_cbor::to_vec(&s).unwrap()
}

#[test]
fn registry_double_registration_is_fatal() {
    let mut rpc = Rpc::new();
    assert_eq!(register_echo(&mut rpc, "EchoActor"), RegisterOutcome::Registered);
    assert_eq!(register_echo(&mut rpc, "Impostor"), RegisterOutcome::FatalDuplicate);
    // The first registration still stands.
    let msg = IpcMessage::new(
        "Echo".to_string(),
        text_payload("hi"),
        MessageType::ReceiveRequest,
        ConnID::new(),
    );
    match rpc.deser_into(ECHO_TAG, &msg) {
        Dispatch::Deliver { recipient } => assert_eq!(recipient, 42),
        Dispatch::NoHandler { .. } => panic!("handler must still be registered"),
    }
}

#[test]
fn deser_into_unknown_service_sends_error_envelope() {
    let rpc = Rpc::new();
    let conn_id = ConnID::from_words(3, 4);
    let msg = IpcMessage::new(
        "Nope".to_string(),
        text_payload("hi"),
        MessageType::ReceiveRequest,
        conn_id,
    );
    match rpc.deser_into(99, &msg) {
        Dispatch::Deliver { .. } => panic!("nothing is registered"),
        Dispatch::NoHandler { reply } => {
            assert_eq!(reply.service, "Nope");
            assert_eq!(reply.conn_id, conn_id);
            assert!(matches!(reply.ms_type, MessageType::Error));
            assert_eq!(
                reply.payload,
                text_payload("No handler is registered for service: \"Nope\"")
            );
        },
    }
}

#[test]
fn decode_failure_response_names_the_service() {
    let rpc = Rpc::new();
    let conn_id = ConnID::from_words(5, 6);
    let msg = IpcMessage::new(
        "Echo".to_string(),
        vec![0xff, 0x00],
        MessageType::ReceiveRequest,
        conn_id,
    );
    let reply = rpc.decode_failure_response(&msg);
    assert_eq!(reply.service, "Echo");
    assert_eq!(reply.conn_id, conn_id);
    assert!(matches!(reply.ms_type, MessageType::Error));
    assert_eq!(
        reply.payload,
        text_payload("Rpc component could not deserialize your message for service: \"Echo\"")
    );
}

#[test]
fn send_request_rewrites_kind_and_mints_tokens() {
    let mut rpc = Rpc::new();
    let conn_id = ConnID::from_words(1, 1);
    let req = IpcMessage::new(
        "Echo".to_string(),
        text_payload("hi"),
        MessageType::SendRequest,
        conn_id,
    );
    let (env, token) = rpc.send_request(SendRequest { ipc_peer: 7, ipc_msg: req });
    assert_eq!(token, 0);
    assert!(matches!(env.ms_type, MessageType::ReceiveRequest));
    assert_eq!(env.service, "Echo");
    assert_eq!(env.conn_id, conn_id);
    assert_eq!(env.payload, text_payload("hi"));
    let req2 = IpcMessage::new(
        "Echo".to_string(),
        text_payload("ho"),
        MessageType::SendRequest,
        ConnID::from_words(2, 2),
    );
    let (_, token2) = rpc.send_request(SendRequest { ipc_peer: 7, ipc_msg: req2 });
    assert_eq!(token2, 1);
}

#[test]
fn responses_correlate_by_conn_id_in_any_order() {
    let mut rpc = Rpc::new();
    let ids = [ConnID::from_words(1, 0), ConnID::from_words(2, 0), ConnID::from_words(3, 0)];
    let mut tokens = Vec::new();
    for id in ids.iter() {
        let req = IpcMessage::new(
            "Echo".to_string(),
            text_payload("x"),
            MessageType::SendRequest,
            *id,
        );
        let (_, token) = rpc.send_request(SendRequest { ipc_peer: 7, ipc_msg: req });
        tokens.push(token);
    }
    // The server answers in the order C2, C1, C3.
    for &pick in [1usize, 0, 2].iter() {
        let resp = IpcMessage::new(
            "Echo".to_string(),
            text_payload("y"),
            MessageType::Response,
            ids[pick],
        );
        let (token, env) = rpc
            .on_inbound_response(IpcResponse { ipc_peer: 7, ipc_msg: resp })
            .expect("pending entry must resolve");
        assert_eq!(token, tokens[pick]);
        assert_eq!(env.conn_id, ids[pick]);
    }
}

#[test]
fn second_response_for_same_conn_id_is_dropped() {
    let mut rpc = Rpc::new();
    let conn_id = ConnID::from_words(9, 9);
    let req = IpcMessage::new(
        "Echo".to_string(),
        text_payload("x"),
        MessageType::SendRequest,
        conn_id,
    );
    let (_, token) = rpc.send_request(SendRequest { ipc_peer: 7, ipc_msg: req });
    let resp = IpcMessage::new(
        "Echo".to_string(),
        text_payload("y"),
        MessageType::Response,
        conn_id,
    );
    let first = rpc.on_inbound_response(IpcResponse { ipc_peer: 7, ipc_msg: resp });
    assert_eq!(first.map(|p| p.0), Some(token));
    let again = IpcMessage::new(
        "Echo".to_string(),
        text_payload("z"),
        MessageType::Response,
        conn_id,
    );
    assert!(rpc.on_inbound_response(IpcResponse { ipc_peer: 7, ipc_msg: again }).is_none());
}

#[test]
fn unsolicited_response_is_dropped() {
    let mut rpc = Rpc::new();
    let resp = IpcMessage::new(
        "Echo".to_string(),
        text_payload("y"),
        MessageType::Response,
        ConnID::from_words(8, 8),
    );
    assert!(rpc.on_inbound_response(IpcResponse { ipc_peer: 7, ipc_msg: resp }).is_none());
}

#[test]
fn inbound_error_fails_the_pending_exchange_with_peer_message() {
    let mut rpc = Rpc::new();
    let conn_id = ConnID::from_words(4, 2);
    let req = IpcMessage::new(
        "Echo".to_string(),
        text_payload("x"),
        MessageType::SendRequest,
        conn_id,
    );
    let (_, token) = rpc.send_request(SendRequest { ipc_peer: 7, ipc_msg: req });
    let err_env = IpcMessage::new(
        "Echo".to_string(),
        text_payload("boom"),
        MessageType::Error,
        conn_id,
    );
    let (got_token, err) = rpc
        .on_inbound_error(IpcError { ipc_peer: 7, ipc_msg: err_env })
        .expect("pending entry must resolve");
    assert_eq!(got_token, token);
    assert_eq!(err, EkkeIoError::IpcError("boom".to_string()));
}

#[test]
fn inbound_error_with_undecodable_payload_gets_fixed_note() {
    let mut rpc = Rpc::new();
    let conn_id = ConnID::from_words(4, 3);
    let req = IpcMessage::new(
        "Echo".to_string(),
        text_payload("x"),
        MessageType::SendRequest,
        conn_id,
    );
    let _ = rpc.send_request(SendRequest { ipc_peer: 7, ipc_msg: req });
    let err_env = IpcMessage::new(
        "Echo".to_string(),
        vec![0xff],
        MessageType::Error,
        conn_id,
    );
    let (_, err) = rpc.on_inbound_error(IpcError { ipc_peer: 7, ipc_msg: err_env }).unwrap();
    assert_eq!(err, EkkeIoError::IpcError("Failed to deserialize Error Message".to_string()));
}

#[test]
fn connection_lost_cancels_only_that_peers_exchanges() {
    let mut rpc = Rpc::new();
    let mut send = |words: (u64, u64), peer: u64, rpc: &mut Rpc| {
        let req = IpcMessage::new(
            "Echo".to_string(),
            text_payload("x"),
            MessageType::SendRequest,
            ConnID::from_words(words.0, words.1),
        );
        rpc.send_request(SendRequest { ipc_peer: peer, ipc_msg: req }).1
    };
    let t1 = send((1, 0), 7, &mut rpc);
    let t2 = send((2, 0), 7, &mut rpc);
    let t3 = send((3, 0), 8, &mut rpc);
    let mut cancelled: Vec<u64> = rpc.connection_lost(7).into_iter().map(|p| p.1).collect();
    cancelled.sort();
    let mut expected = vec![t1, t2];
    expected.sort();
    assert_eq!(cancelled, expected);
    // The exchange on the other peer still resolves.
    let resp = IpcMessage::new(
        "Echo".to_string(),
        text_payload("y"),
        MessageType::Response,
        ConnID::from_words(3, 0),
    );
    let (token, _) = rpc.on_inbound_response(IpcResponse { ipc_peer: 8, ipc_msg: resp }).unwrap();
    assert_eq!(token, t3);
    // The cancelled ones are gone.
    let stale = IpcMessage::new(
        "Echo".to_string(),
        text_payload("y"),
        MessageType::Response,
        ConnID::from_words(1, 0),
    );
    assert!(rpc.on_inbound_response(IpcResponse { ipc_peer: 7, ipc_msg: stale }).is_none());
}

#[test]
fn deserialize_round_trips_text_payloads() {
    let payload = text_payload("hello");
    assert_eq!(Rpc::deserialize(&payload).unwrap(), "hello");
    let bad = vec![0xff, 0x01];
    match Rpc::deserialize(&bad) {
        Ok(_) => panic!("garbage must not decode"),
        Err(e) => assert!(matches!(e, EkkeIoError::DecodeFailure(_))),
    }
}

#[test]
fn error_response_builds_error_envelope() {
    let rpc = Rpc::new();
    let conn_id = ConnID::from_words(6, 6);
    let env = rpc.error_response("Echo", "went wrong", conn_id);
    assert_eq!(env.service, "Echo");
    assert_eq!(env.conn_id, conn_id);
    assert!(matches!(env.ms_type, MessageType::Error));
    assert_eq!(env.payload, text_payload("went wrong"));
}

#[test]
fn error_messages_render() {
    assert_eq!(
        EkkeIoError::UseSocketBeforeConnect.message(),
        "Cannot use socket before connecting"
    );
    assert_eq!(EkkeIoError::NoConnectionsReceived.message(), "Nobody connected to the socket");
    assert_eq!(
        EkkeIoError::NoHandlerForService("Echo".to_string()).message(),
        "No handler is registered for service: [Echo]"
    );
    assert_eq!(
        EkkeIoError::DoubleServiceRegistration("Echo".to_string(), "Impostor".to_string())
            .message(),
        "Handler for service [Echo] is already registered. Second attempt was by: [Impostor]"
    );
    assert_eq!(
        EkkeIoError::IpcError("boom".to_string()).message(),
        "Peer failed to handle request: [boom]"
    );
    assert_eq!(
        EkkeIoError::HandlerMailboxFailure("Echo".to_string()).message(),
        "The mailbox of the [Echo] actor cannot keep up with the message flow, or it was closed too early"
    );
    assert_eq!(
        EkkeIoError::DowncastRecipientFailed("Echo".to_string()).message(),
        "Failed to downcast the delivery handle for service: [Echo]"
    );
    assert_eq!(
        EkkeIoError::DecodeFailure("text payload".to_string()).message(),
        "Could not deserialize: [text payload]"
    );
    assert_eq!(
        EkkeIoError::ConnectionLost.message(),
        "Connection was lost before the exchange resolved"
    );
}

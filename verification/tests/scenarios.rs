use bifrost::driver::handle_frame;
use bifrost::frame::BIFROST_CALL_KIND;
use bifrost::{
    send_bifrost_call, BifrostError, CallKind, CallRegistry, DriverStep, FrameHead, StreamId,
};

use bytes::Bytes;

#[test]
fn scenario_ping_pong() {
    let mut client = CallRegistry::new();
    let mut server = CallRegistry::new();

    // client issues a call expecting a reply
    let (frame, handle) =
        send_bifrost_call(&mut client, StreamId(1), Bytes::from(b"ping".to_vec()), false)
            .expect("a valid id");
    let handle = handle.expect("a NORMAL call yields a handle");

    // the frame travels; the server's driver surfaces it to the acceptor
    let head = frame.head();
    let payload = frame.into_payload();
    let (incoming, responder) = match handle_frame(&mut server, head, payload) {
        DriverStep::Incoming(incoming, responder) => (incoming, responder),
        _ => panic!("a fresh call reaches the acceptor"),
    };
    assert_eq!(incoming.payload.as_ref(), b"ping");
    assert_eq!(incoming.kind, CallKind::Normal);
    assert_eq!(incoming.stream_id.0, 1);

    // the server answers on the bound stream id
    let mut responder = responder.expect("a NORMAL call carries a responder");
    let response = responder.respond(Bytes::from(b"pong".to_vec())).expect("first use");
    assert!(response.flags().is_response());
    assert_eq!(response.stream_id().0, 1);

    // the response travels back; the client's driver resolves the call
    let rhead = response.head();
    let rpayload = response.into_payload();
    match handle_frame(&mut client, rhead, rpayload) {
        DriverStep::Resolved(fulfilled) => assert!(fulfilled),
        _ => panic!("a RESPONSE frame is dispatched to the registry"),
    }
    let observed = handle.poll(&mut client).expect("fulfilled");
    assert_eq!(observed.expect("a payload").as_ref(), b"pong");
}

#[test]
fn scenario_fire_and_forget() {
    let mut client = CallRegistry::new();
    let mut server = CallRegistry::new();

    let (frame, handle) =
        send_bifrost_call(&mut client, StreamId(1), Bytes::from(b"fire".to_vec()), true)
            .expect("a valid id");
    assert!(handle.is_none());
    assert_eq!(client.len(), 0);

    let head = frame.head();
    let payload = frame.into_payload();
    let (incoming, responder) = match handle_frame(&mut server, head, payload) {
        DriverStep::Incoming(incoming, responder) => (incoming, responder),
        _ => panic!("a fresh call reaches the acceptor"),
    };
    assert_eq!(incoming.payload.as_ref(), b"fire");
    assert_eq!(incoming.kind, CallKind::OneShoot);
    // no responder exists, so no frame with RESPONSE set can ever be
    // produced for this stream id
    assert!(responder.is_none());
    assert_eq!(server.len(), 0);
}

#[test]
fn responder_sends_exactly_one_response() {
    let mut server = CallRegistry::new();
    let mut caller = CallRegistry::new();
    let (frame, _handle) =
        send_bifrost_call(&mut caller, StreamId(9), Bytes::from(b"ask".to_vec()), false)
            .expect("a valid id");
    let head = frame.head();
    let payload = frame.into_payload();
    let responder = match handle_frame(&mut server, head, payload) {
        DriverStep::Incoming(_, responder) => responder.expect("a NORMAL call"),
        _ => panic!("a fresh call reaches the acceptor"),
    };
    let mut responder = responder;
    assert!(!responder.is_used());
    let first = responder.respond(Bytes::from(b"one".to_vec()));
    assert!(first.is_ok());
    assert!(responder.is_used());
    // a second use fails and produces no second frame
    match responder.respond(Bytes::from(b"two".to_vec())) {
        Err(BifrostError::ResponderUsed) => {},
        _ => panic!("a responder is single-use"),
    }
}

#[test]
fn scenario_teardown_with_three_pending_calls() {
    let mut client = CallRegistry::new();
    let mut handles = Vec::new();
    for id in 1u32..=3 {
        let (_frame, handle) =
            send_bifrost_call(&mut client, StreamId(id), Bytes::from(b"req".to_vec()), false)
                .expect("a valid id");
        handles.push(handle.expect("a NORMAL call yields a handle"));
    }
    assert_eq!(client.len(), 3);

    // the connection is torn down: one drain pass resolves everything
    client.drain_with_closure_error();
    for handle in &handles {
        match handle.poll(&mut client) {
            Some(Err(BifrostError::ConnectionClosed)) => {},
            _ => panic!("every pending handle resolves to the closure error"),
        }
    }
    assert_eq!(client.len(), 0);
}

#[test]
fn foreign_frames_pass_through_untouched() {
    let mut registry = CallRegistry::new();
    let head = FrameHead { kind: 0x00, flag: 0x01, stream_id: StreamId(5) };
    match handle_frame(&mut registry, head, Bytes::from(b"data".to_vec())) {
        DriverStep::PassThrough(out_head, out_payload) => {
            assert_eq!(out_head, head);
            assert_eq!(out_payload.as_ref(), b"data");
        },
        _ => panic!("a foreign kind passes through"),
    }
    assert_eq!(registry.len(), 0);
}

#[test]
fn driver_drops_zero_stream_id_frame() {
    let mut registry = CallRegistry::new();
    let head = FrameHead { kind: BIFROST_CALL_KIND, flag: 0x01, stream_id: StreamId(0) };
    match handle_frame(&mut registry, head, Bytes::from(b"bad".to_vec())) {
        DriverStep::DroppedInvalid => {},
        _ => panic!("stream id zero is dropped, the connection continues"),
    }
    assert_eq!(registry.len(), 0);
}

#[test]
fn driver_discards_response_for_unknown_stream_id() {
    let mut registry = CallRegistry::new();
    let head = FrameHead { kind: BIFROST_CALL_KIND, flag: 0x08, stream_id: StreamId(40) };
    match handle_frame(&mut registry, head, Bytes::from(b"stray".to_vec())) {
        DriverStep::Resolved(fulfilled) => assert!(!fulfilled),
        _ => panic!("a stray response is dispatched and discarded"),
    }
    assert_eq!(registry.len(), 0);
}

#[test]
fn driver_masks_unrecognized_flag_bits() {
    let mut registry = CallRegistry::new();
    // 0x04 is unrecognized: the frame is neither a response nor NORMAL,
    // so it surfaces as a fire-and-forget call without a responder
    let head = FrameHead { kind: BIFROST_CALL_KIND, flag: 0x04, stream_id: StreamId(12) };
    match handle_frame(&mut registry, head, Bytes::from(b"odd".to_vec())) {
        DriverStep::Incoming(incoming, responder) => {
            assert_eq!(incoming.kind, CallKind::OneShoot);
            assert!(responder.is_none());
        },
        _ => panic!("an unrecognized bit is ignored, not rejected"),
    }
}

#[test]
fn independent_connections_share_nothing() {
    // two connections, each with its own registry and stream id space
    let mut first = CallRegistry::new();
    let mut second = CallRegistry::new();
    let (_f1, h1) = send_bifrost_call(&mut first, StreamId(7), Bytes::new(), false)
        .expect("a valid id");
    let h1 = h1.expect("a NORMAL call yields a handle");
    let (_f2, h2) = send_bifrost_call(&mut second, StreamId(7), Bytes::new(), false)
        .expect("the same id on another connection is independent");
    let h2 = h2.expect("a NORMAL call yields a handle");
    assert!(first.resolve(StreamId(7), Bytes::from(b"a".to_vec())));
    first.drain_with_closure_error();
    assert_eq!(
        h1.poll(&mut first).expect("fulfilled").expect("a payload").as_ref(),
        b"a"
    );
    match h2.poll(&mut second) {
        None => {},
        _ => panic!("the second connection is untouched"),
    }
    second.drain_with_closure_error();
    match h2.poll(&mut second) {
        Some(Err(BifrostError::ConnectionClosed)) => {},
        _ => panic!("teardown is per connection"),
    }
}

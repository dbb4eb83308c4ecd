use bifrost::frame::{decode, BifrostCall, FrameHead, StreamId, BIFROST_CALL_KIND};
use bifrost::BifrostCallFlags;
use bifrost::BifrostError;

use bytes::Bytes;

#[test]
fn encode_decode_round_trip_reproduces_frame() {
    let mut frame = BifrostCall::new(StreamId(7), Bytes::from(b"ping".to_vec()));
    frame.set_normal();
    let wire = frame.encode();
    let decoded = decode(&wire).expect("one whole frame").expect("valid frame");
    assert_eq!(decoded.stream_id().0, 7);
    assert!(decoded.flags().is_normal());
    assert!(!decoded.flags().is_one_shoot());
    assert!(!decoded.flags().is_response());
    assert_eq!(decoded.payload().as_ref(), b"ping");
}

#[test]
fn encode_decode_round_trip_empty_payload() {
    let frame = BifrostCall::new(StreamId(0x7fff_ffff), Bytes::new());
    let wire = frame.encode();
    assert_eq!(wire.len(), 9);
    let decoded = decode(&wire).expect("one whole frame").expect("valid frame");
    assert_eq!(decoded.stream_id().0, 0x7fff_ffff);
    assert!(decoded.flags().is_empty());
    assert_eq!(decoded.payload().as_ref(), b"");
}

#[test]
fn encode_has_exact_wire_bytes() {
    let mut frame = BifrostCall::new(StreamId(0x0102_0304), Bytes::from(vec![0xaa, 0xbb]));
    frame.set_response();
    let wire = frame.encode();
    assert_eq!(
        wire,
        vec![0x00, 0x00, 0x02, BIFROST_CALL_KIND, 0x08, 0x01, 0x02, 0x03, 0x04, 0xaa, 0xbb]
    );
}

#[test]
fn decode_stream_id_zero_fails_invalid_stream_id() {
    // whatever the flags byte and the payload say, stream id zero is refused
    let wire = vec![0x00, 0x00, 0x02, BIFROST_CALL_KIND, 0x03, 0x00, 0x00, 0x00, 0x00, 0x01, 0x02];
    assert!(matches!(decode(&wire), Some(Err(BifrostError::InvalidStreamId))));
    let wire2 = vec![0x00, 0x00, 0x00, BIFROST_CALL_KIND, 0xff, 0x00, 0x00, 0x00, 0x00];
    assert!(matches!(decode(&wire2), Some(Err(BifrostError::InvalidStreamId))));
    let head = FrameHead { kind: BIFROST_CALL_KIND, flag: 0x01, stream_id: StreamId(0) };
    assert!(matches!(
        BifrostCall::load(head, Bytes::from(b"x".to_vec())),
        Err(BifrostError::InvalidStreamId)
    ));
}

#[test]
fn decode_masks_reserved_stream_id_bit() {
    // the top bit of the stream id field is reserved and ignored on decode
    let wire = vec![0x00, 0x00, 0x00, BIFROST_CALL_KIND, 0x01, 0x80, 0x00, 0x00, 0x05];
    let decoded = decode(&wire).expect("one whole frame").expect("valid frame");
    assert_eq!(decoded.stream_id().0, 5);
}

#[test]
fn decode_rejects_short_or_mismatched_input() {
    assert!(decode(&[0x00, 0x00, 0x01][..].as_ref()).is_none());
    // length field says 3, only 2 payload bytes follow
    let short = vec![0x00, 0x00, 0x03, BIFROST_CALL_KIND, 0x01, 0x00, 0x00, 0x00, 0x05, 0xaa, 0xbb];
    assert!(decode(&short).is_none());
    // a foreign kind tag is not a Bifrost call frame
    let foreign = vec![0x00, 0x00, 0x00, 0x00, 0x01, 0x00, 0x00, 0x00, 0x05];
    assert!(decode(&foreign).is_none());
}

#[test]
fn unrecognized_flag_bits_are_masked_on_decode() {
    let unknown_only = BifrostCallFlags::load(0x04);
    assert!(unknown_only.is_empty());
    assert!(!unknown_only.is_normal());
    assert!(!unknown_only.is_one_shoot());
    assert!(!unknown_only.is_response());

    let mixed = BifrostCallFlags::load(0x05);
    assert!(mixed.is_normal());
    assert!(!mixed.is_one_shoot());
    assert!(!mixed.is_response());
    assert_eq!(mixed.into_byte(), 0x01);

    let all = BifrostCallFlags::load(0xff);
    assert!(all.is_normal());
    assert!(all.is_one_shoot());
    assert!(all.is_response());
    assert_eq!(all.into_byte(), 0x0b);

    // a decoded frame shows the same masking
    let wire = vec![0x00, 0x00, 0x00, BIFROST_CALL_KIND, 0x04, 0x00, 0x00, 0x00, 0x09];
    let decoded = decode(&wire).expect("one whole frame").expect("valid frame");
    assert!(decoded.flags().is_empty());
}

#[test]
fn flag_setters_toggle_single_bits() {
    let mut flags = BifrostCallFlags::default();
    assert!(flags.is_empty());
    flags.set_one_shoot();
    assert!(flags.is_one_shoot());
    flags.set_normal();
    assert!(flags.is_normal() && flags.is_one_shoot());
    flags.unset_one_shoot();
    assert!(flags.is_normal() && !flags.is_one_shoot());
    flags.set_response();
    assert!(flags.is_response());
    assert_eq!(flags.into_byte(), 0x09);
}

#[test]
fn frame_accessors_and_payload_mut() {
    let mut frame = BifrostCall::new(StreamId(9), Bytes::from(b"abc".to_vec()));
    assert_eq!(frame.stream_id().0, 9);
    assert_eq!(frame.payload().as_ref(), b"abc");
    let head = frame.head();
    assert_eq!(head.kind, BIFROST_CALL_KIND);
    assert_eq!(head.stream_id.0, 9);
    assert_eq!(head.flag, 0x00);
    *frame.payload_mut() = Bytes::from(b"xyz".to_vec());
    assert_eq!(frame.into_payload().as_ref(), b"xyz");
}

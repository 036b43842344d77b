//! Message framing: compression round trip, length prefix, frame
//! invariant.

use omnistat::message::{u32_from_be_bytes, u32_to_be_bytes, Message, NetError};

#[test]
fn encode_then_decode_returns_the_payload() {
    let payload: Vec<u8> = b"columnar forecasts compress well well well well well".to_vec();
    let message = Message::encode(&payload).expect("compression succeeds");
    // The frame is compressed data, not the payload itself.
    assert_ne!(message.data(), &payload);
    let decoded = message.decode().expect("decompression succeeds");
    assert_eq!(decoded, payload);
}

#[test]
fn empty_payload_round_trips() {
    let payload: Vec<u8> = Vec::new();
    let message = Message::encode(&payload).expect("compression succeeds");
    assert_eq!(message.decode().expect("decompression succeeds"), payload);
}

#[test]
fn length_prefix_is_big_endian_data_length() {
    let payload: Vec<u8> = vec![7; 1000];
    let message = Message::encode(&payload).expect("compression succeeds");
    let expected = (message.data().len() as u32).to_be_bytes().to_vec();
    assert_eq!(message.length_prefix(), expected);
}

#[test]
fn wire_bytes_rebuild_the_same_frame() {
    let payload: Vec<u8> = b"read side of the framing protocol".to_vec();
    let sent = Message::encode(&payload).expect("compression succeeds");
    let received = Message::from_data(sent.data().clone()).expect("length fits");
    assert_eq!(received.decode().expect("decompression succeeds"), payload);
}

#[test]
fn garbage_fails_to_decode() {
    let frame = Message::from_data(vec![1, 2, 3, 4, 5]).expect("length fits");
    assert_eq!(frame.decode().err(), Some(NetError::Compression));
}

#[test]
fn be_length_helpers_round_trip() {
    assert_eq!(u32_to_be_bytes(0xDEAD_BEEF), vec![0xDE, 0xAD, 0xBE, 0xEF]);
    assert_eq!(u32_from_be_bytes(&vec![0xDE, 0xAD, 0xBE, 0xEF]), 0xDEAD_BEEF);
    for v in [0u32, 1, 255, 256, 65_535, 16_777_216, u32::MAX] {
        assert_eq!(u32_from_be_bytes(&u32_to_be_bytes(v)), v);
        assert_eq!(u32_to_be_bytes(v), v.to_be_bytes().to_vec());
    }
}

use cathy::buffer::Buffer;
use cathy::buffer::BUFFER_MAX_LEN;
use cathy::codec::Codec;
use cathy::error::IMError;
use cathy::package::Package;
use cathy::package::ACTION_CONNECTED;
use cathy::package::ACTION_HEARTBEAT;
use cathy::package::ACTION_MSG_TO_USER;

#[test]
fn round_trip_through_buffer() {
    let content = "hello world".as_bytes().to_vec();
    let p = Package::new(ACTION_MSG_TO_USER, content.clone());
    let wire = Codec::encode(p).unwrap();
    assert_eq!(wire.len(), 4 + content.len());

    let mut buffer = Buffer::new();
    buffer.feed(&wire).unwrap();
    let decoded = Codec::decode(&mut buffer).unwrap();
    assert_eq!(decoded.get_code(), ACTION_MSG_TO_USER);
    assert_eq!(decoded.get_content(), &content);
    assert!(decoded.ready());
}

#[test]
fn round_trip_empty_body() {
    let p = Package::new(ACTION_HEARTBEAT, Vec::new());
    let wire = Codec::encode(p).unwrap();
    assert_eq!(wire, vec![0u8, 2, 0, 0]);

    let mut buffer = Buffer::new();
    buffer.feed(&wire).unwrap();
    let decoded = Codec::decode(&mut buffer).unwrap();
    assert_eq!(decoded.get_code(), ACTION_HEARTBEAT);
    assert_eq!(decoded.get_content().len(), 0);
}

#[test]
fn encode_boundary() {
    let too_large = Package::new(ACTION_MSG_TO_USER, vec![7u8; 4093]);
    match Codec::encode(too_large) {
        Err(IMError::ContentMaxLen) => {}
        _ => panic!("a body of 4093 bytes must be rejected"),
    }

    let at_limit = Package::new(ACTION_MSG_TO_USER, vec![7u8; 4092]);
    let wire = Codec::encode(at_limit).unwrap();
    assert_eq!(wire.len(), 4096);
    assert_eq!(wire[2], 15);
    assert_eq!(wire[3], 252);
}

#[test]
fn decode_rejects_oversized_announcement() {
    // Header announcing a 4093-byte body: fatal before the body arrives.
    let mut buffer = Buffer::new();
    buffer.feed(&vec![0u8, 3, 15, 253]).unwrap();
    match Codec::decode(&mut buffer) {
        Err(IMError::ContentMaxLen) => {}
        _ => panic!("an announced body over the limit must be fatal"),
    }
}

#[test]
fn decode_rejects_unknown_action() {
    let p = Package::new(9, "x".as_bytes().to_vec());
    let wire = Codec::encode(p).unwrap();
    let mut buffer = Buffer::new();
    buffer.feed(&wire).unwrap();
    match Codec::decode(&mut buffer) {
        Err(IMError::UnknownAction) => {}
        _ => panic!("action code 9 must be rejected"),
    }
}

#[test]
fn partial_reads_three_fills() {
    let first = Package::new(ACTION_MSG_TO_USER, "hello world".as_bytes().to_vec());
    let wire = Codec::encode(first).unwrap();
    let second = Package::new(ACTION_HEARTBEAT, "PING".as_bytes().to_vec());
    let second_wire = Codec::encode(second).unwrap();

    let mut buffer = Buffer::new();

    // First fill: part of the header only.
    buffer.feed(&wire[0..3].to_vec()).unwrap();
    match Codec::decode(&mut buffer) {
        Err(IMError::NotEnoughData) => {}
        _ => panic!("three bytes are not a message"),
    }

    // Second fill: the rest of the header and part of the body.
    buffer.feed(&wire[3..9].to_vec()).unwrap();
    match Codec::decode(&mut buffer) {
        Err(IMError::NotEnoughData) => {}
        _ => panic!("a partial body is not a message"),
    }

    // Third fill: the rest of the body plus the start of a second message.
    let mut tail = wire[9..].to_vec();
    tail.extend_from_slice(&second_wire[0..2]);
    buffer.feed(&tail).unwrap();

    let decoded = Codec::decode(&mut buffer).unwrap();
    assert_eq!(decoded.get_code(), ACTION_MSG_TO_USER);
    assert_eq!(decoded.get_content(), &"hello world".as_bytes().to_vec());

    // The second message's bytes are intact, and still incomplete.
    match Codec::decode(&mut buffer) {
        Err(IMError::NotEnoughData) => {}
        _ => panic!("the second message has not fully arrived yet"),
    }
    buffer.feed(&second_wire[2..].to_vec()).unwrap();
    let decoded2 = Codec::decode(&mut buffer).unwrap();
    assert_eq!(decoded2.get_code(), ACTION_HEARTBEAT);
    assert_eq!(decoded2.get_content(), &"PING".as_bytes().to_vec());
}

#[test]
fn buffer_eof_and_seek() {
    let mut buffer = Buffer::new();
    match buffer.feed(&Vec::new()) {
        Err(IMError::TcpStreamEOF) => {}
        _ => panic!("an empty fill means end of stream"),
    }
    assert_eq!(buffer.free_space(), BUFFER_MAX_LEN);

    buffer.feed(&vec![1u8, 2, 3, 4, 5]).unwrap();
    assert_eq!(buffer.free_space(), BUFFER_MAX_LEN - 5);
    assert_eq!(buffer.seek(1, 3).unwrap(), vec![2u8, 3, 4]);
    // A peek does not consume.
    assert_eq!(buffer.seek(0, 5).unwrap(), vec![1u8, 2, 3, 4, 5]);
    match buffer.seek(3, 3) {
        Err(IMError::NotEnoughData) => {}
        _ => panic!("a peek past the readable region must fail"),
    }
    // A read consumes the skipped and returned bytes.
    assert_eq!(buffer.read(1, 2).unwrap(), vec![2u8, 3]);
    assert_eq!(buffer.seek(0, 2).unwrap(), vec![4u8, 5]);
}

#[test]
fn package_accessors() {
    let p = Package::new(ACTION_CONNECTED, vec![1u8, 2, 3]);
    assert_eq!(p.get_code(), ACTION_CONNECTED);
    assert_eq!(p.get_content(), &vec![1u8, 2, 3]);
    assert!(p.ready());
    assert_eq!(p.len(), 3);

    let e = Package::empty();
    assert_eq!(e.get_code(), 0);
    assert_eq!(e.get_content().len(), 0);
    assert!(!e.ready());
    assert_eq!(e.len(), 0);
}

#[test]
fn package_len_wraps_at_field_width() {
    // The length accessor reports in the width of the wire header's length
    // field; a body longer than that width wraps around.
    let p = Package::new(ACTION_MSG_TO_USER, vec![0u8; 0x10000 + 5]);
    assert_eq!(p.len(), 5);
    assert_eq!(p.get_content().len(), 0x10000 + 5);
}

#[test]
fn field_extremes_round_trip() {
    let m = cathy::messages::MsgToUser {
        seq: u64::MAX,
        sender_uid: 0,
        receiver_uid: 1,
        message_id: 0x0102030405060708,
        timestamp: u64::MAX - 1,
        content: Vec::new(),
    };
    let bytes = cathy::messages::encode_msg_to_user(&m);
    assert_eq!(bytes.len(), 40);
    assert_eq!(&bytes[24..32], &[1u8, 2, 3, 4, 5, 6, 7, 8]);
    let back = cathy::messages::parse_msg_to_user(&bytes).unwrap();
    assert_eq!(back.seq, u64::MAX);
    assert_eq!(back.sender_uid, 0);
    assert_eq!(back.receiver_uid, 1);
    assert_eq!(back.message_id, 0x0102030405060708);
    assert_eq!(back.timestamp, u64::MAX - 1);
    assert!(back.content.is_empty());
}

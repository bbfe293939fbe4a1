use cathy::messages::MsgToUser;
use cathy::messages::encode_msg_to_user;
use cathy::messages::parse_msg_to_user;

#[test]
fn test_big_endian() {
    let v: u16 = 1234;
    // encode
    let mut b: [u8; 2] = [0; 2];
    b[0] = (v >> 8) as u8;
    b[1] = v as u8;

    println!("{:X}", b[0]);
    println!("{:X}", b[1]);

    // decode
    let dv = b[1] as u16 | (b[0] as u16) << 8;
    println!("{}", dv)
}

#[test]
fn test_overflow() {
    let i: i16 = 1234;
    println!("{}", i as u8); // output: 210
    println!("{}", i as i8); // output: -46
}

#[test]
fn test_proto() {
    let mtu = MsgToUser {
        seq: 1,
        sender_uid: 2,
        receiver_uid: 3,
        message_id: 0,
        timestamp: 0,
        content: "hello".as_bytes().to_vec(),
    };

    let bytes = encode_msg_to_user(&mtu);
    let new_mtu = parse_msg_to_user(&bytes).unwrap();
    println!("{:?}", new_mtu);
    assert_eq!(new_mtu.seq, 1);
    assert_eq!(new_mtu.sender_uid, 2);
    assert_eq!(new_mtu.receiver_uid, 3);
    assert_eq!(new_mtu.message_id, 0);
    assert_eq!(new_mtu.timestamp, 0);
    assert_eq!(new_mtu.content, "hello".as_bytes().to_vec());
}

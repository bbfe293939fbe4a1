use cathy::connection::Connection;
use cathy::connection::ReadStep;
use cathy::codec::Codec;
use cathy::handler::ServerAction;
use cathy::handler::build_user_message;
use cathy::handler::connected_reply_package;
use cathy::handler::handle_package;
use cathy::handler::heartbeat_ping;
use cathy::handler::heartbeat_pong;
use cathy::idle::IdleOutcome;
use cathy::idle::read_idle_fire;
use cathy::idle::READER_IDLE_MILLIS;
use cathy::message_system::MessageSystem;
use cathy::message_system::FIRST_MESSAGE_ID;
use cathy::messages::parse_connected_reply;
use cathy::messages::parse_msg_to_user;
use cathy::handler::route_message;
use cathy::package::ACTION_CONNECTED;
use cathy::package::ACTION_HEARTBEAT;
use cathy::package::ACTION_MSG_TO_USER;
use cathy::session::Session;
use cathy::session::SessionManager;
use cathy::session::SESSION_TOKEN_LEN;

#[test]
fn message_ids_are_fresh() {
    let mut ms = MessageSystem::new();
    assert_eq!(ms.next_seq(), FIRST_MESSAGE_ID);
    assert_eq!(ms.next_seq(), FIRST_MESSAGE_ID + 1);
    assert_eq!(ms.next_seq(), FIRST_MESSAGE_ID + 2);
}

#[test]
fn session_tokens_look_fresh() {
    let a = Session::new(1, Connection::new());
    let b = Session::new(2, Connection::new());
    assert_eq!(a.get_session_id().len(), SESSION_TOKEN_LEN);
    assert_eq!(b.get_session_id().len(), SESSION_TOKEN_LEN);
    // Two generated tokens are distinct random identifiers.
    assert_ne!(a.get_session_id(), b.get_session_id());
    assert_eq!(a.get_uid(), 1);
}

#[test]
fn uids_are_unique_and_removal_is_final() {
    let mut sm = SessionManager::new();
    let mut uids = Vec::new();
    for _ in 0..16 {
        let s = sm.new_session(Connection::new());
        uids.push(s.get_uid());
    }
    for i in 0..uids.len() {
        for j in (i + 1)..uids.len() {
            assert_ne!(uids[i], uids[j]);
        }
    }
    assert_eq!(sm.online_users().len(), 16);

    let removed = sm.remove(uids[3]).unwrap();
    assert_eq!(removed.get_uid(), uids[3]);
    assert!(sm.load(uids[3]).is_none());
    assert!(sm.remove(uids[3]).is_none());
    assert!(!sm.online_users().contains(&uids[3]));
    assert_eq!(sm.online_users().len(), 15);

    // A message addressed to the removed uid is silently dropped.
    let mut ms = MessageSystem::new();
    let msg = cathy::messages::MsgToUser {
        seq: 1,
        sender_uid: 0,
        receiver_uid: uids[3],
        message_id: 0,
        timestamp: 0,
        content: "gone".as_bytes().to_vec(),
    };
    assert!(route_message(&sm, &mut ms, uids[0], msg).is_none());
    // The dropped message consumed no message id.
    assert_eq!(ms.next_seq(), FIRST_MESSAGE_ID);
}

#[test]
fn end_to_end_connect_and_route() {
    let mut sm = SessionManager::new();
    let mut ms = MessageSystem::new();

    // First client connects: uid 1, acknowledged with uid and token.
    let first = sm.new_session(Connection::new());
    assert_eq!(first.get_uid(), 1);
    let token = first.get_session_id().into_bytes();
    let reply = connected_reply_package(first.get_uid(), &token);
    assert_eq!(reply.get_code(), ACTION_CONNECTED);
    let parsed = parse_connected_reply(reply.get_content()).unwrap();
    assert_eq!(parsed.uid, 1);
    assert_eq!(parsed.session_id, token);

    // Second client connects: uid 2.
    let second = sm.new_session(Connection::new());
    assert_eq!(second.get_uid(), 2);

    // The second client sends "hi" to uid 1, over the wire.
    let request = build_user_message(1, 1, "hi".as_bytes().to_vec(), 777);
    let wire = Codec::encode(request).unwrap();

    // The server reads it off the second client's connection.
    let mut server_side = Connection::new();
    server_side.feed(&wire).unwrap();
    let got = match server_side.read_step(5) {
        ReadStep::Ready(p) => p,
        _ => panic!("a whole message was on the wire"),
    };
    assert_eq!(server_side.get_last_read_time(), 5);
    assert_eq!(got.get_code(), ACTION_MSG_TO_USER);

    // The server routes it: a fresh message id and the sender's uid.
    let routed = match handle_package(&got) {
        ServerAction::RouteMessage(m) => m,
        _ => panic!("a user message must be routed"),
    };
    let delivery = route_message(&sm, &mut ms, second.get_uid(), routed).unwrap();
    assert_eq!(delivery.get_code(), ACTION_MSG_TO_USER);
    let delivered = parse_msg_to_user(delivery.get_content()).unwrap();
    assert_eq!(delivered.sender_uid, 2);
    assert_eq!(delivered.receiver_uid, 1);
    assert_eq!(delivered.message_id, FIRST_MESSAGE_ID);
    assert_eq!(delivered.timestamp, 777);
    assert_eq!(delivered.content, "hi".as_bytes().to_vec());
}

#[test]
fn heartbeats_are_answered() {
    let ping = heartbeat_ping();
    assert_eq!(ping.get_code(), ACTION_HEARTBEAT);
    assert_eq!(ping.get_content(), &"PING".as_bytes().to_vec());

    match handle_package(&ping) {
        ServerAction::ReplyPong => {}
        _ => panic!("a heartbeat is answered"),
    }
    let pong = heartbeat_pong();
    assert_eq!(pong.get_content(), &"PONG".as_bytes().to_vec());
}

#[test]
fn connection_state_tracking() {
    let mut conn = Connection::new();
    assert!(!conn.is_closed());
    assert_eq!(conn.get_last_read_time(), 0);
    assert_eq!(conn.get_last_write_time(), 0);

    match conn.feed(&Vec::new()) {
        Err(cathy::error::IMError::TcpStreamEOF) => {}
        _ => panic!("an empty fill means end of stream"),
    }
    conn.record_write(42);
    assert_eq!(conn.get_last_write_time(), 42);

    // A partial header: more bytes are needed and the read time is untouched.
    conn.feed(&vec![0u8, 2]).unwrap();
    match conn.read_step(99) {
        ReadStep::NeedMore => {}
        _ => panic!("two bytes are not a message"),
    }
    assert_eq!(conn.get_last_read_time(), 0);

    // The rest of a heartbeat frame: decoded, and the read time stamped.
    conn.feed(&vec![0u8, 0]).unwrap();
    let p = match conn.read_step(100) {
        ReadStep::Ready(p) => p,
        _ => panic!("a heartbeat frame is complete"),
    };
    assert_eq!(p.get_code(), ACTION_HEARTBEAT);
    assert_eq!(conn.get_last_read_time(), 100);

    // A clone observes the same liveness state with a fresh buffer.
    let copy = conn.clone();
    assert_eq!(copy.get_last_read_time(), 100);
    assert_eq!(copy.get_last_write_time(), 42);
    assert!(!copy.is_closed());

    conn.shutdown();
    assert!(conn.is_closed());
    conn.shutdown();
    assert!(conn.is_closed());
}

#[test]
fn silent_connection_is_reaped() {
    let mut sm = SessionManager::new();
    let session = sm.new_session(Connection::new());
    let uid = session.get_uid();
    let mut conn = Connection::new();

    // Sixty seconds with nothing decoded on the server side.
    let outcome = read_idle_fire(conn.is_closed(), READER_IDLE_MILLIS, conn.get_last_read_time());
    assert_eq!(outcome, IdleOutcome::ShutdownAndStop);

    conn.shutdown();
    assert!(conn.is_closed());
    sm.remove(uid);
    assert!(sm.online_users().is_empty());

    // Once closed, the task is terminal.
    let outcome = read_idle_fire(conn.is_closed(), 2 * READER_IDLE_MILLIS, 0);
    assert_eq!(outcome, IdleOutcome::Stop);
}

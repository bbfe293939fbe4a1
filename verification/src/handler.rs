use vstd::prelude::*;

use crate::message_system::MessageSystem;
use crate::messages::ConnectedReply;
use crate::messages::MsgToUser;
use crate::messages::MSG_FIXED_LEN;
use crate::messages::FIELD_LEN;
use crate::messages::connected_reply_bytes;
use crate::messages::msg_to_user_bytes;
use crate::messages::u64_from_be;
use crate::messages::encode_connected_reply;
use crate::messages::encode_msg_to_user;
use crate::messages::parse_connected_reply;
use crate::messages::parse_msg_to_user;
use crate::package::Package;
use crate::package::ACTION_CONNECTED;
use crate::package::ACTION_HEARTBEAT;
use crate::package::ACTION_MSG_TO_USER;
use crate::session::SessionManager;

verus! {

/// What the server does with one decoded package.
pub enum ServerAction {
    /// A heartbeat came in: answer it with the other heartbeat literal.
    ReplyPong,
    /// A routable user message came in.
    RouteMessage(MsgToUser),
    /// The body of a user message was malformed: close the connection.
    CloseConnection,
    /// Nothing the server answers (a connection acknowledgment sent to it).
    Ignore,
}

/// What the client does with one decoded package.
pub enum ClientAction {
    /// The server acknowledged the connection with uid and token.
    Connected(ConnectedReply),
    /// A heartbeat answer: nothing to do.
    HeartbeatSeen,
    /// A user message to show.
    DeliverMessage(MsgToUser),
    /// A malformed body: the link is broken.
    Malformed,
    /// An action code the client does not answer.
    Ignore,
}

/// The four ASCII bytes of the heartbeat request literal.
pub open spec fn ping_bytes() -> Seq<u8> {
    seq![80u8, 73u8, 78u8, 71u8]
}

/// The four ASCII bytes of the heartbeat answer literal.
pub open spec fn pong_bytes() -> Seq<u8> {
    seq![80u8, 79u8, 78u8, 71u8]
}

/// The heartbeat package a silent client sends ("PING").
pub fn heartbeat_ping() -> (p: Package)
    ensures
        p.spec_code() == ACTION_HEARTBEAT,
        p.spec_content() == ping_bytes(),
{
    let content = vec![80u8, 73u8, 78u8, 71u8];
    assert(content@ =~= ping_bytes());
    Package::new(ACTION_HEARTBEAT, content)
}

/// The heartbeat package the server answers with ("PONG").
pub fn heartbeat_pong() -> (p: Package)
    ensures
        p.spec_code() == ACTION_HEARTBEAT,
        p.spec_content() == pong_bytes(),
{
    let content = vec![80u8, 79u8, 78u8, 71u8];
    assert(content@ =~= pong_bytes());
    Package::new(ACTION_HEARTBEAT, content)
}

/// The acknowledgment the server sends right after registering a new
/// session: the assigned uid and the session token.
pub fn connected_reply_package(uid: u64, session_id: &Vec<u8>) -> (p: Package)
    requires
        session_id@.len() + FIELD_LEN <= usize::MAX,
    ensures
        p.spec_code() == ACTION_CONNECTED,
        p.spec_content() == connected_reply_bytes(uid, session_id@),
{
    let reply = ConnectedReply { uid, session_id: session_id.clone() };
    proof {
        assert(reply.session_id@ =~= session_id@);
    }
    let body = encode_connected_reply(&reply);
    Package::new(ACTION_CONNECTED, body)
}

/// The server's decision over one decoded package: heartbeats are answered,
/// well-formed user messages are routed, a malformed user message kills the
/// connection, anything else is ignored.
pub fn handle_package(p: &Package) -> (a: ServerAction)
    ensures
        p.spec_code() == ACTION_HEARTBEAT ==> a is ReplyPong,
        p.spec_code() == ACTION_MSG_TO_USER && p.spec_content().len() < MSG_FIXED_LEN ==> a
            is CloseConnection,
        p.spec_code() == ACTION_MSG_TO_USER && p.spec_content().len() >= MSG_FIXED_LEN ==> (
        a matches ServerAction::RouteMessage(m) && m.seq as int == u64_from_be(
            p.spec_content().subrange(0, 8),
        ) && m.sender_uid as int == u64_from_be(p.spec_content().subrange(8, 16))
            && m.receiver_uid as int == u64_from_be(p.spec_content().subrange(16, 24))
            && m.message_id as int == u64_from_be(p.spec_content().subrange(24, 32))
            && m.timestamp as int == u64_from_be(p.spec_content().subrange(32, 40)) && m.content@
            == p.spec_content().skip(MSG_FIXED_LEN as int)),
        p.spec_code() != ACTION_HEARTBEAT && p.spec_code() != ACTION_MSG_TO_USER ==> a is Ignore,
{
    let code = p.get_code();
    if code == ACTION_HEARTBEAT {
        ServerAction::ReplyPong
    } else if code == ACTION_MSG_TO_USER {
        match parse_msg_to_user(p.get_content()) {
            Some(m) => ServerAction::RouteMessage(m),
            None => ServerAction::CloseConnection,
        }
    } else {
        ServerAction::Ignore
    }
}

/// Routes one user message: when the receiver has a live session, the
/// message gets the next fresh message id and the sender's uid stamped on
/// it, and comes back as the package to deliver to that receiver; when the
/// receiver is gone, the message is silently dropped and nothing changes,
/// in particular the sender sees no error.
pub fn route_message(
    sessions: &SessionManager,
    messages: &mut MessageSystem,
    sender_uid: u64,
    msg: MsgToUser,
) -> (r: Option<Package>)
    requires
        sessions.wf(),
        old(messages).spec_next_id() < u64::MAX,
        msg.content@.len() + MSG_FIXED_LEN <= usize::MAX,
    ensures
        r is Some <==> sessions.spec_has_uid(msg.receiver_uid),
        !sessions.spec_has_uid(msg.receiver_uid) ==> final(messages).spec_next_id() == old(
            messages,
        ).spec_next_id(),
        sessions.spec_has_uid(msg.receiver_uid) ==> (r matches Some(p) && p.spec_code()
            == ACTION_MSG_TO_USER && p.spec_content() == msg_to_user_bytes(
            msg.seq,
            sender_uid,
            msg.receiver_uid,
            old(messages).spec_next_id(),
            msg.timestamp,
            msg.content@,
        ) && final(messages).spec_next_id() == old(messages).spec_next_id() + 1),
{
    if !sessions.exist(msg.receiver_uid) {
        return None;
    }
    let message_id = messages.next_seq();
    let stamped = MsgToUser {
        seq: msg.seq,
        sender_uid,
        receiver_uid: msg.receiver_uid,
        message_id,
        timestamp: msg.timestamp,
        content: msg.content,
    };
    let body = encode_msg_to_user(&stamped);
    Some(Package::new(ACTION_MSG_TO_USER, body))
}

/// The user message a client sends: its own running sequence number, no
/// sender uid or message id yet (the server stamps both), the text and a
/// timestamp.
pub fn build_user_message(seq: u64, receiver_uid: u64, content: Vec<u8>, timestamp: u64) -> (p:
    Package)
    requires
        content@.len() + MSG_FIXED_LEN <= usize::MAX,
    ensures
        p.spec_code() == ACTION_MSG_TO_USER,
        p.spec_content() == msg_to_user_bytes(seq, 0, receiver_uid, 0, timestamp, content@),
{
    let msg = MsgToUser {
        seq,
        sender_uid: 0,
        receiver_uid,
        message_id: 0,
        timestamp,
        content,
    };
    let body = encode_msg_to_user(&msg);
    Package::new(ACTION_MSG_TO_USER, body)
}

/// The client's decision over one decoded package.
pub fn client_handle_package(p: &Package) -> (a: ClientAction)
    ensures
        p.spec_code() == ACTION_CONNECTED && p.spec_content().len() < FIELD_LEN ==> a
            is Malformed,
        p.spec_code() == ACTION_CONNECTED && p.spec_content().len() >= FIELD_LEN ==> (
        a matches ClientAction::Connected(c) && c.uid as int == u64_from_be(
            p.spec_content().subrange(0, FIELD_LEN as int),
        ) && c.session_id@ == p.spec_content().skip(FIELD_LEN as int)),
        p.spec_code() == ACTION_HEARTBEAT ==> a is HeartbeatSeen,
        p.spec_code() == ACTION_MSG_TO_USER && p.spec_content().len() < MSG_FIXED_LEN ==> a
            is Malformed,
        p.spec_code() == ACTION_MSG_TO_USER && p.spec_content().len() >= MSG_FIXED_LEN ==> (
        a matches ClientAction::DeliverMessage(m) && m.sender_uid as int == u64_from_be(
            p.spec_content().subrange(8, 16),
        ) && m.content@ == p.spec_content().skip(MSG_FIXED_LEN as int)),
        p.spec_code() != ACTION_CONNECTED && p.spec_code() != ACTION_HEARTBEAT && p.spec_code()
            != ACTION_MSG_TO_USER ==> a is Ignore,
{
    let code = p.get_code();
    if code == ACTION_CONNECTED {
        match parse_connected_reply(p.get_content()) {
            Some(c) => ClientAction::Connected(c),
            None => ClientAction::Malformed,
        }
    } else if code == ACTION_HEARTBEAT {
        ClientAction::HeartbeatSeen
    } else if code == ACTION_MSG_TO_USER {
        match parse_msg_to_user(p.get_content()) {
            Some(m) => ClientAction::DeliverMessage(m),
            None => ClientAction::Malformed,
        }
    } else {
        ClientAction::Ignore
    }
}

} // verus!

use vstd::prelude::*;

use vstd::arithmetic::div_mod::lemma_div_denominator;
use vstd::arithmetic::div_mod::lemma_div_is_ordered;
use vstd::arithmetic::div_mod::lemma_fundamental_div_mod;
use vstd::arithmetic::div_mod::lemma_small_mod;

verus! {

/// Bytes of one fixed-width field in a message body.
pub const FIELD_LEN: usize = 8;

/// Bytes of the fixed part of a user-message body: five fields.
pub const MSG_FIXED_LEN: usize = 40;

/// The eight bytes of `v`, most significant first.
pub open spec fn u64_be_bytes(v: u64) -> Seq<u8> {
    seq![
        ((v as int / 0x100000000000000) % 256) as u8,
        ((v as int / 0x1000000000000) % 256) as u8,
        ((v as int / 0x10000000000) % 256) as u8,
        ((v as int / 0x100000000) % 256) as u8,
        ((v as int / 0x1000000) % 256) as u8,
        ((v as int / 0x10000) % 256) as u8,
        ((v as int / 0x100) % 256) as u8,
        ((v as int) % 256) as u8,
    ]
}

/// The value eight big-endian bytes carry.  Meaningful for a sequence of
/// exactly eight bytes.
pub open spec fn u64_from_be(b: Seq<u8>) -> int {
    let h0 = b[0] as int;
    let h1 = h0 * 256 + b[1] as int;
    let h2 = h1 * 256 + b[2] as int;
    let h3 = h2 * 256 + b[3] as int;
    let h4 = h3 * 256 + b[4] as int;
    let h5 = h4 * 256 + b[5] as int;
    let h6 = h5 * 256 + b[6] as int;
    h6 * 256 + b[7] as int
}

/// One step of reading a big-endian value back: the prefix read so far,
/// shifted by one byte, plus the next byte, is the value down to that byte.
proof fn lemma_be_step(x: int, d: int)
    requires
        x >= 0,
        d > 0,
    ensures
        (x / (d * 256)) * 256 + (x / d) % 256 == x / d,
{
    lemma_fundamental_div_mod(x / d, 256);
    lemma_div_denominator(x, d, 256);
}

/// Law: eight big-endian bytes written from a value read back as that
/// value.
pub proof fn lemma_u64_be_round_trip(v: u64)
    ensures
        u64_from_be(u64_be_bytes(v)) == v,
{
    let x = v as int;
    assert(x / 0x100000000000000 < 256) by {
        lemma_div_is_ordered(x, 0xffffffffffffffff, 0x100000000000000);
    }
    lemma_small_mod((x / 0x100000000000000) as nat, 256);
    lemma_be_step(x, 0x1000000000000);
    lemma_be_step(x, 0x10000000000);
    lemma_be_step(x, 0x100000000);
    lemma_be_step(x, 0x1000000);
    lemma_be_step(x, 0x10000);
    lemma_be_step(x, 0x100);
    lemma_be_step(x, 1);
    assert(0x1000000000000 * 256 == 0x100000000000000);
    assert(0x10000000000 * 256 == 0x1000000000000);
    assert(0x100000000 * 256 == 0x10000000000);
    assert(0x1000000 * 256 == 0x100000000);
    assert(0x10000 * 256 == 0x1000000);
    assert(0x100 * 256 == 0x10000);
    assert(1 * 256 == 0x100);
    assert(x / 1 == x);
}

/// Reads the big-endian field at `pos`.
pub fn read_u64_be(bytes: &Vec<u8>, pos: usize) -> (v: u64)
    requires
        pos + FIELD_LEN <= bytes@.len(),
    ensures
        v as int == u64_from_be(bytes@.subrange(pos as int, pos + FIELD_LEN)),
{
    let total = bytes.len();
    assert(pos + FIELD_LEN <= total);
    let b0 = bytes[pos] as u64;
    let b1 = bytes[pos + 1] as u64;
    let b2 = bytes[pos + 2] as u64;
    let b3 = bytes[pos + 3] as u64;
    let b4 = bytes[pos + 4] as u64;
    let b5 = bytes[pos + 5] as u64;
    let b6 = bytes[pos + 6] as u64;
    let b7 = bytes[pos + 7] as u64;
    let v = ((((((b0 * 256 + b1) * 256 + b2) * 256 + b3) * 256 + b4) * 256 + b5) * 256 + b6) * 256
        + b7;
    proof {
        let s = bytes@.subrange(pos as int, pos + FIELD_LEN);
        assert(s[0] == bytes@[pos as int]);
        assert(s[1] == bytes@[pos + 1]);
        assert(s[2] == bytes@[pos + 2]);
        assert(s[3] == bytes@[pos + 3]);
        assert(s[4] == bytes@[pos + 4]);
        assert(s[5] == bytes@[pos + 5]);
        assert(s[6] == bytes@[pos + 6]);
        assert(s[7] == bytes@[pos + 7]);
    }
    v
}

/// Appends the eight big-endian bytes of `v`.
pub fn push_u64_be(out: &mut Vec<u8>, v: u64)
    requires
        old(out)@.len() + FIELD_LEN <= usize::MAX,
    ensures
        final(out)@ == old(out)@ + u64_be_bytes(v),
{
    out.push(((v / 0x100000000000000) % 256) as u8);
    out.push(((v / 0x1000000000000) % 256) as u8);
    out.push(((v / 0x10000000000) % 256) as u8);
    out.push(((v / 0x100000000) % 256) as u8);
    out.push(((v / 0x1000000) % 256) as u8);
    out.push(((v / 0x10000) % 256) as u8);
    out.push(((v / 0x100) % 256) as u8);
    out.push((v % 256) as u8);
    assert(out@ =~= old(out)@ + u64_be_bytes(v));
}

/// The body of a connection acknowledgment: the assigned uid followed by
/// the session token bytes.
#[derive(Debug)]
pub struct ConnectedReply {
    pub uid: u64,
    pub session_id: Vec<u8>,
}

/// The body bytes of a connection acknowledgment.
pub open spec fn connected_reply_bytes(uid: u64, session_id: Seq<u8>) -> Seq<u8> {
    u64_be_bytes(uid) + session_id
}

/// Writes a connection acknowledgment body.
pub fn encode_connected_reply(r: &ConnectedReply) -> (out: Vec<u8>)
    requires
        r.session_id@.len() + FIELD_LEN <= usize::MAX,
    ensures
        out@ == connected_reply_bytes(r.uid, r.session_id@),
{
    let mut out: Vec<u8> = Vec::new();
    push_u64_be(&mut out, r.uid);
    let mut i: usize = 0;
    while i < r.session_id.len()
        invariant
            i <= r.session_id@.len(),
            r.session_id@.len() + FIELD_LEN <= usize::MAX,
            out@ == u64_be_bytes(r.uid) + r.session_id@.take(i as int),
        decreases r.session_id@.len() - i,
    {
        out.push(r.session_id[i]);
        proof {
            assert(out@ =~= u64_be_bytes(r.uid) + r.session_id@.take(i + 1));
        }
        i += 1;
    }
    proof {
        assert(out@ =~= connected_reply_bytes(r.uid, r.session_id@));
    }
    out
}

/// Reads a connection acknowledgment body: the uid field and the token.
/// Fails only when the body is shorter than the fixed field.
pub fn parse_connected_reply(bytes: &Vec<u8>) -> (r: Option<ConnectedReply>)
    ensures
        bytes@.len() < FIELD_LEN ==> r is None,
        bytes@.len() >= FIELD_LEN ==> (r matches Some(c) && c.uid as int == u64_from_be(
            bytes@.subrange(0, FIELD_LEN as int),
        ) && c.session_id@ == bytes@.skip(FIELD_LEN as int)),
{
    if bytes.len() < FIELD_LEN {
        return None;
    }
    let uid = read_u64_be(bytes, 0);
    let mut session_id: Vec<u8> = Vec::new();
    let mut i: usize = FIELD_LEN;
    while i < bytes.len()
        invariant
            FIELD_LEN <= i <= bytes@.len(),
            session_id@ == bytes@.subrange(FIELD_LEN as int, i as int),
        decreases bytes@.len() - i,
    {
        session_id.push(bytes[i]);
        proof {
            assert(session_id@ =~= bytes@.subrange(FIELD_LEN as int, i + 1));
        }
        i += 1;
    }
    proof {
        assert(session_id@ =~= bytes@.skip(FIELD_LEN as int));
    }
    Some(ConnectedReply { uid, session_id })
}

/// Law: a connection acknowledgment body round-trips: the uid field reads
/// back as the uid, and the rest is exactly the token.
pub proof fn lemma_connected_reply_round_trip(uid: u64, session_id: Seq<u8>)
    ensures
        connected_reply_bytes(uid, session_id).len() == FIELD_LEN + session_id.len(),
        u64_from_be(connected_reply_bytes(uid, session_id).subrange(0, FIELD_LEN as int)) == uid,
        connected_reply_bytes(uid, session_id).skip(FIELD_LEN as int) == session_id,
{
    let b = connected_reply_bytes(uid, session_id);
    assert(b.subrange(0, FIELD_LEN as int) =~= u64_be_bytes(uid));
    lemma_u64_be_round_trip(uid);
    assert(b.skip(FIELD_LEN as int) =~= session_id);
}

/// A user-to-user message as the routing logic reads it; the body carries
/// these five fixed-width fields followed by the opaque message text.
#[derive(Debug)]
pub struct MsgToUser {
    pub seq: u64,
    pub sender_uid: u64,
    pub receiver_uid: u64,
    pub message_id: u64,
    pub timestamp: u64,
    pub content: Vec<u8>,
}

/// The body bytes of a user-to-user message.
pub open spec fn msg_to_user_bytes(
    seq_no: u64,
    sender_uid: u64,
    receiver_uid: u64,
    message_id: u64,
    timestamp: u64,
    content: Seq<u8>,
) -> Seq<u8> {
    u64_be_bytes(seq_no) + u64_be_bytes(sender_uid) + u64_be_bytes(receiver_uid) + u64_be_bytes(
        message_id,
    ) + u64_be_bytes(timestamp) + content
}

/// Writes a user-to-user message body.
pub fn encode_msg_to_user(m: &MsgToUser) -> (out: Vec<u8>)
    requires
        m.content@.len() + MSG_FIXED_LEN <= usize::MAX,
    ensures
        out@ == msg_to_user_bytes(
            m.seq,
            m.sender_uid,
            m.receiver_uid,
            m.message_id,
            m.timestamp,
            m.content@,
        ),
{
    let mut out: Vec<u8> = Vec::new();
    push_u64_be(&mut out, m.seq);
    push_u64_be(&mut out, m.sender_uid);
    push_u64_be(&mut out, m.receiver_uid);
    push_u64_be(&mut out, m.message_id);
    push_u64_be(&mut out, m.timestamp);
    let mut i: usize = 0;
    let ghost fixed = u64_be_bytes(m.seq) + u64_be_bytes(m.sender_uid) + u64_be_bytes(
        m.receiver_uid,
    ) + u64_be_bytes(m.message_id) + u64_be_bytes(m.timestamp);
    while i < m.content.len()
        invariant
            i <= m.content@.len(),
            m.content@.len() + MSG_FIXED_LEN <= usize::MAX,
            fixed.len() == MSG_FIXED_LEN,
            out@ == fixed + m.content@.take(i as int),
        decreases m.content@.len() - i,
    {
        out.push(m.content[i]);
        proof {
            assert(out@ =~= fixed + m.content@.take(i + 1));
        }
        i += 1;
    }
    proof {
        assert(out@ =~= msg_to_user_bytes(
            m.seq,
            m.sender_uid,
            m.receiver_uid,
            m.message_id,
            m.timestamp,
            m.content@,
        ));
    }
    out
}

/// Reads a user-to-user message body.  Fails only when the body is shorter
/// than the five fixed fields.
pub fn parse_msg_to_user(bytes: &Vec<u8>) -> (r: Option<MsgToUser>)
    ensures
        bytes@.len() < MSG_FIXED_LEN ==> r is None,
        bytes@.len() >= MSG_FIXED_LEN ==> (r matches Some(m) && m.seq as int == u64_from_be(
            bytes@.subrange(0, 8),
        ) && m.sender_uid as int == u64_from_be(bytes@.subrange(8, 16)) && m.receiver_uid as int
            == u64_from_be(bytes@.subrange(16, 24)) && m.message_id as int == u64_from_be(
            bytes@.subrange(24, 32),
        ) && m.timestamp as int == u64_from_be(bytes@.subrange(32, 40)) && m.content@
            == bytes@.skip(MSG_FIXED_LEN as int)),
{
    if bytes.len() < MSG_FIXED_LEN {
        return None;
    }
    let seq = read_u64_be(bytes, 0);
    let sender_uid = read_u64_be(bytes, 8);
    let receiver_uid = read_u64_be(bytes, 16);
    let message_id = read_u64_be(bytes, 24);
    let timestamp = read_u64_be(bytes, 32);
    let mut content: Vec<u8> = Vec::new();
    let mut i: usize = MSG_FIXED_LEN;
    while i < bytes.len()
        invariant
            MSG_FIXED_LEN <= i <= bytes@.len(),
            content@ == bytes@.subrange(MSG_FIXED_LEN as int, i as int),
        decreases bytes@.len() - i,
    {
        content.push(bytes[i]);
        proof {
            assert(content@ =~= bytes@.subrange(MSG_FIXED_LEN as int, i + 1));
        }
        i += 1;
    }
    proof {
        assert(content@ =~= bytes@.skip(MSG_FIXED_LEN as int));
    }
    Some(MsgToUser { seq, sender_uid, receiver_uid, message_id, timestamp, content })
}

/// Law: a user-to-user message body round-trips: each field reads back as
/// itself and the tail is exactly the message text.
pub proof fn lemma_msg_to_user_round_trip(
    seq_no: u64,
    sender_uid: u64,
    receiver_uid: u64,
    message_id: u64,
    timestamp: u64,
    content: Seq<u8>,
)
    ensures
        ({
            let b = msg_to_user_bytes(seq_no, sender_uid, receiver_uid, message_id, timestamp, content);
            &&& b.len() == MSG_FIXED_LEN + content.len()
            &&& u64_from_be(b.subrange(0, 8)) == seq_no
            &&& u64_from_be(b.subrange(8, 16)) == sender_uid
            &&& u64_from_be(b.subrange(16, 24)) == receiver_uid
            &&& u64_from_be(b.subrange(24, 32)) == message_id
            &&& u64_from_be(b.subrange(32, 40)) == timestamp
            &&& b.skip(MSG_FIXED_LEN as int) == content
        }),
{
    let b = msg_to_user_bytes(seq_no, sender_uid, receiver_uid, message_id, timestamp, content);
    assert(b.subrange(0, 8) =~= u64_be_bytes(seq_no));
    assert(b.subrange(8, 16) =~= u64_be_bytes(sender_uid));
    assert(b.subrange(16, 24) =~= u64_be_bytes(receiver_uid));
    assert(b.subrange(24, 32) =~= u64_be_bytes(message_id));
    assert(b.subrange(32, 40) =~= u64_be_bytes(timestamp));
    assert(b.skip(MSG_FIXED_LEN as int) =~= content);
    lemma_u64_be_round_trip(seq_no);
    lemma_u64_be_round_trip(sender_uid);
    lemma_u64_be_round_trip(receiver_uid);
    lemma_u64_be_round_trip(message_id);
    lemma_u64_be_round_trip(timestamp);
}

} // verus!

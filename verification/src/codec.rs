use vstd::prelude::*;

use crate::buffer::Buffer;
use crate::error::IMError;
use crate::package::Package;
use crate::package::is_known_action;

verus! {

/// Bytes of the action field in the wire header.
pub const TYPE_LEN: usize = 2;

/// Bytes of the body-length field in the wire header.
pub const BODY_LEN: usize = 2;

/// Bytes of the whole wire header.
pub const HEAD_LEN: usize = 4;

/// Largest body a wire message may carry: the buffer capacity less the
/// header, so that one whole message always fits a compacted buffer.
pub const CONTENT_MAX_LEN: usize = 4092;

/// The wire bytes of one message: a four-byte big-endian header (action
/// code, then body length) followed by the body.  Meaningful for bodies of
/// at most `CONTENT_MAX_LEN` bytes.
pub open spec fn encoded(code: u16, content: Seq<u8>) -> Seq<u8> {
    seq![
        (code / 256) as u8,
        (code % 256) as u8,
        ((content.len() as int / 256) as u8),
        ((content.len() as int % 256) as u8),
    ] + content
}

/// The action code the first two wire bytes carry, big-endian.
pub open spec fn decoded_code(bytes: Seq<u8>) -> u16 {
    ((bytes[0] as int) * 256 + (bytes[1] as int)) as u16
}

/// The body length the third and fourth wire bytes carry, big-endian.
pub open spec fn decoded_body_len(bytes: Seq<u8>) -> int {
    (bytes[2] as int) * 256 + (bytes[3] as int)
}

/// Holds exactly when `decode` on a buffer holding `bytes` returns a
/// package: the header is present, the announced body is within bounds and
/// fully arrived, and the action code is a known one.
pub open spec fn decode_ok(bytes: Seq<u8>) -> bool {
    &&& bytes.len() >= HEAD_LEN
    &&& decoded_body_len(bytes) <= CONTENT_MAX_LEN
    &&& bytes.len() >= HEAD_LEN + decoded_body_len(bytes)
    &&& is_known_action(decoded_code(bytes))
}

/// The error `decode` returns on `bytes` when `decode_ok` does not hold.
/// `NotEnoughData` is recoverable; the other two are fatal.
pub open spec fn decode_err(bytes: Seq<u8>) -> IMError {
    if bytes.len() < HEAD_LEN {
        IMError::NotEnoughData
    } else if decoded_body_len(bytes) > CONTENT_MAX_LEN {
        IMError::ContentMaxLen
    } else if bytes.len() < HEAD_LEN + decoded_body_len(bytes) {
        IMError::NotEnoughData
    } else {
        IMError::UnknownAction
    }
}

/// Stateless translator between a `Package` and its wire bytes.
pub struct Codec;

impl Codec {
    /// Writes the four-byte big-endian header followed by the body; rejects
    /// bodies over `CONTENT_MAX_LEN` bytes.
    pub fn encode(p: Package) -> (r: Result<Vec<u8>, IMError>)
        ensures
            p.spec_content().len() > CONTENT_MAX_LEN ==> r == Err::<Vec<u8>, IMError>(
                IMError::ContentMaxLen,
            ),
            p.spec_content().len() <= CONTENT_MAX_LEN ==> (r matches Ok(v) && v@ == encoded(
                p.spec_code(),
                p.spec_content(),
            ) && v@.len() == HEAD_LEN + p.spec_content().len()),
    {
        let content = p.get_content();
        let body_len = content.len();
        if body_len > CONTENT_MAX_LEN {
            return Err(IMError::ContentMaxLen);
        }
        let code = p.get_code();
        let ghost head = encoded(p.spec_code(), p.spec_content());
        let mut out: Vec<u8> = Vec::new();
        out.push((code / 256) as u8);
        out.push((code % 256) as u8);
        out.push((body_len / 256) as u8);
        out.push((body_len % 256) as u8);
        assert(forall|k: int| 0 <= k < HEAD_LEN ==> out@[k] == head[k]);
        let mut i: usize = 0;
        while i < content.len()
            invariant
                i <= content@.len(),
                out@.len() == HEAD_LEN + i,
                head == encoded(p.spec_code(), p.spec_content()),
                forall|k: int| 0 <= k < HEAD_LEN + i ==> out@[k] == head[k],
                content@ == p.spec_content(),
                content@.len() <= CONTENT_MAX_LEN,
            decreases content@.len() - i,
        {
            out.push(content[i]);
            i += 1;
        }
        assert(out@ =~= encoded(p.spec_code(), p.spec_content()));
        Ok(out)
    }

    /// Reads one message off the front of the buffer.  On success exactly
    /// header plus body are consumed; an unknown action consumes them too
    /// (the failure is fatal); the other failures leave the buffer as it
    /// was, so the caller may fill it and retry.
    pub fn decode(buffer: &mut Buffer) -> (r: Result<Package, IMError>)
        requires
            old(buffer).wf(),
        ensures
            final(buffer).wf(),
            decode_ok(old(buffer)@) ==> (r matches Ok(p) && p.spec_code() == decoded_code(
                old(buffer)@,
            ) && p.spec_content() == old(buffer)@.subrange(
                HEAD_LEN as int,
                HEAD_LEN + decoded_body_len(old(buffer)@),
            ) && p.spec_ready() && final(buffer)@ == old(buffer)@.skip(
                HEAD_LEN + decoded_body_len(old(buffer)@),
            )),
            !decode_ok(old(buffer)@) ==> r == Err::<Package, IMError>(decode_err(old(buffer)@))
                && (if decode_err(old(buffer)@) == IMError::UnknownAction {
                final(buffer)@ == old(buffer)@.skip(HEAD_LEN + decoded_body_len(old(buffer)@))
            } else {
                final(buffer)@ == old(buffer)@
            }),
    {
        let action_buf = match buffer.seek(0, TYPE_LEN) {
            Ok(v) => v,
            Err(e) => { return Err(e); },
        };
        let len_buf = match buffer.seek(TYPE_LEN, BODY_LEN) {
            Ok(v) => v,
            Err(e) => { return Err(e); },
        };
        let code: u16 = (action_buf[0] as u16) * 256 + (action_buf[1] as u16);
        let body_len: u16 = (len_buf[0] as u16) * 256 + (len_buf[1] as u16);
        if (body_len as usize) > CONTENT_MAX_LEN {
            return Err(IMError::ContentMaxLen);
        }
        let content = match buffer.read(HEAD_LEN, body_len as usize) {
            Ok(v) => v,
            Err(e) => { return Err(e); },
        };
        if !(code == crate::package::ACTION_CONNECTED || code == crate::package::ACTION_HEARTBEAT
            || code == crate::package::ACTION_MSG_TO_USER) {
            return Err(IMError::UnknownAction);
        }
        Ok(Package::new(code, content))
    }
}

/// Law: the codec round-trips.  The wire bytes of any package with a known
/// action and a body within bounds decode back to exactly that action and
/// body, consume exactly the message's own bytes, and leave any bytes that
/// follow (the start of a next message) untouched.
pub proof fn lemma_round_trip(code: u16, content: Seq<u8>, rest: Seq<u8>)
    requires
        content.len() <= CONTENT_MAX_LEN,
        is_known_action(code),
    ensures
        decode_ok(encoded(code, content) + rest),
        decoded_code(encoded(code, content) + rest) == code,
        decoded_body_len(encoded(code, content) + rest) == content.len(),
        (encoded(code, content) + rest).subrange(
            HEAD_LEN as int,
            HEAD_LEN + content.len(),
        ) == content,
        (encoded(code, content) + rest).skip(HEAD_LEN + content.len()) == rest,
{
    let bytes = encoded(code, content) + rest;
    assert(bytes[0] == (code / 256) as u8);
    assert(bytes[1] == (code % 256) as u8);
    assert(bytes[2] == (content.len() as int / 256) as u8);
    assert(bytes[3] == (content.len() as int % 256) as u8);
    assert(code / 256 * 256 + code % 256 == code) by (nonlinear_arith);
    assert(content.len() as int / 256 * 256 + content.len() as int % 256 == content.len() as int)
        by (nonlinear_arith);
    assert(decoded_code(bytes) == code);
    assert(decoded_body_len(bytes) == content.len());
    assert(bytes.subrange(HEAD_LEN as int, HEAD_LEN + content.len()) =~= content);
    assert(bytes.skip(HEAD_LEN + content.len()) =~= rest);
}

/// Law: framing is unambiguous.  Whatever byte string a message decodes
/// from begins with exactly the wire bytes of that message, so re-encoding
/// what was decoded reproduces what was consumed.
pub proof fn lemma_decode_then_encode(bytes: Seq<u8>)
    requires
        decode_ok(bytes),
    ensures
        encoded(
            decoded_code(bytes),
            bytes.subrange(HEAD_LEN as int, HEAD_LEN + decoded_body_len(bytes)),
        ) == bytes.take(HEAD_LEN + decoded_body_len(bytes)),
{
    let code = decoded_code(bytes);
    let body_len = decoded_body_len(bytes);
    let content = bytes.subrange(HEAD_LEN as int, HEAD_LEN + body_len);
    assert(code as int == (bytes[0] as int) * 256 + (bytes[1] as int));
    vstd::arithmetic::div_mod::lemma_fundamental_div_mod_converse(
        code as int,
        256,
        bytes[0] as int,
        bytes[1] as int,
    );
    vstd::arithmetic::div_mod::lemma_fundamental_div_mod_converse(
        body_len,
        256,
        bytes[2] as int,
        bytes[3] as int,
    );
    assert(content.len() == body_len);
    assert(encoded(code, content) =~= bytes.take(HEAD_LEN + body_len));
}

/// Law: a strict prefix of one message's wire bytes never decodes; it fails
/// with the recoverable `NotEnoughData`, so a reader that fills the buffer
/// and retries decodes the message exactly once, when it is complete.
pub proof fn lemma_partial_prefix(code: u16, content: Seq<u8>, n: int)
    requires
        content.len() <= CONTENT_MAX_LEN,
        is_known_action(code),
        0 <= n < encoded(code, content).len(),
    ensures
        !decode_ok(encoded(code, content).take(n)),
        decode_err(encoded(code, content).take(n)) == IMError::NotEnoughData,
{
    let bytes = encoded(code, content).take(n);
    if n >= HEAD_LEN {
        assert(bytes[2] == (content.len() as int / 256) as u8);
        assert(bytes[3] == (content.len() as int % 256) as u8);
        assert(content.len() as int / 256 * 256 + content.len() as int % 256 == content.len() as int)
            by (nonlinear_arith);
        assert(decoded_body_len(bytes) == content.len());
        assert(bytes.len() < HEAD_LEN + decoded_body_len(bytes));
    }
}

} // verus!


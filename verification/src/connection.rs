use vstd::prelude::*;

use crate::buffer::Buffer;
use crate::codec::Codec;
use crate::codec::decode_ok;
use crate::codec::decode_err;
use crate::codec::decoded_body_len;
use crate::codec::decoded_code;
use crate::codec::HEAD_LEN;
use crate::error::IMError;
use crate::package::Package;

verus! {

/// What one decode attempt over the connection's buffer yielded.
pub enum ReadStep {
    /// A whole message was taken off the buffer.
    Ready(Package),
    /// The buffer does not yet hold a whole message: fill it and retry.
    NeedMore,
    /// A fatal protocol failure: the connection must be closed.
    Failed(IMError),
}

/// The protocol-visible state of one connection: its staging buffer, the
/// closed flag, and the two activity timestamps the idle tasks read.  The
/// transport itself (the socket and the sharing of the flag and timestamps
/// across threads) lives outside this type; every clone of a connection
/// starts with a fresh empty buffer, so only one logical reader consumes a
/// given stream.
pub struct Connection {
    buffer: Buffer,
    closed: bool,
    last_read_time: u64,
    last_write_time: u64,
}

impl Connection {
    /// Whether the connection was shut down.
    pub closed spec fn spec_closed(&self) -> bool {
        self.closed
    }

    /// Milliseconds timestamp of the last successfully decoded message.
    pub closed spec fn spec_last_read_time(&self) -> u64 {
        self.last_read_time
    }

    /// Milliseconds timestamp of the last completed write.
    pub closed spec fn spec_last_write_time(&self) -> u64 {
        self.last_write_time
    }

    /// The bytes received but not yet decoded.
    pub closed spec fn spec_buffered(&self) -> Seq<u8> {
        self.buffer@
    }

    pub closed spec fn wf(&self) -> bool {
        self.buffer.wf()
    }

    pub fn new() -> (c: Connection)
        ensures
            c.wf(),
            !c.spec_closed(),
            c.spec_last_read_time() == 0,
            c.spec_last_write_time() == 0,
            c.spec_buffered() == Seq::<u8>::empty(),
    {
        Connection { buffer: Buffer::new(), closed: false, last_read_time: 0, last_write_time: 0 }
    }

    /// Room left in the staging buffer; the transport may hand `feed` at
    /// most this many bytes at once.
    pub fn free_space(&self) -> (n: usize)
        requires
            self.wf(),
        ensures
            n == crate::buffer::BUFFER_MAX_LEN - self.spec_buffered().len(),
    {
        self.buffer.free_space()
    }

    /// Stages one chunk that arrived from the transport.  An empty chunk
    /// means the peer reached end of stream, which is fatal.
    pub fn feed(&mut self, data: &Vec<u8>) -> (r: Result<(), IMError>)
        requires
            old(self).wf(),
            old(self).spec_buffered().len() + data@.len() <= crate::buffer::BUFFER_MAX_LEN,
        ensures
            final(self).wf(),
            final(self).spec_closed() == old(self).spec_closed(),
            final(self).spec_last_read_time() == old(self).spec_last_read_time(),
            final(self).spec_last_write_time() == old(self).spec_last_write_time(),
            data@.len() == 0 ==> r == Err::<(), IMError>(IMError::TcpStreamEOF) && final(self).spec_buffered() == old(self).spec_buffered(),
            data@.len() > 0 ==> r == Ok::<(), IMError>(()) && final(self).spec_buffered() == old(
                self,
            ).spec_buffered() + data@,
    {
        self.buffer.feed(data)
    }

    /// One decode attempt at time `now_ms`: either a whole message (which
    /// stamps the read-activity time), a request for more bytes (buffer
    /// untouched), or a fatal protocol failure.
    pub fn read_step(&mut self, now_ms: u64) -> (r: ReadStep)
        requires
            old(self).wf(),
        ensures
            final(self).wf(),
            final(self).spec_closed() == old(self).spec_closed(),
            final(self).spec_last_write_time() == old(self).spec_last_write_time(),
            decode_ok(old(self).spec_buffered()) ==> (r matches ReadStep::Ready(p)
                && p.spec_code() == decoded_code(old(self).spec_buffered())
                && p.spec_content() == old(self).spec_buffered().subrange(
                HEAD_LEN as int,
                HEAD_LEN + decoded_body_len(old(self).spec_buffered()),
            ) && final(self).spec_buffered() == old(self).spec_buffered().skip(
                HEAD_LEN + decoded_body_len(old(self).spec_buffered()),
            ) && final(self).spec_last_read_time() == now_ms),
            !decode_ok(old(self).spec_buffered()) ==> final(self).spec_last_read_time() == old(
                self,
            ).spec_last_read_time() && (if decode_err(old(self).spec_buffered())
                == IMError::NotEnoughData {
                r is NeedMore && final(self).spec_buffered() == old(self).spec_buffered()
            } else {
                r == ReadStep::Failed(decode_err(old(self).spec_buffered()))
            }),
    {
        match Codec::decode(&mut self.buffer) {
            Ok(p) => {
                self.last_read_time = now_ms;
                ReadStep::Ready(p)
            },
            Err(e) => {
                if e == IMError::NotEnoughData {
                    ReadStep::NeedMore
                } else {
                    ReadStep::Failed(e)
                }
            },
        }
    }

    /// Stamps the write-activity time after the transport completed and
    /// flushed a write.
    pub fn record_write(&mut self, now_ms: u64)
        requires
            old(self).wf(),
        ensures
            final(self).wf(),
            final(self).spec_closed() == old(self).spec_closed(),
            final(self).spec_last_read_time() == old(self).spec_last_read_time(),
            final(self).spec_last_write_time() == now_ms,
            final(self).spec_buffered() == old(self).spec_buffered(),
    {
        self.last_write_time = now_ms;
    }

    /// Marks the connection closed; the transport owner also closes the
    /// socket.  Idempotent, and nothing else of the state changes.
    pub fn shutdown(&mut self)
        requires
            old(self).wf(),
        ensures
            final(self).wf(),
            final(self).spec_closed(),
            final(self).spec_last_read_time() == old(self).spec_last_read_time(),
            final(self).spec_last_write_time() == old(self).spec_last_write_time(),
            final(self).spec_buffered() == old(self).spec_buffered(),
    {
        if self.is_closed() {
            return ;
        }
        self.closed = true;
    }

    /// Marks the connection closed without any transport-side action.
    pub fn set_closed(&mut self)
        requires
            old(self).wf(),
        ensures
            final(self).wf(),
            final(self).spec_closed(),
            final(self).spec_last_read_time() == old(self).spec_last_read_time(),
            final(self).spec_last_write_time() == old(self).spec_last_write_time(),
            final(self).spec_buffered() == old(self).spec_buffered(),
    {
        self.closed = true;
    }

    pub fn is_closed(&self) -> (b: bool)
        ensures
            b == self.spec_closed(),
    {
        self.closed
    }

    pub fn get_last_read_time(&self) -> (t: u64)
        ensures
            t == self.spec_last_read_time(),
    {
        self.last_read_time
    }

    pub fn get_last_write_time(&self) -> (t: u64)
        ensures
            t == self.spec_last_write_time(),
    {
        self.last_write_time
    }
}

impl Clone for Connection {
    /// A clone observes the same liveness state but starts with a fresh
    /// empty buffer: only one logical reader per underlying stream.
    fn clone(&self) -> (c: Self)
        ensures
            c.wf(),
            c.spec_closed() == self.spec_closed(),
            c.spec_last_read_time() == self.spec_last_read_time(),
            c.spec_last_write_time() == self.spec_last_write_time(),
            c.spec_buffered() == Seq::<u8>::empty(),
    {
        Connection {
            buffer: Buffer::new(),
            closed: self.closed,
            last_read_time: self.last_read_time,
            last_write_time: self.last_write_time,
        }
    }
}

} // verus!

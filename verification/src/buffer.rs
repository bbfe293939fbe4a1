use vstd::prelude::*;

use crate::error::IMError;

verus! {

/// Fixed capacity of every buffer: one whole wire message (header plus body)
/// must fit after compaction.
pub const BUFFER_MAX_LEN: usize = 4096;

/// Fixed-capacity byte staging area of one connection.  The readable region
/// is `buf[start..end]`; bytes before `start` were already consumed and bytes
/// after `end` are free space.
pub struct Buffer {
    buf: Vec<u8>,
    start: usize,
    end: usize,
}

impl View for Buffer {
    type V = Seq<u8>;

    /// The readable bytes, in order.
    closed spec fn view(&self) -> Seq<u8> {
        self.buf@.subrange(self.start as int, self.end as int)
    }
}

impl Buffer {
    /// The cursors stay ordered and inside the fixed-size storage.
    pub closed spec fn wf(&self) -> bool {
        self.start <= self.end <= self.buf@.len() && self.buf@.len() == BUFFER_MAX_LEN
    }

    pub fn new() -> (b: Buffer)
        ensures
            b.wf(),
            b@ == Seq::<u8>::empty(),
    {
        let mut buf: Vec<u8> = Vec::new();
        while buf.len() < BUFFER_MAX_LEN
            invariant
                buf@.len() <= BUFFER_MAX_LEN,
            decreases BUFFER_MAX_LEN - buf@.len(),
        {
            buf.push(0);
        }
        let b = Buffer { buf, start: 0, end: 0 };
        assert(b@ =~= Seq::<u8>::empty());
        b
    }

    /// Number of readable bytes.
    fn len(&self) -> (n: usize)
        requires
            self.wf(),
        ensures
            n == self@.len(),
    {
        self.end - self.start
    }

    /// Free space that one fill may append after compaction.
    pub fn free_space(&self) -> (n: usize)
        requires
            self.wf(),
        ensures
            n == BUFFER_MAX_LEN - self@.len(),
    {
        BUFFER_MAX_LEN - self.len()
    }

    /// Shifts the readable region down to offset zero, reclaiming the space
    /// before it.  The readable bytes themselves do not change.
    fn grow(&mut self)
        requires
            old(self).wf(),
        ensures
            final(self).wf(),
            final(self)@ == old(self)@,
            final(self).start == 0,
            final(self).end == old(self).end - old(self).start,
    {
        if self.start == 0 {
            return ;
        }
        let count = self.end - self.start;
        let mut i: usize = 0;
        while i < count
            invariant
                old(self).wf(),
                0 < old(self).start <= old(self).end <= old(self).buf@.len(),
                count == old(self).end - old(self).start,
                i <= count,
                self.start == old(self).start,
                self.end == old(self).end,
                self.buf@.len() == old(self).buf@.len(),
                forall|k: int| 0 <= k < i ==> self.buf@[k] == old(self).buf@[old(self).start + k],
                forall|k: int|
                    old(self).start + i <= k < old(self).buf@.len() ==> self.buf@[k] == old(
                        self,
                    ).buf@[k],
            decreases count - i,
        {
            let b = self.buf[self.start + i];
            self.buf[i] = b;
            i += 1;
        }
        self.end = count;
        self.start = 0;
        assert(self@ =~= old(self)@);
    }

    /// Appends one chunk that arrived from the transport.  An empty chunk
    /// means the peer reached end of stream.
    pub fn feed(&mut self, data: &Vec<u8>) -> (r: Result<(), IMError>)
        requires
            old(self).wf(),
            old(self)@.len() + data@.len() <= BUFFER_MAX_LEN,
        ensures
            final(self).wf(),
            data@.len() == 0 ==> r == Err::<(), IMError>(IMError::TcpStreamEOF) && final(self)@
                == old(self)@,
            data@.len() > 0 ==> r == Ok::<(), IMError>(()) && final(self)@ == old(self)@ + data@,
    {
        if data.len() == 0 {
            return Err(IMError::TcpStreamEOF);
        }
        self.grow();
        let count = self.end;
        let mut j: usize = 0;
        while j < data.len()
            invariant
                data@.len() > 0,
                count + data@.len() <= BUFFER_MAX_LEN,
                j <= data@.len(),
                self.start == 0,
                self.end == count + j,
                self.buf@.len() == BUFFER_MAX_LEN,
                self.buf@.subrange(0, count as int) == old(self)@,
                forall|k: int| 0 <= k < j ==> self.buf@[count + k] == data@[k],
            decreases data@.len() - j,
        {
            let b = data[j];
            self.buf[self.end] = b;
            self.end += 1;
            j += 1;
            assert(self.buf@.subrange(0, count as int) =~= old(self)@);
        }
        assert(self@ =~= old(self)@ + data@);
        Ok(())
    }

    /// Copies `count` bytes of storage starting at absolute position `pos`.
    fn copy_out(&self, pos: usize, count: usize) -> (v: Vec<u8>)
        requires
            pos + count <= self.buf@.len(),
            self.buf@.len() <= BUFFER_MAX_LEN,
        ensures
            v@ == self.buf@.subrange(pos as int, pos + count),
    {
        let mut v: Vec<u8> = Vec::new();
        let mut i: usize = 0;
        while i < count
            invariant
                pos + count <= self.buf@.len() <= BUFFER_MAX_LEN,
                i <= count,
                v@.len() == i,
                forall|k: int| 0 <= k < i ==> v@[k] == self.buf@[pos + k],
            decreases count - i,
        {
            v.push(self.buf[pos + i]);
            i += 1;
        }
        assert(v@ =~= self.buf@.subrange(pos as int, pos + count));
        v
    }

    /// Non-consuming peek: a copy of the readable bytes at `offset` of length
    /// `limit`, or `NotEnoughData` when the range is not yet available.
    pub fn seek(&self, offset: usize, limit: usize) -> (r: Result<Vec<u8>, IMError>)
        requires
            self.wf(),
            offset + limit <= usize::MAX,
        ensures
            self@.len() < offset + limit ==> r == Err::<Vec<u8>, IMError>(IMError::NotEnoughData),
            self@.len() >= offset + limit ==> (r matches Ok(v) && v@ == self@.subrange(
                offset as int,
                offset + limit,
            )),
    {
        if self.len() < offset + limit {
            return Err(IMError::NotEnoughData);
        }
        let v = self.copy_out(self.start + offset, limit);
        assert(v@ =~= self@.subrange(offset as int, offset + limit));
        Ok(v)
    }

    /// Consuming read: like `seek`, but the `offset` skipped bytes and the
    /// `limit` returned bytes are discarded from the readable region.
    pub fn read(&mut self, offset: usize, limit: usize) -> (r: Result<Vec<u8>, IMError>)
        requires
            old(self).wf(),
            offset + limit <= usize::MAX,
        ensures
            final(self).wf(),
            old(self)@.len() < offset + limit ==> r == Err::<Vec<u8>, IMError>(
                IMError::NotEnoughData,
            ) && final(self)@ == old(self)@,
            old(self)@.len() >= offset + limit ==> (r matches Ok(v) && v@ == old(self)@.subrange(
                offset as int,
                offset + limit,
            ) && final(self)@ == old(self)@.skip(offset + limit)),
    {
        if self.len() < offset + limit {
            return Err(IMError::NotEnoughData);
        }
        let v = self.copy_out(self.start + offset, limit);
        assert(v@ =~= old(self)@.subrange(offset as int, offset + limit));
        self.start = self.start + offset + limit;
        assert(self@ =~= old(self)@.skip(offset + limit));
        Ok(v)
    }
}

} // verus!

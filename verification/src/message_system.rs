use vstd::prelude::*;

verus! {

/// First message id the allocator hands out.
pub const FIRST_MESSAGE_ID: u64 = 10000;

/// Allocator of message ids: a monotonic counter starting at a reserved
/// floor, so that every routed message gets a fresh id.
pub struct MessageSystem {
    last_message_id: u64,
}

impl MessageSystem {
    /// The id the next call of `next_seq` will return.
    pub closed spec fn spec_next_id(&self) -> u64 {
        self.last_message_id
    }

    pub fn new() -> (m: MessageSystem)
        ensures
            m.spec_next_id() == FIRST_MESSAGE_ID,
    {
        MessageSystem { last_message_id: FIRST_MESSAGE_ID }
    }

    /// The id the next call of `next_seq` will return, without advancing.
    pub fn peek_next_seq(&self) -> (id: u64)
        ensures
            id == self.spec_next_id(),
    {
        self.last_message_id
    }

    /// Hands out the current id and advances the counter, so that two calls
    /// never return the same id.
    pub fn next_seq(&mut self) -> (id: u64)
        requires
            old(self).spec_next_id() < u64::MAX,
        ensures
            id == old(self).spec_next_id(),
            final(self).spec_next_id() == old(self).spec_next_id() + 1,
    {
        let id = self.last_message_id;
        self.last_message_id = self.last_message_id + 1;
        id
    }
}

} // verus!

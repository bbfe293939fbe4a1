use vstd::prelude::*;

verus! {

/// Action code of a connection acknowledgment (server to client).
pub const ACTION_CONNECTED: u16 = 1;

/// Action code of a heartbeat in either direction.
pub const ACTION_HEARTBEAT: u16 = 2;

/// Action code of a user-to-user message in either direction.
pub const ACTION_MSG_TO_USER: u16 = 3;

/// Holds exactly of the action codes that the protocol defines.
pub open spec fn is_known_action(code: u16) -> bool {
    code == ACTION_CONNECTED || code == ACTION_HEARTBEAT || code == ACTION_MSG_TO_USER
}

/// One protocol-level unit of communication: an action code plus an opaque
/// byte body.  A package is transient: it is built per send or receive and
/// never persisted.
pub struct Package {
    code: u16,
    content: Vec<u8>,
    already: bool,
}

impl Package {
    /// The action code of this package.
    pub closed spec fn spec_code(&self) -> u16 {
        self.code
    }

    /// The body bytes of this package.
    pub closed spec fn spec_content(&self) -> Seq<u8> {
        self.content@
    }

    /// Whether this package carries a decoded or constructed message, as
    /// opposed to being the empty placeholder.
    pub closed spec fn spec_ready(&self) -> bool {
        self.already
    }

    pub fn new(code: u16, content: Vec<u8>) -> (p: Package)
        ensures
            p.spec_code() == code,
            p.spec_content() == content@,
            p.spec_ready(),
    {
        Package { code, content, already: true }
    }

    pub fn empty() -> (p: Package)
        ensures
            p.spec_code() == 0,
            p.spec_content() == Seq::<u8>::empty(),
            !p.spec_ready(),
    {
        Package { code: 0, content: Vec::new(), already: false }
    }

    pub fn get_code(&self) -> (c: u16)
        ensures
            c == self.spec_code(),
    {
        self.code
    }

    pub fn get_content(&self) -> (c: &Vec<u8>)
        ensures
            c@ == self.spec_content(),
    {
        &self.content
    }

    pub fn ready(&self) -> (b: bool)
        ensures
            b == self.spec_ready(),
    {
        self.already
    }

    /// The body length, truncated to the width the wire header uses.
    pub fn len(&self) -> (n: u16)
        ensures
            n == self.spec_content().len() % 0x10000,
    {
        (self.content.len() % 0x10000) as u16
    }
}

} // verus!

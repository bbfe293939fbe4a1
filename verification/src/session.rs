use vstd::prelude::*;

use crate::connection::Connection;

verus! {

/// Length of a session token: a hyphenated random identifier of 32 hex
/// digits and 4 hyphens.
pub const SESSION_TOKEN_LEN: usize = 36;

/// First uid the registry hands out.
pub const FIRST_UID: u64 = 1;

/// Relies on `uuid::Uuid::new_v4` and its `Display` impl: a fresh random
/// version-4 identifier rendered in the hyphenated lowercase form, which is
/// always 36 characters.  The value itself is random, so nothing more is
/// promised of it.
#[verifier::external_body]
fn new_session_token() -> (r: String)
    ensures
        r@.len() == SESSION_TOKEN_LEN,
{
    uuid::Uuid::new_v4().to_string()
}

/// The server's record binding a numeric user id and an opaque token to a
/// live connection, created when a socket is accepted.
pub struct Session {
    session_id: String,
    uid: u64,
    connection: Connection,
}

impl Session {
    /// The numeric user id of this session.
    pub closed spec fn spec_uid(&self) -> u64 {
        self.uid
    }

    /// The opaque token generated when the session was created.
    pub closed spec fn spec_session_id(&self) -> Seq<char> {
        self.session_id@
    }

    /// The connection handle the session owns.
    pub closed spec fn spec_connection(&self) -> Connection {
        self.connection
    }

    pub closed spec fn wf(&self) -> bool {
        self.connection.wf() && self.session_id@.len() == SESSION_TOKEN_LEN
    }

    /// Builds a session over the given connection, with a freshly generated
    /// opaque token.
    pub fn new(uid: u64, connection: Connection) -> (s: Session)
        requires
            connection.wf(),
        ensures
            s.wf(),
            s.spec_uid() == uid,
            s.spec_connection() == connection,
            s.spec_session_id().len() == SESSION_TOKEN_LEN,
    {
        let token = new_session_token();
        Session { session_id: token, uid, connection }
    }

    pub fn get_session_id(&self) -> (id: String)
        ensures
            id@ == self.spec_session_id(),
    {
        self.session_id.clone()
    }

    pub fn get_uid(&self) -> (uid: u64)
        ensures
            uid == self.spec_uid(),
    {
        self.uid
    }

    pub fn borrow_connection(&mut self) -> (c: &mut Connection)
        ensures
            *c == old(self).spec_connection(),
            final(self).spec_connection() == *final(c),
            final(self).spec_uid() == old(self).spec_uid(),
            final(self).spec_session_id() == old(self).spec_session_id(),
    {
        &mut self.connection
    }
}

impl Clone for Session {
    /// A copy of the record: same uid and token; the connection handle is
    /// cloned as connections are (same liveness state, fresh buffer).
    fn clone(&self) -> (s: Self)
        ensures
            s.spec_uid() == self.spec_uid(),
            s.spec_session_id() == self.spec_session_id(),
            s.spec_connection().spec_closed() == self.spec_connection().spec_closed(),
            s.spec_connection().spec_last_read_time()
                == self.spec_connection().spec_last_read_time(),
            s.spec_connection().spec_last_write_time()
                == self.spec_connection().spec_last_write_time(),
            s.spec_connection().spec_buffered() == Seq::<u8>::empty(),
            self.wf() ==> s.wf(),
    {
        Session {
            session_id: self.session_id.clone(),
            uid: self.uid,
            connection: self.connection.clone(),
        }
    }
}

/// Registry of the live sessions plus the uid allocator.  Lookups are
/// linear: the registry's cardinality is low, and every operation runs
/// under the owner's single critical section.
pub struct SessionManager {
    last_uid: u64,
    sessions: Vec<Session>,
}

impl SessionManager {
    /// The uid the next accepted connection will get.
    pub closed spec fn spec_last_uid(&self) -> u64 {
        self.last_uid
    }

    /// The live sessions, oldest first.
    pub closed spec fn spec_sessions(&self) -> Seq<Session> {
        self.sessions@
    }

    /// The uids of the live sessions, oldest first.
    pub open spec fn spec_uids(&self) -> Seq<u64> {
        self.spec_sessions().map_values(|s: Session| s.spec_uid())
    }

    /// Whether some live session carries `uid`.
    pub open spec fn spec_has_uid(&self, uid: u64) -> bool {
        self.spec_uids().contains(uid)
    }

    /// The position of the (unique) live session carrying `uid`.
    pub open spec fn spec_index_of(&self, uid: u64) -> int {
        choose|i: int|
            0 <= i < self.spec_sessions().len() && self.spec_sessions()[i].spec_uid() == uid
    }

    /// Every stored uid was handed out before `last_uid`, so uids never
    /// collide: at most one live session per uid.
    pub closed spec fn wf(&self) -> bool {
        &&& forall|i: int|
            0 <= i < self.sessions@.len() ==> (#[trigger] self.sessions@[i]).spec_uid()
                < self.last_uid && self.sessions@[i].wf()
        &&& forall|i: int, j: int|
            0 <= i < j < self.sessions@.len() ==> (#[trigger] self.sessions@[i]).spec_uid() != (
            #[trigger] self.sessions@[j]).spec_uid()
    }

    pub fn new() -> (m: SessionManager)
        ensures
            m.wf(),
            m.spec_last_uid() == FIRST_UID,
            m.spec_sessions().len() == 0,
    {
        SessionManager { last_uid: FIRST_UID, sessions: Vec::new() }
    }

    /// The uid the next accepted connection will get, without allocating.
    pub fn get_last_uid(&self) -> (uid: u64)
        ensures
            uid == self.spec_last_uid(),
    {
        self.last_uid
    }

    /// Allocates the next uid, builds a session with a fresh token over the
    /// given connection, stores it, and returns a copy of the record.
    pub fn new_session(&mut self, connection: Connection) -> (s: Session)
        requires
            old(self).wf(),
            connection.wf(),
            old(self).spec_last_uid() < u64::MAX,
        ensures
            final(self).wf(),
            s.spec_uid() == old(self).spec_last_uid(),
            final(self).spec_last_uid() == old(self).spec_last_uid() + 1,
            final(self).spec_sessions().len() == old(self).spec_sessions().len() + 1,
            final(self).spec_sessions().drop_last() == old(self).spec_sessions(),
            final(self).spec_sessions().last().spec_uid() == s.spec_uid(),
            final(self).spec_sessions().last().spec_session_id() == s.spec_session_id(),
            final(self).spec_uids() == old(self).spec_uids().push(s.spec_uid()),
            final(self).spec_has_uid(s.spec_uid()),
    {
        let uid = self.last_uid;
        self.last_uid = self.last_uid + 1;
        let session = Session::new(uid, connection);
        let copy = session.clone();
        self.sessions.push(session);
        proof {
            assert(self.sessions@.drop_last() =~= old(self).sessions@);
            assert(self.spec_uids() =~= old(self).spec_uids().push(uid));
            assert(self.spec_uids().last() == uid);
        }
        copy
    }

    /// Linearizable lookup: a copy of the live session carrying `uid`, or
    /// nothing when no such session is live.
    pub fn load(&self, uid: u64) -> (r: Option<Session>)
        requires
            self.wf(),
        ensures
            r is Some <==> self.spec_has_uid(uid),
            r matches Some(s) ==> s.spec_uid() == uid && s.spec_session_id()
                == self.spec_sessions().index(self.spec_index_of(uid)).spec_session_id(),
    {
        let mut i: usize = 0;
        while i < self.sessions.len()
            invariant
                self.wf(),
                i <= self.sessions@.len(),
                forall|k: int| 0 <= k < i ==> (#[trigger] self.sessions@[k]).spec_uid() != uid,
            decreases self.sessions@.len() - i,
        {
            if self.sessions[i].get_uid() == uid {
                let found = self.sessions[i].clone();
                proof {
                    assert(self.spec_uids()[i as int] == uid);
                    assert(self.spec_has_uid(uid));
                    let j = self.spec_index_of(uid);
                    assert(self.spec_sessions()[j].spec_uid() == uid);
                    assert(j == i as int);
                }
                return Some(found);
            }
            i += 1;
        }
        proof {
            if self.spec_has_uid(uid) {
                let k = choose|k: int| 0 <= k < self.spec_uids().len() && self.spec_uids()[k] == uid;
                assert(self.sessions@[k].spec_uid() == uid);
            }
        }
        None
    }

    /// Whether a live session carries `uid`.
    pub fn exist(&self, uid: u64) -> (b: bool)
        requires
            self.wf(),
        ensures
            b == self.spec_has_uid(uid),
    {
        let r = self.load(uid);
        r.is_some()
    }

    /// Linearizable removal: takes the live session carrying `uid` out of
    /// the registry and returns it; removing an absent uid yields nothing
    /// and changes nothing, so removing twice is harmless.
    pub fn remove(&mut self, uid: u64) -> (r: Option<Session>)
        requires
            old(self).wf(),
        ensures
            final(self).wf(),
            final(self).spec_last_uid() == old(self).spec_last_uid(),
            r is Some <==> old(self).spec_has_uid(uid),
            !old(self).spec_has_uid(uid) ==> final(self).spec_sessions() == old(
                self,
            ).spec_sessions(),
            old(self).spec_has_uid(uid) ==> (r matches Some(s) && s.spec_uid() == uid && final(self).spec_sessions() == old(self).spec_sessions().remove(old(self).spec_index_of(uid))),
            !final(self).spec_has_uid(uid),
    {
        let ghost pre = *old(self);
        let mut i: usize = 0;
        while i < self.sessions.len()
            invariant
                pre == *old(self),
                *self == pre,
                pre.wf(),
                i <= self.sessions@.len(),
                forall|k: int| 0 <= k < i ==> (#[trigger] self.sessions@[k]).spec_uid() != uid,
            decreases self.sessions@.len() - i,
        {
            if self.sessions[i].get_uid() == uid {
                let taken = self.sessions.remove(i);
                proof {
                    assert(pre.spec_uids()[i as int] == uid);
                    assert(pre.spec_has_uid(uid));
                    let j = pre.spec_index_of(uid);
                    assert(pre.spec_sessions()[j].spec_uid() == uid);
                    assert(j == i as int);
                    assert forall|k: int|
                        0 <= k < self.spec_uids().len() implies self.spec_uids()[k] != uid by {
                        if k < i as int {
                            assert(self.sessions@[k] == pre.sessions@[k]);
                        } else {
                            assert(self.sessions@[k] == pre.sessions@[k + 1]);
                        }
                    }
                }
                return Some(taken);
            }
            i += 1;
        }
        proof {
            if pre.spec_has_uid(uid) {
                let k = choose|k: int| 0 <= k < pre.spec_uids().len() && pre.spec_uids()[k] == uid;
                assert(pre.sessions@[k].spec_uid() == uid);
            }
        }
        None
    }

    /// Law: the registry never holds two sessions with the same uid, so
    /// every accepted connection can be addressed unambiguously.
    pub proof fn lemma_uids_unique(&self, i: int, j: int)
        requires
            self.wf(),
            0 <= i < j < self.spec_sessions().len(),
        ensures
            self.spec_uids()[i] != self.spec_uids()[j],
    {
    }

    /// The uids of all live sessions, oldest first.
    pub fn online_users(&self) -> (uids: Vec<u64>)
        requires
            self.wf(),
        ensures
            uids@ == self.spec_uids(),
    {
        let mut uids: Vec<u64> = Vec::new();
        let mut i: usize = 0;
        while i < self.sessions.len()
            invariant
                i <= self.sessions@.len(),
                uids@ == self.spec_uids().take(i as int),
            decreases self.sessions@.len() - i,
        {
            uids.push(self.sessions[i].get_uid());
            proof {
                assert(uids@ =~= self.spec_uids().take(i + 1));
            }
            i += 1;
        }
        proof {
            assert(uids@ =~= self.spec_uids());
        }
        uids
    }
}

} // verus!

//! In-memory model of the session store: opaque handle to a typed,
//! TTL-bearing payload. The provider keeps exactly two payload shapes in it:
//! the PEM private key of an ephemeral key exchange, and the user id of a
//! login session. An expired entry is treated as absent by every reader,
//! whether or not it has been purged.

use vstd::prelude::*;

use crate::error::ServiceError;

verus! {

/// The two payload shapes the provider stores under an opaque handle.
pub enum SessionPayload {
    /// The PEM-encoded RSA private key of one key-exchange handshake.
    RsaPrivateKey(String),
    /// The id of the logged-in user.
    LoginUser(i32),
}

/// One stored session. `expires_at` is unix seconds; the entry counts as
/// absent once `now > expires_at`.
pub struct SessionEntry {
    pub handle: String,
    pub payload: SessionPayload,
    pub expires_at: i64,
}

/// The session store: a handle-keyed table with unique handles.
pub struct SessionStore {
    pub entries: Vec<SessionEntry>,
}

pub open spec fn spec_find_session(s: Seq<SessionEntry>, handle: Seq<char>) -> Option<SessionEntry>
    decreases s.len(),
{
    if s.len() == 0 {
        None
    } else if s[0].handle@ == handle {
        Some(s[0])
    } else {
        spec_find_session(s.drop_first(), handle)
    }
}

/// What a reader observes under `handle` at time `now`: the entry, unless it
/// is missing or past its expiry.
pub open spec fn spec_load_session(s: Seq<SessionEntry>, handle: Seq<char>, now: i64) -> Option<
    SessionEntry,
> {
    match spec_find_session(s, handle) {
        Some(e) => if now <= e.expires_at {
            Some(e)
        } else {
            None
        },
        None => None,
    }
}

pub open spec fn spec_session_present(s: Seq<SessionEntry>, handle: Seq<char>) -> bool {
    exists|i: int| 0 <= i < s.len() && s[i].handle@ == handle
}

impl SessionStore {
    pub open spec fn wf(self) -> bool {
        forall|i: int, j: int|
            0 <= i < j < self.entries@.len() ==> self.entries@[i].handle@
                != self.entries@[j].handle@
    }

    pub fn new() -> (r: SessionStore)
        ensures
            r.wf(),
            r.entries@ =~= Seq::<SessionEntry>::empty(),
    {
        SessionStore { entries: Vec::new() }
    }

    pub fn session_present(&self, handle: &str) -> (r: bool)
        ensures
            r == spec_session_present(self.entries@, handle@),
    {
        let n = self.entries.len();
        let mut i: usize = 0;
        while i < n
            invariant
                n == self.entries@.len(),
                0 <= i <= n,
                forall|j: int| 0 <= j < i ==> self.entries@[j].handle@ != handle@,
            decreases n - i,
        {
            if self.entries[i].handle.as_str().eq(handle) {
                return true;
            }
            i = i + 1;
        }
        false
    }

    /// Stores a payload under a fresh opaque handle. Fails exactly when the
    /// handle is already taken, which a caller drawing handles from a
    /// collision-free source treats as an infrastructure fault.
    pub fn store_session(&mut self, handle: String, payload: SessionPayload, expires_at: i64) -> (r:
        Result<(), ()>)
        requires
            old(self).wf(),
        ensures
            final(self).wf(),
            r is Ok <==> !spec_session_present(old(self).entries@, handle@),
            r is Ok ==> final(self).entries@ =~= old(self).entries@.push(
                SessionEntry { handle, payload, expires_at },
            ),
            r is Err ==> *final(self) == *old(self),
    {
        if self.session_present(handle.as_str()) {
            return Err(());
        }
        let ghost prev = *self;
        self.entries.push(SessionEntry { handle, payload, expires_at });
        Ok(())
    }

    /// Loads the entry under `handle`, treating an expired entry as absent.
    pub fn load_session(&self, handle: &str, now: i64) -> (r: Option<&SessionEntry>)
        ensures
            match r {
                Some(e) => spec_load_session(self.entries@, handle@, now) == Some(*e),
                None => spec_load_session(self.entries@, handle@, now) is None,
            },
    {
        let n = self.entries.len();
        let mut i: usize = 0;
        proof {
            assert(self.entries@.skip(0) =~= self.entries@);
        }
        while i < n
            invariant
                n == self.entries@.len(),
                0 <= i <= n,
                spec_find_session(self.entries@, handle@) == spec_find_session(
                    self.entries@.skip(i as int),
                    handle@,
                ),
            decreases n - i,
        {
            let e = &self.entries[i];
            proof {
                assert(self.entries@.skip(i as int)[0] == self.entries@[i as int]);
                assert(self.entries@.skip(i as int).drop_first() =~= self.entries@.skip(
                    i as int + 1,
                ));
            }
            if e.handle.as_str().eq(handle) {
                if now <= e.expires_at {
                    return Some(e);
                } else {
                    return None;
                }
            }
            i = i + 1;
        }
        proof {
            assert(self.entries@.skip(n as int) =~= Seq::<SessionEntry>::empty());
        }
        None
    }

    fn find_session_index(&self, handle: &str) -> (r: Option<usize>)
        ensures
            match r {
                Some(i) => 0 <= i < self.entries@.len() && self.entries@[i as int].handle@
                    == handle@ && forall|j: int| 0 <= j < i ==> self.entries@[j].handle@ != handle@,
                None => !spec_session_present(self.entries@, handle@),
            },
    {
        let n = self.entries.len();
        let mut i: usize = 0;
        while i < n
            invariant
                n == self.entries@.len(),
                0 <= i <= n,
                forall|j: int| 0 <= j < i ==> self.entries@[j].handle@ != handle@,
            decreases n - i,
        {
            if self.entries[i].handle.as_str().eq(handle) {
                return Some(i);
            }
            i = i + 1;
        }
        None
    }

    /// Destroys the session under `handle`, if any.
    pub fn destroy_session(&mut self, handle: &str) -> (r: bool)
        requires
            old(self).wf(),
        ensures
            final(self).wf(),
            r == spec_session_present(old(self).entries@, handle@),
            !spec_session_present(final(self).entries@, handle@),
            !r ==> final(self).entries@ =~= old(self).entries@,
            r ==> exists|i: int|
                0 <= i < old(self).entries@.len() && old(self).entries@[i].handle@ == handle@
                    && final(self).entries@ =~= old(self).entries@.remove(i),
    {
        match self.find_session_index(handle) {
            None => false,
            Some(i) => {
                let ghost prev = *self;
                self.entries.remove(i);
                proof {
                    assert forall|k: int| 0 <= k < self.entries@.len() implies self.entries@[
                        k
                    ].handle@ != handle@ by {
                        if k < i {
                            assert(self.entries@[k] == prev.entries@[k]);
                        } else {
                            assert(self.entries@[k] == prev.entries@[k + 1]);
                            assert(prev.entries@[i as int].handle@ == handle@);
                        }
                    }
                    assert forall|a: int, b: int|
                        0 <= a < b < self.entries@.len() implies self.entries@[a].handle@
                        != self.entries@[b].handle@ by {
                        let a0 = if a < i { a } else { a + 1 };
                        let b0 = if b < i { b } else { b + 1 };
                        assert(self.entries@[a] == prev.entries@[a0]);
                        assert(self.entries@[b] == prev.entries@[b0]);
                    }
                }
                true
            },
        }
    }
}

/// The identity a request derives from its session cookie.
pub struct UserIdFromSession {
    pub user_id: i32,
}

/// What `extract_private_key` must return for a given store state.
pub open spec fn spec_extract_private_key(
    s: Seq<SessionEntry>,
    handle: Seq<char>,
    now: i64,
) -> Result<Seq<char>, ServiceError> {
    match spec_load_session(s, handle, now) {
        Some(e) => match e.payload {
            SessionPayload::RsaPrivateKey(k) => Ok(k@),
            SessionPayload::LoginUser(_) => Err(ServiceError::InvalidRsaToken),
        },
        None => Err(ServiceError::InvalidRsaToken),
    }
}

/// Loads the ephemeral private key stored by a key exchange. A missing,
/// expired, or differently-shaped entry fails with `InvalidRsaToken`.
pub fn extract_private_key(store: &SessionStore, rsa_token: &str, now: i64) -> (r: Result<
    String,
    ServiceError,
>)
    ensures
        match r {
            Ok(k) => spec_extract_private_key(store.entries@, rsa_token@, now) == Ok::<
                Seq<char>,
                ServiceError,
            >(k@),
            Err(e) => spec_extract_private_key(store.entries@, rsa_token@, now) == Err::<
                Seq<char>,
                ServiceError,
            >(e) && e == ServiceError::InvalidRsaToken,
        },
{
    match store.load_session(rsa_token, now) {
        None => Err(ServiceError::InvalidRsaToken),
        Some(e) => match &e.payload {
            SessionPayload::RsaPrivateKey(k) => Ok(k.clone()),
            SessionPayload::LoginUser(_) => Err(ServiceError::InvalidRsaToken),
        },
    }
}

/// What `user_id_from_session` must return for a given store state.
pub open spec fn spec_user_id_from_session(
    s: Seq<SessionEntry>,
    handle: Seq<char>,
    now: i64,
) -> Result<i32, ServiceError> {
    match spec_load_session(s, handle, now) {
        Some(e) => match e.payload {
            SessionPayload::LoginUser(id) => Ok(id),
            SessionPayload::RsaPrivateKey(_) => Err(ServiceError::LoginRequired),
        },
        None => Err(ServiceError::LoginRequired),
    }
}

/// Resolves the session cookie of a request to the logged-in user. A
/// missing, expired, or differently-shaped entry fails with `LoginRequired`.
pub fn user_id_from_session(store: &SessionStore, handle: &str, now: i64) -> (r: Result<
    UserIdFromSession,
    ServiceError,
>)
    ensures
        match r {
            Ok(u) => spec_user_id_from_session(store.entries@, handle@, now) == Ok::<
                i32,
                ServiceError,
            >(u.user_id),
            Err(e) => spec_user_id_from_session(store.entries@, handle@, now) == Err::<
                i32,
                ServiceError,
            >(e) && e == ServiceError::LoginRequired,
        },
{
    match store.load_session(handle, now) {
        None => Err(ServiceError::LoginRequired),
        Some(e) => match &e.payload {
            SessionPayload::LoginUser(id) => Ok(UserIdFromSession { user_id: *id }),
            SessionPayload::RsaPrivateKey(_) => Err(ServiceError::LoginRequired),
        },
    }
}

/// A first-match session scan succeeds exactly when the handle is present.
pub proof fn lemma_session_present_find(s: Seq<SessionEntry>, handle: Seq<char>)
    ensures
        (spec_find_session(s, handle) is Some) <==> spec_session_present(s, handle),
    decreases s.len(),
{
    if s.len() > 0 {
        if s[0].handle@ == handle {
        } else {
            lemma_session_present_find(s.drop_first(), handle);
            if spec_find_session(s.drop_first(), handle) is Some {
                let i = choose|i: int|
                    0 <= i < s.drop_first().len() && s.drop_first()[i].handle@ == handle;
                assert(s[i + 1].handle@ == handle);
            } else {
                if spec_session_present(s, handle) {
                    let i = choose|i: int| 0 <= i < s.len() && s[i].handle@ == handle;
                    assert(s.drop_first()[i - 1].handle@ == handle);
                }
            }
        }
    }
}

/// A missing or expired key-exchange handle is always rejected with
/// `InvalidRsaToken`: whatever else a decrypt request carries, loading the
/// private key fails with exactly that error.
pub proof fn lemma_absent_handle_rejected(s: Seq<SessionEntry>, handle: Seq<char>, now: i64)
    requires
        spec_load_session(s, handle, now) is None,
    ensures
        spec_extract_private_key(s, handle, now) == Err::<Seq<char>, ServiceError>(
            ServiceError::InvalidRsaToken,
        ),
{
}

/// A handle whose entry is past its expiry is rejected exactly like an
/// unknown one: loading the private key fails with `InvalidRsaToken`.
pub proof fn lemma_expired_handle_rejected(s: Seq<SessionEntry>, handle: Seq<char>, now: i64)
    requires
        spec_find_session(s, handle) matches Some(e) && now > e.expires_at,
    ensures
        spec_extract_private_key(s, handle, now) == Err::<Seq<char>, ServiceError>(
            ServiceError::InvalidRsaToken,
        ),
{
}

} // verus!

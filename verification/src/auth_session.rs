//! The session of one request: who the visitor is, and under which session
//! id the answer to the request is kept.
//!
//! A request is either anonymous or authenticated. Signing in binds a new
//! session id to the identity; signing out deletes the session. A session
//! stays readable for `IDLE_TIMEOUT_SECONDS` after its last authenticated
//! request.

use vstd::prelude::*;
use crate::backend::Backend;
use crate::backend::User;
use crate::backend::UserView;
use crate::backend::identity_of;
use crate::cookie::decode_session_id;
use crate::cookie::encode_session_id;
use crate::cookie::parsed_session_id;
use crate::cookie::session_id_text;
use crate::messages::PageMessageView;
use crate::messages::PageMessages;
use crate::random::random_bytes;
use crate::session_store::DatabaseSessionStore;
use crate::session_store::SessionData;
use crate::session_store::SessionDataView;
use crate::session_store::SessionRecord;
use crate::session_store::SessionRecordView;
use crate::session_store::deleted;
use crate::session_store::loaded;
use crate::session_store::saved;
use crate::session_store::sessions_consistent;
use crate::users::StoreError;
use crate::users::UserRecordView;
use crate::users::users_consistent;

verus! {

/// How long a session stays readable after its last authenticated request:
/// thirty minutes.
pub const IDLE_TIMEOUT_SECONDS: i64 = 1800;

/// The latest second that `i64` can hold.
pub const LAST_SECOND: i64 = 9223372036854775807;

/// The expiry of a session that is used at `now`: `IDLE_TIMEOUT_SECONDS`
/// later, or the last second that can be represented.
pub open spec fn expiry_after(now: int) -> int {
    if now + IDLE_TIMEOUT_SECONDS > LAST_SECOND {
        LAST_SECOND as int
    } else {
        now + IDLE_TIMEOUT_SECONDS
    }
}

/// Computes `expiry_after`.
pub fn expiry_from(now: i64) -> (expiry: i64)
    ensures
        expiry == expiry_after(now as int),
{
    if now > LAST_SECOND - IDLE_TIMEOUT_SECONDS {
        LAST_SECOND
    } else {
        now + IDLE_TIMEOUT_SECONDS
    }
}

/// Compares two byte strings without stopping at the first difference, so
/// that the time taken tells nothing of where they differ.
pub fn same_bytes(a: &[u8], b: &[u8]) -> (r: bool)
    ensures
        r == (a@ == b@),
{
    if a.len() != b.len() {
        return false;
    }
    let mut diff: u8 = 0;
    let mut i: usize = 0;
    assert(a@.subrange(0, 0) =~= b@.subrange(0, 0));
    while i < a.len()
        invariant
            i <= a@.len(),
            a@.len() == b@.len(),
            diff == 0 <==> a@.subrange(0, i as int) == b@.subrange(0, i as int),
        decreases a@.len() - i,
    {
        let x = a[i];
        let y = b[i];
        let ghost before = diff;
        diff = diff | (x ^ y);
        proof {
            assert((before | (x ^ y)) == 0 <==> before == 0 && x == y) by (bit_vector);
            let a0 = a@.subrange(0, i as int);
            let b0 = b@.subrange(0, i as int);
            let a1 = a@.subrange(0, i + 1);
            let b1 = b@.subrange(0, i + 1);
            assert(a1 =~= a0.push(x));
            assert(b1 =~= b0.push(y));
            if a1 == b1 {
                assert(a1.drop_last() =~= a0);
                assert(b1.drop_last() =~= b0);
                assert(a1.last() == x && b1.last() == y);
            }
        }
        i += 1;
    }
    proof {
        assert(a@.subrange(0, a@.len() as int) =~= a@);
        assert(b@.subrange(0, b@.len() as int) =~= b@);
    }
    diff == 0
}

/// The identity that a session is bound to still stands when the account
/// is stored and its password hash is the one the session was bound to.
pub open spec fn binding_valid(users: Map<int, UserRecordView>, bound: UserView) -> bool {
    users.dom().contains(bound.id) && identity_of(users[bound.id]).pw_hash == bound.pw_hash
}

/// Tells whether the identity found for a session's user id is the one the
/// session was bound to.
pub fn session_verified(bound: &User, current: &Option<User>) -> (r: bool)
    ensures
        r == (current matches Some(user) && user@.pw_hash == bound@.pw_hash),
{
    match current {
        Some(user) => same_bytes(bound.session_auth_hash(), user.session_auth_hash()),
        None => false,
    }
}

/// The record that a request's cookie leads to at `now`, if it leads to
/// one.
pub open spec fn cookie_record(
    sessions: Map<int, SessionRecordView>,
    cookie: Option<int>,
    now: int,
) -> Option<SessionRecordView> {
    match cookie {
        Some(id) => loaded(sessions, id, now),
        None => None,
    }
}

/// The identity of a request that carries `cookie` at `now`: the one its
/// session is bound to, as long as the session can be read and the binding
/// still stands. Every other request is anonymous.
pub open spec fn resolved_user(
    sessions: Map<int, SessionRecordView>,
    users: Map<int, UserRecordView>,
    cookie: Option<int>,
    now: int,
) -> Option<UserView> {
    match cookie_record(sessions, cookie, now) {
        Some(record) => match record.data.user {
            Some(bound) => if binding_valid(users, bound) {
                Some(identity_of(users[bound.id]))
            } else {
                None
            },
            None => None,
        },
        None => None,
    }
}

/// The session id that stays with a request after it is resolved: the
/// cookie's, unless the cookie leads to no readable session or to one
/// whose binding no longer stands.
pub open spec fn resolved_session_id(
    sessions: Map<int, SessionRecordView>,
    users: Map<int, UserRecordView>,
    cookie: Option<int>,
    now: int,
) -> Option<int> {
    match cookie_record(sessions, cookie, now) {
        Some(record) => match record.data.user {
            Some(bound) => if binding_valid(users, bound) {
                cookie
            } else {
                None
            },
            None => cookie,
        },
        None => None,
    }
}

/// A record with its expiry moved to `expiry`, unless its own is later.
pub open spec fn extended(record: SessionRecordView, expiry: int) -> SessionRecordView {
    SessionRecordView {
        id: record.id,
        data: record.data,
        expiry: if record.expiry < expiry {
            expiry
        } else {
            record.expiry
        },
    }
}

/// The session table after a request is resolved: an authenticated
/// session has its expiry extended, a session whose binding no longer
/// stands is deleted, and everything else is as it was.
pub open spec fn resolved_sessions(
    sessions: Map<int, SessionRecordView>,
    users: Map<int, UserRecordView>,
    cookie: Option<int>,
    now: int,
) -> Map<int, SessionRecordView> {
    match cookie_record(sessions, cookie, now) {
        Some(record) => match record.data.user {
            Some(bound) => if binding_valid(users, bound) {
                saved(sessions, extended(record, expiry_after(now)))
            } else {
                deleted(sessions, cookie->Some_0)
            },
            None => sessions,
        },
        None => sessions,
    }
}

/// The state of one request.
pub struct AuthSession {
    /// The visitor's identity; `None` for an anonymous request.
    pub user: Option<User>,
    /// The session id that the response's cookie carries; `None` when the
    /// response carries no session.
    pub session_id: Option<u128>,
}

/// The mathematical value of a request's state.
pub struct AuthSessionView {
    pub user: Option<UserView>,
    pub session_id: Option<int>,
}

impl View for AuthSession {
    type V = AuthSessionView;

    open spec fn view(&self) -> AuthSessionView {
        AuthSessionView {
            user: match self.user {
                Some(user) => Some(user@),
                None => None,
            },
            session_id: match self.session_id {
                Some(id) => Some(id as int),
                None => None,
            },
        }
    }
}

/// A cookie's session id as a number.
pub open spec fn cookie_view(cookie: Option<u128>) -> Option<int> {
    match cookie {
        Some(id) => Some(id as int),
        None => None,
    }
}

impl AuthSession {
    /// The state of a request that carries no session.
    pub fn anonymous() -> (session: AuthSession)
        ensures
            session@ == (AuthSessionView { user: None, session_id: None }),
    {
        AuthSession { user: None, session_id: None }
    }

    /// Tells whether the request is authenticated.
    pub fn is_authenticated(&self) -> (r: bool)
        ensures
            r == (self@.user is Some),
    {
        self.user.is_some()
    }

    /// Resolves a request from the session id in its cookie.
    ///
    /// The request is authenticated when the cookie leads to a session that
    /// can be read at `now`, the session is bound to an identity, and the
    /// account's password hash is still the one the session was bound to;
    /// its session then stays readable for another idle period. A session
    /// whose binding no longer stands is deleted. A missing cookie, and one
    /// that leads to no readable session, give an anonymous request.
    pub fn from_session(
        store: &mut DatabaseSessionStore,
        backend: &Backend,
        cookie: Option<u128>,
        now: i64,
    ) -> (session: AuthSession)
        requires
            old(store).wf(),
            backend.db.wf(),
        ensures
            final(store).wf(),
            session@.user == resolved_user(old(store)@, backend.db@, cookie_view(cookie), now as int),
            session@.session_id == resolved_session_id(
                old(store)@,
                backend.db@,
                cookie_view(cookie),
                now as int,
            ),
            final(store)@ == resolved_sessions(
                old(store)@,
                backend.db@,
                cookie_view(cookie),
                now as int,
            ),
    {
        let id = match cookie {
            Some(id) => id,
            None => return AuthSession::anonymous(),
        };
        let record = match store.load(&id, now) {
            Some(record) => record,
            None => return AuthSession::anonymous(),
        };
        let bound = match &record.data.user {
            Some(bound) => bound,
            None => return AuthSession { user: None, session_id: Some(id) },
        };
        let current = match backend.get_user(&bound.id()) {
            Ok(current) => current,
            Err(_) => None,
        };
        if session_verified(bound, &current) {
            let expiry = expiry_from(now);
            let refreshed = SessionRecord {
                id: record.id,
                data: record.data,
                expiry: if record.expiry < expiry {
                    expiry
                } else {
                    record.expiry
                },
            };
            let _ = store.save(refreshed);
            AuthSession { user: current, session_id: Some(id) }
        } else {
            let _ = store.delete(&id);
            AuthSession::anonymous()
        }
    }
}

/// The session id that the text of a cookie names, if the request has a
/// cookie and its text names one.
pub open spec fn cookie_id(cookie: Option<&str>) -> Option<int> {
    match cookie {
        Some(text) => match parsed_session_id(text@) {
            Some(id) => Some(id as int),
            None => None,
        },
        None => None,
    }
}

impl AuthSession {
    /// Resolves a request from the text of its session cookie.
    ///
    /// A text that names no session id is treated as a missing cookie: the
    /// request is anonymous and nothing changes. Otherwise the request is
    /// resolved as `from_session` resolves it for the id that the text
    /// names.
    pub fn from_cookie(
        store: &mut DatabaseSessionStore,
        backend: &Backend,
        cookie: Option<&str>,
        now: i64,
    ) -> (session: AuthSession)
        requires
            old(store).wf(),
            backend.db.wf(),
        ensures
            final(store).wf(),
            session@.user == resolved_user(old(store)@, backend.db@, cookie_id(cookie), now as int),
            session@.session_id == resolved_session_id(
                old(store)@,
                backend.db@,
                cookie_id(cookie),
                now as int,
            ),
            final(store)@ == resolved_sessions(
                old(store)@,
                backend.db@,
                cookie_id(cookie),
                now as int,
            ),
    {
        let id = match cookie {
            Some(text) => decode_session_id(text),
            None => None,
        };
        AuthSession::from_session(store, backend, id, now)
    }

    /// The text that the response's cookie carries: the text form of the
    /// session id, or none when the response carries no session.
    pub fn cookie_value(&self) -> (text: Option<String>)
        ensures
            match text {
                Some(text) => self@.session_id matches Some(id) && text@ == session_id_text(
                    id as nat,
                ),
                None => self@.session_id is None,
            },
    {
        match self.session_id {
            Some(id) => Some(encode_session_id(id)),
            None => None,
        }
    }
}

/// A cookie whose text names no session id leaves the request anonymous
/// and the sessions as they were.
pub proof fn lemma_malformed_cookie_is_anonymous(
    sessions: Map<int, SessionRecordView>,
    users: Map<int, UserRecordView>,
    text: &str,
    now: int,
)
    requires
        parsed_session_id(text@) is None,
    ensures
        resolved_user(sessions, users, cookie_id(Some(text)), now) is None,
        resolved_session_id(sessions, users, cookie_id(Some(text)), now) is None,
        resolved_sessions(sessions, users, cookie_id(Some(text)), now) == sessions,
{
}

/// Why a session could not be opened.
#[derive(Clone, Copy, Debug, PartialEq, Eq, Structural)]
pub enum SessionError {
    /// The id offered for the new session is already in use.
    IdInUse,
    /// No random id could be drawn.
    NoRandomness,
    /// The session store failed.
    Store(StoreError),
}

/// An id may open a new session when no session is stored under it and it
/// is not the id that the request came with.
pub open spec fn login_allowed(
    sessions: Map<int, SessionRecordView>,
    prior: Option<int>,
    fresh: int,
) -> bool {
    !sessions.dom().contains(fresh) && prior != Some(fresh)
}

/// The messages that wait in the session a request came with.
pub open spec fn carried_messages(
    sessions: Map<int, SessionRecordView>,
    prior: Option<int>,
    now: int,
) -> Seq<PageMessageView> {
    match cookie_record(sessions, prior, now) {
        Some(record) => record.data.messages,
        None => Seq::empty(),
    }
}

/// The session table after a sign-in: the session that the request came
/// with is gone, and a session under the new id is bound to the user,
/// holds the messages that were waiting, and expires an idle period after
/// `now`.
pub open spec fn after_login(
    sessions: Map<int, SessionRecordView>,
    prior: Option<int>,
    fresh: int,
    user: UserView,
    now: int,
) -> Map<int, SessionRecordView> {
    saved(
        after_logout(sessions, prior),
        SessionRecordView {
            id: fresh,
            data: SessionDataView {
                user: Some(user),
                messages: carried_messages(sessions, prior, now),
            },
            expiry: expiry_after(now),
        },
    )
}

/// The session table after a sign-out: the session that the request came
/// with is gone.
pub open spec fn after_logout(sessions: Map<int, SessionRecordView>, prior: Option<int>) -> Map<
    int,
    SessionRecordView,
> {
    match prior {
        Some(id) => deleted(sessions, id),
        None => sessions,
    }
}

/// The visitor was signed in as `user` under the id `fresh`: the id was
/// allowed, the request is now this user's under that id, and the session
/// table is the one after the sign-in.
pub open spec fn signed_in_under(
    before: AuthSessionView,
    sessions_before: Map<int, SessionRecordView>,
    user: UserView,
    now: int,
    fresh: int,
    after: AuthSessionView,
    sessions_after: Map<int, SessionRecordView>,
) -> bool {
    &&& login_allowed(sessions_before, before.session_id, fresh)
    &&& after == (AuthSessionView { user: Some(user), session_id: Some(fresh) })
    &&& sessions_after == after_login(sessions_before, before.session_id, fresh, user, now)
}

/// What a sign-in under the id `fresh` comes to: it succeeds when the id
/// is allowed, and otherwise fails and changes nothing.
pub open spec fn login_outcome(
    before: AuthSessionView,
    sessions_before: Map<int, SessionRecordView>,
    user: UserView,
    now: int,
    fresh: int,
    after: AuthSessionView,
    sessions_after: Map<int, SessionRecordView>,
    r: Result<(), SessionError>,
) -> bool {
    if login_allowed(sessions_before, before.session_id, fresh) {
        &&& r is Ok
        &&& signed_in_under(before, sessions_before, user, now, fresh, after, sessions_after)
    } else {
        &&& r == Err::<(), SessionError>(SessionError::IdInUse)
        &&& after == before
        &&& sessions_after == sessions_before
    }
}

impl AuthSession {
    /// Signs `user` in under the session id `fresh`.
    ///
    /// The id that the request came with is never kept: its session is
    /// deleted and the new session starts under `fresh`. An id that is
    /// already stored, or that is the request's own, is refused and nothing
    /// changes.
    pub fn login_with_id(
        &mut self,
        store: &mut DatabaseSessionStore,
        user: &User,
        now: i64,
        fresh: u128,
    ) -> (r: Result<(), SessionError>)
        requires
            old(store).wf(),
        ensures
            final(store).wf(),
            login_outcome(
                old(self)@,
                old(store)@,
                user@,
                now as int,
                fresh as int,
                final(self)@,
                final(store)@,
                r,
            ),
    {
        if let Some(id) = self.session_id {
            if id == fresh {
                return Err(SessionError::IdInUse);
            }
        }
        if store.contains(&fresh) {
            return Err(SessionError::IdInUse);
        }
        let mut messages = PageMessages::new();
        if let Some(id) = self.session_id {
            if let Some(record) = store.load(&id, now) {
                messages = record.data.messages;
            }
            if let Err(e) = store.delete(&id) {
                return Err(SessionError::Store(e));
            }
        }
        let record = SessionRecord {
            id: fresh,
            data: SessionData { user: Some(user.clone()), messages },
            expiry: expiry_from(now),
        };
        if let Err(e) = store.save(record) {
            return Err(SessionError::Store(e));
        }
        self.user = Some(user.clone());
        self.session_id = Some(fresh);
        Ok(())
    }

    /// Signs `user` in under a session id drawn at random.
    ///
    /// Whatever id is drawn, the outcome is that of `login_with_id` for it.
    pub fn login(&mut self, store: &mut DatabaseSessionStore, user: &User, now: i64) -> (r: Result<
        (),
        SessionError,
    >)
        requires
            old(store).wf(),
        ensures
            final(store).wf(),
            r == Err::<(), SessionError>(SessionError::NoRandomness) ==> final(self)@ == old(self)@
                && final(store)@ == old(store)@,
            r != Err::<(), SessionError>(SessionError::NoRandomness) ==> exists|fresh: int|
                0 <= fresh <= u128::MAX && #[trigger] login_outcome(
                    old(self)@,
                    old(store)@,
                    user@,
                    now as int,
                    fresh,
                    final(self)@,
                    final(store)@,
                    r,
                ),
    {
        let bytes = match random_bytes() {
            Some(bytes) => bytes,
            None => return Err(SessionError::NoRandomness),
        };
        let fresh = vstd::bytes::u128_from_le_bytes(bytes.as_slice());
        let r = self.login_with_id(store, user, now, fresh);
        proof {
            assert(login_outcome(
                old(self)@,
                old(store)@,
                user@,
                now as int,
                fresh as int,
                self@,
                store@,
                r,
            ));
        }
        r
    }

    /// Signs the visitor out: the session is deleted, the response carries
    /// no session, and the request is anonymous from here on. Returns the
    /// identity that was signed in, if any.
    pub fn logout(&mut self, store: &mut DatabaseSessionStore) -> (r: Result<
        Option<User>,
        SessionError,
    >)
        requires
            old(store).wf(),
        ensures
            final(store).wf(),
            final(store)@ == after_logout(old(store)@, old(self)@.session_id),
            final(self)@ == (AuthSessionView { user: None, session_id: None }),
            match r {
                Ok(Some(user)) => old(self)@.user == Some(user@),
                Ok(None) => old(self)@.user is None,
                Err(_) => false,
            },
    {
        if let Some(id) = self.session_id {
            if let Err(e) = store.delete(&id) {
                return Err(SessionError::Store(e));
            }
        }
        let mut user: Option<User> = None;
        core::mem::swap(&mut self.user, &mut user);
        self.session_id = None;
        Ok(user)
    }
}

/// Signing in never keeps the session id that the request came with, and
/// never takes an id that is already stored.
pub proof fn lemma_login_issues_new_id(
    before: AuthSessionView,
    sessions_before: Map<int, SessionRecordView>,
    user: UserView,
    now: int,
    fresh: int,
    after: AuthSessionView,
    sessions_after: Map<int, SessionRecordView>,
)
    requires
        signed_in_under(before, sessions_before, user, now, fresh, after, sessions_after),
    ensures
        after.session_id == Some(fresh),
        after.session_id != before.session_id,
        !sessions_before.dom().contains(fresh),
        before.session_id matches Some(id) ==> !sessions_after.dom().contains(id),
{
}

/// After a sign-in, a request that carries the new session id is resolved
/// to the user who signed in, for as long as the session has not expired
/// and the account keeps its password hash.
pub proof fn lemma_login_then_resolve(
    sessions: Map<int, SessionRecordView>,
    users: Map<int, UserRecordView>,
    prior: Option<int>,
    fresh: int,
    account: int,
    now: int,
    later: int,
)
    requires
        users_consistent(users),
        users.dom().contains(account),
        later <= expiry_after(now),
    ensures
        resolved_user(
            after_login(sessions, prior, fresh, identity_of(users[account]), now),
            users,
            Some(fresh),
            later,
        ) == Some(identity_of(users[account])),
{
}

/// After a sign-out, a request that still carries the old session id is
/// anonymous.
pub proof fn lemma_logout_then_anonymous(
    sessions: Map<int, SessionRecordView>,
    users: Map<int, UserRecordView>,
    id: int,
    now: int,
)
    ensures
        resolved_user(after_logout(sessions, Some(id)), users, Some(id), now) is None,
        resolved_session_id(after_logout(sessions, Some(id)), users, Some(id), now) is None,
{
}

/// A session ends as soon as the account's password hash is no longer the
/// one it was bound to, or the account is gone: the request is anonymous
/// and the session is deleted.
pub proof fn lemma_stale_binding_ends_session(
    sessions: Map<int, SessionRecordView>,
    users: Map<int, UserRecordView>,
    id: int,
    now: int,
)
    requires
        loaded(sessions, id, now) matches Some(record) && record.data.user matches Some(bound)
            && !binding_valid(users, bound),
    ensures
        resolved_user(sessions, users, Some(id), now) is None,
        resolved_sessions(sessions, users, Some(id), now) == deleted(sessions, id),
{
}

/// Resolving a request removes at most the request's own session, and
/// never moves the expiry of a session that stays to an earlier time.
pub proof fn lemma_resolve_never_shortens(
    sessions: Map<int, SessionRecordView>,
    users: Map<int, UserRecordView>,
    cookie: Option<int>,
    now: int,
    id: int,
)
    requires
        sessions_consistent(sessions),
        resolved_sessions(sessions, users, cookie, now).dom().contains(id),
    ensures
        sessions.dom().contains(id),
        resolved_sessions(sessions, users, cookie, now)[id].expiry >= sessions[id].expiry,
        resolved_sessions(sessions, users, cookie, now)[id].data == sessions[id].data,
{
}

} // verus!

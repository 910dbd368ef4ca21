//! The authentication backend: from credentials, or from a user id kept in
//! a session, to the identity that a session is bound to.

use vstd::prelude::*;
use vstd::utf8::encode_utf8;
use crate::password::password_matches;
use crate::password::verify;
use crate::users::StoreError;
use crate::users::UserRecord;
use crate::users::UserRecordView;
use crate::users::UserTable;
use crate::users::email_taken;
use crate::users::users_consistent;
use crate::users::get_user_by_email;
use crate::users::get_user_by_id;

verus! {

/// The authenticated principal: the account's id and the bytes that bind a
/// session to the account's current password.
#[derive(Debug)]
pub struct User {
    id: i32,
    pw_hash: Vec<u8>,
}

/// The mathematical value of an identity.
pub struct UserView {
    pub id: int,
    pub pw_hash: Seq<u8>,
}

impl View for User {
    type V = UserView;

    closed spec fn view(&self) -> UserView {
        UserView { id: self.id as int, pw_hash: self.pw_hash@ }
    }
}

/// The identity that a stored account gives: its id, and the UTF-8 bytes
/// of its password hash. A changed password changes the bytes.
pub open spec fn identity_of(record: UserRecordView) -> UserView {
    UserView { id: record.id, pw_hash: encode_utf8(record.password_hash) }
}

impl User {
    /// The identity of a stored account.
    pub fn from_record(record: &UserRecord) -> (user: User)
        ensures
            user@ == identity_of(record@),
    {
        User { id: record.id, pw_hash: record.password_hash.as_str().as_bytes_vec() }
    }

    /// The id of the account.
    pub fn id(&self) -> (id: i32)
        ensures
            id == self@.id,
    {
        self.id
    }

    /// The bytes that a session must carry to stay bound to this account.
    pub fn session_auth_hash(&self) -> (bytes: &[u8])
        ensures
            bytes@ == self@.pw_hash,
    {
        self.pw_hash.as_slice()
    }
}

impl Clone for User {
    fn clone(&self) -> (copy: User)
        ensures
            copy@ == self@,
    {
        let pw_hash = self.pw_hash.clone();
        User { id: self.id, pw_hash }
    }
}

/// What a visitor submits to sign in. It lives for one call and is never
/// stored.
pub struct Credentials {
    pub email: String,
    pub password: String,
}

/// Why the backend could not answer.
#[derive(Clone, Copy, Debug, PartialEq, Eq, Structural)]
pub enum AuthError {
    /// The store failed during the lookup. This is not a rejection of the
    /// credentials.
    BackendFailure,
}

/// Decides a sign-in attempt from the outcome of the lookup by email.
///
/// A failed lookup is a backend failure. No account and a wrong password
/// both give `Ok(None)`: the caller cannot tell them apart. A matching
/// password gives the account's identity.
pub fn authenticate_found(credentials: &Credentials, found: Result<Option<UserRecord>, StoreError>)
    -> (r: Result<Option<User>, AuthError>)
    ensures
        match found {
            Err(_) => r == Err::<Option<User>, AuthError>(AuthError::BackendFailure),
            Ok(None) => r == Ok::<Option<User>, AuthError>(None),
            Ok(Some(record)) => if password_matches(credentials.password@, record@.password_hash) {
                r matches Ok(Some(user)) && user@ == identity_of(record@)
            } else {
                r == Ok::<Option<User>, AuthError>(None)
            },
        },
{
    match found {
        Err(_) => Err(AuthError::BackendFailure),
        Ok(None) => Ok(None),
        Ok(Some(record)) => {
            if verify(credentials.password.as_str(), record.password_hash.as_str()) {
                Ok(Some(User::from_record(&record)))
            } else {
                Ok(None)
            }
        },
    }
}

/// Decides the identity for a user id from the outcome of the lookup by id.
pub fn resolve_found(found: Result<Option<UserRecord>, StoreError>) -> (r: Result<
    Option<User>,
    AuthError,
>)
    ensures
        match found {
            Err(_) => r == Err::<Option<User>, AuthError>(AuthError::BackendFailure),
            Ok(None) => r == Ok::<Option<User>, AuthError>(None),
            Ok(Some(record)) => r matches Ok(Some(user)) && user@ == identity_of(record@),
        },
{
    match found {
        Err(_) => Err(AuthError::BackendFailure),
        Ok(None) => Ok(None),
        Ok(Some(record)) => Ok(Some(User::from_record(&record))),
    }
}

/// The account `id` is stored under this email and its hash matches the
/// password.
pub open spec fn accepts(
    users: Map<int, UserRecordView>,
    id: int,
    email: Seq<char>,
    password: Seq<char>,
) -> bool {
    &&& users.dom().contains(id)
    &&& users[id].email == email
    &&& password_matches(password, users[id].password_hash)
}

/// The identity that credentials stand for: that of the account stored
/// under exactly this email, if its hash matches the password.
pub open spec fn authenticated(
    users: Map<int, UserRecordView>,
    email: Seq<char>,
    password: Seq<char>,
) -> Option<UserView> {
    if exists|id: int| accepts(users, id, email, password) {
        Some(identity_of(users[choose|id: int| accepts(users, id, email, password)]))
    } else {
        None
    }
}

/// The value of an identity that may be absent.
pub open spec fn user_view(user: Option<User>) -> Option<UserView> {
    match user {
        Some(user) => Some(user@),
        None => None,
    }
}

/// For an email that is stored, the password decides: the right one gives
/// the identity of the account with that email, whose id is the
/// account's; any other gives none.
pub proof fn lemma_authenticated_by_email(
    users: Map<int, UserRecordView>,
    id: int,
    email: Seq<char>,
    password: Seq<char>,
)
    requires
        users_consistent(users),
        users.dom().contains(id),
        users[id].email == email,
    ensures
        authenticated(users, email, password) == if password_matches(
            password,
            users[id].password_hash,
        ) {
            Some(identity_of(users[id]))
        } else {
            None
        },
        identity_of(users[id]).id == id,
{
    if password_matches(password, users[id].password_hash) {
        assert(accepts(users, id, email, password));
    } else {
        assert forall|other: int| accepts(users, other, email, password) implies other == id by {}
    }
}

/// An email that is not stored stands for nobody, whatever the password.
pub proof fn lemma_unknown_email_rejected(
    users: Map<int, UserRecordView>,
    email: Seq<char>,
    password: Seq<char>,
)
    requires
        !email_taken(users, email),
    ensures
        authenticated(users, email, password) is None,
{
    assert forall|id: int| accepts(users, id, email, password) implies email_taken(
        users,
        email,
    ) by {}
}

/// The backend over a user table.
pub struct Backend {
    pub db: UserTable,
}

impl Backend {
    /// A backend that answers from `db`.
    pub fn new(db: UserTable) -> (backend: Backend)
        ensures
            backend.db == db,
    {
        Backend { db }
    }

    /// The identity behind the credentials, if the email is stored and the
    /// password matches the stored hash.
    ///
    /// An email that is not stored and a password that does not match both
    /// give `Ok(None)`; the in-memory table never fails.
    pub fn authenticate(&self, credentials: Credentials) -> (r: Result<Option<User>, AuthError>)
        requires
            self.db.wf(),
        ensures
            r matches Ok(found) && user_view(found) == authenticated(
                self.db@,
                credentials.email@,
                credentials.password@,
            ),
            !email_taken(self.db@, credentials.email@) ==> r matches Ok(None),
    {
        let found = get_user_by_email(&self.db, credentials.email.as_str());
        proof {
            self.db.lemma_wf_consistent();
            if found is Some {
                lemma_authenticated_by_email(
                    self.db@,
                    found->Some_0@.id,
                    credentials.email@,
                    credentials.password@,
                );
            } else {
                lemma_unknown_email_rejected(
                    self.db@,
                    credentials.email@,
                    credentials.password@,
                );
            }
        }
        authenticate_found(&credentials, Ok(found))
    }

    /// The identity of the account with this id, or `None` when no such
    /// account is stored.
    pub fn get_user(&self, user_id: &i32) -> (r: Result<Option<User>, AuthError>)
        requires
            self.db.wf(),
        ensures
            match r {
                Ok(Some(user)) => self.db@.dom().contains(*user_id as int) && user@ == identity_of(
                    self.db@[*user_id as int],
                ),
                Ok(None) => !self.db@.dom().contains(*user_id as int),
                Err(_) => false,
            },
    {
        resolve_found(Ok(get_user_by_id(&self.db, *user_id)))
    }
}

} // verus!

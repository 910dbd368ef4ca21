//! The user table: one record per account, found by id or by email.
//!
//! A record holds the account's email and the PHC string of its password;
//! the password itself is never stored. Emails are unique, and lookup by
//! email is by exact equality.

use vstd::prelude::*;
use crate::password::HashError;
use crate::password::hash;
use crate::password::password_matches;
use crate::password::verify;
use crate::rows::Keyed;
use crate::rows::distinct_keys;
use crate::rows::has_key;
use crate::rows::to_map;
use crate::rows::lemma_empty_rows;
use crate::rows::lemma_push_row;
use crate::rows::lemma_row_in_map;
use crate::rows::lemma_key_has_row;

verus! {

/// One account as it is stored.
#[derive(Debug)]
pub struct UserRecord {
    pub id: i32,
    pub email: String,
    pub password_hash: String,
}

/// The mathematical value of a user record.
pub struct UserRecordView {
    pub id: int,
    pub email: Seq<char>,
    pub password_hash: Seq<char>,
}

impl View for UserRecord {
    type V = UserRecordView;

    open spec fn view(&self) -> UserRecordView {
        UserRecordView { id: self.id as int, email: self.email@, password_hash: self.password_hash@ }
    }
}

impl Keyed for UserRecordView {
    open spec fn key(&self) -> int {
        self.id
    }
}

impl Clone for UserRecord {
    fn clone(&self) -> (copy: UserRecord)
        ensures
            copy@ == self@,
    {
        UserRecord {
            id: self.id,
            email: self.email.clone(),
            password_hash: self.password_hash.clone(),
        }
    }
}

/// Why the store refused a write.
#[derive(Clone, Copy, Debug, PartialEq, Eq, Structural)]
pub enum StoreError {
    /// A record with the same unique value is already stored.
    Conflict,
    /// The store could not carry out the operation.
    Backend,
}

/// What a visitor supplies to open an account.
pub struct CreateUserData {
    pub email: String,
    pub password: String,
}

/// Why an account could not be created.
#[derive(Debug)]
pub enum CreateUserError {
    HashPassword(HashError),
    SaveUser(StoreError),
}

/// Some stored account has this email.
pub open spec fn email_taken(users: Map<int, UserRecordView>, email: Seq<char>) -> bool {
    exists|id: int| users.dom().contains(id) && (#[trigger] users[id]).email == email
}

/// Each record is stored under its own id, and no two records share an
/// email.
pub open spec fn users_consistent(users: Map<int, UserRecordView>) -> bool {
    &&& forall|id: int| users.dom().contains(id) ==> (#[trigger] users[id]).id == id
    &&& forall|a: int, b: int|
        users.dom().contains(a) && users.dom().contains(b) && (#[trigger] users[a]).email == (
        #[trigger] users[b]).email ==> a == b
}

/// The ids of accounts lie below this limit. A table whose next id has
/// reached it can store no more accounts.
pub const USER_ID_LIMIT: i32 = 2147483647;

/// The values of a list of records, in order.
pub open spec fn record_views(records: Seq<UserRecord>) -> Seq<UserRecordView> {
    Seq::new(records.len(), |i: int| records[i]@)
}

/// A list of records can be a table: every id is positive and below the
/// limit, and no two records share an id or an email.
pub open spec fn restorable(records: Seq<UserRecordView>) -> bool {
    &&& forall|i: int| 0 <= i < records.len() ==> 1 <= (#[trigger] records[i]).id < USER_ID_LIMIT
    &&& forall|i: int, j: int|
        0 <= i < records.len() && 0 <= j < records.len() && i != j ==> (#[trigger] records[i]).id
            != (#[trigger] records[j]).id && records[i].email != records[j].email
}

/// The id that follows the largest id of a list of records; 1 for the
/// empty list.
pub open spec fn following_id(records: Seq<UserRecordView>) -> int
    decreases records.len(),
{
    if records.len() == 0 {
        1
    } else if following_id(records.drop_last()) <= records.last().id {
        records.last().id + 1
    } else {
        following_id(records.drop_last())
    }
}

/// The accounts, kept in memory in the order they were created.
pub struct UserTable {
    rows: Vec<UserRecord>,
    next_id: i32,
}

impl UserTable {
    /// The stored rows by their values.
    pub closed spec fn rows_view(&self) -> Seq<UserRecordView> {
        Seq::new(self.rows@.len(), |i: int| self.rows@[i]@)
    }

    /// The id that the next created account gets.
    pub closed spec fn next_id(&self) -> int {
        self.next_id as int
    }

    /// The invariant of the table: ids are positive, distinct and below
    /// `next_id`, and emails are distinct.
    pub closed spec fn wf(&self) -> bool {
        &&& 1 <= self.next_id
        &&& distinct_keys(self.rows_view())
        &&& forall|i: int|
            0 <= i < self.rows@.len() ==> 1 <= (#[trigger] self.rows@[i]).id < self.next_id
        &&& forall|i: int, j: int|
            0 <= i < self.rows@.len() && 0 <= j < self.rows@.len() && (
            #[trigger] self.rows@[i]).email@ == (#[trigger] self.rows@[j]).email@ ==> i == j
    }

    /// A well-formed table is consistent, and every id in it is positive
    /// and below `next_id`.
    pub proof fn lemma_wf_consistent(&self)
        requires
            self.wf(),
        ensures
            users_consistent(self@),
            1 <= self.next_id() <= USER_ID_LIMIT,
            forall|id: int| self@.dom().contains(id) ==> 1 <= id < self.next_id(),
    {
        let rows = self.rows_view();
        assert forall|id: int| self@.dom().contains(id) implies (#[trigger] self@[id]).id == id
            && 1 <= id < self.next_id() by {
            lemma_key_has_row(rows, id);
        }
        assert forall|a: int, b: int|
            self@.dom().contains(a) && self@.dom().contains(b) && (#[trigger] self@[a]).email == (
            #[trigger] self@[b]).email implies a == b by {
            lemma_key_has_row(rows, a);
            lemma_key_has_row(rows, b);
        }
    }

    /// An empty table whose first account gets id 1.
    pub fn new() -> (table: UserTable)
        ensures
            table.wf(),
            table@ == Map::<int, UserRecordView>::empty(),
            table.next_id() == 1,
    {
        let table = UserTable { rows: Vec::new(), next_id: 1 };
        proof {
            lemma_empty_rows(table.rows_view());
        }
        table
    }

    /// The table that holds exactly the given records, if they can be a
    /// table. Its next account gets the id that follows the largest one.
    pub fn from_records(records: Vec<UserRecord>) -> (r: Option<UserTable>)
        ensures
            match r {
                Some(table) => {
                    &&& restorable(record_views(records@))
                    &&& table.wf()
                    &&& table@ == to_map(record_views(records@))
                    &&& table.next_id() == following_id(record_views(records@))
                },
                None => !restorable(record_views(records@)),
            },
    {
        let ghost all = record_views(records@);
        let mut table = UserTable { rows: Vec::new(), next_id: 1 };
        let mut i: usize = 0;
        proof {
            lemma_empty_rows(table.rows_view());
            assert(all.take(0) =~= table.rows_view());
        }
        while i < records.len()
            invariant
                i <= records@.len(),
                all == record_views(records@),
                table.wf(),
                table.rows_view() == all.take(i as int),
                restorable(all.take(i as int)),
                table.next_id == following_id(all.take(i as int)),
            decreases records@.len() - i,
        {
            let record = records[i].clone();
            let ghost before = all.take(i as int);
            let ghost after = all.take(i + 1);
            proof {
                assert(record@ == all[i as int]);
                assert(after =~= before.push(record@));
                assert(after.drop_last() =~= before);
            }
            if record.id < 1 || record.id >= USER_ID_LIMIT {
                return None;
            }
            match table.position_by_id(record.id) {
                Some(j) => {
                    proof {
                        assert(all[j as int] == before[j as int]);
                        assert(all[j as int].id == all[i as int].id);
                    }
                    return None;
                },
                None => {},
            }
            match table.position_by_email(&record.email) {
                Some(j) => {
                    proof {
                        assert(all[j as int] == before[j as int]);
                        assert(all[j as int].email == all[i as int].email);
                    }
                    return None;
                },
                None => {},
            }
            proof {
                assert forall|a: int, b: int|
                    0 <= a < after.len() && 0 <= b < after.len() && a != b implies (
                #[trigger] after[a]).id != (#[trigger] after[b]).id && after[a].email
                    != after[b].email by {
                    if a < i {
                        assert(after[a] == before[a]);
                        assert(table.rows@[a]@ == before[a]);
                    }
                    if b < i {
                        assert(after[b] == before[b]);
                        assert(table.rows@[b]@ == before[b]);
                    }
                }
                assert forall|a: int| 0 <= a < after.len() implies 1 <= (#[trigger] after[a]).id
                    < USER_ID_LIMIT by {
                    if a < i {
                        assert(after[a] == before[a]);
                    }
                }
                assert(!has_key(before, record@.key())) by {
                    if has_key(before, record@.key()) {
                        let p = choose|p: int|
                            0 <= p < before.len() && #[trigger] before[p].key() == record@.key();
                        assert(table.rows@[p]@ == before[p]);
                    }
                }
                lemma_push_row(before, record@);
            }
            if table.next_id <= record.id {
                table.next_id = record.id + 1;
            }
            table.rows.push(record);
            proof {
                assert(table.rows_view() =~= after);
            }
            i += 1;
        }
        proof {
            assert(all.take(records@.len() as int) =~= all);
        }
        Some(table)
    }

    /// The position of the row with this email, if there is one.
    fn position_by_email(&self, email: &String) -> (r: Option<usize>)
        requires
            self.wf(),
        ensures
            match r {
                Some(i) => i < self.rows@.len() && self.rows@[i as int].email@ == email@,
                None => forall|i: int| 0 <= i < self.rows@.len() ==> self.rows@[i].email@ != email@,
            },
    {
        let mut i: usize = 0;
        while i < self.rows.len()
            invariant
                i <= self.rows@.len(),
                forall|j: int| 0 <= j < i ==> self.rows@[j].email@ != email@,
            decreases self.rows@.len() - i,
        {
            if self.rows[i].email == *email {
                return Some(i);
            }
            i += 1;
        }
        None
    }

    /// The position of the row with this id, if there is one.
    fn position_by_id(&self, id: i32) -> (r: Option<usize>)
        requires
            self.wf(),
        ensures
            match r {
                Some(i) => i < self.rows@.len() && self.rows@[i as int].id == id,
                None => forall|i: int| 0 <= i < self.rows@.len() ==> self.rows@[i].id != id,
            },
    {
        let mut i: usize = 0;
        while i < self.rows.len()
            invariant
                i <= self.rows@.len(),
                forall|j: int| 0 <= j < i ==> self.rows@[j].id != id,
            decreases self.rows@.len() - i,
        {
            if self.rows[i].id == id {
                return Some(i);
            }
            i += 1;
        }
        None
    }

    /// Stores a new account under a fresh id.
    ///
    /// Fails with `Conflict` when the email is already stored, and with
    /// `Backend` when the table has run out of ids; a failed call changes
    /// nothing.
    pub fn insert(&mut self, email: String, password_hash: String) -> (r: Result<
        UserRecord,
        StoreError,
    >)
        requires
            old(self).wf(),
        ensures
            final(self).wf(),
            match r {
                Ok(user) => {
                    &&& !email_taken(old(self)@, email@)
                    &&& old(self).next_id() < USER_ID_LIMIT
                    &&& user@ == (UserRecordView {
                        id: old(self).next_id(),
                        email: email@,
                        password_hash: password_hash@,
                    })
                    &&& final(self)@ == old(self)@.insert(user@.id, user@)
                    &&& final(self).next_id() == old(self).next_id() + 1
                },
                Err(StoreError::Conflict) => {
                    &&& email_taken(old(self)@, email@)
                    &&& *final(self) == *old(self)
                },
                Err(StoreError::Backend) => {
                    &&& !email_taken(old(self)@, email@)
                    &&& old(self).next_id() == USER_ID_LIMIT
                    &&& *final(self) == *old(self)
                },
            },
    {
        let ghost before = self.rows_view();
        match self.position_by_email(&email) {
            Some(i) => {
                proof {
                    lemma_row_in_map(before, i as int);
                }
                return Err(StoreError::Conflict);
            },
            None => {},
        }
        proof {
            if email_taken(self@, email@) {
                let id = choose|id: int| self@.dom().contains(id) && (#[trigger] self@[id]).email
                    == email@;
                lemma_key_has_row(before, id);
            }
        }
        if self.next_id == USER_ID_LIMIT {
            return Err(StoreError::Backend);
        }
        let id = self.next_id;
        let stored = UserRecord { id, email: email.clone(), password_hash: password_hash.clone() };
        let user = UserRecord { id, email, password_hash };
        proof {
            lemma_push_row(before, stored@);
        }
        self.rows.push(stored);
        self.next_id = id + 1;
        proof {
            assert(self.rows_view() =~= before.push(user@));
        }
        Ok(user)
    }
}

impl View for UserTable {
    type V = Map<int, UserRecordView>;

    /// The accounts by id.
    closed spec fn view(&self) -> Map<int, UserRecordView> {
        to_map(self.rows_view())
    }
}

/// Tells whether an account with exactly this email is stored.
pub fn user_exists(db: &UserTable, email: &str) -> (r: bool)
    requires
        db.wf(),
    ensures
        r == email_taken(db@, email@),
{
    get_user_by_email(db, email).is_some()
}

/// Finds the account with exactly this email.
///
/// An email that is only part of a stored email finds nothing.
pub fn get_user_by_email(db: &UserTable, email: &str) -> (r: Option<UserRecord>)
    requires
        db.wf(),
    ensures
        match r {
            Some(user) => db@.dom().contains(user@.id) && db@[user@.id] == user@ && user@.email
                == email@,
            None => !email_taken(db@, email@),
        },
{
    let wanted = email.to_string();
    match db.position_by_email(&wanted) {
        Some(i) => {
            proof {
                lemma_row_in_map(db.rows_view(), i as int);
            }
            Some(db.rows[i].clone())
        },
        None => {
            proof {
                if email_taken(db@, email@) {
                    let id = choose|id: int| db@.dom().contains(id) && (#[trigger] db@[id]).email
                        == email@;
                    lemma_key_has_row(db.rows_view(), id);
                }
            }
            None
        },
    }
}

/// Finds the account with exactly this email, if its stored hash matches
/// the password.
pub fn authenticate_user(db: &UserTable, email: &str, password: &str) -> (r: Option<UserRecord>)
    requires
        db.wf(),
    ensures
        match r {
            Some(user) => {
                &&& db@.dom().contains(user@.id)
                &&& db@[user@.id] == user@
                &&& user@.email == email@
                &&& password_matches(password@, user@.password_hash)
            },
            None => forall|id: int|
                db@.dom().contains(id) && (#[trigger] db@[id]).email == email@
                    ==> !password_matches(password@, db@[id].password_hash),
        },
{
    match get_user_by_email(db, email) {
        Some(user) => {
            if verify(password, user.password_hash.as_str()) {
                Some(user)
            } else {
                proof {
                    db.lemma_wf_consistent();
                }
                None
            }
        },
        None => None,
    }
}

/// Finds the account with this id.
pub fn get_user_by_id(db: &UserTable, id: i32) -> (r: Option<UserRecord>)
    requires
        db.wf(),
    ensures
        match r {
            Some(user) => db@.dom().contains(id as int) && db@[id as int] == user@,
            None => !db@.dom().contains(id as int),
        },
{
    match db.position_by_id(id) {
        Some(i) => {
            proof {
                lemma_row_in_map(db.rows_view(), i as int);
            }
            Some(db.rows[i].clone())
        },
        None => {
            proof {
                if db@.dom().contains(id as int) {
                    lemma_key_has_row(db.rows_view(), id as int);
                }
            }
            None
        },
    }
}

/// What creating an account comes to once the password has been hashed.
pub open spec fn stored_outcome(
    before: &UserTable,
    email: Seq<char>,
    hashed: Result<String, HashError>,
    after: &UserTable,
    r: Result<UserRecord, CreateUserError>,
) -> bool {
    match hashed {
        Err(_) => r is Err && r->Err_0 is HashPassword && *after == *before,
        Ok(encoded) => {
            if email_taken(before@, email) {
                &&& r is Err
                &&& r->Err_0 == CreateUserError::SaveUser(StoreError::Conflict)
                &&& *after == *before
            } else if before.next_id() == USER_ID_LIMIT {
                &&& r is Err
                &&& r->Err_0 == CreateUserError::SaveUser(StoreError::Backend)
                &&& *after == *before
            } else {
                &&& r is Ok
                &&& r->Ok_0@ == (UserRecordView {
                    id: before.next_id(),
                    email: email,
                    password_hash: encoded@,
                })
                &&& after@ == before@.insert(before.next_id(), r->Ok_0@)
                &&& after.next_id() == before.next_id() + 1
            }
        },
    }
}

/// Stores an account whose password has already been through the hasher.
///
/// A failed hash is reported as `HashPassword` and nothing is stored;
/// otherwise the outcome is that of `UserTable::insert`.
pub fn store_hashed(db: &mut UserTable, email: String, hashed: Result<String, HashError>) -> (r:
    Result<UserRecord, CreateUserError>)
    requires
        old(db).wf(),
    ensures
        final(db).wf(),
        stored_outcome(old(db), email@, hashed, final(db), r),
{
    match hashed {
        Err(e) => Err(CreateUserError::HashPassword(e)),
        Ok(encoded) => match db.insert(email, encoded) {
            Ok(user) => Ok(user),
            Err(e) => Err(CreateUserError::SaveUser(e)),
        },
    }
}

/// Creates an account: hashes the password, then stores email and hash.
///
/// The password never reaches the table. On success the stored hash
/// matches the password that was given.
pub fn create_user(db: &mut UserTable, data: CreateUserData) -> (r: Result<
    UserRecord,
    CreateUserError,
>)
    requires
        old(db).wf(),
    ensures
        final(db).wf(),
        match r {
            Ok(user) => {
                &&& !email_taken(old(db)@, data.email@)
                &&& old(db).next_id() < USER_ID_LIMIT
                &&& user@.id == old(db).next_id()
                &&& user@.email == data.email@
                &&& password_matches(data.password@, user@.password_hash)
                &&& final(db)@ == old(db)@.insert(user@.id, user@)
                &&& final(db).next_id() == old(db).next_id() + 1
            },
            Err(CreateUserError::HashPassword(_)) => *final(db) == *old(db),
            Err(CreateUserError::SaveUser(e)) => {
                &&& *final(db) == *old(db)
                &&& e == StoreError::Conflict <==> email_taken(old(db)@, data.email@)
                &&& e == StoreError::Backend <==> !email_taken(old(db)@, data.email@)
                    && old(db).next_id() == USER_ID_LIMIT
            },
        },
{
    let hashed = hash(data.password.as_str());
    store_hashed(db, data.email, hashed)
}

} // verus!

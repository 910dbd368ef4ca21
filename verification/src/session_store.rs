//! The session table: one record per session id, each with an expiry.
//!
//! A record whose expiry lies before the time of a read is treated as
//! absent, whether or not the sweep has removed it yet.

use vstd::prelude::*;
use crate::backend::User;
use crate::backend::UserView;
use crate::messages::PageMessageView;
use crate::messages::PageMessages;
use crate::rows::Keyed;
use crate::rows::distinct_keys;
use crate::rows::to_map;
use crate::rows::lemma_empty_rows;
use crate::rows::lemma_key_has_row;
use crate::rows::lemma_push_row;
use crate::rows::lemma_remove_row;
use crate::rows::lemma_row_in_map;
use crate::rows::lemma_table_size;
use crate::rows::lemma_update_row;
use crate::users::StoreError;

verus! {

/// What a session carries: the identity it is bound to, if any, and the
/// messages waiting to be shown.
pub struct SessionData {
    pub user: Option<User>,
    pub messages: PageMessages,
}

/// The mathematical value of a session's payload.
pub struct SessionDataView {
    pub user: Option<UserView>,
    pub messages: Seq<PageMessageView>,
}

impl View for SessionData {
    type V = SessionDataView;

    open spec fn view(&self) -> SessionDataView {
        SessionDataView {
            user: match self.user {
                Some(user) => Some(user@),
                None => None,
            },
            messages: self.messages@,
        }
    }
}

impl SessionData {
    /// The payload of a session that is bound to nobody and holds no
    /// message.
    pub fn new() -> (data: SessionData)
        ensures
            data@ == (SessionDataView {
                user: None,
                messages: Seq::<PageMessageView>::empty(),
            }),
    {
        SessionData { user: None, messages: PageMessages::new() }
    }
}

impl Clone for SessionData {
    fn clone(&self) -> (copy: SessionData)
        ensures
            copy@ == self@,
    {
        let user = match &self.user {
            Some(user) => Some(user.clone()),
            None => None,
        };
        SessionData { user, messages: self.messages.clone() }
    }
}

/// One stored session. `expiry` is in seconds since the epoch.
pub struct SessionRecord {
    pub id: u128,
    pub data: SessionData,
    pub expiry: i64,
}

/// The mathematical value of a session record.
pub struct SessionRecordView {
    pub id: int,
    pub data: SessionDataView,
    pub expiry: int,
}

impl View for SessionRecord {
    type V = SessionRecordView;

    open spec fn view(&self) -> SessionRecordView {
        SessionRecordView { id: self.id as int, data: self.data@, expiry: self.expiry as int }
    }
}

impl Keyed for SessionRecordView {
    open spec fn key(&self) -> int {
        self.id
    }
}

/// Tells whether an expiry lies before `now`.
pub fn expired_at(expiry: i64, now: i64) -> (r: bool)
    ensures
        r == (expiry < now),
{
    expiry < now
}

impl SessionRecord {
    /// Tells whether the record is expired at `now`.
    pub fn is_expired(&self, now: i64) -> (r: bool)
        ensures
            r == is_expired(self@, now as int),
    {
        expired_at(self.expiry, now)
    }
}

impl Clone for SessionRecord {
    fn clone(&self) -> (copy: SessionRecord)
        ensures
            copy@ == self@,
    {
        SessionRecord { id: self.id, data: self.data.clone(), expiry: self.expiry }
    }
}

/// A record is expired at `now` when its expiry lies before `now`.
pub open spec fn is_expired(record: SessionRecordView, now: int) -> bool {
    record.expiry < now
}

/// The table after `record` is saved: stored under its id, in place of any
/// record that had the id before.
pub open spec fn saved(table: Map<int, SessionRecordView>, record: SessionRecordView) -> Map<
    int,
    SessionRecordView,
> {
    table.insert(record.id, record)
}

/// What a read of `id` at time `now` gives: the stored record, unless none
/// is stored or the stored one is expired.
pub open spec fn loaded(table: Map<int, SessionRecordView>, id: int, now: int) -> Option<
    SessionRecordView,
> {
    if table.dom().contains(id) && !is_expired(table[id], now) {
        Some(table[id])
    } else {
        None
    }
}

/// The table after the record with this id, if any, is deleted.
pub open spec fn deleted(table: Map<int, SessionRecordView>, id: int) -> Map<
    int,
    SessionRecordView,
> {
    table.remove(id)
}

/// The ids of the records that are expired at `now`.
pub open spec fn expired_ids(table: Map<int, SessionRecordView>, now: int) -> Set<int> {
    Set::new(|id: int| table.dom().contains(id) && is_expired(table[id], now))
}

/// The table after a sweep at `now`: the expired records are gone, the
/// others are as they were.
pub open spec fn swept(table: Map<int, SessionRecordView>, now: int) -> Map<
    int,
    SessionRecordView,
> {
    table.remove_keys(expired_ids(table, now))
}

/// Each record is stored under its own id.
pub open spec fn sessions_consistent(table: Map<int, SessionRecordView>) -> bool {
    forall|id: int| table.dom().contains(id) ==> (#[trigger] table[id]).id == id
}

/// The session store: the table of session records, one row for each
/// session id. This store keeps its rows in memory.
pub struct DatabaseSessionStore {
    rows: Vec<SessionRecord>,
}

impl View for DatabaseSessionStore {
    type V = Map<int, SessionRecordView>;

    /// The records by session id.
    closed spec fn view(&self) -> Map<int, SessionRecordView> {
        to_map(self.rows_view())
    }
}

impl DatabaseSessionStore {
    /// The stored rows by their values.
    pub closed spec fn rows_view(&self) -> Seq<SessionRecordView> {
        Seq::new(self.rows@.len(), |i: int| self.rows@[i]@)
    }

    /// The invariant of the store: no two rows share a session id.
    pub closed spec fn wf(&self) -> bool {
        distinct_keys(self.rows_view())
    }

    /// In a well-formed store each record is kept under its own id, and
    /// the records are finitely many.
    pub proof fn lemma_wf_consistent(&self)
        requires
            self.wf(),
        ensures
            self@.dom().finite(),
            sessions_consistent(self@),
    {
        lemma_table_size(self.rows_view());
        assert forall|id: int| self@.dom().contains(id) implies (#[trigger] self@[id]).id
            == id by {
            lemma_key_has_row(self.rows_view(), id);
        }
    }

    /// A store without sessions.
    pub fn new() -> (store: DatabaseSessionStore)
        ensures
            store.wf(),
            store@ == Map::<int, SessionRecordView>::empty(),
    {
        let store = DatabaseSessionStore { rows: Vec::new() };
        proof {
            lemma_empty_rows(store.rows_view());
        }
        store
    }

    /// The number of stored records, expired ones included.
    pub fn len(&self) -> (n: usize)
        requires
            self.wf(),
        ensures
            n == self@.dom().len(),
    {
        proof {
            lemma_table_size(self.rows_view());
        }
        self.rows.len()
    }

    /// The position of the row with this id, if there is one.
    fn position(&self, id: u128) -> (r: Option<usize>)
        requires
            self.wf(),
        ensures
            match r {
                Some(i) => i < self.rows@.len() && self.rows@[i as int].id == id
                    && self@.dom().contains(id as int) && self@[id as int]
                    == self.rows@[i as int]@,
                None => !self@.dom().contains(id as int),
            },
    {
        let mut i: usize = 0;
        while i < self.rows.len()
            invariant
                self.wf(),
                i <= self.rows@.len(),
                forall|j: int| 0 <= j < i ==> self.rows@[j].id != id,
            decreases self.rows@.len() - i,
        {
            if self.rows[i].id == id {
                proof {
                    lemma_row_in_map(self.rows_view(), i as int);
                }
                return Some(i);
            }
            i += 1;
        }
        proof {
            if self@.dom().contains(id as int) {
                lemma_key_has_row(self.rows_view(), id as int);
            }
        }
        None
    }

    /// Tells whether a record is stored under this id, expired or not.
    pub fn contains(&self, session_id: &u128) -> (r: bool)
        requires
            self.wf(),
        ensures
            r == self@.dom().contains(*session_id as int),
    {
        self.position(*session_id).is_some()
    }

    /// Stores `record` under its id: inserted when the id is new, replaced
    /// when it is already stored. Every other record stays as it was.
    pub fn save(&mut self, record: SessionRecord) -> (r: Result<(), StoreError>)
        requires
            old(self).wf(),
        ensures
            final(self).wf(),
            r is Ok,
            final(self)@ == saved(old(self)@, record@),
    {
        let ghost before = self.rows_view();
        match self.position(record.id) {
            Some(i) => {
                proof {
                    lemma_update_row(before, i as int, record@);
                }
                self.rows[i] = record;
                proof {
                    assert(self.rows_view() =~= before.update(i as int, record@));
                }
            },
            None => {
                proof {
                    lemma_push_row(before, record@);
                }
                self.rows.push(record);
                proof {
                    assert(self.rows_view() =~= before.push(record@));
                }
            },
        }
        Ok(())
    }

    /// Reads the record with this id at time `now`.
    ///
    /// Gives `None` when no record is stored under the id, and also when
    /// the stored record is expired at `now`, swept or not.
    pub fn load(&self, session_id: &u128, now: i64) -> (r: Option<SessionRecord>)
        requires
            self.wf(),
        ensures
            match r {
                Some(record) => loaded(self@, *session_id as int, now as int) == Some(record@),
                None => loaded(self@, *session_id as int, now as int) is None,
            },
    {
        match self.position(*session_id) {
            Some(i) => {
                if self.rows[i].is_expired(now) {
                    None
                } else {
                    Some(self.rows[i].clone())
                }
            },
            None => None,
        }
    }

    /// Deletes the record with this id. Deleting an id that is not stored
    /// changes nothing and is not an error.
    pub fn delete(&mut self, session_id: &u128) -> (r: Result<(), StoreError>)
        requires
            old(self).wf(),
        ensures
            final(self).wf(),
            r is Ok,
            final(self)@ == deleted(old(self)@, *session_id as int),
    {
        let ghost before = self.rows_view();
        match self.position(*session_id) {
            Some(i) => {
                proof {
                    lemma_remove_row(before, i as int);
                }
                let _ = self.rows.remove(i);
                proof {
                    assert(self.rows_view() =~= before.remove(i as int));
                }
            },
            None => {},
        }
        Ok(())
    }

    /// Removes every record that is expired at `now` and returns how many
    /// were removed. Records with an expiry at or after `now` stay as they
    /// were.
    pub fn delete_expired(&mut self, now: i64) -> (r: Result<usize, StoreError>)
        requires
            old(self).wf(),
        ensures
            final(self).wf(),
            final(self)@ == swept(old(self)@, now as int),
            r matches Ok(count) && count == expired_ids(old(self)@, now as int).len(),
    {
        let ghost table = self@;
        let total = self.rows.len();
        proof {
            lemma_table_size(self.rows_view());
        }
        let mut removed: usize = 0;
        let mut i: usize = 0;
        while i < self.rows.len()
            invariant
                self.wf(),
                i <= self.rows@.len(),
                removed + self.rows@.len() == total,
                table.dom().finite(),
                table.dom().len() == total,
                forall|j: int| 0 <= j < i ==> !is_expired(#[trigger] self.rows@[j]@, now as int),
                forall|id: int|
                    (#[trigger] self@.dom().contains(id)) ==> table.dom().contains(id)
                        && self@[id] == table[id],
                forall|id: int|
                    (#[trigger] table.dom().contains(id)) && !is_expired(table[id], now as int)
                        ==> self@.dom().contains(id),
            decreases self.rows@.len() - i,
        {
            if self.rows[i].is_expired(now) {
                let ghost before = self.rows_view();
                let ghost key = before[i as int].key();
                proof {
                    lemma_remove_row(before, i as int);
                    lemma_row_in_map(before, i as int);
                    assert(self@.dom().contains(key));
                }
                let _ = self.rows.remove(i);
                proof {
                    assert(self.rows_view() =~= before.remove(i as int));
                }
                removed += 1;
            } else {
                i += 1;
            }
        }
        proof {
            let after = self@;
            assert forall|id: int| after.dom().contains(id) implies !is_expired(
                table[id],
                now as int,
            ) by {
                lemma_key_has_row(self.rows_view(), id);
            }
            lemma_table_size(self.rows_view());
            let gone = expired_ids(table, now as int);
            assert(after.dom() =~= table.dom().difference(gone));
            vstd::set_lib::lemma_len_subset(gone, table.dom());
            vstd::set_lib::lemma_set_difference_len(table.dom(), gone);
            assert(table.dom().intersect(gone) =~= gone);
        }
        Ok(removed)
    }
}

/// A saved record is read back under its id as it was saved, at any time
/// at which it is not expired.
pub proof fn lemma_save_then_load(
    table: Map<int, SessionRecordView>,
    record: SessionRecordView,
    now: int,
)
    requires
        !is_expired(record, now),
    ensures
        loaded(saved(table, record), record.id, now) == Some(record),
{
}

/// Saving a record changes no read of another id.
pub proof fn lemma_save_keeps_others(
    table: Map<int, SessionRecordView>,
    record: SessionRecordView,
    id: int,
    now: int,
)
    requires
        id != record.id,
    ensures
        loaded(saved(table, record), id, now) == loaded(table, id, now),
{
}

/// After a delete, a read of the id finds nothing, at any time.
pub proof fn lemma_delete_then_load(table: Map<int, SessionRecordView>, id: int, now: int)
    ensures
        loaded(deleted(table, id), id, now) is None,
{
}

/// Deleting twice is deleting once, and deleting an id that is not stored
/// changes nothing.
pub proof fn lemma_delete_idempotent(table: Map<int, SessionRecordView>, id: int)
    ensures
        deleted(deleted(table, id), id) == deleted(table, id),
        !table.dom().contains(id) ==> deleted(table, id) == table,
{
    if !table.dom().contains(id) {
    }
}

/// A stored record whose expiry lies before `now` cannot be read at `now`,
/// though no sweep has run.
pub proof fn lemma_expired_unreadable(table: Map<int, SessionRecordView>, id: int, now: int)
    requires
        table.dom().contains(id),
        is_expired(table[id], now),
    ensures
        loaded(table, id, now) is None,
{
}

/// A sweep removes the records with an expiry before `now` and no others,
/// and the records it leaves are unchanged.
pub proof fn lemma_sweep_removes_only_expired(table: Map<int, SessionRecordView>, now: int)
    ensures
        forall|id: int|
            (#[trigger] swept(table, now).dom().contains(id)) <==> table.dom().contains(id)
                && !is_expired(table[id], now),
        forall|id: int|
            (#[trigger] swept(table, now).dom().contains(id)) ==> swept(table, now)[id]
                == table[id],
{
}

/// No read tells whether a sweep has run: at any time from the sweep on, a
/// read gives the same with and without it.
pub proof fn lemma_sweep_unobservable(
    table: Map<int, SessionRecordView>,
    swept_at: int,
    id: int,
    now: int,
)
    requires
        swept_at <= now,
    ensures
        loaded(swept(table, swept_at), id, now) == loaded(table, id, now),
{
}

} // verus!

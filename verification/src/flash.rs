//! The flash channel: messages that ride in a session from one request to
//! the next and are shown once.

use vstd::prelude::*;
use crate::messages::MessageLevel;
use crate::messages::PageMessage;
use crate::messages::PageMessageView;
use crate::messages::level_text;
use crate::messages::message_views;
use crate::session_store::DatabaseSessionStore;
use crate::session_store::SessionDataView;
use crate::session_store::SessionRecordView;
use crate::session_store::loaded;
use crate::session_store::saved;
use crate::session_store::sessions_consistent;

verus! {

/// Why a message could not be queued.
#[derive(Clone, Copy, Debug, PartialEq, Eq, Structural)]
pub enum FlashError {
    /// No session can be read under the id.
    SessionAbsent,
}

/// A record with its waiting messages replaced.
pub open spec fn with_messages(
    record: SessionRecordView,
    messages: Seq<PageMessageView>,
) -> SessionRecordView {
    SessionRecordView {
        id: record.id,
        data: SessionDataView { user: record.data.user, messages },
        expiry: record.expiry,
    }
}

/// The messages that wait in the session `id` at `now`; none when the
/// session cannot be read.
pub open spec fn waiting(sessions: Map<int, SessionRecordView>, id: int, now: int) -> Seq<
    PageMessageView,
> {
    match loaded(sessions, id, now) {
        Some(record) => record.data.messages,
        None => Seq::empty(),
    }
}

/// The session table after `message` is queued in the session `id`.
pub open spec fn pushed(
    sessions: Map<int, SessionRecordView>,
    id: int,
    message: PageMessageView,
    now: int,
) -> Map<int, SessionRecordView> {
    match loaded(sessions, id, now) {
        Some(record) => saved(sessions, with_messages(record, record.data.messages.push(message))),
        None => sessions,
    }
}

/// The session table after the messages of the session `id` are taken.
pub open spec fn after_take(sessions: Map<int, SessionRecordView>, id: int, now: int) -> Map<
    int,
    SessionRecordView,
> {
    match loaded(sessions, id, now) {
        Some(record) => saved(sessions, with_messages(record, Seq::empty())),
        None => sessions,
    }
}

/// Queues a message behind those that wait in the session. The message
/// stays there until it is taken.
///
/// Fails with `SessionAbsent`, and changes nothing, when no session can be
/// read under the id at `now`.
pub fn push(
    store: &mut DatabaseSessionStore,
    session_id: &u128,
    level: MessageLevel,
    text: &str,
    now: i64,
) -> (r: Result<(), FlashError>)
    requires
        old(store).wf(),
    ensures
        final(store).wf(),
        final(store)@ == pushed(
            old(store)@,
            *session_id as int,
            PageMessageView { level: level_text(level), text: text@ },
            now as int,
        ),
        r is Ok <==> loaded(old(store)@, *session_id as int, now as int) is Some,
{
    match store.load(session_id, now) {
        Some(record) => {
            let mut record = record;
            record.data.messages.add(PageMessage::new(level, text));
            let _ = store.save(record);
            Ok(())
        },
        None => Err(FlashError::SessionAbsent),
    }
}

/// Hands out the messages that wait in the session, oldest first, and
/// clears them: a message is shown once.
///
/// A session that cannot be read at `now` has no messages, and nothing
/// changes.
pub fn take(store: &mut DatabaseSessionStore, session_id: &u128, now: i64) -> (messages: Vec<
    PageMessage,
>)
    requires
        old(store).wf(),
    ensures
        final(store).wf(),
        message_views(messages@) == waiting(old(store)@, *session_id as int, now as int),
        final(store)@ == after_take(old(store)@, *session_id as int, now as int),
{
    match store.load(session_id, now) {
        Some(record) => {
            let mut record = record;
            let messages = record.data.messages.take();
            let _ = store.save(record);
            messages
        },
        None => Vec::new(),
    }
}

/// Queuing a message and taking the messages touch nothing but the
/// messages of the one session: its binding and its expiry stay, and so
/// does every other session.
pub proof fn lemma_flash_keeps_sessions(
    sessions: Map<int, SessionRecordView>,
    id: int,
    message: PageMessageView,
    now: int,
    other: int,
)
    requires
        sessions_consistent(sessions),
    ensures
        pushed(sessions, id, message, now).dom() == sessions.dom(),
        after_take(sessions, id, now).dom() == sessions.dom(),
        sessions.dom().contains(id) ==> {
            &&& pushed(sessions, id, message, now)[id].expiry == sessions[id].expiry
            &&& pushed(sessions, id, message, now)[id].data.user == sessions[id].data.user
            &&& after_take(sessions, id, now)[id].expiry == sessions[id].expiry
            &&& after_take(sessions, id, now)[id].data.user == sessions[id].data.user
        },
        other != id && sessions.dom().contains(other) ==> {
            &&& pushed(sessions, id, message, now)[other] == sessions[other]
            &&& after_take(sessions, id, now)[other] == sessions[other]
        },
{
    assert(pushed(sessions, id, message, now).dom() =~= sessions.dom());
    assert(after_take(sessions, id, now).dom() =~= sessions.dom());
}

/// Once taken, the messages of a session are gone: a second take, at the
/// same time or later, finds none.
pub proof fn lemma_taken_messages_are_gone(
    sessions: Map<int, SessionRecordView>,
    id: int,
    now: int,
    later: int,
)
    requires
        sessions_consistent(sessions),
        now <= later,
    ensures
        waiting(after_take(sessions, id, now), id, later) == Seq::<PageMessageView>::empty(),
{
}

/// A queued message waits behind the earlier ones until it is taken.
pub proof fn lemma_pushed_message_waits(
    sessions: Map<int, SessionRecordView>,
    id: int,
    message: PageMessageView,
    now: int,
)
    requires
        sessions_consistent(sessions),
        loaded(sessions, id, now) is Some,
    ensures
        waiting(pushed(sessions, id, message, now), id, now) == waiting(sessions, id, now).push(
            message,
        ),
{
}

} // verus!

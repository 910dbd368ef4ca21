use auth_core::flash::push;
use auth_core::flash::take;
use auth_core::flash::FlashError;
use auth_core::messages::MessageLevel;
use auth_core::session_store::DatabaseSessionStore;
use auth_core::session_store::SessionData;
use auth_core::session_store::SessionRecord;

fn store_with_session(id: u128, expiry: i64) -> DatabaseSessionStore {
    let mut store = DatabaseSessionStore::new();
    store.save(SessionRecord { id, data: SessionData::new(), expiry }).unwrap();
    store
}

#[test]
fn pushed_messages_are_taken_in_order() {
    let mut store = store_with_session(1, 1_000);
    push(&mut store, &1, MessageLevel::Success, "Signed in", 10).unwrap();
    push(&mut store, &1, MessageLevel::Error, "Something failed", 11).unwrap();
    let messages = take(&mut store, &1, 12);
    assert_eq!(messages.len(), 2);
    assert_eq!(messages[0].level, "success");
    assert_eq!(messages[0].text, "Signed in");
    assert_eq!(messages[1].level, "error");
    assert_eq!(messages[1].text, "Something failed");
}

#[test]
fn message_is_shown_exactly_once() {
    let mut store = store_with_session(1, 1_000);
    push(&mut store, &1, MessageLevel::Success, "once", 10).unwrap();
    assert_eq!(take(&mut store, &1, 11).len(), 1);
    assert_eq!(take(&mut store, &1, 11).len(), 0);
    assert_eq!(take(&mut store, &1, 500).len(), 0);
}

#[test]
fn message_stays_until_it_is_read() {
    let mut store = store_with_session(1, 1_000);
    push(&mut store, &1, MessageLevel::Success, "durable", 10).unwrap();
    assert_eq!(store.load(&1, 900).unwrap().data.messages.len(), 1);
    let messages = take(&mut store, &1, 1_000);
    assert_eq!(messages.len(), 1);
    assert_eq!(messages[0].text, "durable");
}

#[test]
fn push_keeps_binding_and_expiry_of_the_session() {
    let mut store = store_with_session(1, 1_000);
    push(&mut store, &1, MessageLevel::Success, "hello", 10).unwrap();
    let record = store.load(&1, 10).unwrap();
    assert_eq!(record.expiry, 1_000);
    assert!(record.data.user.is_none());
    assert_eq!(store.len(), 1);
}

#[test]
fn push_into_absent_session_fails_and_stores_nothing() {
    let mut store = store_with_session(1, 1_000);
    let outcome = push(&mut store, &2, MessageLevel::Error, "lost", 10);
    assert_eq!(outcome.unwrap_err(), FlashError::SessionAbsent);
    assert_eq!(store.len(), 1);
    assert!(store.load(&1, 10).unwrap().data.messages.is_empty());
}

#[test]
fn push_into_expired_session_fails() {
    let mut store = store_with_session(1, 1_000);
    let outcome = push(&mut store, &1, MessageLevel::Error, "late", 1_001);
    assert_eq!(outcome.unwrap_err(), FlashError::SessionAbsent);
    assert!(push(&mut store, &1, MessageLevel::Error, "in time", 1_000).is_ok());
}

#[test]
fn take_from_absent_or_expired_session_gives_nothing() {
    let mut store = store_with_session(1, 1_000);
    push(&mut store, &1, MessageLevel::Success, "kept", 10).unwrap();
    assert!(take(&mut store, &2, 10).is_empty());
    assert!(take(&mut store, &1, 1_001).is_empty());
    assert_eq!(take(&mut store, &1, 1_000).len(), 1);
}

#[test]
fn sessions_do_not_share_messages() {
    let mut store = store_with_session(1, 1_000);
    store.save(SessionRecord { id: 2, data: SessionData::new(), expiry: 1_000 }).unwrap();
    push(&mut store, &1, MessageLevel::Success, "for one", 10).unwrap();
    assert!(take(&mut store, &2, 10).is_empty());
    let messages = take(&mut store, &1, 10);
    assert_eq!(messages.len(), 1);
    assert_eq!(messages[0].text, "for one");
}

use auth_core::password::verify;
use auth_core::password::HashError;
use auth_core::users::create_user;
use auth_core::users::get_user_by_email;
use auth_core::users::get_user_by_id;
use auth_core::users::store_hashed;
use auth_core::users::user_exists;
use auth_core::users::CreateUserData;
use auth_core::users::CreateUserError;
use auth_core::users::StoreError;
use auth_core::users::UserTable;

fn table_with(emails: &[&str]) -> UserTable {
    let mut table = UserTable::new();
    for email in emails {
        table.insert(email.to_string(), format!("hash-of-{}", email)).unwrap();
    }
    table
}

#[test]
fn new_table_is_empty() {
    let table = UserTable::new();
    assert!(!user_exists(&table, "alice@example.com"));
    assert!(get_user_by_email(&table, "alice@example.com").is_none());
    assert!(get_user_by_id(&table, 1).is_none());
}

#[test]
fn insert_hands_out_ids_from_one() {
    let mut table = UserTable::new();
    let alice = table.insert("alice@example.com".to_string(), "h1".to_string()).unwrap();
    let bob = table.insert("bob@example.com".to_string(), "h2".to_string()).unwrap();
    assert_eq!(alice.id, 1);
    assert_eq!(alice.email, "alice@example.com");
    assert_eq!(alice.password_hash, "h1");
    assert_eq!(bob.id, 2);
    assert_eq!(bob.email, "bob@example.com");
    assert_eq!(bob.password_hash, "h2");
}

#[test]
fn insert_refuses_taken_email_with_conflict() {
    let mut table = table_with(&["alice@example.com"]);
    let second = table.insert("alice@example.com".to_string(), "other".to_string());
    assert_eq!(second.unwrap_err(), StoreError::Conflict);
    let stored = get_user_by_email(&table, "alice@example.com").unwrap();
    assert_eq!(stored.id, 1);
    assert_eq!(stored.password_hash, "hash-of-alice@example.com");
    let next = table.insert("carol@example.com".to_string(), "h".to_string()).unwrap();
    assert_eq!(next.id, 2);
}

#[test]
fn lookup_by_email_is_exact() {
    let table = table_with(&["alice@example.com", "bob@example.com"]);
    assert!(user_exists(&table, "alice@example.com"));
    assert!(!user_exists(&table, "a"));
    assert!(!user_exists(&table, "alice"));
    assert!(!user_exists(&table, "alice@example.co"));
    assert!(!user_exists(&table, "Alice@example.com"));
    assert!(!user_exists(&table, ""));
    assert!(get_user_by_email(&table, "a").is_none());
    assert!(get_user_by_email(&table, "example.com").is_none());
    let bob = get_user_by_email(&table, "bob@example.com").unwrap();
    assert_eq!(bob.id, 2);
    assert_eq!(bob.email, "bob@example.com");
}

#[test]
fn lookup_by_id_finds_the_account() {
    let table = table_with(&["alice@example.com", "bob@example.com"]);
    let alice = get_user_by_id(&table, 1).unwrap();
    assert_eq!(alice.email, "alice@example.com");
    let bob = get_user_by_id(&table, 2).unwrap();
    assert_eq!(bob.email, "bob@example.com");
    assert!(get_user_by_id(&table, 3).is_none());
    assert!(get_user_by_id(&table, 0).is_none());
    assert!(get_user_by_id(&table, -1).is_none());
}

#[test]
fn create_user_stores_a_hash_and_not_the_password() {
    let mut table = UserTable::new();
    let data = CreateUserData {
        email: "alice@example.com".to_string(),
        password: "correct horse".to_string(),
    };
    let user = create_user(&mut table, data).unwrap();
    assert_eq!(user.id, 1);
    assert_eq!(user.email, "alice@example.com");
    assert_ne!(user.password_hash, "correct horse");
    assert!(verify("correct horse", &user.password_hash));
    assert!(!verify("wrong horse", &user.password_hash));
    let stored = get_user_by_email(&table, "alice@example.com").unwrap();
    assert_eq!(stored.id, 1);
    assert_eq!(stored.password_hash, user.password_hash);
}

#[test]
fn create_user_reports_taken_email_as_save_error() {
    let mut table = table_with(&["alice@example.com"]);
    let data = CreateUserData {
        email: "alice@example.com".to_string(),
        password: "correct horse".to_string(),
    };
    match create_user(&mut table, data) {
        Err(CreateUserError::SaveUser(StoreError::Conflict)) => {}
        other => panic!("unexpected outcome: {:?}", other),
    }
    let stored = get_user_by_email(&table, "alice@example.com").unwrap();
    assert_eq!(stored.password_hash, "hash-of-alice@example.com");
}

#[test]
fn store_hashed_reports_a_failed_hash() {
    let mut table = UserTable::new();
    let outcome = store_hashed(&mut table, "alice@example.com".to_string(), Err(HashError::Hashing));
    match outcome {
        Err(CreateUserError::HashPassword(HashError::Hashing)) => {}
        other => panic!("unexpected outcome: {:?}", other),
    }
    assert!(!user_exists(&table, "alice@example.com"));
    let outcome = store_hashed(&mut table, "alice@example.com".to_string(), Err(HashError::Salt));
    match outcome {
        Err(CreateUserError::HashPassword(HashError::Salt)) => {}
        other => panic!("unexpected outcome: {:?}", other),
    }
}

#[test]
fn store_hashed_stores_the_given_hash() {
    let mut table = UserTable::new();
    let user = store_hashed(&mut table, "alice@example.com".to_string(), Ok("the-hash".to_string()))
        .unwrap();
    assert_eq!(user.id, 1);
    assert_eq!(user.password_hash, "the-hash");
    let again = store_hashed(&mut table, "alice@example.com".to_string(), Ok("x".to_string()));
    match again {
        Err(CreateUserError::SaveUser(StoreError::Conflict)) => {}
        other => panic!("unexpected outcome: {:?}", other),
    }
}

#[test]
fn record_clone_keeps_all_fields() {
    let table = table_with(&["alice@example.com"]);
    let alice = get_user_by_id(&table, 1).unwrap();
    let copy = alice.clone();
    assert_eq!(copy.id, alice.id);
    assert_eq!(copy.email, alice.email);
    assert_eq!(copy.password_hash, alice.password_hash);
}

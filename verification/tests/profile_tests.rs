use auth_core::auth_session::AuthSession;
use auth_core::backend::User;
use auth_core::forms::FieldError;
use auth_core::forms::FormErrors;
use auth_core::messages::PageMessage;
use auth_core::navbar::NavbarTemplateData;
use auth_core::page::PageTemplate;
use auth_core::profile::get_profile_page;
use auth_core::profile::get_user_profile;
use auth_core::profile::post_profile_page;
use auth_core::profile::profile_reply;
use auth_core::profile::save_user_profile;
use auth_core::profile::GetUserProfileResult;
use auth_core::profile::ProfileAttempt;
use auth_core::profile::ProfileForm;
use auth_core::profile::ProfilePage;
use auth_core::profile::ProfileTable;
use auth_core::profile::SaveUserProfileData;
use auth_core::reply::Reply;
use auth_core::users::UserRecord;

fn signed_in(id: i32) -> AuthSession {
    let user = User::from_record(&UserRecord {
        id,
        email: "alice@example.com".to_string(),
        password_hash: "hash".to_string(),
    });
    AuthSession { user: Some(user), session_id: Some(1) }
}

fn save(table: &mut ProfileTable, user_id: i32, name: &str) {
    save_user_profile(table, user_id, SaveUserProfileData { display_name: name.to_string() })
        .unwrap();
}

fn page_of(reply: Reply<ProfilePage>) -> PageTemplate<ProfilePage> {
    match reply {
        Reply::Page(page) => page,
        _ => panic!("expected a page"),
    }
}

fn messages_of(page: &mut PageTemplate<ProfilePage>) -> Vec<PageMessage> {
    match page.messages.as_mut() {
        Some(messages) => messages.take(),
        None => Vec::new(),
    }
}

#[test]
fn profile_is_absent_until_saved() {
    let table = ProfileTable::new();
    assert!(get_user_profile(&table, 1).is_none());
}

#[test]
fn saved_profile_is_read_back() {
    let mut table = ProfileTable::new();
    save(&mut table, 1, "Alice");
    save(&mut table, 2, "Bob");
    assert_eq!(get_user_profile(&table, 1).unwrap().display_name, "Alice");
    assert_eq!(get_user_profile(&table, 2).unwrap().display_name, "Bob");
    assert!(get_user_profile(&table, 3).is_none());
}

#[test]
fn saving_again_replaces_the_profile() {
    let mut table = ProfileTable::new();
    save(&mut table, 1, "Alice");
    save(&mut table, 2, "Bob");
    save(&mut table, 1, "Alice Liddell");
    assert_eq!(get_user_profile(&table, 1).unwrap().display_name, "Alice Liddell");
    assert_eq!(get_user_profile(&table, 2).unwrap().display_name, "Bob");
}

#[test]
fn forms_and_stored_data_convert() {
    let form = ProfileForm::from(GetUserProfileResult { display_name: "Alice".to_string() });
    assert_eq!(form.display_name, "Alice");
    let data = SaveUserProfileData::from(form.clone());
    assert_eq!(data.display_name, "Alice");
    assert_eq!(ProfileForm::default().display_name, "");
}

#[test]
fn profile_form_needs_a_display_name() {
    let errors = ProfileForm { display_name: String::new() }.get_errors();
    assert_eq!(errors.display_name, Some(FieldError::DisplayNameRequired));
    assert_eq!(errors.email, None);
    let errors = ProfileForm { display_name: "A".to_string() }.get_errors();
    assert!(errors.is_empty());
}

#[test]
fn get_profile_page_shows_stored_name() {
    let mut table = ProfileTable::new();
    save(&mut table, 7, "Alice");
    let mut page = page_of(get_profile_page(&table, &signed_in(7)));
    assert_eq!(page.template_name, "user/profile");
    assert_eq!(page.navbar, NavbarTemplateData::new(true));
    assert!(messages_of(&mut page).is_empty());
    let data = page.content.unwrap();
    assert_eq!(data.form.display_name, "Alice");
    assert!(data.errors.is_empty());
}

#[test]
fn get_profile_page_shows_empty_form_without_profile() {
    let table = ProfileTable::new();
    let page = page_of(get_profile_page(&table, &signed_in(7)));
    assert_eq!(page.content.unwrap().form.display_name, "");
}

#[test]
fn profile_pages_send_anonymous_visitor_to_login() {
    let mut table = ProfileTable::new();
    match get_profile_page(&table, &AuthSession::anonymous()) {
        Reply::Redirect(url) => assert_eq!(url, "/login?next=/user/profile"),
        _ => panic!("expected a redirect"),
    }
    let form = ProfileForm { display_name: "Mallory".to_string() };
    match post_profile_page(&mut table, &AuthSession::anonymous(), form) {
        Reply::Redirect(url) => assert_eq!(url, "/login?next=/user/profile"),
        _ => panic!("expected a redirect"),
    }
    assert!(get_user_profile(&table, 1).is_none());
}

#[test]
fn post_profile_page_saves_and_confirms() {
    let mut table = ProfileTable::new();
    let form = ProfileForm { display_name: "Alice".to_string() };
    let mut page = page_of(post_profile_page(&mut table, &signed_in(7), form));
    assert_eq!(page.template_name, "user/profile");
    let messages = messages_of(&mut page);
    assert_eq!(messages.len(), 1);
    assert_eq!(messages[0].level, "success");
    assert_eq!(messages[0].text, "Profile updated");
    let data = page.content.unwrap();
    assert_eq!(data.form.display_name, "Alice");
    assert!(data.errors.is_empty());
    assert_eq!(get_user_profile(&table, 7).unwrap().display_name, "Alice");
}

#[test]
fn post_profile_page_with_empty_name_stores_nothing() {
    let mut table = ProfileTable::new();
    save(&mut table, 7, "Alice");
    let form = ProfileForm { display_name: String::new() };
    let mut page = page_of(post_profile_page(&mut table, &signed_in(7), form));
    assert!(messages_of(&mut page).is_empty());
    let data = page.content.unwrap();
    assert_eq!(data.errors.display_name, Some(FieldError::DisplayNameRequired));
    assert_eq!(get_user_profile(&table, 7).unwrap().display_name, "Alice");
}

#[test]
fn profile_reply_reports_a_failed_save() {
    let form = ProfileForm { display_name: "Alice".to_string() };
    let mut page = page_of(profile_reply(ProfileAttempt::Failed, form));
    let messages = messages_of(&mut page);
    assert_eq!(messages.len(), 1);
    assert_eq!(messages[0].level, "error");
    assert_eq!(messages[0].text, "Failed to save user profile");
    assert_eq!(page.content.unwrap().form.display_name, "Alice");
}

#[test]
fn profile_reply_for_invalid_form_carries_the_errors() {
    let mut errors = FormErrors::new();
    errors.display_name = Some(FieldError::DisplayNameRequired);
    let form = ProfileForm { display_name: String::new() };
    let page = page_of(profile_reply(ProfileAttempt::Invalid(errors), form));
    assert_eq!(page.content.unwrap().errors, errors);
}

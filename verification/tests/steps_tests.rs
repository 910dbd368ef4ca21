use auth_core::auth_session::SessionError;
use auth_core::backend::AuthError;
use auth_core::backend::User;
use auth_core::cookie::session_cookie;
use auth_core::cookie::SameSite;
use auth_core::forms::FieldError;
use auth_core::forms::LoginForm;
use auth_core::forms::RegisterForm;
use auth_core::login::login_authenticated;
use auth_core::login::login_session_opened;
use auth_core::login::login_submitted;
use auth_core::login::render_login_page;
use auth_core::login::LoginAttempt;
use auth_core::login::LoginStep;
use auth_core::navbar::NavbarTemplateData;
use auth_core::page::LayoutMiddleware;
use auth_core::password::hash_with_salt;
use auth_core::profile::profile_saved;
use auth_core::profile::profile_submitted;
use auth_core::profile::ProfileAttempt;
use auth_core::profile::ProfileForm;
use auth_core::profile::ProfileStep;
use auth_core::register::register_created;
use auth_core::register::register_email_checked;
use auth_core::register::register_submitted;
use auth_core::register::render_register_page;
use auth_core::register::RegisterAttempt;
use auth_core::register::RegisterPageData;
use auth_core::register::RegisterStep;
use auth_core::session_store::expired_at;
use auth_core::users::authenticate_user;
use auth_core::users::StoreError;
use auth_core::users::UserRecord;
use auth_core::users::UserTable;

fn identity(id: i32) -> User {
    User::from_record(&UserRecord { id, email: String::new(), password_hash: "h".to_string() })
}

#[test]
fn login_starts_with_the_lookup_of_a_valid_form() {
    let form = LoginForm { email: "alice@example.com".to_string(), password: "pw".to_string() };
    match login_submitted(&form) {
        LoginStep::Authenticate(credentials) => {
            assert_eq!(credentials.email, "alice@example.com");
            assert_eq!(credentials.password, "pw");
        }
        _ => panic!("expected a lookup"),
    }
}

#[test]
fn login_ends_at_once_for_an_invalid_form() {
    let form = LoginForm { email: "alice".to_string(), password: "pw".to_string() };
    match login_submitted(&form) {
        LoginStep::Done(LoginAttempt::Invalid(errors)) => {
            assert_eq!(errors.email, Some(FieldError::InvalidEmail));
            assert_eq!(errors.password, None);
        }
        _ => panic!("expected the attempt to end"),
    }
}

#[test]
fn login_goes_on_by_what_the_backend_found() {
    match login_authenticated(Ok(Some(identity(4)))) {
        LoginStep::OpenSession(user) => assert_eq!(user.id(), 4),
        _ => panic!("expected a session to be opened"),
    }
    match login_authenticated(Ok(None)) {
        LoginStep::Done(attempt) => assert_eq!(attempt, LoginAttempt::Rejected),
        _ => panic!("expected the attempt to end"),
    }
    match login_authenticated(Err(AuthError::BackendFailure)) {
        LoginStep::Done(attempt) => assert_eq!(attempt, LoginAttempt::BackendFailed),
        _ => panic!("expected the attempt to end"),
    }
}

#[test]
fn login_ends_by_whether_the_session_was_opened() {
    assert_eq!(login_session_opened(Ok(())), LoginAttempt::SignedIn);
    assert_eq!(login_session_opened(Err(SessionError::IdInUse)), LoginAttempt::SessionFailed);
    assert_eq!(login_session_opened(Err(SessionError::NoRandomness)), LoginAttempt::SessionFailed);
    assert_eq!(
        login_session_opened(Err(SessionError::Store(StoreError::Backend))),
        LoginAttempt::SessionFailed
    );
}

#[test]
fn login_page_is_rendered_in_the_layout() {
    let mut layout = LayoutMiddleware::new(false);
    layout.add_error_message("shown");
    let form = LoginForm { email: "a@b.c".to_string(), password: "pw".to_string() };
    let mut page = render_login_page(&layout, Some("/next".to_string()), form, None);
    assert_eq!(page.template_name, "auth/login");
    assert_eq!(page.navbar, NavbarTemplateData::new(false));
    let messages = page.messages.as_mut().unwrap().take();
    assert_eq!(messages.len(), 1);
    assert_eq!(messages[0].text, "shown");
    let data = page.content.unwrap();
    assert_eq!(data.form.email, "a@b.c");
    assert_eq!(data.next_url, Some("/next".to_string()));
    assert!(data.errors.is_none());
}

#[test]
fn register_steps_follow_the_form_and_the_lookup() {
    let form = RegisterForm {
        email: "alice@example.com".to_string(),
        password: "12345678".to_string(),
        confirm_password: "12345678".to_string(),
    };
    match register_submitted(&form) {
        RegisterStep::CheckEmail(email) => assert_eq!(email, "alice@example.com"),
        _ => panic!("expected the email to be looked up"),
    }
    match register_email_checked(false, &form) {
        RegisterStep::Create(data) => {
            assert_eq!(data.email, "alice@example.com");
            assert_eq!(data.password, "12345678");
        }
        _ => panic!("expected the account to be created"),
    }
    match register_email_checked(true, &form) {
        RegisterStep::Done(attempt) => assert_eq!(attempt, RegisterAttempt::Exists),
        _ => panic!("expected the attempt to end"),
    }
    assert_eq!(register_created(true), RegisterAttempt::Created);
    assert_eq!(register_created(false), RegisterAttempt::Failed);
}

#[test]
fn register_ends_at_once_for_an_invalid_form() {
    let form = RegisterForm {
        email: "alice@example.com".to_string(),
        password: "12345678".to_string(),
        confirm_password: String::new(),
    };
    match register_submitted(&form) {
        RegisterStep::Done(RegisterAttempt::Invalid(errors)) => {
            assert_eq!(errors.confirm_password, Some(FieldError::ConfirmPasswordRequired));
            assert_eq!(errors.email, None);
            assert_eq!(errors.password, None);
        }
        _ => panic!("expected the attempt to end"),
    }
}

#[test]
fn register_page_is_rendered_without_messages() {
    let page = render_register_page(true, RegisterPageData::default());
    assert_eq!(page.template_name, "auth/register");
    assert_eq!(page.navbar, NavbarTemplateData::new(true));
    assert!(page.messages.is_none());
    assert_eq!(page.content.unwrap().form.email, "");
}

#[test]
fn profile_steps_follow_the_form_and_the_store() {
    match profile_submitted(&ProfileForm { display_name: "Alice".to_string() }) {
        ProfileStep::Save(data) => assert_eq!(data.display_name, "Alice"),
        ProfileStep::Done(_) => panic!("expected the profile to be saved"),
    }
    match profile_submitted(&ProfileForm { display_name: String::new() }) {
        ProfileStep::Done(ProfileAttempt::Invalid(errors)) => {
            assert_eq!(errors.display_name, Some(FieldError::DisplayNameRequired))
        }
        _ => panic!("expected the attempt to end"),
    }
    assert_eq!(profile_saved(Ok(())), ProfileAttempt::Saved);
    assert_eq!(profile_saved(Err(StoreError::Backend)), ProfileAttempt::Failed);
    assert_eq!(profile_saved(Err(StoreError::Conflict)), ProfileAttempt::Failed);
}

#[test]
fn authenticate_user_needs_exact_email_and_right_password() {
    let mut table = UserTable::new();
    let encoded = hash_with_salt("correct horse", &[3u8; 16]).unwrap();
    table.insert("alice@example.com".to_string(), encoded.clone()).unwrap();
    table.insert("bob@example.com".to_string(), "corrupt".to_string()).unwrap();
    let alice = authenticate_user(&table, "alice@example.com", "correct horse").unwrap();
    assert_eq!(alice.id, 1);
    assert_eq!(alice.password_hash, encoded);
    assert!(authenticate_user(&table, "alice@example.com", "wrong horse").is_none());
    assert!(authenticate_user(&table, "a", "correct horse").is_none());
    assert!(authenticate_user(&table, "missing@x.com", "correct horse").is_none());
    assert!(authenticate_user(&table, "bob@example.com", "corrupt").is_none());
}

#[test]
fn session_cookie_is_always_kept_from_scripts() {
    let secure = session_cookie(true);
    assert!(secure.http_only);
    assert!(secure.secure);
    assert_eq!(secure.path, "/");
    assert_eq!(secure.same_site, SameSite::Lax);
    let plain = session_cookie(false);
    assert!(plain.http_only);
    assert!(!plain.secure);
    assert_eq!(plain.path, "/");
    assert_eq!(plain.same_site, SameSite::Lax);
}

#[test]
fn expiry_before_now_is_expired() {
    assert!(expired_at(99, 100));
    assert!(!expired_at(100, 100));
    assert!(!expired_at(101, 100));
    assert!(expired_at(i64::MIN, i64::MAX));
    assert!(!expired_at(i64::MAX, i64::MIN));
}

use auth_core::auth_session::AuthSession;
use auth_core::auth_session::SessionError;
use auth_core::backend::Backend;
use auth_core::forms::FieldError;
use auth_core::forms::FormErrors;
use auth_core::forms::LoginForm;
use auth_core::forms::NextUrl;
use auth_core::login::attempt_login;
use auth_core::login::get_login;
use auth_core::login::get_logout;
use auth_core::login::invalid_when_signed_in;
use auth_core::login::login_reply;
use auth_core::login::login_required;
use auth_core::login::logout_reply;
use auth_core::login::post_login;
use auth_core::login::Access;
use auth_core::login::LoginAttempt;
use auth_core::login::LoginPageData;
use auth_core::messages::PageMessage;
use auth_core::navbar::NavbarTemplateData;
use auth_core::page::LayoutMiddleware;
use auth_core::page::PageTemplate;
use auth_core::reply::Reply;
use auth_core::session_store::DatabaseSessionStore;
use auth_core::session_store::SessionData;
use auth_core::session_store::SessionRecord;
use auth_core::site::get_protected;
use auth_core::users::create_user;
use auth_core::users::CreateUserData;
use auth_core::users::UserTable;

fn backend_with_alice() -> Backend {
    let mut table = UserTable::new();
    let data = CreateUserData {
        email: "alice@example.com".to_string(),
        password: "correct horse".to_string(),
    };
    create_user(&mut table, data).unwrap();
    Backend::new(table)
}

fn form(email: &str, password: &str) -> LoginForm {
    LoginForm { email: email.to_string(), password: password.to_string() }
}

fn next(url: Option<&str>) -> NextUrl {
    NextUrl { next: url.map(|u| u.to_string()) }
}

fn page_of(reply: Reply<LoginPageData>) -> PageTemplate<LoginPageData> {
    match reply {
        Reply::Page(page) => page,
        Reply::Redirect(url) => panic!("redirect to {}", url),
        Reply::Text(text) => panic!("text {}", text),
        Reply::ServerError(text) => panic!("server error {}", text),
    }
}

fn redirect_of<T>(reply: Reply<T>) -> String {
    match reply {
        Reply::Redirect(url) => url,
        Reply::Page(page) => panic!("page {}", page.template_name),
        Reply::Text(text) => panic!("text {}", text),
        Reply::ServerError(text) => panic!("server error {}", text),
    }
}

fn messages_of<T>(page: &mut PageTemplate<T>) -> Vec<PageMessage> {
    match page.messages.as_mut() {
        Some(messages) => messages.take(),
        None => Vec::new(),
    }
}

#[test]
fn login_reply_redirects_to_next_after_sign_in() {
    let reply = login_reply(
        LayoutMiddleware::new(false),
        LoginAttempt::SignedIn,
        form("alice@example.com", "correct horse"),
        next(Some("/user/profile")),
    );
    assert_eq!(redirect_of(reply), "/user/profile");
}

#[test]
fn login_reply_redirects_to_root_without_next() {
    let reply = login_reply(
        LayoutMiddleware::new(false),
        LoginAttempt::SignedIn,
        form("alice@example.com", "correct horse"),
        next(None),
    );
    assert_eq!(redirect_of(reply), "/");
}

#[test]
fn login_reply_redirects_to_root_for_empty_next() {
    let reply = login_reply(
        LayoutMiddleware::new(false),
        LoginAttempt::SignedIn,
        form("alice@example.com", "correct horse"),
        next(Some("")),
    );
    assert_eq!(redirect_of(reply), "/");
}

#[test]
fn login_reply_shows_form_errors() {
    let mut errors = FormErrors::new();
    errors.email = Some(FieldError::InvalidEmail);
    let reply = login_reply(
        LayoutMiddleware::new(false),
        LoginAttempt::Invalid(errors),
        form("alice", "pw"),
        next(Some("/protected")),
    );
    let mut page = page_of(reply);
    assert_eq!(page.template_name, "auth/login");
    assert_eq!(page.navbar, NavbarTemplateData::new(false));
    let messages = messages_of(&mut page);
    assert_eq!(messages.len(), 1);
    assert_eq!(messages[0].level, "error");
    assert_eq!(messages[0].text, "Please fix the errors above");
    let data = page.content.unwrap();
    assert_eq!(data.form.email, "alice");
    assert_eq!(data.form.password, "pw");
    assert_eq!(data.errors, Some(errors));
    assert_eq!(data.next_url, Some("/protected".to_string()));
}

#[test]
fn login_reply_gives_one_message_for_rejected_credentials() {
    let reply = login_reply(
        LayoutMiddleware::new(false),
        LoginAttempt::Rejected,
        form("alice@example.com", "wrong"),
        next(None),
    );
    let mut page = page_of(reply);
    let messages = messages_of(&mut page);
    assert_eq!(messages.len(), 1);
    assert_eq!(messages[0].level, "error");
    assert_eq!(messages[0].text, "Invalid email or password");
    let data = page.content.unwrap();
    assert_eq!(data.form.email, "alice@example.com");
    assert_eq!(data.errors, None);
    assert_eq!(data.next_url, None);
}

#[test]
fn login_reply_reports_failures_as_internal_errors() {
    let reply = login_reply(
        LayoutMiddleware::new(false),
        LoginAttempt::BackendFailed,
        form("alice@example.com", "pw"),
        next(None),
    );
    let mut page = page_of(reply);
    let messages = messages_of(&mut page);
    assert_eq!(messages[0].text, "Internal Error: Failed to authenticate user, try again later");
    assert_eq!(messages[0].level, "error");
    let reply = login_reply(
        LayoutMiddleware::new(false),
        LoginAttempt::SessionFailed,
        form("alice@example.com", "pw"),
        next(None),
    );
    let mut page = page_of(reply);
    let messages = messages_of(&mut page);
    assert_eq!(messages[0].text, "Internal Error: Failed to login user, try again later");
    assert_eq!(messages[0].level, "error");
}

#[test]
fn login_reply_keeps_earlier_messages_of_the_layout() {
    let mut layout = LayoutMiddleware::new(false);
    layout.add_success_message("earlier");
    let reply = login_reply(layout, LoginAttempt::Rejected, form("a@b.c", "pw"), next(None));
    let mut page = page_of(reply);
    let messages = messages_of(&mut page);
    assert_eq!(messages.len(), 2);
    assert_eq!(messages[0].text, "earlier");
    assert_eq!(messages[0].level, "success");
    assert_eq!(messages[1].text, "Invalid email or password");
}

#[test]
fn attempt_with_invalid_form_looks_nothing_up() {
    let backend = backend_with_alice();
    let mut store = DatabaseSessionStore::new();
    let mut session = AuthSession::anonymous();
    let attempt = attempt_login(&mut session, &backend, &mut store, &form("", ""), 1_000);
    let mut expected = FormErrors::new();
    expected.email = Some(FieldError::EmailRequired);
    expected.password = Some(FieldError::PasswordRequired);
    assert_eq!(attempt, LoginAttempt::Invalid(expected));
    assert!(session.user.is_none());
    assert_eq!(store.len(), 0);
}

#[test]
fn attempt_with_unknown_email_and_wrong_password_look_the_same() {
    let backend = backend_with_alice();
    let mut store = DatabaseSessionStore::new();
    let mut session = AuthSession::anonymous();
    let unknown =
        attempt_login(&mut session, &backend, &mut store, &form("missing@x.com", "pw"), 1_000);
    let wrong =
        attempt_login(&mut session, &backend, &mut store, &form("alice@example.com", "pw"), 1_000);
    assert_eq!(unknown, LoginAttempt::Rejected);
    assert_eq!(wrong, LoginAttempt::Rejected);
    assert!(session.user.is_none());
    assert!(session.session_id.is_none());
    assert_eq!(store.len(), 0);
}

#[test]
fn attempt_with_right_credentials_signs_in() {
    let backend = backend_with_alice();
    let mut store = DatabaseSessionStore::new();
    let mut session = AuthSession::anonymous();
    let attempt = attempt_login(
        &mut session,
        &backend,
        &mut store,
        &form("alice@example.com", "correct horse"),
        1_000,
    );
    assert_eq!(attempt, LoginAttempt::SignedIn);
    assert_eq!(session.user.as_ref().unwrap().id(), 1);
    let id = session.session_id.unwrap();
    let record = store.load(&id, 1_000).unwrap();
    assert_eq!(record.expiry, 2_800);
    assert_eq!(record.data.user.unwrap().id(), 1);
    assert_eq!(store.len(), 1);
}

#[test]
fn post_login_signs_in_and_redirects() {
    let backend = backend_with_alice();
    let mut store = DatabaseSessionStore::new();
    store.save(SessionRecord { id: 5, data: SessionData::new(), expiry: 9_000 }).unwrap();
    let mut session = AuthSession::from_session(&mut store, &backend, Some(5), 1_000);
    let reply = post_login(
        LayoutMiddleware::new(false),
        &mut session,
        &backend,
        &mut store,
        next(Some("/protected")),
        form("alice@example.com", "correct horse"),
        1_000,
    );
    assert_eq!(redirect_of(reply), "/protected");
    let id = session.session_id.unwrap();
    assert_ne!(id, 5);
    assert!(!store.contains(&5));
    let resolved = AuthSession::from_session(&mut store, &backend, Some(id), 1_001);
    assert_eq!(resolved.user.unwrap().id(), 1);
}

#[test]
fn post_login_with_wrong_password_stays_anonymous() {
    let backend = backend_with_alice();
    let mut store = DatabaseSessionStore::new();
    let mut session = AuthSession::anonymous();
    let reply = post_login(
        LayoutMiddleware::new(false),
        &mut session,
        &backend,
        &mut store,
        next(Some("/protected")),
        form("alice@example.com", "wrong horse"),
        1_000,
    );
    let mut page = page_of(reply);
    assert_eq!(page.template_name, "auth/login");
    let messages = messages_of(&mut page);
    assert_eq!(messages.len(), 1);
    assert_eq!(messages[0].text, "Invalid email or password");
    let data = page.content.unwrap();
    assert_eq!(data.next_url, Some("/protected".to_string()));
    assert_eq!(data.form.email, "alice@example.com");
    assert!(session.user.is_none());
    assert_eq!(store.len(), 0);
}

#[test]
fn post_login_with_unknown_email_gives_the_same_answer() {
    let backend = backend_with_alice();
    let mut store = DatabaseSessionStore::new();
    let mut session = AuthSession::anonymous();
    let reply = post_login(
        LayoutMiddleware::new(false),
        &mut session,
        &backend,
        &mut store,
        next(None),
        form("missing@x.com", "wrong horse"),
        1_000,
    );
    let mut page = page_of(reply);
    let messages = messages_of(&mut page);
    assert_eq!(messages.len(), 1);
    assert_eq!(messages[0].text, "Invalid email or password");
    assert_eq!(messages[0].level, "error");
    assert!(page.content.unwrap().errors.is_none());
}

#[test]
fn post_login_with_invalid_form_shows_errors() {
    let backend = backend_with_alice();
    let mut store = DatabaseSessionStore::new();
    let mut session = AuthSession::anonymous();
    let reply = post_login(
        LayoutMiddleware::new(false),
        &mut session,
        &backend,
        &mut store,
        next(None),
        form("alice", ""),
        1_000,
    );
    let mut page = page_of(reply);
    let messages = messages_of(&mut page);
    assert_eq!(messages[0].text, "Please fix the errors above");
    let errors = page.content.unwrap().errors.unwrap();
    assert_eq!(errors.email, Some(FieldError::InvalidEmail));
    assert_eq!(errors.password, Some(FieldError::PasswordRequired));
}

#[test]
fn get_login_shows_empty_form_and_keeps_next() {
    let reply = get_login(LayoutMiddleware::new(false), next(Some("/protected")));
    let mut page = page_of(reply);
    assert_eq!(page.template_name, "auth/login");
    let messages = messages_of(&mut page);
    assert_eq!(messages.len(), 1);
    assert_eq!(messages[0].level, "success");
    assert_eq!(messages[0].text, "Please use the form above to login");
    let data = page.content.unwrap();
    assert_eq!(data.form.email, "");
    assert_eq!(data.form.password, "");
    assert!(data.errors.is_none());
    assert_eq!(data.next_url, Some("/protected".to_string()));
}

#[test]
fn logout_reply_maps_each_outcome() {
    assert_eq!(redirect_of(logout_reply(Ok(None))), "/login");
    match logout_reply(Err(SessionError::IdInUse)) {
        Reply::ServerError(text) => assert_eq!(text, "Failed to logout"),
        _ => panic!("expected a server error"),
    }
}

#[test]
fn get_logout_ends_the_session_and_redirects_to_login() {
    let backend = backend_with_alice();
    let mut store = DatabaseSessionStore::new();
    let mut session = AuthSession::anonymous();
    let alice = backend.get_user(&1).unwrap().unwrap();
    session.login_with_id(&mut store, &alice, 1_000, 77).unwrap();
    let reply = get_logout(&mut session, &mut store);
    assert_eq!(redirect_of(reply), "/login");
    assert!(session.user.is_none());
    assert!(session.session_id.is_none());
    let next_request = AuthSession::from_session(&mut store, &backend, Some(77), 1_001);
    assert!(next_request.user.is_none());
}

#[test]
fn guard_redirects_anonymous_request_to_login_with_next() {
    let session = AuthSession::anonymous();
    match login_required(&session, "/protected") {
        Access::Redirect(url) => assert_eq!(url, "/login?next=/protected"),
        Access::Granted(_) => panic!("anonymous request was let through"),
    }
    match login_required(&session, "/user/profile") {
        Access::Redirect(url) => assert_eq!(url, "/login?next=/user/profile"),
        Access::Granted(_) => panic!("anonymous request was let through"),
    }
}

#[test]
fn guard_lets_signed_in_request_through_with_identity() {
    let backend = backend_with_alice();
    let mut store = DatabaseSessionStore::new();
    let mut session = AuthSession::anonymous();
    let anonymous = get_protected(&session);
    assert_eq!(redirect_of(anonymous), "/login?next=/protected");
    let attempt = attempt_login(
        &mut session,
        &backend,
        &mut store,
        &form("alice@example.com", "correct horse"),
        1_000,
    );
    assert_eq!(attempt, LoginAttempt::SignedIn);
    let cookie = session.session_id;
    let request = AuthSession::from_session(&mut store, &backend, cookie, 1_001);
    match login_required(&request, "/protected") {
        Access::Granted(user) => assert_eq!(user.id(), 1),
        Access::Redirect(url) => panic!("redirected to {}", url),
    }
    match get_protected(&request) {
        Reply::Text(text) => assert_eq!(text, "Protected"),
        _ => panic!("expected the protected page"),
    }
}

#[test]
fn signed_in_visitor_is_kept_from_the_login_form() {
    let backend = backend_with_alice();
    let mut store = DatabaseSessionStore::new();
    let mut session = AuthSession::anonymous();
    assert_eq!(invalid_when_signed_in(&session), None);
    let alice = backend.get_user(&1).unwrap().unwrap();
    session.login_with_id(&mut store, &alice, 1_000, 77).unwrap();
    assert_eq!(invalid_when_signed_in(&session), Some("/".to_string()));
}

//! Signing in and out: what the handlers of `/login` and `/logout` decide,
//! and the guards in front of the pages.

use vstd::prelude::*;
use vstd::string::StringExecFns;
use crate::auth_session::AuthSession;
use crate::auth_session::AuthSessionView;
use crate::auth_session::SessionError;
use crate::auth_session::login_outcome;
use crate::auth_session::signed_in_under;
use crate::backend::AuthError;
use crate::backend::Backend;
use crate::backend::Credentials;
use crate::backend::User;
use crate::backend::authenticated;
use crate::forms::FormErrors;
use crate::forms::LoginForm;
use crate::forms::NextUrl;
use crate::forms::login_errors;
use crate::messages::MessageLevel;
use crate::navbar::navbar_for;
use crate::page::LayoutMiddleware;
use crate::page::PageTemplate;
use crate::page::shown;
use crate::page::with_message;
use crate::reply::Reply;
use crate::session_store::DatabaseSessionStore;
use crate::session_store::SessionRecordView;
use crate::users::UserRecordView;

verus! {

/// What the sign-in page is rendered from.
pub struct LoginPageData {
    pub form: LoginForm,
    pub errors: Option<FormErrors>,
    pub next_url: Option<String>,
}

/// How an attempt to sign in ended.
#[derive(Clone, Copy, Debug, PartialEq, Eq, Structural)]
pub enum LoginAttempt {
    /// The form has errors; nothing was looked up.
    Invalid(FormErrors),
    /// No account has the email, or the password is wrong. The two are not
    /// told apart.
    Rejected,
    /// The store failed during the lookup.
    BackendFailed,
    /// The credentials are right, but no session could be opened.
    SessionFailed,
    /// The visitor is signed in under a new session.
    SignedIn,
}

/// The message shown when an attempt to sign in did not succeed.
pub open spec fn login_message(attempt: LoginAttempt) -> Seq<char> {
    match attempt {
        LoginAttempt::Invalid(_) => "Please fix the errors above"@,
        LoginAttempt::Rejected => "Invalid email or password"@,
        LoginAttempt::BackendFailed =>
            "Internal Error: Failed to authenticate user, try again later"@,
        LoginAttempt::SessionFailed => "Internal Error: Failed to login user, try again later"@,
        LoginAttempt::SignedIn => ""@,
    }
}

/// Where a visitor goes after signing in: to the address asked for, if one
/// was asked for and it is not empty, and to the root otherwise.
pub open spec fn redirect_target(next: Option<String>) -> Seq<char> {
    match next {
        Some(url) => if url@.len() > 0 {
            url@
        } else {
            "/"@
        },
        None => "/"@,
    }
}

/// The answer that fits an attempt to sign in.
pub open spec fn is_login_reply(
    layout: LayoutMiddleware,
    attempt: LoginAttempt,
    form: LoginForm,
    next: NextUrl,
    reply: Reply<LoginPageData>,
) -> bool {
    match attempt {
        LoginAttempt::SignedIn => reply matches Reply::Redirect(url) && url@ == redirect_target(
            next.next,
        ),
        _ => {
            &&& reply matches Reply::Page(page)
            &&& reply->Page_0.template_name@ == "auth/login"@
            &&& reply->Page_0.navbar == navbar_for(layout.is_signed_in)
            &&& reply->Page_0.content == Some(
                LoginPageData {
                    form,
                    errors: match attempt {
                        LoginAttempt::Invalid(errors) => Some(errors),
                        _ => None,
                    },
                    next_url: next.next,
                },
            )
            &&& shown(reply->Page_0.messages) == Some(
                with_message(layout.messages, MessageLevel::Error, login_message(attempt)),
            )
        },
    }
}

/// The sign-in page with this form, these errors and the address to go to
/// afterwards, inside the layout of the request.
pub fn render_login_page(
    layout: &LayoutMiddleware,
    next: Option<String>,
    form: LoginForm,
    errors: Option<FormErrors>,
) -> (page: PageTemplate<LoginPageData>)
    ensures
        page.template_name@ == "auth/login"@,
        page.navbar == navbar_for(layout.is_signed_in),
        page.content == Some(LoginPageData { form, errors, next_url: next }),
        shown(page.messages) == shown(layout.messages),
{
    layout.render("auth/login", LoginPageData { form, errors, next_url: next })
}

/// The text for a message, where there is one to show.
fn login_message_text(attempt: LoginAttempt) -> (text: &'static str)
    ensures
        text@ == login_message(attempt),
{
    match attempt {
        LoginAttempt::Invalid(_) => "Please fix the errors above",
        LoginAttempt::Rejected => "Invalid email or password",
        LoginAttempt::BackendFailed =>
            "Internal Error: Failed to authenticate user, try again later",
        LoginAttempt::SessionFailed => "Internal Error: Failed to login user, try again later",
        LoginAttempt::SignedIn => "",
    }
}

/// Decides the answer to a submitted sign-in form from how the attempt
/// ended.
///
/// A visitor who is signed in is sent on. Every other attempt shows the
/// form again, as it was submitted, under one message; a wrong password
/// and an unknown email get the same message.
pub fn login_reply(layout: LayoutMiddleware, attempt: LoginAttempt, form: LoginForm, next: NextUrl)
    -> (reply: Reply<LoginPageData>)
    ensures
        is_login_reply(layout, attempt, form, next, reply),
{
    let mut layout = layout;
    match attempt {
        LoginAttempt::SignedIn => {
            let url = match next.next {
                Some(url) => {
                    if url.as_str().is_empty() {
                        "/".to_string()
                    } else {
                        url
                    }
                },
                None => "/".to_string(),
            };
            Reply::Redirect(url)
        },
        LoginAttempt::Invalid(errors) => {
            layout.add_error_message(login_message_text(attempt));
            Reply::Page(render_login_page(&layout, next.next, form, Some(errors)))
        },
        _ => {
            layout.add_error_message(login_message_text(attempt));
            Reply::Page(render_login_page(&layout, next.next, form, None))
        },
    }
}

/// What comes next while a submitted sign-in form is handled.
pub enum LoginStep {
    /// Ask the backend who is behind these credentials.
    Authenticate(Credentials),
    /// Open a session for this user.
    OpenSession(User),
    /// The attempt has ended.
    Done(LoginAttempt),
}

/// The first step for a submitted form: a form with errors ends the
/// attempt; any other has its credentials looked up.
pub fn login_submitted(form: &LoginForm) -> (step: LoginStep)
    ensures
        match step {
            LoginStep::Authenticate(credentials) => {
                &&& login_errors(form.email@, form.password@) == FormErrors::none()
                &&& credentials.email@ == form.email@
                &&& credentials.password@ == form.password@
            },
            LoginStep::Done(attempt) => {
                &&& login_errors(form.email@, form.password@) != FormErrors::none()
                &&& attempt == LoginAttempt::Invalid(login_errors(form.email@, form.password@))
            },
            LoginStep::OpenSession(_) => false,
        },
{
    let errors = form.get_errors();
    if !errors.is_empty() {
        LoginStep::Done(LoginAttempt::Invalid(errors))
    } else {
        LoginStep::Authenticate(
            Credentials { email: form.email.clone(), password: form.password.clone() },
        )
    }
}

/// The step after the backend has answered: an identity gets a session,
/// no identity ends the attempt as rejected, and a failure of the backend
/// ends it as such.
pub fn login_authenticated(found: Result<Option<User>, AuthError>) -> (step: LoginStep)
    ensures
        match found {
            Ok(Some(user)) => step matches LoginStep::OpenSession(same) && same == user,
            Ok(None) => step matches LoginStep::Done(attempt) && attempt == LoginAttempt::Rejected,
            Err(_) => step matches LoginStep::Done(attempt) && attempt
                == LoginAttempt::BackendFailed,
        },
{
    match found {
        Ok(Some(user)) => LoginStep::OpenSession(user),
        Ok(None) => LoginStep::Done(LoginAttempt::Rejected),
        Err(_) => LoginStep::Done(LoginAttempt::BackendFailed),
    }
}

/// How the attempt ends once the session was or was not opened.
pub fn login_session_opened(opened: Result<(), SessionError>) -> (attempt: LoginAttempt)
    ensures
        attempt == if opened is Ok {
            LoginAttempt::SignedIn
        } else {
            LoginAttempt::SessionFailed
        },
{
    match opened {
        Ok(_) => LoginAttempt::SignedIn,
        Err(_) => LoginAttempt::SessionFailed,
    }
}

/// How an attempt to sign in may end, and what it leaves behind.
///
/// A form with errors and rejected credentials change nothing. Right
/// credentials either open a session under some new id, as
/// `signed_in_under` says, or fail to and change nothing.
pub open spec fn is_login_attempt(
    before: AuthSessionView,
    sessions_before: Map<int, SessionRecordView>,
    users: Map<int, UserRecordView>,
    email: Seq<char>,
    password: Seq<char>,
    now: int,
    attempt: LoginAttempt,
    after: AuthSessionView,
    sessions_after: Map<int, SessionRecordView>,
) -> bool {
    let errors = login_errors(email, password);
    if errors != FormErrors::none() {
        attempt == LoginAttempt::Invalid(errors) && after == before && sessions_after
            == sessions_before
    } else {
        match authenticated(users, email, password) {
            None => attempt == LoginAttempt::Rejected && after == before && sessions_after
                == sessions_before,
            Some(user) => {
                ||| attempt == LoginAttempt::SessionFailed && after == before && sessions_after
                    == sessions_before
                ||| attempt == LoginAttempt::SignedIn && exists|fresh: int|
                    0 <= fresh <= u128::MAX && #[trigger] signed_in_under(
                        before,
                        sessions_before,
                        user,
                        now,
                        fresh,
                        after,
                        sessions_after,
                    )
            },
        }
    }
}

/// Tries to sign the visitor in with a submitted form: checks the form,
/// asks the backend for the identity behind the credentials, and opens a
/// new session for it.
pub fn attempt_login(
    auth_session: &mut AuthSession,
    backend: &Backend,
    store: &mut DatabaseSessionStore,
    form: &LoginForm,
    now: i64,
) -> (attempt: LoginAttempt)
    requires
        old(store).wf(),
        backend.db.wf(),
    ensures
        final(store).wf(),
        is_login_attempt(
            old(auth_session)@,
            old(store)@,
            backend.db@,
            form.email@,
            form.password@,
            now as int,
            attempt,
            final(auth_session)@,
            final(store)@,
        ),
{
    let credentials = match login_submitted(form) {
        LoginStep::Authenticate(credentials) => credentials,
        LoginStep::OpenSession(_) => return LoginAttempt::SessionFailed,
        LoginStep::Done(attempt) => return attempt,
    };
    let user = match login_authenticated(backend.authenticate(credentials)) {
        LoginStep::OpenSession(user) => user,
        LoginStep::Authenticate(_) => return LoginAttempt::BackendFailed,
        LoginStep::Done(attempt) => return attempt,
    };
    let r = auth_session.login(store, &user, now);
    proof {
        let found = authenticated(backend.db@, form.email@, form.password@);
        if r != Err::<(), SessionError>(SessionError::NoRandomness) {
            let fresh = choose|fresh: int|
                0 <= fresh <= u128::MAX && #[trigger] login_outcome(
                    old(auth_session)@,
                    old(store)@,
                    user@,
                    now as int,
                    fresh,
                    auth_session@,
                    store@,
                    r,
                );
            assert(login_outcome(
                old(auth_session)@,
                old(store)@,
                user@,
                now as int,
                fresh,
                auth_session@,
                store@,
                r,
            ));
            if r is Ok {
                assert(signed_in_under(
                    old(auth_session)@,
                    old(store)@,
                    found->Some_0,
                    now as int,
                    fresh,
                    auth_session@,
                    store@,
                ));
            }
        }
    }
    login_session_opened(r)
}

/// Handles a submitted sign-in form.
pub fn post_login(
    layout: LayoutMiddleware,
    auth_session: &mut AuthSession,
    backend: &Backend,
    store: &mut DatabaseSessionStore,
    next: NextUrl,
    form: LoginForm,
    now: i64,
) -> (reply: Reply<LoginPageData>)
    requires
        old(store).wf(),
        backend.db.wf(),
    ensures
        final(store).wf(),
        exists|attempt: LoginAttempt|
            {
                &&& #[trigger] is_login_attempt(
                    old(auth_session)@,
                    old(store)@,
                    backend.db@,
                    form.email@,
                    form.password@,
                    now as int,
                    attempt,
                    final(auth_session)@,
                    final(store)@,
                )
                &&& is_login_reply(layout, attempt, form, next, reply)
            },
{
    let attempt = attempt_login(auth_session, backend, store, &form, now);
    login_reply(layout, attempt, form, next)
}

/// Shows the sign-in form, empty, and keeps the address to go to after
/// signing in.
pub fn get_login(layout: LayoutMiddleware, query: NextUrl) -> (reply: Reply<LoginPageData>)
    ensures
        reply matches Reply::Page(page) && {
            &&& page.template_name@ == "auth/login"@
            &&& page.navbar == navbar_for(layout.is_signed_in)
            &&& page.content matches Some(data) && data.form.email@ == Seq::<char>::empty()
                && data.form.password@ == Seq::<char>::empty() && data.errors is None
                && data.next_url == query.next
            &&& shown(page.messages) == Some(
                with_message(
                    layout.messages,
                    MessageLevel::Success,
                    "Please use the form above to login"@,
                ),
            )
        },
{
    let mut layout = layout;
    layout.add_success_message("Please use the form above to login");
    Reply::Page(render_login_page(&layout, query.next, LoginForm::default(), None))
}

/// Decides the answer to a sign-out from how it ended: on to the sign-in
/// page, or an internal server error.
pub fn logout_reply(outcome: Result<Option<User>, SessionError>) -> (reply: Reply<()>)
    ensures
        match outcome {
            Ok(_) => reply matches Reply::Redirect(url) && url@ == "/login"@,
            Err(_) => reply matches Reply::ServerError(text) && text@ == "Failed to logout"@,
        },
{
    match outcome {
        Ok(_) => Reply::Redirect("/login".to_string()),
        Err(_) => Reply::ServerError("Failed to logout"),
    }
}

/// Handles a sign-out: the session is deleted, and the visitor is sent to
/// the sign-in page.
pub fn get_logout(auth_session: &mut AuthSession, store: &mut DatabaseSessionStore) -> (reply:
    Reply<()>)
    requires
        old(store).wf(),
    ensures
        final(store).wf(),
        final(store)@ == crate::auth_session::after_logout(
            old(store)@,
            old(auth_session)@.session_id,
        ),
        final(auth_session)@ == (AuthSessionView { user: None, session_id: None }),
        reply matches Reply::Redirect(url) && url@ == "/login"@,
{
    let outcome = auth_session.logout(store);
    logout_reply(outcome)
}

/// What a guard decides for a request.
pub enum Access {
    /// The request goes on, with this identity bound to it.
    Granted(User),
    /// The visitor is sent to this address instead.
    Redirect(String),
}

/// The address of the sign-in page that leads back to `path` afterwards.
pub open spec fn login_url(path: Seq<char>) -> Seq<char> {
    "/login?next="@ + path
}

/// Guards a page that only signed-in visitors may see: an authenticated
/// request goes on with its identity, an anonymous one is sent to the
/// sign-in page, which keeps the path that was asked for.
pub fn login_required(auth_session: &AuthSession, path: &str) -> (access: Access)
    ensures
        match access {
            Access::Granted(user) => auth_session@.user == Some(user@),
            Access::Redirect(url) => auth_session@.user is None && url@ == login_url(path@),
        },
{
    match &auth_session.user {
        Some(user) => Access::Granted(user.clone()),
        None => {
            let mut url = "/login?next=".to_string();
            url.append(path);
            Access::Redirect(url)
        },
    }
}

/// Guards the pages that make no sense for a signed-in visitor, the
/// sign-in and registration forms: such a visitor is sent to the root.
pub fn invalid_when_signed_in(auth_session: &AuthSession) -> (redirect: Option<String>)
    ensures
        match redirect {
            Some(url) => auth_session@.user is Some && url@ == "/"@,
            None => auth_session@.user is None,
        },
{
    if auth_session.user.is_some() {
        Some("/".to_string())
    } else {
        None
    }
}

} // verus!

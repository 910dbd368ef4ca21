//! Opening an account: what the handlers of `/register` decide.

use vstd::prelude::*;
use crate::forms::FormErrors;
use crate::forms::RegisterForm;
use crate::forms::register_errors;
use crate::messages::MessageLevel;
use crate::navbar::navbar_for;
use crate::page::PageTemplate;
use crate::page::TemplateResponse;
use crate::page::shown;
use crate::page::with_message;
use crate::password::password_matches;
use crate::reply::Reply;
use crate::users::CreateUserData;
use crate::users::USER_ID_LIMIT;
use crate::users::UserRecordView;
use crate::users::UserTable;
use crate::users::create_user;
use crate::users::email_taken;
use crate::users::user_exists;

verus! {

/// What the registration page is rendered from.
pub struct RegisterPageData {
    pub form: RegisterForm,
    pub errors: Option<FormErrors>,
}

impl Default for RegisterPageData {
    /// The empty form without errors.
    fn default() -> (data: RegisterPageData)
        ensures
            is_blank(data),
    {
        RegisterPageData { form: RegisterForm::default(), errors: None }
    }
}

/// The page data of an empty form without errors.
pub open spec fn is_blank(data: RegisterPageData) -> bool {
    &&& data.form.email@ == Seq::<char>::empty()
    &&& data.form.password@ == Seq::<char>::empty()
    &&& data.form.confirm_password@ == Seq::<char>::empty()
    &&& data.errors is None
}

/// How an attempt to open an account ended.
#[derive(Clone, Copy, Debug, PartialEq, Eq, Structural)]
pub enum RegisterAttempt {
    /// The form has errors; nothing was stored.
    Invalid(FormErrors),
    /// An account with the email exists already.
    Exists,
    /// The account could not be created.
    Failed,
    /// The account is stored.
    Created,
}

/// The answer that fits an attempt to open an account.
pub open spec fn is_register_reply(
    is_signed_in: bool,
    attempt: RegisterAttempt,
    form: RegisterForm,
    reply: Reply<RegisterPageData>,
) -> bool {
    match attempt {
        RegisterAttempt::Created => reply matches Reply::Redirect(url) && url@
            == "/login?registered=true"@,
        _ => {
            &&& reply matches Reply::Page(page)
            &&& reply->Page_0.template_name@ == "auth/register"@
            &&& reply->Page_0.navbar == navbar_for(is_signed_in)
            &&& match attempt {
                RegisterAttempt::Invalid(errors) => {
                    &&& reply->Page_0.content == Some(
                        RegisterPageData { form, errors: Some(errors) },
                    )
                    &&& reply->Page_0.messages is None
                },
                RegisterAttempt::Exists => {
                    &&& reply->Page_0.content == Some(RegisterPageData { form, errors: None })
                    &&& shown(reply->Page_0.messages) == Some(
                        with_message(None, MessageLevel::Error, "User already exists"@),
                    )
                },
                _ => {
                    &&& reply->Page_0.content matches Some(data) && is_blank(data)
                    &&& shown(reply->Page_0.messages) == Some(
                        with_message(None, MessageLevel::Error, "Failed to create user"@),
                    )
                },
            }
        },
    }
}

/// The registration page with this content, inside the layout for the
/// visitor.
pub fn render_register_page(is_signed_in: bool, data: RegisterPageData) -> (page: PageTemplate<
    RegisterPageData,
>)
    ensures
        page.template_name@ == "auth/register"@,
        page.navbar == navbar_for(is_signed_in),
        page.content == Some(data),
        page.messages is None,
{
    let response: TemplateResponse<RegisterPageData> = TemplateResponse::new("auth/register");
    response.content(data).into_page(is_signed_in)
}

/// Decides the answer to a submitted registration form from how the
/// attempt ended.
///
/// A new account sends the visitor to the sign-in page. A form with errors
/// and an email that is taken show the form again as it was submitted; a
/// failure shows an empty form.
pub fn register_reply(is_signed_in: bool, attempt: RegisterAttempt, form: RegisterForm) -> (reply:
    Reply<RegisterPageData>)
    ensures
        is_register_reply(is_signed_in, attempt, form, reply),
{
    let response: TemplateResponse<RegisterPageData> = TemplateResponse::new("auth/register");
    match attempt {
        RegisterAttempt::Created => Reply::Redirect("/login?registered=true".to_string()),
        RegisterAttempt::Invalid(errors) => Reply::Page(
            render_register_page(is_signed_in, RegisterPageData { form, errors: Some(errors) }),
        ),
        RegisterAttempt::Exists => Reply::Page(
            response.content(RegisterPageData { form, errors: None }).add_error_message(
                "User already exists",
            ).into_page(is_signed_in),
        ),
        RegisterAttempt::Failed => Reply::Page(
            response.content(RegisterPageData::default()).add_error_message(
                "Failed to create user",
            ).into_page(is_signed_in),
        ),
    }
}

/// What comes next while a submitted registration form is handled.
pub enum RegisterStep {
    /// Find out whether an account has this email already.
    CheckEmail(String),
    /// Create the account.
    Create(CreateUserData),
    /// The attempt has ended.
    Done(RegisterAttempt),
}

/// The first step for a submitted form: a form with errors ends the
/// attempt; any other has its email looked up.
pub fn register_submitted(form: &RegisterForm) -> (step: RegisterStep)
    ensures
        match step {
            RegisterStep::CheckEmail(email) => {
                &&& register_errors(form.email@, form.password@, form.confirm_password@)
                    == FormErrors::none()
                &&& email@ == form.email@
            },
            RegisterStep::Done(attempt) => {
                &&& register_errors(form.email@, form.password@, form.confirm_password@)
                    != FormErrors::none()
                &&& attempt == RegisterAttempt::Invalid(
                    register_errors(form.email@, form.password@, form.confirm_password@),
                )
            },
            RegisterStep::Create(_) => false,
        },
{
    let errors = form.get_errors();
    if !errors.is_empty() {
        RegisterStep::Done(RegisterAttempt::Invalid(errors))
    } else {
        RegisterStep::CheckEmail(form.email.clone())
    }
}

/// The step after the email was looked up: a taken email ends the
/// attempt; a free one has the account created from the form.
pub fn register_email_checked(exists: bool, form: &RegisterForm) -> (step: RegisterStep)
    ensures
        match step {
            RegisterStep::Create(data) => !exists && data.email@ == form.email@ && data.password@
                == form.password@,
            RegisterStep::Done(attempt) => exists && attempt == RegisterAttempt::Exists,
            RegisterStep::CheckEmail(_) => false,
        },
{
    if exists {
        RegisterStep::Done(RegisterAttempt::Exists)
    } else {
        RegisterStep::Create(
            CreateUserData { email: form.email.clone(), password: form.password.clone() },
        )
    }
}

/// How the attempt ends once the account was or was not created.
pub fn register_created(created: bool) -> (attempt: RegisterAttempt)
    ensures
        attempt == if created {
            RegisterAttempt::Created
        } else {
            RegisterAttempt::Failed
        },
{
    if created {
        RegisterAttempt::Created
    } else {
        RegisterAttempt::Failed
    }
}

/// How an attempt to open an account may end, and what it leaves behind.
///
/// A form with errors and an email that is taken store nothing. Otherwise
/// the account is stored under the next id with a hash that matches the
/// password, or the attempt fails and stores nothing; it fails for certain
/// when the table has run out of ids.
pub open spec fn is_register_attempt(
    before: &UserTable,
    email: Seq<char>,
    password: Seq<char>,
    confirm_password: Seq<char>,
    attempt: RegisterAttempt,
    after: &UserTable,
) -> bool {
    let errors = register_errors(email, password, confirm_password);
    if errors != FormErrors::none() {
        attempt == RegisterAttempt::Invalid(errors) && *after == *before
    } else if email_taken(before@, email) {
        attempt == RegisterAttempt::Exists && *after == *before
    } else {
        ||| attempt == RegisterAttempt::Failed && *after == *before
        ||| {
            &&& attempt == RegisterAttempt::Created
            &&& before.next_id() < USER_ID_LIMIT
            &&& after.next_id() == before.next_id() + 1
            &&& exists|hash: Seq<char>|
                password_matches(password, hash) && after@ == #[trigger] before@.insert(
                    before.next_id(),
                    UserRecordView { id: before.next_id(), email, password_hash: hash },
                )
        }
    }
}

/// Tries to open an account with a submitted form: checks the form, makes
/// sure the email is free, then hashes the password and stores the
/// account.
pub fn attempt_register(db: &mut UserTable, form: &RegisterForm) -> (attempt: RegisterAttempt)
    requires
        old(db).wf(),
    ensures
        final(db).wf(),
        is_register_attempt(
            old(db),
            form.email@,
            form.password@,
            form.confirm_password@,
            attempt,
            final(db),
        ),
{
    let email = match register_submitted(form) {
        RegisterStep::CheckEmail(email) => email,
        RegisterStep::Create(_) => return RegisterAttempt::Failed,
        RegisterStep::Done(attempt) => return attempt,
    };
    let exists = user_exists(db, email.as_str());
    let data = match register_email_checked(exists, form) {
        RegisterStep::Create(data) => data,
        RegisterStep::CheckEmail(_) => return RegisterAttempt::Failed,
        RegisterStep::Done(attempt) => return attempt,
    };
    let created = create_user(db, data);
    proof {
        if created is Ok {
            assert(db@ == old(db)@.insert(
                old(db).next_id(),
                UserRecordView {
                    id: old(db).next_id(),
                    email: form.email@,
                    password_hash: created->Ok_0@.password_hash,
                },
            ));
        }
    }
    register_created(created.is_ok())
}

/// Handles a submitted registration form.
pub fn post_register(db: &mut UserTable, is_signed_in: bool, form: RegisterForm) -> (reply: Reply<
    RegisterPageData,
>)
    requires
        old(db).wf(),
    ensures
        final(db).wf(),
        exists|attempt: RegisterAttempt|
            {
                &&& #[trigger] is_register_attempt(
                    old(db),
                    form.email@,
                    form.password@,
                    form.confirm_password@,
                    attempt,
                    final(db),
                )
                &&& is_register_reply(is_signed_in, attempt, form, reply)
            },
{
    let attempt = attempt_register(db, &form);
    register_reply(is_signed_in, attempt, form)
}

/// Shows the registration form, empty.
pub fn get_register(is_signed_in: bool) -> (reply: Reply<RegisterPageData>)
    ensures
        reply matches Reply::Page(page) && {
            &&& page.template_name@ == "auth/register"@
            &&& page.navbar == navbar_for(is_signed_in)
            &&& page.content matches Some(data) && is_blank(data)
            &&& page.messages is None
        },
{
    Reply::Page(render_register_page(is_signed_in, RegisterPageData::default()))
}

} // verus!

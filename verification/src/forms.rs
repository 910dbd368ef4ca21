//! The forms a visitor submits, and what is wrong with them.

use vstd::prelude::*;
use vstd::utf8::encode_utf8;
use crate::backend::Credentials;
use crate::users::CreateUserData;

verus! {

/// Whether `validator::validate_email` accepts the text as an email
/// address.
pub uninterp spec fn email_is_valid(email: Seq<char>) -> bool;

/// Calls `validator::validate_email`. The answer depends on the text alone
/// and is named `email_is_valid`; nothing else is claimed of it.
#[verifier::external_body]
fn validate_email(email: &str) -> (r: bool)
    ensures
        r == email_is_valid(email@),
{
    validator::validate_email(email)
}

/// What can be wrong with one field of a form.
#[derive(Clone, Copy, Debug, PartialEq, Eq, Structural)]
pub enum FieldError {
    EmailRequired,
    InvalidEmail,
    PasswordRequired,
    PasswordTooShort,
    ConfirmPasswordRequired,
    PasswordsDoNotMatch,
    EmailRegistered,
    InvalidCredentials,
    DisplayNameRequired,
}

/// The sentence shown to the visitor for an error.
pub open spec fn message_text(error: FieldError) -> Seq<char> {
    match error {
        FieldError::EmailRequired => "Email is required"@,
        FieldError::InvalidEmail => "Invalid email address"@,
        FieldError::PasswordRequired => "Password is required"@,
        FieldError::PasswordTooShort => "Password must be at least 8 characters long"@,
        FieldError::ConfirmPasswordRequired => "Confirm password is required"@,
        FieldError::PasswordsDoNotMatch => "Passwords do not match"@,
        FieldError::EmailRegistered => "Email is already registered"@,
        FieldError::InvalidCredentials => "Invalid email or password"@,
        FieldError::DisplayNameRequired => "Display name is required"@,
    }
}

impl FieldError {
    /// The sentence shown to the visitor for this error.
    pub fn message(&self) -> (text: &'static str)
        ensures
            text@ == message_text(*self),
    {
        match self {
            FieldError::EmailRequired => "Email is required",
            FieldError::InvalidEmail => "Invalid email address",
            FieldError::PasswordRequired => "Password is required",
            FieldError::PasswordTooShort => "Password must be at least 8 characters long",
            FieldError::ConfirmPasswordRequired => "Confirm password is required",
            FieldError::PasswordsDoNotMatch => "Passwords do not match",
            FieldError::EmailRegistered => "Email is already registered",
            FieldError::InvalidCredentials => "Invalid email or password",
            FieldError::DisplayNameRequired => "Display name is required",
        }
    }
}

/// The errors of a form: at most one for each field.
#[derive(Clone, Copy, Debug, PartialEq, Eq, Structural)]
pub struct FormErrors {
    pub email: Option<FieldError>,
    pub password: Option<FieldError>,
    pub confirm_password: Option<FieldError>,
    pub display_name: Option<FieldError>,
}

impl FormErrors {
    /// No field has an error.
    pub open spec fn none() -> FormErrors {
        FormErrors { email: None, password: None, confirm_password: None, display_name: None }
    }

    /// No field has an error.
    pub fn new() -> (errors: FormErrors)
        ensures
            errors == FormErrors::none(),
    {
        FormErrors { email: None, password: None, confirm_password: None, display_name: None }
    }

    /// Tells whether no field has an error.
    pub fn is_empty(&self) -> (r: bool)
        ensures
            r == (*self == FormErrors::none()),
    {
        self.email.is_none() && self.password.is_none() && self.confirm_password.is_none()
            && self.display_name.is_none()
    }
}

/// What is wrong with an email field: it is empty, or it is no email
/// address.
pub open spec fn email_error(email: Seq<char>) -> Option<FieldError> {
    if email.len() == 0 {
        Some(FieldError::EmailRequired)
    } else if !email_is_valid(email) {
        Some(FieldError::InvalidEmail)
    } else {
        None
    }
}

/// Checks an email field.
pub fn check_email(email: &str) -> (r: Option<FieldError>)
    ensures
        r == email_error(email@),
{
    if email.is_empty() {
        Some(FieldError::EmailRequired)
    } else if !validate_email(email) {
        Some(FieldError::InvalidEmail)
    } else {
        None
    }
}

/// The sign-in form.
#[derive(Debug)]
pub struct LoginForm {
    pub email: String,
    pub password: String,
}

/// The errors of a sign-in form: the email must be an email address, and
/// the password must not be empty.
pub open spec fn login_errors(email: Seq<char>, password: Seq<char>) -> FormErrors {
    FormErrors {
        email: email_error(email),
        password: if password.len() == 0 {
            Some(FieldError::PasswordRequired)
        } else {
            None
        },
        confirm_password: None,
        display_name: None,
    }
}

impl LoginForm {
    /// The errors of the form as it was submitted.
    pub fn get_errors(&self) -> (errors: FormErrors)
        ensures
            errors == login_errors(self.email@, self.password@),
    {
        let mut errors = FormErrors::new();
        errors.email = check_email(self.email.as_str());
        if self.password.as_str().is_empty() {
            errors.password = Some(FieldError::PasswordRequired);
        }
        errors
    }
}

impl Default for LoginForm {
    /// The empty form.
    fn default() -> (form: LoginForm)
        ensures
            form.email@ == Seq::<char>::empty(),
            form.password@ == Seq::<char>::empty(),
    {
        LoginForm { email: String::new(), password: String::new() }
    }
}

impl Clone for LoginForm {
    fn clone(&self) -> (copy: LoginForm)
        ensures
            copy.email@ == self.email@,
            copy.password@ == self.password@,
    {
        LoginForm { email: self.email.clone(), password: self.password.clone() }
    }
}

impl From<LoginForm> for Credentials {
    fn from(form: LoginForm) -> (credentials: Credentials) {
        Credentials { email: form.email, password: form.password }
    }
}

impl vstd::std_specs::convert::FromSpecImpl<LoginForm> for Credentials {
    open spec fn obeys_from_spec() -> bool {
        true
    }

    open spec fn from_spec(form: LoginForm) -> Credentials {
        Credentials { email: form.email, password: form.password }
    }
}

/// Where to go after signing in, as the query string carries it.
#[derive(Debug)]
pub struct NextUrl {
    pub next: Option<String>,
}

/// The shortest password that registration accepts, in bytes of UTF-8.
pub const MIN_PASSWORD_BYTES: usize = 8;

/// The registration form.
#[derive(Debug)]
pub struct RegisterForm {
    pub email: String,
    pub password: String,
    pub confirm_password: String,
}

/// The errors of a registration form: the email must be an email address,
/// the password must have at least `MIN_PASSWORD_BYTES` bytes, and the
/// confirmation must be given and repeat the password.
pub open spec fn register_errors(
    email: Seq<char>,
    password: Seq<char>,
    confirm_password: Seq<char>,
) -> FormErrors {
    FormErrors {
        email: email_error(email),
        password: if encode_utf8(password).len() < MIN_PASSWORD_BYTES {
            Some(FieldError::PasswordTooShort)
        } else {
            None
        },
        confirm_password: if confirm_password.len() == 0 {
            Some(FieldError::ConfirmPasswordRequired)
        } else if password != confirm_password {
            Some(FieldError::PasswordsDoNotMatch)
        } else {
            None
        },
        display_name: None,
    }
}

impl RegisterForm {
    /// The errors of the form as it was submitted.
    pub fn get_errors(&self) -> (errors: FormErrors)
        ensures
            errors == register_errors(self.email@, self.password@, self.confirm_password@),
    {
        let mut errors = FormErrors::new();
        errors.email = check_email(self.email.as_str());
        if self.password.as_str().as_bytes().len() < MIN_PASSWORD_BYTES {
            errors.password = Some(FieldError::PasswordTooShort);
        }
        if self.confirm_password.as_str().is_empty() {
            errors.confirm_password = Some(FieldError::ConfirmPasswordRequired);
        } else if !(self.password == self.confirm_password) {
            errors.confirm_password = Some(FieldError::PasswordsDoNotMatch);
        }
        errors
    }
}

impl Default for RegisterForm {
    /// The empty form.
    fn default() -> (form: RegisterForm)
        ensures
            form.email@ == Seq::<char>::empty(),
            form.password@ == Seq::<char>::empty(),
            form.confirm_password@ == Seq::<char>::empty(),
    {
        RegisterForm {
            email: String::new(),
            password: String::new(),
            confirm_password: String::new(),
        }
    }
}

impl From<RegisterForm> for CreateUserData {
    fn from(form: RegisterForm) -> (data: CreateUserData) {
        CreateUserData { email: form.email, password: form.password }
    }
}

impl vstd::std_specs::convert::FromSpecImpl<RegisterForm> for CreateUserData {
    open spec fn obeys_from_spec() -> bool {
        true
    }

    open spec fn from_spec(form: RegisterForm) -> CreateUserData {
        CreateUserData { email: form.email, password: form.password }
    }
}

} // verus!

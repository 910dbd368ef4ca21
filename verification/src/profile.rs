//! The profile of a signed-in user: its table, and what the handlers of
//! `/user/profile` decide.

use vstd::prelude::*;
use crate::auth_session::AuthSession;
use crate::forms::FieldError;
use crate::forms::FormErrors;
use crate::login::Access;
use crate::login::login_required;
use crate::login::login_url;
use crate::messages::MessageLevel;
use crate::navbar::navbar_for;
use crate::page::TemplateResponse;
use crate::page::shown;
use crate::page::with_message;
use crate::reply::Reply;
use crate::rows::Keyed;
use crate::rows::distinct_keys;
use crate::rows::to_map;
use crate::rows::lemma_empty_rows;
use crate::rows::lemma_key_has_row;
use crate::rows::lemma_push_row;
use crate::rows::lemma_row_in_map;
use crate::rows::lemma_update_row;
use crate::users::StoreError;

verus! {

/// What is stored of a profile when it is saved.
pub struct SaveUserProfileData {
    pub display_name: String,
}

/// What is read of a stored profile.
pub struct GetUserProfileResult {
    pub display_name: String,
}

/// The profile form.
#[derive(Debug)]
pub struct ProfileForm {
    pub display_name: String,
}

impl Default for ProfileForm {
    /// The empty form.
    fn default() -> (form: ProfileForm)
        ensures
            form.display_name@ == Seq::<char>::empty(),
    {
        ProfileForm { display_name: String::new() }
    }
}

impl Clone for ProfileForm {
    fn clone(&self) -> (copy: ProfileForm)
        ensures
            copy.display_name@ == self.display_name@,
    {
        ProfileForm { display_name: self.display_name.clone() }
    }
}

impl From<GetUserProfileResult> for ProfileForm {
    fn from(profile: GetUserProfileResult) -> (form: ProfileForm) {
        ProfileForm { display_name: profile.display_name }
    }
}

impl vstd::std_specs::convert::FromSpecImpl<GetUserProfileResult> for ProfileForm {
    open spec fn obeys_from_spec() -> bool {
        true
    }

    open spec fn from_spec(profile: GetUserProfileResult) -> ProfileForm {
        ProfileForm { display_name: profile.display_name }
    }
}

impl From<ProfileForm> for SaveUserProfileData {
    fn from(form: ProfileForm) -> (data: SaveUserProfileData) {
        SaveUserProfileData { display_name: form.display_name }
    }
}

impl vstd::std_specs::convert::FromSpecImpl<ProfileForm> for SaveUserProfileData {
    open spec fn obeys_from_spec() -> bool {
        true
    }

    open spec fn from_spec(form: ProfileForm) -> SaveUserProfileData {
        SaveUserProfileData { display_name: form.display_name }
    }
}

/// The errors of a profile form: the display name must not be empty.
pub open spec fn profile_errors(display_name: Seq<char>) -> FormErrors {
    FormErrors {
        email: None,
        password: None,
        confirm_password: None,
        display_name: if display_name.len() == 0 {
            Some(FieldError::DisplayNameRequired)
        } else {
            None
        },
    }
}

impl ProfileForm {
    /// The errors of the form as it was submitted.
    pub fn get_errors(&self) -> (errors: FormErrors)
        ensures
            errors == profile_errors(self.display_name@),
    {
        let mut errors = FormErrors::new();
        if self.display_name.as_str().is_empty() {
            errors.display_name = Some(FieldError::DisplayNameRequired);
        }
        errors
    }
}

/// One stored profile: the id of the user it belongs to, and the name the
/// user chose.
pub struct ProfileRow {
    pub id: i32,
    pub display_name: String,
}

/// The mathematical value of a stored profile.
pub struct ProfileRowView {
    pub id: int,
    pub display_name: Seq<char>,
}

impl View for ProfileRow {
    type V = ProfileRowView;

    open spec fn view(&self) -> ProfileRowView {
        ProfileRowView { id: self.id as int, display_name: self.display_name@ }
    }
}

impl Keyed for ProfileRowView {
    open spec fn key(&self) -> int {
        self.id
    }
}

/// The profiles, kept in memory: at most one for each user.
pub struct ProfileTable {
    rows: Vec<ProfileRow>,
}

impl View for ProfileTable {
    type V = Map<int, ProfileRowView>;

    /// The profiles by user id.
    closed spec fn view(&self) -> Map<int, ProfileRowView> {
        to_map(self.rows_view())
    }
}

impl ProfileTable {
    /// The stored rows by their values.
    pub closed spec fn rows_view(&self) -> Seq<ProfileRowView> {
        Seq::new(self.rows@.len(), |i: int| self.rows@[i]@)
    }

    /// The invariant of the table: no two rows belong to one user.
    pub closed spec fn wf(&self) -> bool {
        distinct_keys(self.rows_view())
    }

    /// A table without profiles.
    pub fn new() -> (table: ProfileTable)
        ensures
            table.wf(),
            table@ == Map::<int, ProfileRowView>::empty(),
    {
        let table = ProfileTable { rows: Vec::new() };
        proof {
            lemma_empty_rows(table.rows_view());
        }
        table
    }

    /// The position of the row of this user, if there is one.
    fn position(&self, user_id: i32) -> (r: Option<usize>)
        requires
            self.wf(),
        ensures
            match r {
                Some(i) => i < self.rows@.len() && self.rows@[i as int].id == user_id
                    && self@.dom().contains(user_id as int) && self@[user_id as int]
                    == self.rows@[i as int]@,
                None => !self@.dom().contains(user_id as int),
            },
    {
        let mut i: usize = 0;
        while i < self.rows.len()
            invariant
                self.wf(),
                i <= self.rows@.len(),
                forall|j: int| 0 <= j < i ==> self.rows@[j].id != user_id,
            decreases self.rows@.len() - i,
        {
            if self.rows[i].id == user_id {
                proof {
                    lemma_row_in_map(self.rows_view(), i as int);
                }
                return Some(i);
            }
            i += 1;
        }
        proof {
            if self@.dom().contains(user_id as int) {
                lemma_key_has_row(self.rows_view(), user_id as int);
            }
        }
        None
    }
}

/// Stores the profile of a user: the stored one is replaced if there is
/// one, and a new one is stored otherwise. No other profile changes.
pub fn save_user_profile(db: &mut ProfileTable, user_id: i32, data: SaveUserProfileData) -> (r:
    Result<(), StoreError>)
    requires
        old(db).wf(),
    ensures
        final(db).wf(),
        r is Ok,
        final(db)@ == old(db)@.insert(
            user_id as int,
            ProfileRowView { id: user_id as int, display_name: data.display_name@ },
        ),
{
    let ghost before = db.rows_view();
    let row = ProfileRow { id: user_id, display_name: data.display_name };
    match db.position(user_id) {
        Some(i) => {
            proof {
                lemma_update_row(before, i as int, row@);
            }
            db.rows[i] = row;
            proof {
                assert(db.rows_view() =~= before.update(i as int, row@));
            }
        },
        None => {
            proof {
                lemma_push_row(before, row@);
            }
            db.rows.push(row);
            proof {
                assert(db.rows_view() =~= before.push(row@));
            }
        },
    }
    Ok(())
}

/// Reads the profile of a user, if one is stored.
pub fn get_user_profile(db: &ProfileTable, user_id: i32) -> (r: Option<GetUserProfileResult>)
    requires
        db.wf(),
    ensures
        match r {
            Some(profile) => db@.dom().contains(user_id as int) && profile.display_name@
                == db@[user_id as int].display_name,
            None => !db@.dom().contains(user_id as int),
        },
{
    match db.position(user_id) {
        Some(i) => Some(GetUserProfileResult { display_name: db.rows[i].display_name.clone() }),
        None => None,
    }
}

/// What the profile page is rendered from.
pub struct ProfilePage {
    pub form: ProfileForm,
    pub errors: FormErrors,
}

/// The name that the profile form starts with: the stored one, or none.
pub open spec fn stored_name(profiles: Map<int, ProfileRowView>, user_id: int) -> Seq<char> {
    if profiles.dom().contains(user_id) {
        profiles[user_id].display_name
    } else {
        Seq::empty()
    }
}

/// The profile page for what was found stored: the form starts with the
/// stored name, or empty when no profile is stored, and has no errors.
pub fn profile_page(found: Option<GetUserProfileResult>) -> (reply: Reply<ProfilePage>)
    ensures
        reply matches Reply::Page(page) && {
            &&& page.template_name@ == "user/profile"@
            &&& page.navbar == navbar_for(true)
            &&& page.content matches Some(data) && data.errors == FormErrors::none()
                && data.form.display_name@ == match found {
                Some(profile) => profile.display_name@,
                None => Seq::<char>::empty(),
            }
            &&& page.messages is None
        },
{
    let form = match found {
        Some(profile) => ProfileForm { display_name: profile.display_name },
        None => ProfileForm::default(),
    };
    let response: TemplateResponse<ProfilePage> = TemplateResponse::new("user/profile");
    Reply::Page(response.content(ProfilePage { form, errors: FormErrors::new() }).into_page(true))
}

/// Shows the profile form of the signed-in user, filled with the stored
/// name. An anonymous visitor is sent to the sign-in page.
pub fn get_profile_page(db: &ProfileTable, auth_session: &AuthSession) -> (reply: Reply<
    ProfilePage,
>)
    requires
        db.wf(),
    ensures
        match auth_session@.user {
            None => reply matches Reply::Redirect(url) && url@ == login_url("/user/profile"@),
            Some(user) => reply matches Reply::Page(page) && {
                &&& page.template_name@ == "user/profile"@
                &&& page.navbar == navbar_for(true)
                &&& page.content matches Some(data) && data.form.display_name@ == stored_name(
                    db@,
                    user.id,
                ) && data.errors == FormErrors::none()
                &&& page.messages is None
            },
        },
{
    let user = match login_required(auth_session, "/user/profile") {
        Access::Granted(user) => user,
        Access::Redirect(url) => return Reply::Redirect(url),
    };
    profile_page(get_user_profile(db, user.id()))
}

/// How an attempt to save a profile ended.
#[derive(Clone, Copy, Debug, PartialEq, Eq, Structural)]
pub enum ProfileAttempt {
    /// The form has errors; nothing was stored.
    Invalid(FormErrors),
    /// The profile is stored.
    Saved,
    /// The store failed.
    Failed,
}

/// What comes next while a submitted profile form is handled.
pub enum ProfileStep {
    /// Store this as the user's profile.
    Save(SaveUserProfileData),
    /// The attempt has ended.
    Done(ProfileAttempt),
}

/// The first step for a submitted form: a form with errors ends the
/// attempt; any other is stored.
pub fn profile_submitted(form: &ProfileForm) -> (step: ProfileStep)
    ensures
        match step {
            ProfileStep::Save(data) => {
                &&& profile_errors(form.display_name@) == FormErrors::none()
                &&& data.display_name@ == form.display_name@
            },
            ProfileStep::Done(attempt) => {
                &&& profile_errors(form.display_name@) != FormErrors::none()
                &&& attempt == ProfileAttempt::Invalid(profile_errors(form.display_name@))
            },
        },
{
    let errors = form.get_errors();
    if !errors.is_empty() {
        ProfileStep::Done(ProfileAttempt::Invalid(errors))
    } else {
        ProfileStep::Save(SaveUserProfileData { display_name: form.display_name.clone() })
    }
}

/// How the attempt ends once the profile was or was not stored.
pub fn profile_saved(saved: Result<(), StoreError>) -> (attempt: ProfileAttempt)
    ensures
        attempt == if saved is Ok {
            ProfileAttempt::Saved
        } else {
            ProfileAttempt::Failed
        },
{
    match saved {
        Ok(_) => ProfileAttempt::Saved,
        Err(_) => ProfileAttempt::Failed,
    }
}

/// The answer that fits an attempt to save a profile.
pub open spec fn is_profile_reply(
    attempt: ProfileAttempt,
    form: ProfileForm,
    reply: Reply<ProfilePage>,
) -> bool {
    &&& reply matches Reply::Page(page)
    &&& reply->Page_0.template_name@ == "user/profile"@
    &&& reply->Page_0.navbar == navbar_for(true)
    &&& match attempt {
        ProfileAttempt::Invalid(errors) => {
            &&& reply->Page_0.content == Some(ProfilePage { form, errors })
            &&& reply->Page_0.messages is None
        },
        ProfileAttempt::Saved => {
            &&& reply->Page_0.content == Some(ProfilePage { form, errors: FormErrors::none() })
            &&& shown(reply->Page_0.messages) == Some(
                with_message(None, MessageLevel::Success, "Profile updated"@),
            )
        },
        ProfileAttempt::Failed => {
            &&& reply->Page_0.content == Some(ProfilePage { form, errors: FormErrors::none() })
            &&& shown(reply->Page_0.messages) == Some(
                with_message(None, MessageLevel::Error, "Failed to save user profile"@),
            )
        },
    }
}

/// Decides the answer to a submitted profile form from how the attempt
/// ended: the form is shown again as it was submitted, with its errors or
/// under a message that tells whether it was saved.
pub fn profile_reply(attempt: ProfileAttempt, form: ProfileForm) -> (reply: Reply<ProfilePage>)
    ensures
        is_profile_reply(attempt, form, reply),
{
    let response: TemplateResponse<ProfilePage> = TemplateResponse::new("user/profile");
    match attempt {
        ProfileAttempt::Invalid(errors) => Reply::Page(
            response.content(ProfilePage { form, errors }).into_page(true),
        ),
        ProfileAttempt::Saved => Reply::Page(
            response.content(ProfilePage { form, errors: FormErrors::new() }).add_success_message(
                "Profile updated",
            ).into_page(true),
        ),
        ProfileAttempt::Failed => Reply::Page(
            response.content(ProfilePage { form, errors: FormErrors::new() }).add_error_message(
                "Failed to save user profile",
            ).into_page(true),
        ),
    }
}

/// Handles a submitted profile form of the signed-in user: a form without
/// errors is stored as the user's profile. An anonymous visitor is sent to
/// the sign-in page, and nothing is stored.
pub fn post_profile_page(db: &mut ProfileTable, auth_session: &AuthSession, form: ProfileForm)
    -> (reply: Reply<ProfilePage>)
    requires
        old(db).wf(),
    ensures
        final(db).wf(),
        match auth_session@.user {
            None => {
                &&& reply matches Reply::Redirect(url) && url@ == login_url("/user/profile"@)
                &&& final(db)@ == old(db)@
            },
            Some(user) => {
                let errors = profile_errors(form.display_name@);
                if errors != FormErrors::none() {
                    &&& is_profile_reply(ProfileAttempt::Invalid(errors), form, reply)
                    &&& final(db)@ == old(db)@
                } else {
                    &&& is_profile_reply(ProfileAttempt::Saved, form, reply)
                    &&& final(db)@ == old(db)@.insert(
                        user.id,
                        ProfileRowView { id: user.id, display_name: form.display_name@ },
                    )
                }
            },
        },
{
    let user = match login_required(auth_session, "/user/profile") {
        Access::Granted(user) => user,
        Access::Redirect(url) => return Reply::Redirect(url),
    };
    let data = match profile_submitted(&form) {
        ProfileStep::Save(data) => data,
        ProfileStep::Done(attempt) => return profile_reply(attempt, form),
    };
    let saved = save_user_profile(db, user.id(), data);
    profile_reply(profile_saved(saved), form)
}

} // verus!

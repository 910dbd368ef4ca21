//! What the navigation bar offers, by whether the visitor is signed in.

use vstd::prelude::*;

verus! {

/// Which entries of the navigation bar are shown.
#[derive(Clone, Copy, Debug, PartialEq, Eq, Structural)]
pub struct NavbarTemplateData {
    pub login_visible: bool,
    pub signup_visible: bool,
    pub logout_visible: bool,
}

/// The navigation bar for a visitor: a signed-in visitor is offered to sign
/// out; any other is offered to sign in and to sign up.
pub open spec fn navbar_for(is_signed_in: bool) -> NavbarTemplateData {
    NavbarTemplateData {
        login_visible: !is_signed_in,
        signup_visible: !is_signed_in,
        logout_visible: is_signed_in,
    }
}

impl NavbarTemplateData {
    /// The navigation bar for a visitor.
    pub fn new(is_signed_in: bool) -> (navbar: NavbarTemplateData)
        ensures
            navbar == navbar_for(is_signed_in),
    {
        NavbarTemplateData {
            login_visible: !is_signed_in,
            signup_visible: !is_signed_in,
            logout_visible: is_signed_in,
        }
    }
}

impl Default for NavbarTemplateData {
    /// The navigation bar of a visitor who is not signed in.
    fn default() -> (navbar: NavbarTemplateData)
        ensures
            navbar == navbar_for(false),
    {
        NavbarTemplateData::new(false)
    }
}

} // verus!

//! The pages of the site itself: the root, one page for everybody and one
//! for signed-in visitors only.

use vstd::prelude::*;
use crate::auth_session::AuthSession;
use crate::login::Access;
use crate::login::login_required;
use crate::login::login_url;
use crate::navbar::navbar_for;
use crate::page::TemplateResponse;
use crate::reply::Reply;

verus! {

/// Shows the root page.
pub fn get_root(is_signed_in: bool) -> (reply: Reply<()>)
    ensures
        reply matches Reply::Page(page) && {
            &&& page.template_name@ == "index"@
            &&& page.navbar == navbar_for(is_signed_in)
            &&& page.content is None
            &&& page.messages is None
        },
{
    let response: TemplateResponse<()> = TemplateResponse::new("index");
    Reply::Page(response.into_page(is_signed_in))
}

/// Shows the page that everybody may see.
pub fn get_public() -> (text: &'static str)
    ensures
        text@ == "Public"@,
{
    "Public"
}

/// Shows the page that only a signed-in visitor may see. An anonymous
/// visitor is sent to the sign-in page, which leads back here.
pub fn get_protected(auth_session: &AuthSession) -> (reply: Reply<()>)
    ensures
        match auth_session@.user {
            Some(_) => reply matches Reply::Text(text) && text@ == "Protected"@,
            None => reply matches Reply::Redirect(url) && url@ == login_url("/protected"@),
        },
{
    match login_required(auth_session, "/protected") {
        Access::Granted(_) => Reply::Text("Protected"),
        Access::Redirect(url) => Reply::Redirect(url),
    }
}

} // verus!

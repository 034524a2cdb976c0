//! Showing the blank form for a new account.

use crate::authenticated::UserExtension;
use crate::rendering::Page;
use crate::response::{ContentType, StatusCode};
use vstd::prelude::*;

verus! {

/// The values the blank form is filled with.
#[derive(Debug)]
pub struct NewView {
    /// The anti-forgery token for the form.
    pub csrf: String,
}

/// The blank form, carrying the caller's anti-forgery token.
pub fn page(user: &UserExtension) -> (r: Page<NewView>)
    ensures
        r.template@ == "accounts/new.html"@,
        r.status == StatusCode::Success,
        r.content_type == ContentType::Html,
        r.view.csrf@ == user.csrf@,
{
    Page {
        template: "accounts/new.html",
        status: StatusCode::Success,
        content_type: ContentType::Html,
        view: NewView { csrf: user.csrf.clone() },
    }
}

} // verus!

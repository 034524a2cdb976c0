//! Handlers for signed-in users.

pub mod accounts;
pub mod goals;

use vstd::prelude::*;

verus! {

/// Who is asking, as the sign-in layer reports it.
#[derive(Debug)]
pub struct UserExtension {
    /// The user's identifier, as text.
    pub id: String,
    /// The anti-forgery token for the user's forms.
    pub csrf: String,
}

} // verus!

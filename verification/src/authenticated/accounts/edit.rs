//! Showing one of the caller's accounts in a form.

use crate::amount::Amount;
use crate::authenticated::accounts::filter_for_one;
use crate::authenticated::UserExtension;
use crate::models::account::{Account, Filter};
use crate::object_id::{canonical_text, is_object_id_text};
use crate::rendering::Page;
use crate::response::{ContentType, StatusCode};
use vstd::prelude::*;

verus! {

/// The values the edit form is filled with.
#[derive(Debug)]
pub struct EditView {
    /// The anti-forgery token for the form.
    pub csrf: String,
    pub id: String,
    pub name: String,
    pub amount: Amount,
    pub debt: bool,
}

/// `page` shows `account` to `user` in the edit form.
pub open spec fn shows(page: Page<EditView>, user: UserExtension, account: Account) -> bool {
    &&& page.template@ == "accounts/edit.html"@
    &&& page.status == StatusCode::Success
    &&& page.content_type == ContentType::Html
    &&& page.view.csrf@ == user.csrf@
    &&& page.view.id@ == account._id@
    &&& page.view.name@ == account.name@
    &&& page.view.amount == account.amount
    &&& page.view.debt == account.debt
}

/// The status that ends an edit request after the lookup, if one does: a
/// server error where the lookup failed, "not found" where it found nothing or
/// found what the filter does not select.
pub open spec fn refusal(
    filter: Filter,
    outcome: Result<Option<Account>, mongodb::error::Error>,
) -> Option<StatusCode> {
    match outcome {
        Err(_) => Some(StatusCode::InternalServerError),
        Ok(None) => Some(StatusCode::NotFound),
        Ok(Some(account)) => if filter.selects(account) {
            None
        } else {
            Some(StatusCode::NotFound)
        },
    }
}

/// Starts an edit request: the lookup to run. A malformed `id` is a bad
/// request; a caller whose identifier is malformed is forbidden.
pub fn page(user: &UserExtension, id: &str) -> (r: Result<Filter, StatusCode>)
    ensures
        match r {
            Ok(filter) => {
                &&& is_object_id_text(id@)
                &&& is_object_id_text(user.id@)
                &&& filter.user_id@ == canonical_text(user.id@)
                &&& filter.id matches Some(wanted) && wanted@ == canonical_text(id@)
                &&& filter.well_formed()
            },
            Err(status) => if is_object_id_text(id@) {
                !is_object_id_text(user.id@) && status == StatusCode::Forbidden
            } else {
                status == StatusCode::BadRequest
            },
        },
{
    filter_for_one(user, id)
}

/// Decides what the lookup's outcome leads to: the edit form for the account
/// that was found, or the status that ends the request.
///
/// An account that the filter does not select is treated as absent, whatever
/// the database returned.
pub fn found(
    user: &UserExtension,
    filter: &Filter,
    outcome: Result<Option<Account>, mongodb::error::Error>,
) -> (r: Result<Page<EditView>, StatusCode>)
    ensures
        match r {
            Ok(page) => {
                &&& refusal(*filter, outcome) is None
                &&& outcome matches Ok(Some(account)) && shows(page, *user, account)
            },
            Err(status) => refusal(*filter, outcome) == Some(status),
        },
{
    let account = match outcome {
        Ok(Some(account)) => account,
        Ok(None) => {
            return Err(StatusCode::NotFound);
        },
        Err(_) => {
            return Err(StatusCode::InternalServerError);
        },
    };
    if !filter.matches(&account) {
        return Err(StatusCode::NotFound);
    }
    Ok(
        Page {
            template: "accounts/edit.html",
            status: StatusCode::Success,
            content_type: ContentType::Html,
            view: EditView {
                csrf: user.csrf.clone(),
                id: account._id,
                name: account.name,
                amount: account.amount,
                debt: account.debt,
            },
        },
    )
}

} // verus!

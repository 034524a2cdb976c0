//! Creating an account from a submitted form.

use crate::authenticated::accounts::{AccountForm, FormView};
use crate::authenticated::UserExtension;
use crate::errors::FormError;
use crate::models::account::{lemma_owned_belongs_to_owner, owned, Account, AccountModel};
use crate::negotiation::{accepts_turbo, wants_turbo};
use crate::object_id::{canonical_id, canonical_text, fresh_id, is_object_id_text};
use crate::rendering::Page;
use crate::response::{ContentType, Response, ResponseModel, StatusCode};
use crate::validation::{describe, listing, FieldError};
use vstd::prelude::*;

verus! {

/// What has to happen next for a create request.
#[derive(Debug)]
pub enum Step {
    /// The form was rejected: render it again, filled in, with its complaints.
    Render(Page<FormView>),
    /// The form was accepted: store this record.
    Insert(Account),
}

/// The template a rejected form is shown with.
pub open spec fn form_template(turbo: bool) -> Seq<char> {
    if turbo {
        "accounts/form.turbo.html"@
    } else {
        "accounts/new.html"@
    }
}

/// `page` shows `form` again with `errors`, as a bad request, in the flavour
/// that was asked for.
pub open spec fn is_rejection(
    page: Page<FormView>,
    turbo: bool,
    form: AccountForm,
    errors: Seq<FieldError>,
) -> bool {
    &&& page.template@ == form_template(turbo)
    &&& page.status == StatusCode::BadRequest
    &&& page.content_type == ContentType::negotiated(turbo)
    &&& page.view.errors@ == listing(errors)
    &&& page.view.name@ == form.name@
    &&& page.view.amount == form.amount
    &&& page.view.debt == form.debt
}

/// The record that an accepted form becomes.
pub open spec fn record_model(form: AccountForm, owner: Seq<char>, id: Seq<char>) -> AccountModel {
    AccountModel {
        id,
        user_id: owner,
        name: form.name@,
        amount: form.amount,
        debt: match form.debt {
            Some(debt) => debt,
            None => false,
        },
    }
}

/// The page that shows a rejected form again.
pub fn rejection(turbo: bool, form: &AccountForm, errors: &Vec<FieldError>) -> (r: Page<FormView>)
    ensures
        is_rejection(r, turbo, *form, errors@),
{
    Page {
        template: if turbo {
            "accounts/form.turbo.html"
        } else {
            "accounts/new.html"
        },
        status: StatusCode::BadRequest,
        content_type: ContentType::for_request(turbo),
        view: FormView {
            errors: describe(errors),
            name: form.name.clone(),
            amount: form.amount,
            debt: form.debt,
        },
    }
}

/// The record that an accepted form becomes, owned by `owner` and filed
/// under `id`.
pub fn record_for(form: &AccountForm, owner: String, id: String) -> (r: Account)
    ensures
        r@ == record_model(*form, owner@, id@),
{
    Account {
        _id: id,
        user_id: owner,
        name: form.name.clone(),
        amount: form.amount,
        debt: match form.debt {
            Some(debt) => debt,
            None => false,
        },
    }
}

/// Decides what a create request leads to.
///
/// A form that breaks a field rule is shown again as a bad request, in the
/// flavour the `Accept` header asks for; nothing is stored. An accepted form
/// becomes a record that carries the submitted values, belongs to the caller
/// and has a fresh identifier. A caller whose identifier is malformed gets an
/// error in place of either.
pub fn page(user: &UserExtension, accept: Option<&str>, form: &AccountForm) -> (r: Result<
    Step,
    FormError,
>)
    ensures
        match r {
            Ok(Step::Render(page)) => {
                &&& !form.is_valid()
                &&& is_rejection(page, wants_turbo(accept), *form, form.violations())
            },
            Ok(Step::Insert(account)) => {
                &&& form.is_valid()
                &&& is_object_id_text(user.id@)
                &&& account.well_formed()
                &&& account@ == record_model(*form, canonical_text(user.id@), account._id@)
            },
            Err(e) => {
                &&& form.is_valid()
                &&& !is_object_id_text(user.id@)
                &&& e.status_code == Some(StatusCode::BadRequest)
            },
        },
{
    let turbo = accepts_turbo(accept);
    match form.validate() {
        Ok(_) => {},
        Err(errors) => {
            return Ok(Step::Render(rejection(turbo, form, &errors)));
        },
    }
    match canonical_id(user.id.as_str()) {
        Ok(owner) => {
            Ok(Step::Insert(record_for(form, owner, fresh_id())))
        },
        Err(e) => Err(FormError::from(e)),
    }
}

/// Once it is stored, the record of an accepted form is among the accounts of
/// its owner, with the submitted values, and among those of no other user.
pub proof fn lemma_created_account_is_its_owners(
    docs: Seq<Account>,
    form: AccountForm,
    owner: Seq<char>,
    account: Account,
    other: Seq<char>,
)
    requires
        account@ == record_model(form, owner, account._id@),
        other != owner,
    ensures
        owned(docs.push(account), owner).contains(account),
        !owned(docs.push(account), other).contains(account),
        account.name@ == form.name@,
        account.amount == form.amount,
        form.debt matches Some(debt) ==> account.debt == debt,
{
    let stored = docs.push(account);
    lemma_owned_belongs_to_owner(stored, owner);
    lemma_owned_belongs_to_owner(stored, other);
    assert(stored[docs.len() as int] == account);
    if owned(stored, other).contains(account) {
        let i = choose|i: int| 0 <= i < owned(stored, other).len() && owned(stored, other)[i] == account;
        assert(owned(stored, other)[i].user_id@ == other);
    }
}

/// A form whose name is too short is never stored. What the renderer is
/// handed for it holds the submitted name, and whatever markup the renderer
/// makes of that is sent as a bad request: as a turbo-stream fragment where
/// the request asked for one, as a whole page of HTML otherwise.
pub proof fn lemma_short_name_is_bad_request(
    form: AccountForm,
    turbo: bool,
    page: Page<FormView>,
    body: Seq<char>,
)
    requires
        form.name@.len() < crate::validation::MIN_NAME_LENGTH,
        is_rejection(page, turbo, form, form.violations()),
    ensures
        !form.is_valid(),
        page.view.name@ == form.name@,
        page.sent(body).status == StatusCode::BadRequest,
        page.sent(body).content_type == Some(
            if turbo {
                ContentType::TurboStream
            } else {
                ContentType::Html
            },
        ),
        page.sent(body).body == body,
{
}

/// Turns the database's outcome for the new record into the answer: a
/// redirect to the list once the record is stored.
pub fn inserted(outcome: Result<(), mongodb::error::Error>) -> (r: Result<Response, FormError>)
    ensures
        match r {
            Ok(response) => outcome is Ok && response@ == ResponseModel::redirect("/accounts"@),
            Err(e) => outcome matches Err(failure) && e.status_code == Some(
                StatusCode::InternalServerError,
            ) && vstd::string::to_string_from_display_ensures(&failure, e.message),
        },
{
    match outcome {
        Ok(_) => Ok(Response::redirect("/accounts")),
        Err(e) => Err(FormError::from(e)),
    }
}

} // verus!

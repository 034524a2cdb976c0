//! Changing one of the caller's accounts from a submitted form.

use crate::amount::Amount;
use crate::authenticated::accounts::AccountForm;
use crate::authenticated::UserExtension;
use crate::models::account::{lemma_owned_of_joined, owned, Account, Filter};
use crate::negotiation::{accepts_turbo, wants_turbo};
use crate::object_id::{canonical_id, canonical_text, is_object_id_text};
use crate::rendering::Page;
use crate::response::{ContentType, Response, ResponseModel, StatusCode};
use crate::validation::{describe, listing, FieldError};
use vstd::prelude::*;

verus! {

/// The values an edit form is filled with when it is shown again.
#[derive(Debug)]
pub struct UpdateView {
    /// The anti-forgery token for the form.
    pub csrf: String,
    pub id: String,
    /// The complaints, as text.
    pub errors: String,
    pub name: String,
    pub amount: Amount,
    pub debt: Option<bool>,
}

/// The new values of an account.
#[derive(Debug)]
pub struct Changes {
    pub name: String,
    pub amount: Amount,
    pub debt: bool,
}

/// What has to happen next for an update request.
#[derive(Debug)]
pub enum Step {
    /// The form was rejected: render it again, filled in, with its complaints.
    Render(Page<UpdateView>),
    /// The form was accepted: give the one account that the filter selects
    /// these values.
    Update(Filter, Changes),
}

/// The template a rejected form is shown with.
pub open spec fn form_template(turbo: bool) -> Seq<char> {
    if turbo {
        "accounts/form.turbo.html"@
    } else {
        "accounts/edit.html"@
    }
}

/// `page` shows `form` again to `user` for the account `id`, with `errors`,
/// as a bad request, in the flavour that was asked for.
pub open spec fn is_rejection(
    page: Page<UpdateView>,
    turbo: bool,
    user: UserExtension,
    id: Seq<char>,
    form: AccountForm,
    errors: Seq<FieldError>,
) -> bool {
    &&& page.template@ == form_template(turbo)
    &&& page.status == StatusCode::BadRequest
    &&& page.content_type == ContentType::negotiated(turbo)
    &&& page.view.csrf@ == user.csrf@
    &&& page.view.id@ == id
    &&& page.view.errors@ == listing(errors)
    &&& page.view.name@ == form.name@
    &&& page.view.amount == form.amount
    &&& page.view.debt == form.debt
}

/// `changes` carries the values of `form`, an absent debt mark read as "no
/// debt".
pub open spec fn carries(changes: Changes, form: AccountForm) -> bool {
    &&& changes.name@ == form.name@
    &&& changes.amount == form.amount
    &&& changes.debt == match form.debt {
        Some(debt) => debt,
        None => false,
    }
}

/// The status that ends an update request before the form is looked at, if
/// one does: "bad request" for a malformed `id`, else "forbidden" for a
/// caller whose identifier is malformed.
pub open spec fn refusal(user: UserExtension, id: Seq<char>) -> Option<StatusCode> {
    if !is_object_id_text(id) {
        Some(StatusCode::BadRequest)
    } else if !is_object_id_text(user.id@) {
        Some(StatusCode::Forbidden)
    } else {
        None
    }
}

/// How an update request ends once the database has answered the update: a
/// server error where it failed, "not found" where no account matched, a
/// redirect to the list where one did.
pub open spec fn conclusion(outcome: Result<u64, mongodb::error::Error>) -> Result<
    ResponseModel,
    StatusCode,
> {
    match outcome {
        Err(_) => Err(StatusCode::InternalServerError),
        Ok(matched) => if matched == 0 {
            Err(StatusCode::NotFound)
        } else {
            Ok(ResponseModel::redirect("/accounts"@))
        },
    }
}

/// `account` with the new values; its identifier and its owner stay.
pub open spec fn changed(account: Account, changes: Changes) -> Account {
    Account {
        _id: account._id,
        user_id: account.user_id,
        name: changes.name,
        amount: changes.amount,
        debt: changes.debt,
    }
}

/// The collection `docs` after an update: the first document that `filter`
/// selects, if there is one, has the new values.
pub open spec fn update_one(docs: Seq<Account>, filter: Filter, changes: Changes) -> Seq<Account>
    decreases docs.len(),
{
    if docs.len() == 0 {
        docs
    } else if filter.selects(docs.first()) {
        seq![changed(docs.first(), changes)] + docs.drop_first()
    } else {
        seq![docs.first()] + update_one(docs.drop_first(), filter, changes)
    }
}

/// An update never touches the accounts of a user other than the one the
/// filter names, and what it changes stays with its owner under its
/// identifier.
pub proof fn lemma_update_spares_other_users(
    docs: Seq<Account>,
    filter: Filter,
    changes: Changes,
    other: Seq<char>,
)
    requires
        other != filter.user_id@,
    ensures
        owned(update_one(docs, filter, changes), other) == owned(docs, other),
        update_one(docs, filter, changes).len() == docs.len(),
        forall|i: int|
            0 <= i < docs.len() ==> {
                &&& (#[trigger] update_one(docs, filter, changes)[i])._id == docs[i]._id
                &&& update_one(docs, filter, changes)[i].user_id == docs[i].user_id
            },
    decreases docs.len(),
{
    if docs.len() > 0 {
        let head = seq![docs.first()];
        let rest = docs.drop_first();
        let after = update_one(docs, filter, changes);
        assert(head + rest =~= docs);
        lemma_owned_of_joined(head, rest, other);
        assert(head.drop_last() =~= Seq::<Account>::empty());
        if filter.selects(docs.first()) {
            let new_head = seq![changed(docs.first(), changes)];
            assert(new_head.drop_last() =~= Seq::<Account>::empty());
            lemma_owned_of_joined(new_head, rest, other);
            assert(head.last() == docs.first());
            assert(owned(Seq::<Account>::empty(), other) =~= Seq::<Account>::empty());
            assert(owned(head, other) =~= Seq::<Account>::empty());
            assert(new_head.last() == changed(docs.first(), changes));
            assert(owned(new_head, other) =~= Seq::<Account>::empty());
        } else {
            lemma_update_spares_other_users(rest, filter, changes, other);
            lemma_owned_of_joined(head, update_one(rest, filter, changes), other);
            assert forall|i: int| 0 <= i < docs.len() implies {
                &&& (#[trigger] after[i])._id == docs[i]._id
                &&& after[i].user_id == docs[i].user_id
            } by {
                if i > 0 {
                    assert(after[i] == update_one(rest, filter, changes)[i - 1]);
                    assert(docs[i] == rest[i - 1]);
                }
            }
        }
    }
}

/// Decides what an update request leads to.
///
/// A form that breaks a field rule is shown again as a bad request, in the
/// flavour the `Accept` header asks for; nothing is changed. An accepted form
/// becomes an update of the caller's account `id`, and of no other.
pub fn page(user: &UserExtension, id: &str, accept: Option<&str>, form: &AccountForm) -> (r: Result<
    Step,
    StatusCode,
>)
    ensures
        match r {
            Ok(Step::Render(page)) => {
                &&& refusal(*user, id@) is None
                &&& !form.is_valid()
                &&& is_rejection(
                    page,
                    wants_turbo(accept),
                    *user,
                    canonical_text(id@),
                    *form,
                    form.violations(),
                )
            },
            Ok(Step::Update(filter, changes)) => {
                &&& refusal(*user, id@) is None
                &&& form.is_valid()
                &&& filter.well_formed()
                &&& filter.user_id@ == canonical_text(user.id@)
                &&& filter.id matches Some(wanted) && wanted@ == canonical_text(id@)
                &&& carries(changes, *form)
            },
            Err(status) => refusal(*user, id@) == Some(status),
        },
{
    let wanted = match canonical_id(id) {
        Ok(wanted) => wanted,
        Err(_) => {
            return Err(StatusCode::BadRequest);
        },
    };
    let owner = match canonical_id(user.id.as_str()) {
        Ok(owner) => owner,
        Err(_) => {
            return Err(StatusCode::Forbidden);
        },
    };
    match form.validate() {
        Ok(_) => Ok(
            Step::Update(
                Filter { user_id: owner, id: Some(wanted) },
                Changes {
                    name: form.name.clone(),
                    amount: form.amount,
                    debt: match form.debt {
                        Some(debt) => debt,
                        None => false,
                    },
                },
            ),
        ),
        Err(errors) => {
            let turbo = accepts_turbo(accept);
            Ok(
                Step::Render(
                    Page {
                        template: if turbo {
                            "accounts/form.turbo.html"
                        } else {
                            "accounts/edit.html"
                        },
                        status: StatusCode::BadRequest,
                        content_type: ContentType::for_request(turbo),
                        view: UpdateView {
                            csrf: user.csrf.clone(),
                            id: wanted,
                            errors: describe(&errors),
                            name: form.name.clone(),
                            amount: form.amount,
                            debt: form.debt,
                        },
                    },
                ),
            )
        },
    }
}

/// Ends an update request once the database has answered the update with the
/// number of documents that matched.
pub fn updated(outcome: Result<u64, mongodb::error::Error>) -> (r: Result<Response, StatusCode>)
    ensures
        match r {
            Ok(response) => conclusion(outcome) == Ok::<ResponseModel, StatusCode>(response@),
            Err(status) => conclusion(outcome) == Err::<ResponseModel, StatusCode>(status),
        },
{
    match outcome {
        Ok(matched) => {
            if matched == 0 {
                Err(StatusCode::NotFound)
            } else {
                Ok(Response::redirect("/accounts"))
            }
        },
        Err(_) => Err(StatusCode::InternalServerError),
    }
}

} // verus!

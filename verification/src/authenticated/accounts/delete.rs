//! Deleting one of the caller's accounts.

use crate::amount::Amount;
use crate::authenticated::accounts::filter_for_one;
use crate::authenticated::UserExtension;
use crate::models::account::{owned, Account, Filter};
use crate::models::collection::{
    delete_one, deleted_count, distinct_ids, find_one, lemma_delete_one_keeps_unselected,
    lemma_delete_one_removes, lemma_delete_one_spares_others, lemma_find_one_none,
};
use crate::object_id::{canonical_text, is_object_id_text};
use crate::response::{Response, ResponseModel, StatusCode};
use vstd::prelude::*;

verus! {

/// What the lookup before a delete reads of an account.
#[derive(Debug)]
pub struct AccountRecord {
    pub name: String,
    pub amount: Amount,
    pub user_id: String,
}

/// What the lookup reads of `account`.
pub open spec fn record(account: Account) -> AccountRecord {
    AccountRecord { name: account.name, amount: account.amount, user_id: account.user_id }
}

/// The status that ends a delete request after the lookup, if one does: a
/// server error where the lookup failed, "not found" where it found nothing
/// or found a record of another owner.
pub open spec fn refusal(
    filter: Filter,
    outcome: Result<Option<AccountRecord>, mongodb::error::Error>,
) -> Option<StatusCode> {
    match outcome {
        Err(_) => Some(StatusCode::InternalServerError),
        Ok(None) => Some(StatusCode::NotFound),
        Ok(Some(found)) => if found.user_id@ == filter.user_id@ {
            None
        } else {
            Some(StatusCode::NotFound)
        },
    }
}

/// How a delete request ends once the database has answered the delete: a
/// server error where it failed, "not found" where it removed nothing, a
/// redirect to the list where it removed the account.
pub open spec fn conclusion(outcome: Result<u64, mongodb::error::Error>) -> Result<
    ResponseModel,
    StatusCode,
> {
    match outcome {
        Err(_) => Err(StatusCode::InternalServerError),
        Ok(removed) => if removed == 0 {
            Err(StatusCode::NotFound)
        } else {
            Ok(ResponseModel::redirect("/accounts"@))
        },
    }
}

/// Starts a delete request: the lookup to run. A malformed `id` is a bad
/// request; a caller whose identifier is malformed is forbidden.
pub fn page(user: &UserExtension, id: &str) -> (r: Result<Filter, StatusCode>)
    ensures
        match r {
            Ok(filter) => {
                &&& is_object_id_text(id@)
                &&& is_object_id_text(user.id@)
                &&& filter.user_id@ == canonical_text(user.id@)
                &&& filter.id matches Some(wanted) && wanted@ == canonical_text(id@)
                &&& filter.well_formed()
            },
            Err(status) => if is_object_id_text(id@) {
                !is_object_id_text(user.id@) && status == StatusCode::Forbidden
            } else {
                status == StatusCode::BadRequest
            },
        },
{
    filter_for_one(user, id)
}

/// Decides what the lookup's outcome leads to: the delete to run, with the
/// filter the lookup ran with, or the status that ends the request.
pub fn found(filter: Filter, outcome: Result<Option<AccountRecord>, mongodb::error::Error>) -> (r:
    Result<Filter, StatusCode>)
    ensures
        match r {
            Ok(next) => refusal(filter, outcome) is None && next == filter,
            Err(status) => refusal(filter, outcome) == Some(status),
        },
{
    match outcome {
        Ok(Some(found)) => {
            if found.user_id == filter.user_id {
                Ok(filter)
            } else {
                Err(StatusCode::NotFound)
            }
        },
        Ok(None) => Err(StatusCode::NotFound),
        Err(_) => Err(StatusCode::InternalServerError),
    }
}

/// Ends a delete request once the database has answered the delete with the
/// number of documents it removed.
pub fn deleted(outcome: Result<u64, mongodb::error::Error>) -> (r: Result<Response, StatusCode>)
    ensures
        match r {
            Ok(response) => conclusion(outcome) == Ok::<ResponseModel, StatusCode>(response@),
            Err(status) => conclusion(outcome) == Err::<ResponseModel, StatusCode>(status),
        },
{
    match outcome {
        Ok(removed) => {
            if removed == 0 {
                Err(StatusCode::NotFound)
            } else {
                Ok(Response::redirect("/accounts"))
            }
        },
        Err(_) => Err(StatusCode::InternalServerError),
    }
}

/// What a lookup finds in the collection `docs`, as the delete handler reads
/// it.
pub open spec fn lookup(docs: Seq<Account>, filter: Filter) -> Result<
    Option<AccountRecord>,
    mongodb::error::Error,
> {
    match find_one(docs, filter) {
        Some(account) => Ok(Some(record(account))),
        None => Ok(None),
    }
}

/// Deleting does not succeed twice. In a collection without repeated
/// identifiers, once a delete for one account of a caller has run, a further
/// delete request for it ends with "not found" at the lookup, and a delete
/// that ran all the same would remove nothing and end with "not found" too.
/// The same holds from the start for an account that never existed.
pub proof fn lemma_deleting_again_is_not_found(docs: Seq<Account>, filter: Filter)
    requires
        distinct_ids(docs),
        filter.id is Some,
    ensures
        refusal(filter, lookup(delete_one(docs, filter), filter)) == Some(StatusCode::NotFound),
        conclusion(Ok(deleted_count(delete_one(docs, filter), filter) as u64)) == Err::<
            ResponseModel,
            StatusCode,
        >(StatusCode::NotFound),
        delete_one(delete_one(docs, filter), filter) == delete_one(docs, filter),
        find_one(docs, filter) is None ==> refusal(filter, lookup(docs, filter)) == Some(
            StatusCode::NotFound,
        ) && delete_one(docs, filter) == docs,
{
    lemma_delete_one_removes(docs, filter);
    if find_one(docs, filter) is None {
        lemma_find_one_none(docs, filter);
        lemma_delete_one_keeps_unselected(docs, filter);
    }
}

/// A delete request never removes another user's account: the delete that a
/// request of `user` for `id` leads to leaves the accounts of every other
/// user as they were.
pub proof fn lemma_delete_spares_other_users(
    docs: Seq<Account>,
    user: UserExtension,
    id: Seq<char>,
    filter: Filter,
    other: Seq<char>,
)
    requires
        filter.user_id@ == canonical_text(user.id@),
        filter.id matches Some(wanted) && wanted@ == canonical_text(id),
        other != canonical_text(user.id@),
    ensures
        owned(delete_one(docs, filter), other) == owned(docs, other),
{
    lemma_delete_one_spares_others(docs, filter, other);
}

} // verus!

//! Listing the caller's accounts.

use crate::amount::Amount;
use crate::authenticated::accounts::filter_for_all;
use crate::authenticated::UserExtension;
use crate::models::account::{
    accounts_brought, describes, failures_met, lemma_owned_belongs_to_owner,
    lemma_owned_is_idempotent, lemma_readable_comes_from_found, lemma_readable_of_all_read, owned,
    owned_accounts, readable, Account, Filter,
};
use crate::object_id::{canonical_text, is_object_id_text};
use crate::rendering::Page;
use crate::response::{ContentType, StatusCode};
use vstd::prelude::*;

verus! {

/// One row of the list.
#[derive(Debug)]
pub struct AccountRecord {
    pub name: String,
    pub amount: Amount,
    pub id: String,
}

/// The values the list is filled with.
#[derive(Debug)]
pub struct IndexView {
    /// The anti-forgery token for the forms on the page.
    pub csrf: String,
    pub accounts: Vec<AccountRecord>,
}

/// The list page and what went wrong while it was put together.
#[derive(Debug)]
pub struct Listed {
    pub page: Page<IndexView>,
    /// One line for the log per failure.
    pub failures: Vec<String>,
}

/// The row that shows `account`.
pub open spec fn row(account: Account) -> AccountRecord {
    AccountRecord { name: account.name, amount: account.amount, id: account._id }
}

/// The rows that show `accounts`, in order.
pub open spec fn rows(accounts: Seq<Account>) -> Seq<AccountRecord> {
    accounts.map_values(|account: Account| row(account))
}

/// `shown` shows a document of the answer `docs` that could be read and that
/// belongs to `owner`.
pub open spec fn shows_own_document(
    shown: AccountRecord,
    owner: Seq<char>,
    docs: Seq<Result<Account, mongodb::error::Error>>,
) -> bool {
    exists|j: int|
        0 <= j < docs.len() && (#[trigger] docs[j] matches Ok(account) && account.user_id@ == owner
            && shown == row(account))
}

/// A list never shows one user the records of another: every row of the list
/// for `owner` shows a document of the database's answer that could be read
/// and that belongs to `owner`.
pub proof fn lemma_rows_show_only_the_owners_accounts(
    owner: Seq<char>,
    docs: Seq<Result<Account, mongodb::error::Error>>,
)
    ensures
        forall|i: int|
            0 <= i < rows(owned(readable(docs), owner)).len() ==> shows_own_document(
                #[trigger] rows(owned(readable(docs), owner))[i],
                owner,
                docs,
            ),
{
    let read = readable(docs);
    let own = owned(read, owner);
    lemma_owned_belongs_to_owner(read, owner);
    lemma_readable_comes_from_found(docs);
    assert forall|i: int| 0 <= i < rows(own).len() implies shows_own_document(
        #[trigger] rows(own)[i],
        owner,
        docs,
    ) by {
        let account = own[i];
        assert(read.contains(account));
        let k = choose|k: int| 0 <= k < read.len() && read[k] == account;
        let j = choose|j: int|
            0 <= j < docs.len() && docs[j] == Ok::<Account, mongodb::error::Error>(read[k]);
        assert(docs[j] matches Ok(a) && a.user_id@ == owner && rows(own)[i] == row(a));
    }
}

/// A list shows all of the caller's accounts: where the database answers the
/// listing query for `owner` with the accounts of `owner` in the collection
/// `docs`, each of them readable, the list has one row for each, in order,
/// and nothing goes to the log.
pub proof fn lemma_honest_answer_is_shown_whole(
    docs: Seq<Account>,
    owner: Seq<char>,
    answer: Vec<Result<Account, mongodb::error::Error>>,
)
    requires
        answer@ == owned(docs, owner).map_values(
            |account: Account| Ok::<Account, mongodb::error::Error>(account),
        ),
    ensures
        rows(accounts_brought(owner, Ok(answer))) == rows(owned(docs, owner)),
        failures_met(Ok(answer)).len() == 0,
{
    lemma_readable_of_all_read::<mongodb::error::Error>(owned(docs, owner));
    lemma_owned_is_idempotent(docs, owner);
}

/// Starts a list request: the query to run, or "forbidden" for a caller whose
/// identifier is malformed.
pub fn page(user: &UserExtension) -> (r: Result<Filter, StatusCode>)
    ensures
        match r {
            Ok(filter) => {
                &&& is_object_id_text(user.id@)
                &&& filter.user_id@ == canonical_text(user.id@)
                &&& filter.id is None
                &&& filter.well_formed()
            },
            Err(status) => !is_object_id_text(user.id@) && status == StatusCode::Forbidden,
        },
{
    filter_for_all(user)
}

/// Puts the list page together from the database's answer to `filter`.
///
/// The page shows the caller's token and one row per readable document that
/// belongs to the filter's owner. A failed query gives an empty list.
pub fn found(
    user: &UserExtension,
    filter: &Filter,
    outcome: &Result<Vec<Result<Account, mongodb::error::Error>>, mongodb::error::Error>,
) -> (r: Listed)
    ensures
        r.page.template@ == "accounts/index.html"@,
        r.page.status == StatusCode::Success,
        r.page.content_type == ContentType::Html,
        r.page.view.csrf@ == user.csrf@,
        r.page.view.accounts@ == rows(accounts_brought(filter.user_id@, *outcome)),
        describes(r.failures@, failures_met(*outcome)),
{
    let listing = owned_accounts(filter.user_id.as_str(), outcome);
    let accounts = listing.accounts;
    let mut records: Vec<AccountRecord> = Vec::new();
    let mut i: usize = 0;
    while i < accounts.len()
        invariant
            i <= accounts.len(),
            records@ == rows(accounts@.take(i as int)),
        decreases accounts.len() - i,
    {
        let account = &accounts[i];
        records.push(
            AccountRecord {
                name: account.name.clone(),
                amount: account.amount,
                id: account._id.clone(),
            },
        );
        assert(records@ =~= rows(accounts@.take(i + 1)));
        i += 1;
    }
    assert(accounts@.take(accounts.len() as int) =~= accounts@);
    Listed {
        page: Page {
            template: "accounts/index.html",
            status: StatusCode::Success,
            content_type: ContentType::Html,
            view: IndexView { csrf: user.csrf.clone(), accounts: records },
        },
        failures: listing.failures,
    }
}

} // verus!

//! Accounts: named balances, each owned by one user.

use crate::amount::Amount;
use crate::object_id::is_canonical_id;
use vstd::prelude::*;

verus! {

/// A stored account. Both identifiers are held in canonical spelling.
#[derive(Debug)]
pub struct Account {
    pub _id: String,
    pub user_id: String,
    pub name: String,
    pub amount: Amount,
    pub debt: bool,
}

/// An account as plain mathematical values.
pub struct AccountModel {
    pub id: Seq<char>,
    pub user_id: Seq<char>,
    pub name: Seq<char>,
    pub amount: Amount,
    pub debt: bool,
}

impl View for Account {
    type V = AccountModel;

    open spec fn view(&self) -> AccountModel {
        AccountModel {
            id: self._id@,
            user_id: self.user_id@,
            name: self.name@,
            amount: self.amount,
            debt: self.debt,
        }
    }
}

impl Account {
    /// Both identifiers are in canonical spelling.
    pub open spec fn well_formed(self) -> bool {
        is_canonical_id(self._id@) && is_canonical_id(self.user_id@)
    }

    /// The account belongs to the user whose canonical identifier is `owner`.
    pub open spec fn is_owned_by(self, owner: Seq<char>) -> bool {
        self.user_id@ == owner
    }

    /// Whether the account belongs to the user whose canonical identifier is
    /// `owner`.
    pub fn owned_by(&self, owner: &String) -> (r: bool)
        ensures
            r == self.is_owned_by(owner@),
    {
        self.user_id == *owner
    }

    /// A copy of the account.
    pub fn duplicate(&self) -> (r: Account)
        ensures
            r == *self,
    {
        Account {
            _id: self._id.clone(),
            user_id: self.user_id.clone(),
            name: self.name.clone(),
            amount: self.amount,
            debt: self.debt,
        }
    }
}

/// What a query selects: the accounts of one user, or one account of theirs.
#[derive(Debug)]
pub struct Filter {
    /// The owner, in canonical spelling. Every query names one.
    pub user_id: String,
    /// The one account asked for, in canonical spelling, if any.
    pub id: Option<String>,
}

impl Filter {
    /// Both identifiers are in canonical spelling.
    pub open spec fn well_formed(self) -> bool {
        &&& is_canonical_id(self.user_id@)
        &&& self.id matches Some(id) ==> is_canonical_id(id@)
    }

    /// The filter selects `account`: the owner is the filter's, and so is the
    /// identifier where the filter names one.
    pub open spec fn selects(self, account: Account) -> bool {
        &&& account.user_id@ == self.user_id@
        &&& self.id matches Some(id) ==> account._id@ == id@
    }

    /// Whether the filter selects `account`.
    pub fn matches(&self, account: &Account) -> (r: bool)
        ensures
            r == self.selects(*account),
    {
        if account.user_id != self.user_id {
            return false;
        }
        match &self.id {
            Some(id) => account._id == *id,
            None => true,
        }
    }
}

/// The documents of a query's answer that could be read, in order.
pub open spec fn readable<E>(found: Seq<Result<Account, E>>) -> Seq<Account>
    decreases found.len(),
{
    if found.len() == 0 {
        Seq::empty()
    } else {
        match found.last() {
            Ok(account) => readable(found.drop_last()).push(account),
            Err(_) => readable(found.drop_last()),
        }
    }
}

/// The failures of the documents of a query's answer that could not be read,
/// in order.
pub open spec fn failures_of<E>(found: Seq<Result<Account, E>>) -> Seq<E>
    decreases found.len(),
{
    if found.len() == 0 {
        Seq::empty()
    } else {
        match found.last() {
            Ok(_) => failures_of(found.drop_last()),
            Err(e) => failures_of(found.drop_last()).push(e),
        }
    }
}

/// Each line is what the failure at the same place displays as.
pub open spec fn describes(lines: Seq<String>, failures: Seq<mongodb::error::Error>) -> bool {
    &&& lines.len() == failures.len()
    &&& forall|k: int|
        0 <= k < lines.len() ==> vstd::string::to_string_from_display_ensures(
            &failures[k],
            #[trigger] lines[k],
        )
}

/// The failures that a listing query met: that of the query itself where it
/// failed, else those of the documents that could not be read.
pub open spec fn failures_met(
    found: Result<Vec<Result<Account, mongodb::error::Error>>, mongodb::error::Error>,
) -> Seq<mongodb::error::Error> {
    match found {
        Ok(docs) => failures_of(docs@),
        Err(e) => seq![e],
    }
}

/// The accounts of `owner` that a listing query brought: the readable
/// documents that belong to `owner`, and none where the query failed.
pub open spec fn accounts_brought(
    owner: Seq<char>,
    found: Result<Vec<Result<Account, mongodb::error::Error>>, mongodb::error::Error>,
) -> Seq<Account> {
    match found {
        Ok(docs) => owned(readable(docs@), owner),
        Err(_) => Seq::empty(),
    }
}

/// The accounts among `accounts` that belong to `owner`, in order.
pub open spec fn owned(accounts: Seq<Account>, owner: Seq<char>) -> Seq<Account>
    decreases accounts.len(),
{
    if accounts.len() == 0 {
        Seq::empty()
    } else if accounts.last().is_owned_by(owner) {
        owned(accounts.drop_last(), owner).push(accounts.last())
    } else {
        owned(accounts.drop_last(), owner)
    }
}

/// The amounts of the accounts whose debt mark is `debt`, in order.
pub open spec fn amounts_marked(accounts: Seq<Account>, debt: bool) -> Seq<Amount>
    decreases accounts.len(),
{
    if accounts.len() == 0 {
        Seq::empty()
    } else if accounts.last().debt == debt {
        amounts_marked(accounts.drop_last(), debt).push(accounts.last().amount)
    } else {
        amounts_marked(accounts.drop_last(), debt)
    }
}

/// What a listing query brought, and what went wrong on the way.
#[derive(Debug)]
pub struct Listing {
    /// The caller's accounts, in the order the database gave them.
    pub accounts: Vec<Account>,
    /// One line for the log per failure.
    pub failures: Vec<String>,
}

/// Sorts out the answer to a listing query for `owner`.
///
/// A failed query counts as an empty answer with one line for the log. A
/// document that could not be read is skipped, with one line for the log. A
/// document of another owner is never handed on, whatever the database
/// returned.
pub fn owned_accounts(
    owner: &str,
    found: &Result<Vec<Result<Account, mongodb::error::Error>>, mongodb::error::Error>,
) -> (r: Listing)
    ensures
        r.accounts@ == accounts_brought(owner@, *found),
        describes(r.failures@, failures_met(*found)),
{
    let owner = String::from_str(owner);
    let mut accounts: Vec<Account> = Vec::new();
    let mut failures: Vec<String> = Vec::new();
    match found {
        Ok(docs) => {
            let mut i: usize = 0;
            while i < docs.len()
                invariant
                    i <= docs.len(),
                    accounts@ == owned(readable(docs@.take(i as int)), owner@),
                    describes(failures@, failures_of(docs@.take(i as int))),
                decreases docs.len() - i,
            {
                proof {
                    let next = docs@.take(i + 1);
                    assert(next.drop_last() =~= docs@.take(i as int));
                    assert(next.last() == docs@[i as int]);
                    let before = readable(docs@.take(i as int));
                    if let Ok(account) = docs@[i as int] {
                        assert(before.push(account).drop_last() =~= before);
                    }
                }
                match &docs[i] {
                    Ok(account) => {
                        if account.owned_by(&owner) {
                            accounts.push(account.duplicate());
                        }
                    },
                    Err(e) => {
                        failures.push(e.to_string());
                    },
                }
                i += 1;
            }
            assert(docs@.take(docs.len() as int) =~= docs@);
        },
        Err(e) => {
            failures.push(e.to_string());
        },
    }
    Listing { accounts, failures }
}

/// An answer in which every document could be read is read whole.
pub proof fn lemma_readable_of_all_read<E>(accounts: Seq<Account>)
    ensures
        readable(accounts.map_values(|account: Account| Ok::<Account, E>(account))) == accounts,
        failures_of(accounts.map_values(|account: Account| Ok::<Account, E>(account))).len() == 0,
    decreases accounts.len(),
{
    let answer = accounts.map_values(|account: Account| Ok::<Account, E>(account));
    if accounts.len() > 0 {
        let rest = accounts.drop_last();
        lemma_readable_of_all_read::<E>(rest);
        assert(answer.drop_last() =~= rest.map_values(|account: Account| Ok::<Account, E>(account)));
        assert(answer.last() == Ok::<Account, E>(accounts.last()));
        assert(rest.push(accounts.last()) =~= accounts);
    } else {
        assert(readable(answer) =~= accounts);
    }
}

/// Picking out an owner's accounts twice picks out no fewer than picking
/// them out once.
pub proof fn lemma_owned_is_idempotent(accounts: Seq<Account>, owner: Seq<char>)
    ensures
        owned(owned(accounts, owner), owner) == owned(accounts, owner),
    decreases accounts.len(),
{
    if accounts.len() > 0 {
        let rest = accounts.drop_last();
        lemma_owned_is_idempotent(rest, owner);
        if accounts.last().is_owned_by(owner) {
            let kept = owned(rest, owner);
            assert(kept.push(accounts.last()).drop_last() =~= kept);
        }
    }
}

/// The accounts of an owner in two runs of accounts put together are those in
/// the first run, then those in the second.
pub proof fn lemma_owned_of_joined(first: Seq<Account>, second: Seq<Account>, owner: Seq<char>)
    ensures
        owned(first + second, owner) == owned(first, owner) + owned(second, owner),
    decreases second.len(),
{
    if second.len() == 0 {
        assert(first + second =~= first);
        assert(owned(first, owner) + owned(second, owner) =~= owned(first, owner));
    } else {
        let rest = second.drop_last();
        lemma_owned_of_joined(first, rest, owner);
        assert((first + second).drop_last() =~= first + rest);
        assert((first + second).last() == second.last());
        if second.last().is_owned_by(owner) {
            assert((owned(first, owner) + owned(rest, owner)).push(second.last()) =~= owned(
                first,
                owner,
            ) + owned(rest, owner).push(second.last()));
        }
    }
}

/// Every readable document is one that the answer holds, unharmed.
pub proof fn lemma_readable_comes_from_found<E>(found: Seq<Result<Account, E>>)
    ensures
        forall|i: int|
            0 <= i < readable(found).len() ==> exists|j: int|
                0 <= j < found.len() && found[j] == Ok::<Account, E>(#[trigger] readable(found)[i]),
    decreases found.len(),
{
    if found.len() > 0 {
        let rest = found.drop_last();
        lemma_readable_comes_from_found(rest);
        let all = readable(found);
        assert forall|i: int| 0 <= i < all.len() implies exists|j: int|
            0 <= j < found.len() && found[j] == Ok::<Account, E>(#[trigger] all[i]) by {
            if i < readable(rest).len() {
                assert(all[i] == readable(rest)[i]);
                let j = choose|j: int|
                    0 <= j < rest.len() && rest[j] == Ok::<Account, E>(readable(rest)[i]);
                assert(found[j] == rest[j]);
            } else {
                assert(found[found.len() - 1] == Ok::<Account, E>(all[i]));
            }
        }
    }
}

/// The amounts that make up a user's total: what they hold and what they owe.
/// The total is the sum of the first list less the sum of the second, each
/// summed from the front.
#[derive(Debug)]
pub struct Balances {
    /// The amounts of the accounts that are not debt, in order.
    pub non_debt: Vec<Amount>,
    /// The amounts of the accounts that are debt, in order.
    pub debt: Vec<Amount>,
    /// One line for the log per failure.
    pub failures: Vec<String>,
}

/// Splits the answer to a listing query for `user_id` into what the user
/// holds and what the user owes.
///
/// Failures are treated as `owned_accounts` treats them: a failed query makes
/// both lists empty.
pub fn accounts_total_for(
    user_id: &str,
    found: &Result<Vec<Result<Account, mongodb::error::Error>>, mongodb::error::Error>,
) -> (r: Balances)
    ensures
        r.non_debt@ == amounts_marked(accounts_brought(user_id@, *found), false),
        r.debt@ == amounts_marked(accounts_brought(user_id@, *found), true),
        describes(r.failures@, failures_met(*found)),
{
    let listing = owned_accounts(user_id, found);
    let accounts = listing.accounts;
    let mut non_debt: Vec<Amount> = Vec::new();
    let mut debt: Vec<Amount> = Vec::new();
    let mut i: usize = 0;
    while i < accounts.len()
        invariant
            i <= accounts.len(),
            non_debt@ == amounts_marked(accounts@.take(i as int), false),
            debt@ == amounts_marked(accounts@.take(i as int), true),
        decreases accounts.len() - i,
    {
        proof {
            let next = accounts@.take(i + 1);
            assert(next.drop_last() =~= accounts@.take(i as int));
            assert(next.last() == accounts@[i as int]);
        }
        if accounts[i].debt {
            debt.push(accounts[i].amount);
        } else {
            non_debt.push(accounts[i].amount);
        }
        i += 1;
    }
    assert(accounts@.take(accounts.len() as int) =~= accounts@);
    Balances { non_debt, debt, failures: listing.failures }
}

/// Every account of `owned(accounts, owner)` belongs to `owner` and is one of
/// `accounts`: a listing never shows one user the records of another.
pub proof fn lemma_owned_belongs_to_owner(accounts: Seq<Account>, owner: Seq<char>)
    ensures
        forall|i: int|
            0 <= i < owned(accounts, owner).len() ==> {
                &&& (#[trigger] owned(accounts, owner)[i]).user_id@ == owner
                &&& accounts.contains(owned(accounts, owner)[i])
            },
        forall|j: int|
            0 <= j < accounts.len() && accounts[j].is_owned_by(owner) ==> owned(
                accounts,
                owner,
            ).contains(#[trigger] accounts[j]),
    decreases accounts.len(),
{
    if accounts.len() > 0 {
        let rest = accounts.drop_last();
        lemma_owned_belongs_to_owner(rest, owner);
        let kept = owned(rest, owner);
        let all = owned(accounts, owner);
        assert forall|i: int| 0 <= i < all.len() implies {
            &&& (#[trigger] all[i]).user_id@ == owner
            &&& accounts.contains(all[i])
        } by {
            if i < kept.len() {
                assert(all[i] == kept[i]);
                assert(rest.contains(kept[i]));
                let j = choose|j: int| 0 <= j < rest.len() && rest[j] == kept[i];
                assert(accounts[j] == kept[i]);
            } else {
                assert(all[i] == accounts.last());
                assert(accounts[accounts.len() - 1] == accounts.last());
            }
        }
        assert forall|j: int|
            0 <= j < accounts.len() && accounts[j].is_owned_by(owner) implies all.contains(
            #[trigger] accounts[j],
        ) by {
            if j < rest.len() {
                assert(rest[j] == accounts[j]);
                assert(kept.contains(rest[j]));
                let i = choose|i: int| 0 <= i < kept.len() && kept[i] == rest[j];
                assert(all[i] == accounts[j]);
            } else {
                assert(all[all.len() - 1] == accounts[j]);
            }
        }
    }
}

} // verus!

//! A model of the accounts collection: what lookups find and what deletes
//! leave behind. The database does the work; these functions say what the
//! handlers take it to mean.

use crate::models::account::{lemma_owned_of_joined, owned, Account, Filter};
use vstd::prelude::*;

verus! {

/// No two documents of a collection share an identifier.
pub open spec fn distinct_ids(docs: Seq<Account>) -> bool {
    forall|i: int, j: int| 0 <= i < j < docs.len() ==> docs[i]._id@ != docs[j]._id@
}

/// What a lookup in the collection `docs` finds: the first document that
/// `filter` selects, if there is one.
pub open spec fn find_one(docs: Seq<Account>, filter: Filter) -> Option<Account>
    decreases docs.len(),
{
    if docs.len() == 0 {
        None
    } else if filter.selects(docs.first()) {
        Some(docs.first())
    } else {
        find_one(docs.drop_first(), filter)
    }
}

/// The collection `docs` after a delete: without the first document that
/// `filter` selects, if there is one.
pub open spec fn delete_one(docs: Seq<Account>, filter: Filter) -> Seq<Account>
    decreases docs.len(),
{
    if docs.len() == 0 {
        docs
    } else if filter.selects(docs.first()) {
        docs.drop_first()
    } else {
        seq![docs.first()] + delete_one(docs.drop_first(), filter)
    }
}

/// How many documents a delete removes from `docs`: one if `filter` selects
/// any, else none.
pub open spec fn deleted_count(docs: Seq<Account>, filter: Filter) -> nat {
    if find_one(docs, filter) is Some {
        1
    } else {
        0
    }
}

/// A lookup finds nothing exactly when the filter selects no document.
pub proof fn lemma_find_one_none(docs: Seq<Account>, filter: Filter)
    ensures
        find_one(docs, filter) is None <==> forall|i: int|
            0 <= i < docs.len() ==> !filter.selects(#[trigger] docs[i]),
        find_one(docs, filter) matches Some(account) ==> filter.selects(account) && docs.contains(
            account,
        ),
    decreases docs.len(),
{
    if docs.len() > 0 {
        let rest = docs.drop_first();
        lemma_find_one_none(rest, filter);
        if filter.selects(docs.first()) {
            assert(docs[0] == docs.first());
        } else {
            assert forall|i: int| 0 <= i < rest.len() implies rest[i] == docs[i + 1] by {}
            if find_one(rest, filter) is None {
                assert forall|i: int| 0 <= i < docs.len() implies !filter.selects(
                    #[trigger] docs[i],
                ) by {
                    if i > 0 {
                        assert(rest[i - 1] == docs[i]);
                    }
                }
            } else {
                let account = find_one(rest, filter)->0;
                let k = choose|k: int| 0 <= k < rest.len() && rest[k] == account;
                assert(docs[k + 1] == account);
            }
        }
    }
}

/// In a collection without repeated identifiers, a delete that names an
/// identifier leaves nothing behind that the same filter selects.
pub proof fn lemma_delete_one_removes(docs: Seq<Account>, filter: Filter)
    requires
        distinct_ids(docs),
        filter.id is Some,
    ensures
        find_one(delete_one(docs, filter), filter) is None,
        deleted_count(delete_one(docs, filter), filter) == 0,
        delete_one(delete_one(docs, filter), filter) == delete_one(docs, filter),
    decreases docs.len(),
{
    let after = delete_one(docs, filter);
    if docs.len() > 0 {
        let rest = docs.drop_first();
        assert forall|i: int| 0 <= i < rest.len() implies rest[i] == docs[i + 1] by {}
        assert(distinct_ids(rest)) by {
            assert forall|i: int, j: int| 0 <= i < j < rest.len() implies rest[i]._id@
                != rest[j]._id@ by {
                assert(docs[i + 1]._id@ != docs[j + 1]._id@);
            }
        }
        if filter.selects(docs.first()) {
            assert forall|i: int| 0 <= i < rest.len() implies !filter.selects(
                #[trigger] rest[i],
            ) by {
                assert(docs[0]._id@ != docs[i + 1]._id@);
            }
            lemma_find_one_none(rest, filter);
            lemma_delete_one_keeps_unselected(rest, filter);
        } else {
            lemma_delete_one_removes(rest, filter);
            let tail = delete_one(rest, filter);
            assert(after.first() == docs.first());
            assert(after.drop_first() =~= tail);
        }
    }
}

/// A delete changes nothing where the filter selects no document.
pub proof fn lemma_delete_one_keeps_unselected(docs: Seq<Account>, filter: Filter)
    requires
        forall|i: int| 0 <= i < docs.len() ==> !filter.selects(#[trigger] docs[i]),
    ensures
        delete_one(docs, filter) == docs,
    decreases docs.len(),
{
    if docs.len() > 0 {
        let rest = docs.drop_first();
        assert forall|i: int| 0 <= i < rest.len() implies !filter.selects(#[trigger] rest[i]) by {
            assert(rest[i] == docs[i + 1]);
        }
        lemma_delete_one_keeps_unselected(rest, filter);
        assert(docs[0] == docs.first());
        assert(seq![docs.first()] + rest =~= docs);
    }
}

/// A delete never touches the accounts of a user other than the one the
/// filter names.
pub proof fn lemma_delete_one_spares_others(docs: Seq<Account>, filter: Filter, other: Seq<char>)
    requires
        other != filter.user_id@,
    ensures
        owned(delete_one(docs, filter), other) == owned(docs, other),
    decreases docs.len(),
{
    if docs.len() > 0 {
        let head = seq![docs.first()];
        let rest = docs.drop_first();
        assert(head + rest =~= docs);
        lemma_owned_of_joined(head, rest, other);
        if filter.selects(docs.first()) {
            assert(head.drop_last() =~= Seq::<Account>::empty());
            assert(head.last() == docs.first());
            assert(owned(Seq::<Account>::empty(), other) =~= Seq::<Account>::empty());
            assert(owned(head, other) =~= Seq::<Account>::empty());
            assert(owned(head, other) + owned(rest, other) =~= owned(rest, other));
        } else {
            lemma_delete_one_spares_others(rest, filter, other);
            lemma_owned_of_joined(head, delete_one(rest, filter), other);
        }
    }
}

} // verus!

use simple_budget::amount::Amount;
use simple_budget::authenticated::accounts::{delete, edit, index, new, update};
use simple_budget::authenticated::accounts::{filter_for_all, filter_for_one, AccountForm};
use simple_budget::authenticated::UserExtension;
use simple_budget::models::account::{accounts_total_for, owned_accounts, Account, Filter};
use simple_budget::response::{ContentType, StatusCode};

const ALICE: &str = "aaaaaaaaaaaaaaaaaaaaaaaa";
const BOB: &str = "bbbbbbbbbbbbbbbbbbbbbbbb";

type Found = Result<Vec<Result<Account, mongodb::error::Error>>, mongodb::error::Error>;

fn amount(value: f64) -> Amount {
    Amount::from_bits(value.to_bits())
}

fn number(amount: Amount) -> f64 {
    f64::from_bits(amount.to_bits())
}

fn user(id: &str) -> UserExtension {
    UserExtension { id: id.to_string(), csrf: "csrf-token".to_string() }
}

fn account(id: &str, owner: &str, name: &str, value: f64, debt: bool) -> Account {
    Account {
        _id: id.to_string(),
        user_id: owner.to_string(),
        name: name.to_string(),
        amount: amount(value),
        debt,
    }
}

fn failure(text: &str) -> mongodb::error::Error {
    mongodb::error::Error::custom(text.to_string())
}

fn two_users() -> Vec<Account> {
    vec![
        account("000000000000000000000001", ALICE, "Checking", 500.0, false),
        account("000000000000000000000002", BOB, "Bob's savings", 9000.0, false),
        account("000000000000000000000003", ALICE, "Credit card", 120.5, true),
        account("000000000000000000000004", BOB, "Bob's loan", 300.0, true),
    ]
}

/// What a collection held in memory answers to a listing query.
fn find_all(store: &[Account], filter: &Filter) -> Found {
    Ok(store.iter().filter(|a| filter.matches(a)).map(|a| Ok(a.duplicate())).collect())
}

/// What a collection held in memory answers to a lookup.
fn find_one(store: &[Account], filter: &Filter) -> Option<Account> {
    store.iter().find(|a| filter.matches(a)).map(|a| a.duplicate())
}

/// Removes the first selected document and says how many were removed.
fn delete_one(store: &mut Vec<Account>, filter: &Filter) -> u64 {
    match store.iter().position(|a| filter.matches(a)) {
        Some(at) => {
            store.remove(at);
            1
        }
        None => 0,
    }
}

/// Runs a delete request to its end against a collection held in memory.
fn run_delete(store: &mut Vec<Account>, user: &UserExtension, id: &str) -> Result<u16, u16> {
    let filter = delete::page(user, id).map_err(|s| s.as_u16())?;
    let seen = find_one(store, &filter).map(|a| delete::AccountRecord {
        name: a.name,
        amount: a.amount,
        user_id: a.user_id,
    });
    let filter = delete::found(filter, Ok(seen)).map_err(|s| s.as_u16())?;
    let removed = delete_one(store, &filter);
    let response = delete::deleted(Ok(removed)).map_err(|s| s.as_u16())?;
    assert_eq!(response.location.as_deref(), Some("/accounts"));
    Ok(response.status.as_u16())
}

#[test]
fn list_shows_only_the_callers_accounts() {
    let store = two_users();
    for (who, names) in [(ALICE, ["Checking", "Credit card"]), (BOB, ["Bob's savings", "Bob's loan"])]
    {
        let caller = user(who);
        let filter = index::page(&caller).unwrap();
        assert_eq!(filter.user_id, who);
        assert_eq!(filter.id, None);
        let listed = index::found(&caller, &filter, &find_all(&store, &filter));
        let shown: Vec<&str> = listed.page.view.accounts.iter().map(|r| r.name.as_str()).collect();
        assert_eq!(shown, names);
        assert!(listed.failures.is_empty());
    }
}

#[test]
fn list_drops_foreign_documents_whatever_the_database_returned() {
    let store = two_users();
    let caller = user(ALICE);
    let filter = index::page(&caller).unwrap();
    let everything: Found = Ok(store.iter().map(|a| Ok(a.duplicate())).collect());
    let listed = index::found(&caller, &filter, &everything);
    let ids: Vec<&str> = listed.page.view.accounts.iter().map(|r| r.id.as_str()).collect();
    assert_eq!(ids, ["000000000000000000000001", "000000000000000000000003"]);
    assert_eq!(number(listed.page.view.accounts[1].amount), 120.5);
}

#[test]
fn list_page_is_the_index_template_with_the_callers_token() {
    let caller = user(ALICE);
    let filter = index::page(&caller).unwrap();
    let listed = index::found(&caller, &filter, &Ok(Vec::new()));
    assert_eq!(listed.page.template, "accounts/index.html");
    assert_eq!(listed.page.status, StatusCode::Success);
    assert_eq!(listed.page.content_type, ContentType::Html);
    assert_eq!(listed.page.view.csrf, "csrf-token");
    assert!(listed.page.view.accounts.is_empty());
}

#[test]
fn list_skips_unreadable_documents_and_reports_them() {
    let caller = user(ALICE);
    let filter = index::page(&caller).unwrap();
    let found: Found = Ok(vec![
        Ok(account("000000000000000000000001", ALICE, "Checking", 1.0, false)),
        Err(failure("missing field `name`")),
        Ok(account("000000000000000000000003", ALICE, "Savings", 2.0, false)),
        Err(failure("invalid type")),
    ]);
    let listed = index::found(&caller, &filter, &found);
    let shown: Vec<&str> = listed.page.view.accounts.iter().map(|r| r.name.as_str()).collect();
    assert_eq!(shown, ["Checking", "Savings"]);
    assert_eq!(listed.failures.len(), 2);
    assert!(listed.failures[0].contains("missing field `name`"));
    assert!(listed.failures[1].contains("invalid type"));
}

#[test]
fn failed_listing_query_gives_an_empty_list() {
    let caller = user(ALICE);
    let filter = index::page(&caller).unwrap();
    let listed = index::found(&caller, &filter, &Err(failure("server selection timeout")));
    assert!(listed.page.view.accounts.is_empty());
    assert_eq!(listed.page.status.as_u16(), 200);
    assert_eq!(listed.failures.len(), 1);
    assert!(listed.failures[0].contains("server selection timeout"));
}

#[test]
fn list_for_a_malformed_caller_is_forbidden() {
    assert_eq!(index::page(&user("guest")).unwrap_err(), StatusCode::Forbidden);
    assert_eq!(index::page(&user("")).unwrap_err().as_u16(), 403);
    assert_eq!(filter_for_all(&user("aaaaaaaaaaaaaaaaaaaaaaa")).unwrap_err(), StatusCode::Forbidden);
}

#[test]
fn list_render_outcomes() {
    let caller = user(ALICE);
    let filter = index::page(&caller).unwrap();
    let listed = index::found(&caller, &filter, &Ok(Vec::new()));
    let response = listed.page.rendered(Ok("<ul></ul>".to_string())).unwrap();
    assert_eq!(response.status.as_u16(), 200);
    assert_eq!(response.body, "<ul></ul>");
    assert_eq!(response.content_type, Some(ContentType::Html));
    assert_eq!(response.location, None);
    let failed = listed.page.rendered(Err(tera::Error::msg("no such template")));
    assert_eq!(failed.unwrap_err().as_u16(), 500);
}

#[test]
fn owned_accounts_keeps_order_and_owner() {
    let store = two_users();
    let everything: Found = Ok(store.iter().map(|a| Ok(a.duplicate())).collect());
    let listing = owned_accounts(BOB, &everything);
    let names: Vec<&str> = listing.accounts.iter().map(|a| a.name.as_str()).collect();
    assert_eq!(names, ["Bob's savings", "Bob's loan"]);
    assert!(listing.accounts.iter().all(|a| a.user_id == BOB));
}

#[test]
fn total_is_what_is_held_less_what_is_owed() {
    let a = 1000.5_f64;
    let d = 250.25_f64;
    let found: Found = Ok(vec![
        Ok(account("000000000000000000000001", ALICE, "A", a, false)),
        Ok(account("000000000000000000000002", ALICE, "D", d, true)),
    ]);
    let balances = accounts_total_for(ALICE, &found);
    assert_eq!(balances.non_debt, vec![amount(a)]);
    assert_eq!(balances.debt, vec![amount(d)]);
    let held = balances.non_debt.iter().map(|x| number(*x)).reduce(|m, x| m + x).unwrap_or(0.0);
    let owed = balances.debt.iter().map(|x| number(*x)).reduce(|m, x| m + x).unwrap_or(0.0);
    assert_eq!(held - owed, a - d);
    assert_eq!(held - owed, 750.25);
}

#[test]
fn total_parts_keep_order_and_leave_out_other_users() {
    let mut store = two_users();
    store.push(account("000000000000000000000005", ALICE, "Savings", 0.1, false));
    store.push(account("000000000000000000000006", ALICE, "Car loan", 0.2, true));
    let everything: Found = Ok(store.iter().map(|a| Ok(a.duplicate())).collect());
    let balances = accounts_total_for(ALICE, &everything);
    assert_eq!(balances.non_debt, vec![amount(500.0), amount(0.1)]);
    assert_eq!(balances.debt, vec![amount(120.5), amount(0.2)]);
    assert!(balances.failures.is_empty());
}

#[test]
fn total_of_nothing_has_no_parts() {
    let balances = accounts_total_for(ALICE, &Ok(Vec::new()));
    assert!(balances.non_debt.is_empty());
    assert!(balances.debt.is_empty());
    let failed = accounts_total_for(ALICE, &Err(failure("down")));
    assert!(failed.non_debt.is_empty());
    assert!(failed.debt.is_empty());
    assert_eq!(failed.failures.len(), 1);
    let unreadable = accounts_total_for(
        ALICE,
        &Ok(vec![Err(failure("bad document")), Ok(account("000000000000000000000001", ALICE, "A", 3.0, true))]),
    );
    assert!(unreadable.non_debt.is_empty());
    assert_eq!(unreadable.debt, vec![amount(3.0)]);
    assert_eq!(unreadable.failures.len(), 1);
}

#[test]
fn filter_for_one_spells_identifiers_canonically() {
    let filter = filter_for_one(&user("AAAAAAAAAAAAAAAAAAAAAAAA"), "00000000000000000000000F").unwrap();
    assert_eq!(filter.user_id, ALICE);
    assert_eq!(filter.id.as_deref(), Some("00000000000000000000000f"));
}

#[test]
fn filter_matches_owner_and_identifier() {
    let store = two_users();
    let all_of_alice = filter_for_all(&user(ALICE)).unwrap();
    let hits: Vec<bool> = store.iter().map(|a| all_of_alice.matches(a)).collect();
    assert_eq!(hits, [true, false, true, false]);
    let one = filter_for_one(&user(ALICE), "000000000000000000000003").unwrap();
    let hits: Vec<bool> = store.iter().map(|a| one.matches(a)).collect();
    assert_eq!(hits, [false, false, true, false]);
    let foreign = filter_for_one(&user(ALICE), "000000000000000000000002").unwrap();
    assert!(store.iter().all(|a| !foreign.matches(a)));
}

#[test]
fn edit_shows_the_callers_account() {
    let store = two_users();
    let caller = user(ALICE);
    let filter = edit::page(&caller, "000000000000000000000003").unwrap();
    let page = edit::found(&caller, &filter, Ok(find_one(&store, &filter))).unwrap();
    assert_eq!(page.template, "accounts/edit.html");
    assert_eq!(page.status.as_u16(), 200);
    assert_eq!(page.content_type, ContentType::Html);
    assert_eq!(page.view.csrf, "csrf-token");
    assert_eq!(page.view.id, "000000000000000000000003");
    assert_eq!(page.view.name, "Credit card");
    assert_eq!(number(page.view.amount), 120.5);
    assert!(page.view.debt);
    let response = page.rendered(Ok("<form></form>".to_string())).unwrap();
    assert_eq!(response.status.as_u16(), 200);
    assert_eq!(response.body, "<form></form>");
    assert_eq!(page.rendered(Err(tera::Error::msg("broken"))).unwrap_err().as_u16(), 500);
}

#[test]
fn edit_of_an_absent_or_foreign_account_is_not_found() {
    let store = two_users();
    let caller = user(ALICE);
    let absent = edit::page(&caller, "0000000000000000000000ff").unwrap();
    assert_eq!(
        edit::found(&caller, &absent, Ok(find_one(&store, &absent))).unwrap_err().as_u16(),
        404
    );
    let foreign = edit::page(&caller, "000000000000000000000002").unwrap();
    assert_eq!(
        edit::found(&caller, &foreign, Ok(find_one(&store, &foreign))).unwrap_err(),
        StatusCode::NotFound
    );
    let leaked = Ok(Some(store[1].duplicate()));
    assert_eq!(edit::found(&caller, &foreign, leaked).unwrap_err(), StatusCode::NotFound);
}

#[test]
fn edit_errors_by_cause() {
    let caller = user(ALICE);
    assert_eq!(edit::page(&caller, "xyz").unwrap_err().as_u16(), 400);
    assert_eq!(edit::page(&caller, "00000000000000000000000g").unwrap_err().as_u16(), 400);
    assert_eq!(edit::page(&user("guest"), "000000000000000000000001").unwrap_err().as_u16(), 403);
    assert_eq!(edit::page(&user("guest"), "xyz").unwrap_err().as_u16(), 400);
    let filter = edit::page(&caller, "000000000000000000000001").unwrap();
    assert_eq!(edit::found(&caller, &filter, Err(failure("down"))).unwrap_err().as_u16(), 500);
}

#[test]
fn delete_removes_the_callers_account_and_redirects() {
    let mut store = two_users();
    let status = run_delete(&mut store, &user(ALICE), "000000000000000000000001");
    assert_eq!(status, Ok(303));
    assert_eq!(store.len(), 3);
    assert!(store.iter().all(|a| a._id != "000000000000000000000001"));
}

#[test]
fn deleting_again_is_not_found_every_time() {
    let mut store = two_users();
    let caller = user(ALICE);
    assert_eq!(run_delete(&mut store, &caller, "000000000000000000000003"), Ok(303));
    for _ in 0..3 {
        assert_eq!(run_delete(&mut store, &caller, "000000000000000000000003"), Err(404));
        assert_eq!(store.len(), 3);
    }
    assert_eq!(run_delete(&mut store, &caller, "0000000000000000000000ee"), Err(404));
    assert_eq!(store.len(), 3);
}

#[test]
fn deleting_another_users_account_is_not_found_and_removes_nothing() {
    let mut store = two_users();
    assert_eq!(run_delete(&mut store, &user(ALICE), "000000000000000000000002"), Err(404));
    assert_eq!(store.len(), 4);
}

#[test]
fn delete_checks_the_outcome_of_the_delete() {
    assert_eq!(delete::deleted(Ok(0)).unwrap_err(), StatusCode::NotFound);
    assert_eq!(delete::deleted(Err(failure("down"))).unwrap_err().as_u16(), 500);
    let response = delete::deleted(Ok(1)).unwrap();
    assert_eq!(response.status, StatusCode::SeeOther);
    assert_eq!(response.location.as_deref(), Some("/accounts"));
    assert_eq!(response.body, "");
}

#[test]
fn delete_lookup_outcomes() {
    let caller = user(ALICE);
    let filter = || delete::page(&caller, "000000000000000000000001").unwrap();
    assert_eq!(delete::found(filter(), Ok(None)).unwrap_err().as_u16(), 404);
    assert_eq!(delete::found(filter(), Err(failure("down"))).unwrap_err().as_u16(), 500);
    let foreign = delete::AccountRecord {
        name: "Bob's".to_string(),
        amount: amount(1.0),
        user_id: BOB.to_string(),
    };
    assert_eq!(delete::found(filter(), Ok(Some(foreign))).unwrap_err().as_u16(), 404);
    let own = delete::AccountRecord {
        name: "Mine".to_string(),
        amount: amount(1.0),
        user_id: ALICE.to_string(),
    };
    let next = delete::found(filter(), Ok(Some(own))).unwrap();
    assert_eq!(next.user_id, ALICE);
    assert_eq!(next.id.as_deref(), Some("000000000000000000000001"));
    assert_eq!(delete::page(&caller, "nope").unwrap_err().as_u16(), 400);
    assert_eq!(delete::page(&user("nobody"), "000000000000000000000001").unwrap_err().as_u16(), 403);
}

#[test]
fn new_form_carries_the_token() {
    let page = new::page(&user(ALICE));
    assert_eq!(page.template, "accounts/new.html");
    assert_eq!(page.status.as_u16(), 200);
    assert_eq!(page.content_type, ContentType::Html);
    assert_eq!(page.view.csrf, "csrf-token");
    let response = page.rendered(Ok("<form></form>".to_string())).unwrap();
    assert_eq!(response.body, "<form></form>");
    assert_eq!(page.rendered(Err(tera::Error::msg("broken"))).unwrap_err().as_u16(), 500);
}

#[test]
fn update_with_a_valid_form_changes_the_callers_account() {
    let form = AccountForm { name: "Checking 2".to_string(), amount: amount(7.5), debt: None };
    let step = update::page(&user(ALICE), "00000000000000000000000A", None, &form).unwrap();
    let update::Step::Update(filter, changes) = step else {
        panic!("a valid form must lead to an update");
    };
    assert_eq!(filter.user_id, ALICE);
    assert_eq!(filter.id.as_deref(), Some("00000000000000000000000a"));
    assert_eq!(changes.name, "Checking 2");
    assert_eq!(number(changes.amount), 7.5);
    assert!(!changes.debt);
    assert_eq!(update::updated(Ok(1)).unwrap().status.as_u16(), 303);
    assert_eq!(update::updated(Ok(1)).unwrap().location.as_deref(), Some("/accounts"));
    assert_eq!(update::updated(Ok(0)).unwrap_err().as_u16(), 404);
    assert_eq!(update::updated(Err(failure("down"))).unwrap_err().as_u16(), 500);
}

#[test]
fn update_with_a_bad_form_shows_it_again() {
    let form = AccountForm { name: "abc".to_string(), amount: amount(7.5), debt: Some(true) };
    let caller = user(ALICE);
    let step = update::page(&caller, "000000000000000000000001", Some("x-turbo"), &form).unwrap();
    let update::Step::Render(page) = step else {
        panic!("a short name must be rejected");
    };
    assert_eq!(page.template, "accounts/form.turbo.html");
    assert_eq!(page.status.as_u16(), 400);
    assert_eq!(page.content_type, ContentType::TurboStream);
    assert_eq!(page.view.csrf, "csrf-token");
    assert_eq!(page.view.id, "000000000000000000000001");
    assert_eq!(page.view.name, "abc");
    assert_eq!(page.view.debt, Some(true));
    assert_eq!(page.view.errors, "name: must be at least 5 characters long\n");
    let response = page.rendered(Ok("<turbo-stream/>".to_string())).unwrap();
    assert_eq!(response.status.as_u16(), 400);
    assert_eq!(response.content_type.unwrap().header_value(), "text/vnd.turbo-stream.html");

    let plain = update::page(&caller, "000000000000000000000001", None, &form).unwrap();
    let update::Step::Render(page) = plain else {
        panic!("a short name must be rejected");
    };
    assert_eq!(page.template, "accounts/edit.html");
    assert_eq!(page.rendered(Err(tera::Error::msg("x"))).unwrap_err().as_u16(), 500);
}

#[test]
fn update_errors_by_cause() {
    let form = AccountForm { name: "abc".to_string(), amount: amount(7.5), debt: None };
    assert_eq!(update::page(&user(ALICE), "abc", None, &form).unwrap_err().as_u16(), 400);
    assert_eq!(
        update::page(&user("x"), "000000000000000000000001", None, &form).unwrap_err().as_u16(),
        403
    );
}

/// Gives the first selected document new values and says how many matched.
fn update_one(store: &mut Vec<Account>, filter: &Filter, changes: update::Changes) -> u64 {
    match store.iter_mut().find(|a| filter.matches(a)) {
        Some(account) => {
            account.name = changes.name;
            account.amount = changes.amount;
            account.debt = changes.debt;
            1
        }
        None => 0,
    }
}

#[test]
fn update_changes_only_the_callers_account() {
    let mut store = two_users();
    let form = AccountForm { name: "Renamed".to_string(), amount: amount(1.25), debt: Some(true) };

    let step = update::page(&user(ALICE), "000000000000000000000001", None, &form).unwrap();
    let update::Step::Update(filter, changes) = step else {
        panic!("a valid form must lead to an update");
    };
    let matched = update_one(&mut store, &filter, changes);
    assert_eq!(update::updated(Ok(matched)).unwrap().status.as_u16(), 303);
    assert_eq!(store[0].name, "Renamed");
    assert_eq!(store[0]._id, "000000000000000000000001");
    assert_eq!(store[0].user_id, ALICE);
    assert!(store[0].debt);
    assert_eq!(store[1].name, "Bob's savings");
    assert_eq!(store[3].name, "Bob's loan");

    let step = update::page(&user(ALICE), "000000000000000000000002", None, &form).unwrap();
    let update::Step::Update(filter, changes) = step else {
        panic!("a valid form must lead to an update");
    };
    let matched = update_one(&mut store, &filter, changes);
    assert_eq!(update::updated(Ok(matched)).unwrap_err().as_u16(), 404);
    assert_eq!(store[1].name, "Bob's savings");
    assert_eq!(number(store[1].amount), 9000.0);
}

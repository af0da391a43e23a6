//! What is kept of a user and how it changes: linked items, account records
//! and plans.

use crate::common::errors::ApiError;
use crate::common::views;
use crate::common::decimal::Decimal;
use crate::controllers::plaid_controller::{AccountError, AccountSuccess};
use crate::controllers::user_controller::{SignupPayload, UpdatePayload};
use crate::models::plan_model::{Allocation, Plan, PlanView};
use crate::models::user_model::{AccountRecord, PlaidItem, User};
use crate::services::finchplaid::{contains, listed};
use vstd::prelude::*;
use vstd::string::StringExecFns;

verus! {

/// The first item with the given id, by position.
pub open spec fn item_position(accounts: Seq<PlaidItem>, item_id: Seq<char>) -> Option<int>
    decreases accounts.len(),
{
    if accounts.len() == 0 {
        None
    } else {
        match item_position(accounts.drop_last(), item_id) {
            Some(i) => Some(i),
            None => if accounts.last().item_id@ == item_id {
                Some(accounts.len() - 1)
            } else {
                None
            },
        }
    }
}

/// The records that do not belong to the item, in their order.
pub open spec fn records_without(records: Seq<AccountRecord>, item_id: Seq<char>) -> Seq<
    AccountRecord,
>
    decreases records.len(),
{
    if records.len() == 0 {
        Seq::empty()
    } else if records.last().item_id@ != item_id {
        records_without(records.drop_last(), item_id).push(records.last())
    } else {
        records_without(records.drop_last(), item_id)
    }
}

proof fn lemma_item_position_extends(accounts: Seq<PlaidItem>, item_id: Seq<char>, k: int)
    requires
        0 <= k <= accounts.len(),
        item_position(accounts.take(k), item_id) is Some,
    ensures
        item_position(accounts, item_id) == item_position(accounts.take(k), item_id),
    decreases accounts.len(),
{
    if k < accounts.len() {
        assert(accounts.drop_last().take(k) =~= accounts.take(k));
        lemma_item_position_extends(accounts.drop_last(), item_id, k);
    } else {
        assert(accounts.take(k) =~= accounts);
    }
}

fn find_item(accounts: &Vec<PlaidItem>, item_id: &String) -> (r: Option<usize>)
    ensures
        match r {
            Some(i) => i < accounts@.len() && accounts@[i as int].item_id@ == item_id@
                && item_position(accounts@, item_id@) == Some(i as int),
            None => item_position(accounts@, item_id@) is None,
        },
{
    let mut i: usize = 0;
    while i < accounts.len()
        invariant
            i <= accounts.len(),
            item_position(accounts@.take(i as int), item_id@) is None,
        decreases accounts.len() - i,
    {
        proof {
            assert(accounts@.take(i + 1).drop_last() =~= accounts@.take(i as int));
            assert(accounts@.take(i + 1).last() == accounts@[i as int]);
        }
        if accounts[i].item_id.eq(item_id) {
            proof {
                lemma_item_position_extends(accounts@, item_id@, i + 1);
            }
            return Some(i);
        }
        i += 1;
    }
    proof {
        assert(accounts@.take(i as int) =~= accounts@);
    }
    None
}

/// Takes the item with the given id from the items of a user, the last item
/// moving into its place, and with it the records of its accounts. Fails, and
/// changes nothing, where the user has no such item.
pub fn delete_item_from(
    item_id: String,
    accounts: &mut Vec<PlaidItem>,
    account_records: &mut Vec<AccountRecord>,
) -> (r: Result<String, ApiError>)
    ensures
        match item_position(old(accounts)@, item_id@) {
            Some(position) => {
                &&& r matches Ok(removed) && removed@ == item_id@
                &&& final(accounts)@ == old(accounts)@.update(
                    position,
                    old(accounts)@.last(),
                ).drop_last()
                &&& final(account_records)@ == records_without(old(account_records)@, item_id@)
            },
            None => {
                &&& r matches Err(error) && error.code() == 400 && error.message()
                    == "No account with id "@ + item_id@ + " found in current user"@
                &&& final(accounts)@ == old(accounts)@
                &&& final(account_records)@ == old(account_records)@
            },
        },
{
    let position = match find_item(accounts, &item_id) {
        Some(position) => position,
        None => {
            return Err(
                ApiError::new(
                    400,
                    String::from_str("No account with id ").concat(item_id.as_str()).concat(
                        " found in current user",
                    ),
                ),
            );
        },
    };
    let item = accounts.swap_remove(position);
    let ghost before = account_records@;
    let mut kept: Vec<AccountRecord> = Vec::new();
    let mut i: usize = 0;
    assert(kept@ =~= records_without(before.take(0), item_id@));
    while i < account_records.len()
        invariant
            i <= account_records.len(),
            before == account_records@,
            kept@ == records_without(before.take(i as int), item_id@),
        decreases account_records.len() - i,
    {
        proof {
            assert(before.take(i + 1).drop_last() =~= before.take(i as int));
            assert(before.take(i + 1).last() == before[i as int]);
        }
        if !account_records[i].item_id.eq(&item_id) {
            kept.push(account_records[i].clone());
        }
        i += 1;
    }
    proof {
        assert(before.take(i as int) =~= before);
    }
    *account_records = kept;
    Ok(item.item_id)
}

/// Takes the item with the given id from a user, and with it the records of
/// its accounts; all else of the user stays. Fails, and changes nothing, where
/// the user has no such item.
pub fn delete_item(item_id: String, user: &mut User) -> (r: Result<String, ApiError>)
    ensures
        match item_position(old(user).accounts@, item_id@) {
            Some(position) => {
                &&& r matches Ok(removed) && removed@ == item_id@
                &&& final(user).accounts@ == old(user).accounts@.update(
                    position,
                    old(user).accounts@.last(),
                ).drop_last()
                &&& final(user).account_records@ == records_without(
                    old(user).account_records@,
                    item_id@,
                )
            },
            None => {
                &&& r matches Err(error) && error.code() == 400 && error.message()
                    == "No account with id "@ + item_id@ + " found in current user"@
                &&& final(user).accounts@ == old(user).accounts@
                &&& final(user).account_records@ == old(user).account_records@
            },
        },
        final(user).id == old(user).id,
        final(user).email == old(user).email,
        final(user).password == old(user).password,
        final(user).first_name == old(user).first_name,
        final(user).last_name == old(user).last_name,
        final(user).income == old(user).income,
        final(user).net_worth == old(user).net_worth,
        final(user).location == old(user).location,
        final(user).birthday == old(user).birthday,
        final(user).snapshots == old(user).snapshots,
        final(user).recurrings == old(user).recurrings,
        final(user).goals == old(user).goals,
        final(user).insights == old(user).insights,
        final(user).plans == old(user).plans,
{
    delete_item_from(item_id, &mut user.accounts, &mut user.account_records)
}

/// The plan that is made for a user without plans around the allocation of the
/// linked accounts.
pub open spec fn plan_around(allocation: Allocation, id: Seq<char>) -> PlanView {
    PlanView {
        id: Some(id),
        name: "My Plan"@,
        recurrings: Seq::empty(),
        allocations: seq![allocation@],
        events: Seq::empty(),
    }
}

/// Adds the allocation of the linked accounts to the first plan of a user, and
/// makes a plan around it, with the id `fresh_id`, where the user has none.
pub fn add_plaid_plan(plans: &mut Vec<Plan>, allocation: Allocation, fresh_id: String)
    ensures
        old(plans)@.len() == 0 ==> views(final(plans)@) == seq![
            plan_around(allocation, fresh_id@),
        ],
        old(plans)@.len() > 0 ==> views(final(plans)@) == views(old(plans)@).update(
            0,
            PlanView {
                allocations: old(plans)@[0]@.allocations.push(allocation@),
                ..old(plans)@[0]@
            },
        ),
{
    if plans.len() < 1 {
        let mut allocations: Vec<Allocation> = Vec::new();
        allocations.push(allocation);
        let plan = Plan {
            id: Some(fresh_id),
            name: String::from_str("My Plan"),
            recurrings: Vec::new(),
            allocations,
            events: Vec::new(),
        };
        proof {
            assert(plan@.allocations =~= seq![allocation@]);
            assert(plan@.recurrings =~= Seq::empty());
            assert(plan@.events =~= Seq::empty());
        }
        plans.push(plan);
        assert(views(plans@) =~= seq![plan_around(allocation, fresh_id@)]);
    } else {
        let ghost before = plans@;
        plans[0].allocations.push(allocation);
        proof {
            assert(plans@[0]@.allocations =~= before[0]@.allocations.push(allocation@));
            assert(views(plans@) =~= views(before).update(
                0,
                PlanView {
                    allocations: before[0]@.allocations.push(allocation@),
                    ..before[0]@
                },
            ));
        }
    }
}

/// Puts a plan in the place of the first plan of a user, and makes it the
/// first where the user has none.
pub fn store_plan(plans: &mut Vec<Plan>, plan: Plan)
    ensures
        old(plans)@.len() == 0 ==> final(plans)@ == seq![plan],
        old(plans)@.len() > 0 ==> final(plans)@ == old(plans)@.update(0, plan),
{
    if plans.len() < 1 {
        plans.push(plan);
        assert(plans@ =~= seq![plan]);
    } else {
        plans[0] = plan;
    }
}

/// A record once the account `account_id` of the item `item_id` has been
/// hidden or shown.
pub open spec fn flagged(
    record: AccountRecord,
    item_id: Seq<char>,
    account_id: Seq<char>,
    hide_or_not: bool,
) -> AccountRecord {
    if record.item_id@ == item_id && record.account_id@ == account_id {
        AccountRecord { hidden: hide_or_not, ..record }
    } else {
        record
    }
}

/// Hides the account from the totals, or shows it again: every record of the
/// account of the item is flagged, the others stay as they are.
pub fn hide_unhide_account(
    account_records: &mut Vec<AccountRecord>,
    item_id: &String,
    account_id: &String,
    hide_or_not: bool,
)
    ensures
        final(account_records)@.len() == old(account_records)@.len(),
        forall|i: int|
            0 <= i < final(account_records)@.len() ==> #[trigger] final(account_records)@[i]
                == flagged(old(account_records)@[i], item_id@, account_id@, hide_or_not),
{
    let ghost before = account_records@;
    let mut i: usize = 0;
    while i < account_records.len()
        invariant
            i <= account_records.len(),
            account_records@.len() == before.len(),
            forall|j: int|
                0 <= j < i ==> #[trigger] account_records@[j] == flagged(
                    before[j],
                    item_id@,
                    account_id@,
                    hide_or_not,
                ),
            forall|j: int| i <= j < before.len() ==> #[trigger] account_records@[j] == before[j],
        decreases account_records.len() - i,
    {
        if account_records[i].item_id.eq(item_id) && account_records[i].account_id.eq(account_id) {
            account_records[i].hidden = hide_or_not;
        }
        i += 1;
    }
}

/// The accounts whose id is not among the excluded ones, in their order.
pub open spec fn accounts_without(accounts: Seq<AccountSuccess>, excluded: Seq<String>) -> Seq<
    AccountSuccess,
>
    decreases accounts.len(),
{
    if accounts.len() == 0 {
        Seq::empty()
    } else if !listed(excluded, accounts.last().account_id@) {
        accounts_without(accounts.drop_last(), excluded).push(accounts.last())
    } else {
        accounts_without(accounts.drop_last(), excluded)
    }
}

/// The accounts that are shown: all of them, or those that are not excluded.
pub fn shown_accounts(
    accounts: &Vec<AccountSuccess>,
    excluded: &Vec<String>,
    show_all_accounts: bool,
) -> (shown: Vec<AccountSuccess>)
    ensures
        shown@ == if show_all_accounts {
            accounts@
        } else {
            accounts_without(accounts@, excluded@)
        },
{
    let mut shown: Vec<AccountSuccess> = Vec::new();
    let mut i: usize = 0;
    assert(accounts@.take(0) =~= Seq::empty());
    assert(shown@ =~= accounts_without(accounts@.take(0), excluded@));
    while i < accounts.len()
        invariant
            i <= accounts.len(),
            shown@ == if show_all_accounts {
                accounts@.take(i as int)
            } else {
                accounts_without(accounts@.take(i as int), excluded@)
            },
        decreases accounts.len() - i,
    {
        proof {
            assert(accounts@.take(i + 1).drop_last() =~= accounts@.take(i as int));
            assert(accounts@.take(i + 1).last() == accounts@[i as int]);
            assert(accounts@.take(i + 1) =~= accounts@.take(i as int).push(accounts@[i as int]));
        }
        if show_all_accounts || !contains(excluded, &accounts[i].account_id) {
            shown.push(accounts[i].clone());
        }
        i += 1;
    }
    proof {
        assert(accounts@.take(i as int) =~= accounts@);
    }
    shown
}

/// What is said of an item whose accounts could not be read.
pub fn account_error(item: &PlaidItem) -> (error: AccountError)
    ensures
        error.item_id@ == item.item_id@,
        error.code == 500,
        error.message@ == "Failed to obtain account information with given id"@,
{
    AccountError {
        item_id: item.item_id.clone(),
        code: 500,
        message: String::from_str("Failed to obtain account information with given id"),
    }
}

/// Signs a user up. `email_in_use` says whether the e-mail address is taken;
/// `password_hash` is the hash of the password, `None` where it could not be
/// hashed. The user starts without id, net worth, accounts, snapshots,
/// recurrings, goals, insights and plans.
pub fn signup(data: SignupPayload, email_in_use: bool, password_hash: Option<String>) -> (r: Result<
    User,
    ApiError,
>)
    ensures
        match r {
            Ok(user) => {
                &&& !email_in_use
                &&& password_hash == Some(user.password)
                &&& user.id is None
                &&& user.email == data.email
                &&& user.first_name == data.first_name
                &&& user.last_name == data.last_name
                &&& user.income == data.income
                &&& user.net_worth@ == (0int, 0nat)
                &&& user.location == data.location
                &&& user.birthday == data.birthday
                &&& user.accounts@.len() == 0
                &&& user.account_records@.len() == 0
                &&& user.snapshots@.len() == 0
                &&& user.recurrings@.len() == 0
                &&& user.goals@.len() == 0
                &&& user.insights@.len() == 0
                &&& user.plans@.len() == 0
            },
            Err(error) => {
                &&& error.code() == 400
                &&& if email_in_use {
                    error.message() == "Email is in use"@
                } else {
                    password_hash is None && error.message() == "Password hashing failed"@
                }
            },
        },
{
    if email_in_use {
        return Err(ApiError::new(400, String::from_str("Email is in use")));
    }
    let password_hash = match password_hash {
        Some(hash) => hash,
        None => {
            return Err(ApiError::new(400, String::from_str("Password hashing failed")));
        },
    };
    Ok(
        User {
            id: None,
            email: data.email,
            password: password_hash,
            first_name: data.first_name,
            last_name: data.last_name,
            income: data.income,
            net_worth: Decimal::new(0, 0),
            location: data.location,
            birthday: data.birthday,
            accounts: Vec::new(),
            account_records: Vec::new(),
            snapshots: Vec::new(),
            recurrings: Vec::new(),
            goals: Vec::new(),
            insights: Vec::new(),
            plans: Vec::new(),
        },
    )
}

/// Logs a user in. `found` is the user with the e-mail address that was
/// given, if there is one; `password_checked` says whether the password that
/// was given is that user's, `None` where it could not be checked.
pub fn login(found: Option<User>, password_checked: Option<bool>) -> (r: Result<User, ApiError>)
    ensures
        match found {
            None => r matches Err(error) && error.code() == 500 && error.message()
                == "User not found"@,
            Some(user) => match password_checked {
                None => r matches Err(error) && error.code() == 500 && error.message()
                    == "Password checking failed"@,
                Some(false) => r matches Err(error) && error.code() == 401 && error.message()
                    == "Incorrect user or password"@,
                Some(true) => r == Ok::<User, ApiError>(user),
            },
        },
{
    let user = match found {
        Some(user) => user,
        None => {
            return Err(ApiError::new(500, String::from_str("User not found")));
        },
    };
    match password_checked {
        None => Err(ApiError::new(500, String::from_str("Password checking failed"))),
        Some(false) => Err(ApiError::new(401, String::from_str("Incorrect user or password"))),
        Some(true) => Ok(user),
    }
}

/// Changes a user as the update says. `password_hash` is the hash of the new
/// password, `None` where there is no new password or it could not be hashed.
/// Fails, with nothing changed, where a new password could not be hashed.
pub fn update(user: User, data: UpdatePayload, password_hash: Option<String>) -> (r: Result<
    User,
    ApiError,
>)
    ensures
        match r {
            Ok(updated) => {
                &&& data.password is Some ==> password_hash == Some(updated.password)
                &&& data.password is None ==> updated.password == user.password
                &&& updated.email == match data.email {
                    Some(email) => email,
                    None => user.email,
                }
                &&& updated.first_name == match data.first_name {
                    Some(name) => name,
                    None => user.first_name,
                }
                &&& updated.last_name == match data.last_name {
                    Some(name) => name,
                    None => user.last_name,
                }
                &&& updated.income == match data.income {
                    Some(income) => income,
                    None => user.income,
                }
                &&& updated.net_worth == match data.net_worth {
                    Some(net_worth) => net_worth,
                    None => user.net_worth,
                }
                &&& updated.location == match data.location {
                    Some(location) => location,
                    None => user.location,
                }
                &&& updated.birthday == match data.birthday {
                    Some(birthday) => birthday,
                    None => user.birthday,
                }
                &&& updated.id == user.id
                &&& updated.accounts == user.accounts
                &&& updated.account_records == user.account_records
                &&& updated.snapshots == user.snapshots
                &&& updated.recurrings == user.recurrings
                &&& updated.goals == user.goals
                &&& updated.insights == user.insights
                &&& updated.plans == user.plans
            },
            Err(error) => {
                &&& data.password is Some
                &&& password_hash is None
                &&& error.code() == 400
                &&& error.message() == "Password hashing failed"@
            },
        },
        r is Err <==> data.password is Some && password_hash is None,
{
    let mut user = user;
    if let Some(email) = data.email {
        user.email = email;
    }
    if data.password.is_some() {
        match password_hash {
            Some(hash) => {
                user.password = hash;
            },
            None => {
                return Err(ApiError::new(400, String::from_str("Password hashing failed")));
            },
        }
    }
    if let Some(first_name) = data.first_name {
        user.first_name = first_name;
    }
    if let Some(last_name) = data.last_name {
        user.last_name = last_name;
    }
    if let Some(income) = data.income {
        user.income = income;
    }
    if let Some(net_worth) = data.net_worth {
        user.net_worth = net_worth;
    }
    if let Some(location) = data.location {
        user.location = location;
    }
    if let Some(birthday) = data.birthday {
        user.birthday = birthday;
    }
    Ok(user)
}

/// Which accounts are asked for: all of them for "all", those that are not
/// hidden for "unhidden". Anything else is refused.
pub fn all_or_unhidden(requested: &String) -> (r: Result<bool, ApiError>)
    ensures
        match r {
            Ok(show_all_accounts) => if show_all_accounts {
                requested@ == "all"@
            } else {
                requested@ != "all"@ && requested@ == "unhidden"@
            },
            Err(error) => {
                &&& requested@ != "all"@
                &&& requested@ != "unhidden"@
                &&& error.code() == 400
                &&& error.message() == "Should request 'all' or 'unhidden', requested '"@
                    + requested@ + "'"@
            },
        },
{
    if requested.eq(&String::from_str("all")) {
        Ok(true)
    } else if requested.eq(&String::from_str("unhidden")) {
        Ok(false)
    } else {
        Err(
            ApiError::new(
                400,
                String::from_str("Should request 'all' or 'unhidden', requested '").concat(
                    requested.as_str(),
                ).concat("'"),
            ),
        )
    }
}

} // verus!

//! What linked accounts and their transactions amount to: net worth, money in
//! and money out.

use crate::common::decimal::{value_add, value_mul, Decimal};
use crate::common::errors::ApiError;
use crate::common::money::Money;
use crate::common::views;
use crate::common::text::{copy_of, text_of};
use crate::controllers::plaid_controller::AccountSuccess;
use crate::models::user_model::AccountRecord;
use vstd::prelude::*;
use vstd::string::StringExecFns;

verus! {

/// The credentials with which the account aggregator is asked.
#[derive(Debug)]
pub struct ApiClient {
    pub client_id: String,
    pub secret: String,
    pub client_name: String,
}

/// An account as the aggregator reports it. The balance is `None` where it was
/// reported as a number that is no decimal.
#[derive(Debug)]
pub struct Account {
    pub account_id: String,
    pub name: String,
    pub official_name: Option<String>,
    pub account_type: String,
    pub balance: Option<Decimal>,
}

/// A transaction as the aggregator reports it. The amount is `None` where it
/// was reported as a number that is no decimal.
#[derive(Debug)]
pub struct Transaction {
    pub account_id: String,
    pub amount: Option<Decimal>,
}

/// An account as the rules see it.
pub struct AccountModel {
    pub account_id: Seq<char>,
    pub name: Seq<char>,
    pub account_type: Seq<char>,
    pub balance: Option<(int, nat)>,
}

/// A transaction as the rules see it.
pub struct TransactionModel {
    pub account_id: Seq<char>,
    pub amount: Option<(int, nat)>,
}

impl View for Account {
    type V = AccountModel;

    open spec fn view(&self) -> AccountModel {
        AccountModel {
            account_id: self.account_id@,
            name: self.name@,
            account_type: self.account_type@,
            balance: match self.balance {
                Some(balance) => Some(balance@),
                None => None,
            },
        }
    }
}

impl View for Transaction {
    type V = TransactionModel;

    open spec fn view(&self) -> TransactionModel {
        TransactionModel {
            account_id: self.account_id@,
            amount: match self.amount {
                Some(amount) => Some(amount@),
                None => None,
            },
        }
    }
}

/// The weight with which the balance of an account of the given type counts
/// towards net worth: 1 for depositories and investments, 0 for all else.
pub open spec fn balance_weight(account_type: Seq<char>) -> int {
    if account_type == "depository"@ {
        1
    } else if account_type == "credit"@ {
        0
    } else if account_type == "loan"@ {
        0
    } else if account_type == "investment"@ {
        1
    } else {
        0
    }
}

/// The weight with which a transaction on an account of the given type counts
/// as money coming in: -1 for depositories and credit, 1 for investments, 0
/// for all else.
pub open spec fn transaction_weight(account_type: Seq<char>) -> int {
    if account_type == "depository"@ {
        -1
    } else if account_type == "credit"@ {
        -1
    } else if account_type == "loan"@ {
        0
    } else if account_type == "investment"@ {
        1
    } else {
        0
    }
}

/// The account types that carry a weight.
struct AccountTypes {
    depository: String,
    credit: String,
    loan: String,
    investment: String,
}

impl AccountTypes {
    spec fn named(&self) -> bool {
        &&& self.depository@ == "depository"@
        &&& self.credit@ == "credit"@
        &&& self.loan@ == "loan"@
        &&& self.investment@ == "investment"@
    }

    fn new() -> (types: AccountTypes)
        ensures
            types.named(),
    {
        AccountTypes {
            depository: String::from_str("depository"),
            credit: String::from_str("credit"),
            loan: String::from_str("loan"),
            investment: String::from_str("investment"),
        }
    }

    fn balance_weight(&self, account_type: &String) -> (weight: i64)
        requires
            self.named(),
        ensures
            weight == balance_weight(account_type@),
    {
        if account_type.eq(&self.depository) {
            1
        } else if account_type.eq(&self.credit) {
            0
        } else if account_type.eq(&self.loan) {
            0
        } else if account_type.eq(&self.investment) {
            1
        } else {
            0
        }
    }

    fn transaction_weight(&self, account_type: &String) -> (weight: i64)
        requires
            self.named(),
        ensures
            weight == transaction_weight(account_type@),
    {
        if account_type.eq(&self.depository) {
            -1
        } else if account_type.eq(&self.credit) {
            -1
        } else if account_type.eq(&self.loan) {
            0
        } else if account_type.eq(&self.investment) {
            1
        } else {
            0
        }
    }
}

/// An account id with a weight, as the rules see it.
pub open spec fn weight_view(entry: (String, i64)) -> (Seq<char>, int) {
    (entry.0@, entry.1 as int)
}

/// The account ids with their weights, as the rules see them.
pub open spec fn weights_view(table: Seq<(String, i64)>) -> Seq<(Seq<char>, int)> {
    Seq::new(table.len(), |i: int| weight_view(table[i]))
}

/// For each account, in order, its id and the weight of its balance.
pub open spec fn balance_weights(accounts: Seq<AccountModel>) -> Seq<(Seq<char>, int)> {
    Seq::new(
        accounts.len(),
        |i: int| (accounts[i].account_id, balance_weight(accounts[i].account_type)),
    )
}

/// For each account, in order, its id and the weight of its transactions.
pub open spec fn transaction_weights(accounts: Seq<AccountModel>) -> Seq<(Seq<char>, int)> {
    Seq::new(
        accounts.len(),
        |i: int| (accounts[i].account_id, transaction_weight(accounts[i].account_type)),
    )
}

/// The weight that the table holds for an account id: that of the last entry
/// for it, and 0 where there is none.
pub open spec fn weight_of(table: Seq<(Seq<char>, int)>, account_id: Seq<char>) -> int
    decreases table.len(),
{
    if table.len() == 0 {
        0
    } else if table.last().0 == account_id {
        table.last().1
    } else {
        weight_of(table.drop_last(), account_id)
    }
}

/// For each account, its id and the weight with which its balance counts
/// towards net worth.
pub fn get_account_balance_coefficients(accounts: &Vec<Account>) -> (table: Vec<(String, i64)>)
    ensures
        weights_view(table@) == balance_weights(views(accounts@)),
{
    let types = AccountTypes::new();
    let mut table: Vec<(String, i64)> = Vec::new();
    let mut i: usize = 0;
    while i < accounts.len()
        invariant
            i <= accounts.len(),
            types.named(),
            table@.len() == i,
            forall|j: int|
                0 <= j < i ==> weight_view(#[trigger] table@[j]) == (
                    accounts@[j].account_id@,
                    balance_weight(accounts@[j].account_type@),
                ),
        decreases accounts.len() - i,
    {
        table.push(
            (accounts[i].account_id.clone(), types.balance_weight(&accounts[i].account_type)),
        );
        i += 1;
    }
    assert(weights_view(table@) =~= balance_weights(views(accounts@)));
    table
}

/// For each account, its id and the weight with which its transactions count
/// as money coming in.
pub fn get_account_transaction_coefficients(accounts: &Vec<Account>) -> (table: Vec<(String, i64)>)
    ensures
        weights_view(table@) == transaction_weights(views(accounts@)),
{
    let types = AccountTypes::new();
    let mut table: Vec<(String, i64)> = Vec::new();
    let mut i: usize = 0;
    while i < accounts.len()
        invariant
            i <= accounts.len(),
            types.named(),
            table@.len() == i,
            forall|j: int|
                0 <= j < i ==> weight_view(#[trigger] table@[j]) == (
                    accounts@[j].account_id@,
                    transaction_weight(accounts@[j].account_type@),
                ),
        decreases accounts.len() - i,
    {
        table.push(
            (accounts[i].account_id.clone(), types.transaction_weight(&accounts[i].account_type)),
        );
        i += 1;
    }
    assert(weights_view(table@) =~= transaction_weights(views(accounts@)));
    table
}

/// The weight that the table holds for the account id, and 0 where it holds
/// none.
pub fn coefficient_of(table: &Vec<(String, i64)>, account_id: &String) -> (weight: i64)
    ensures
        weight == weight_of(weights_view(table@), account_id@),
{
    let ghost all = weights_view(table@);
    let mut i: usize = table.len();
    assert(all.take(i as int) =~= all);
    while i > 0
        invariant
            i <= table.len(),
            all == weights_view(table@),
            weight_of(all, account_id@) == weight_of(all.take(i as int), account_id@),
        decreases i,
    {
        i -= 1;
        proof {
            assert(all.take(i + 1).drop_last() =~= all.take(i as int));
            assert(all.take(i + 1).last() == all[i as int]);
        }
        if table[i].0.eq(account_id) {
            return table[i].1;
        }
    }
    0
}

/// Whether the text is among the given ones.
pub open spec fn listed(texts: Seq<String>, text: Seq<char>) -> bool {
    exists|i: int| 0 <= i < texts.len() && (#[trigger] texts[i])@ == text
}

/// Whether the text is among the given ones.
pub fn contains(texts: &Vec<String>, text: &String) -> (found: bool)
    ensures
        found == listed(texts@, text@),
{
    let mut i: usize = 0;
    while i < texts.len()
        invariant
            i <= texts.len(),
            forall|j: int| 0 <= j < i ==> (#[trigger] texts@[j])@ != text@,
        decreases texts.len() - i,
    {
        if texts[i].eq(text) {
            return true;
        }
        i += 1;
    }
    false
}

/// Net worth over the accounts that are not excluded, added up in order from
/// zero: each balance times its weight. A balance that is no decimal counts as
/// nothing.
pub open spec fn net_worth_of(
    accounts: Seq<AccountModel>,
    weights: Seq<(Seq<char>, int)>,
    excluded: Seq<String>,
) -> (int, nat)
    decreases accounts.len(),
{
    if accounts.len() == 0 {
        (0int, 0nat)
    } else {
        let before = net_worth_of(accounts.drop_last(), weights, excluded);
        let account = accounts.last();
        if listed(excluded, account.account_id) {
            before
        } else {
            match account.balance {
                Some(balance) => value_add(
                    before,
                    value_mul(balance, (weight_of(weights, account.account_id), 0nat)),
                ),
                None => before,
            }
        }
    }
}

/// Net worth over the accounts whose id is not among the excluded ones.
pub fn calculate_net_worth(accounts: &Vec<Account>, excluded_accounts: &Vec<String>) -> (net: Money)
    ensures
        net@ == net_worth_of(
            views(accounts@),
            balance_weights(views(accounts@)),
            excluded_accounts@,
        ),
{
    let table = get_account_balance_coefficients(accounts);
    let ghost all = views(accounts@);
    let ghost weights = balance_weights(all);
    let mut net = Money::new(Decimal::new(0, 0));
    let mut i: usize = 0;
    while i < accounts.len()
        invariant
            i <= accounts.len(),
            all == views(accounts@),
            weights == weights_view(table@),
            net@ == net_worth_of(all.take(i as int), weights, excluded_accounts@),
        decreases accounts.len() - i,
    {
        let account = &accounts[i];
        proof {
            assert(all.take(i + 1).drop_last() =~= all.take(i as int));
            assert(all.take(i + 1).last() == all[i as int]);
        }
        if !contains(excluded_accounts, &account.account_id) {
            match account.balance {
                Some(balance) => {
                    let weight = coefficient_of(&table, &account.account_id);
                    let contribution = Money::new(balance).mul(
                        Money::new(Decimal::new(weight, 0)),
                    );
                    net = net.add(contribution);
                },
                None => {},
            }
        }
        i += 1;
    }
    proof {
        assert(all.take(i as int) =~= all);
    }
    net
}

/// What one transaction moves: its amount times the weight of its account, and
/// zero where the amount is no decimal.
pub open spec fn moved(transaction: TransactionModel, weights: Seq<(Seq<char>, int)>) -> (int, nat) {
    match transaction.amount {
        Some(amount) => value_mul(amount, (weight_of(weights, transaction.account_id), 0nat)),
        None => (0int, 0nat),
    }
}

/// The part of what is moved that comes in: the amount where it is positive,
/// else zero.
pub open spec fn coming_in(amount: (int, nat)) -> (int, nat) {
    if amount.0 > 0 {
        amount
    } else {
        (0int, 0nat)
    }
}

/// The part of what is moved that goes out: the amount where it is not
/// positive, else zero.
pub open spec fn going_out(amount: (int, nat)) -> (int, nat) {
    if amount.0 > 0 {
        (0int, 0nat)
    } else {
        amount
    }
}

/// Money in and money out over the transactions on accounts that are not
/// excluded, each added up in order from zero.
pub open spec fn money_in_out_of(
    transactions: Seq<TransactionModel>,
    weights: Seq<(Seq<char>, int)>,
    excluded: Seq<String>,
) -> ((int, nat), (int, nat))
    decreases transactions.len(),
{
    if transactions.len() == 0 {
        ((0int, 0nat), (0int, 0nat))
    } else {
        let before = money_in_out_of(transactions.drop_last(), weights, excluded);
        let transaction = transactions.last();
        if listed(excluded, transaction.account_id) {
            before
        } else {
            let amount = moved(transaction, weights);
            (value_add(before.0, coming_in(amount)), value_add(before.1, going_out(amount)))
        }
    }
}

/// Money in and money out over the transactions whose account is not among the
/// excluded ones; the accounts say how each transaction counts.
pub fn calculate_money_in_out(
    accounts: &Vec<Account>,
    transactions: &Vec<Transaction>,
    excluded_accounts: &Vec<String>,
) -> (totals: (Money, Money))
    ensures
        (totals.0@, totals.1@) == money_in_out_of(
            views(transactions@),
            transaction_weights(views(accounts@)),
            excluded_accounts@,
        ),
{
    let table = get_account_transaction_coefficients(accounts);
    let ghost all = views(transactions@);
    let ghost weights = transaction_weights(views(accounts@));
    let mut money_in = Money::default();
    let mut money_out = Money::default();
    let mut i: usize = 0;
    while i < transactions.len()
        invariant
            i <= transactions.len(),
            all == views(transactions@),
            weights == weights_view(table@),
            (money_in@, money_out@) == money_in_out_of(
                all.take(i as int),
                weights,
                excluded_accounts@,
            ),
        decreases transactions.len() - i,
    {
        let transaction = &transactions[i];
        proof {
            assert(all.take(i + 1).drop_last() =~= all.take(i as int));
            assert(all.take(i + 1).last() == all[i as int]);
        }
        if !contains(excluded_accounts, &transaction.account_id) {
            let amount = match transaction.amount {
                Some(amount) => amount.mul(
                    Decimal::new(coefficient_of(&table, &transaction.account_id), 0),
                ),
                None => Decimal::new(0, 0),
            };
            let positive = !amount.is_negative() && !amount.is_zero();
            let incoming = if positive {
                amount
            } else {
                Decimal::new(0, 0)
            };
            let outgoing = if positive {
                Decimal::new(0, 0)
            } else {
                amount
            };
            money_in = money_in.add(Money::new(incoming));
            money_out = money_out.add(Money::new(outgoing));
        }
        i += 1;
    }
    proof {
        assert(all.take(i as int) =~= all);
    }
    (money_in, money_out)
}

/// The account as it is shown for the item: its balance times its weight.
pub open spec fn shown_balance(account: AccountModel, weights: Seq<(Seq<char>, int)>) -> Option<
    (int, nat),
> {
    match account.balance {
        Some(balance) => Some(value_mul(balance, (weight_of(weights, account.account_id), 0nat))),
        None => None,
    }
}

/// The accounts of an item as they are shown, each with its balance times its
/// weight. Fails where a balance is no decimal.
pub fn get_account_data(item_id: &String, accounts: &Vec<Account>) -> (r: Result<
    Vec<AccountSuccess>,
    ApiError,
>)
    ensures
        match r {
            Ok(shown) => {
                &&& shown@.len() == accounts@.len()
                &&& forall|i: int|
                    0 <= i < shown@.len() ==> {
                        &&& (#[trigger] shown@[i]).item_id@ == item_id@
                        &&& shown@[i].name@ == accounts@[i].name@
                        &&& shown@[i].account_type@ == accounts@[i].account_type@
                        &&& shown@[i].account_id@ == accounts@[i].account_id@
                        &&& Some(shown@[i].balance@) == shown_balance(
                            accounts@[i]@,
                            balance_weights(views(accounts@)),
                        )
                    }
            },
            Err(error) => {
                &&& exists|i: int| 0 <= i < accounts@.len() && (#[trigger] accounts@[i]).balance is None
                &&& error.code() == 500
                &&& error.message() == "Decimal conversion error"@
            },
        },
        r is Ok <==> forall|i: int| 0 <= i < accounts@.len() ==> (#[trigger] accounts@[i]).balance is Some,
{
    let table = get_account_balance_coefficients(accounts);
    let mut shown: Vec<AccountSuccess> = Vec::new();
    let mut i: usize = 0;
    while i < accounts.len()
        invariant
            i <= accounts.len(),
            weights_view(table@) == balance_weights(views(accounts@)),
            shown@.len() == i,
            forall|j: int| 0 <= j < i ==> (#[trigger] accounts@[j]).balance is Some,
            forall|j: int|
                0 <= j < i ==> {
                    &&& (#[trigger] shown@[j]).item_id@ == item_id@
                    &&& shown@[j].name@ == accounts@[j].name@
                    &&& shown@[j].account_type@ == accounts@[j].account_type@
                    &&& shown@[j].account_id@ == accounts@[j].account_id@
                    &&& Some(shown@[j].balance@) == shown_balance(
                        accounts@[j]@,
                        balance_weights(views(accounts@)),
                    )
                },
        decreases accounts.len() - i,
    {
        let account = &accounts[i];
        let balance = match account.balance {
            Some(balance) => balance,
            None => {
                return Err(ApiError::new(500, String::from_str("Decimal conversion error")));
            },
        };
        shown.push(
            AccountSuccess {
                item_id: item_id.clone(),
                balance: balance.mul(Decimal::new(coefficient_of(&table, &account.account_id), 0)),
                name: account.name.clone(),
                account_type: account.account_type.clone(),
                account_id: account.account_id.clone(),
            },
        );
        i += 1;
    }
    Ok(shown)
}

/// The name under which an account is recorded: its official name, and its
/// name where it has no official one.
pub fn get_account_name(account: &Account) -> (name: String)
    ensures
        name@ == match account.official_name {
            Some(official) => official@,
            None => account.name@,
        },
{
    match &account.official_name {
        Some(official) => official.clone(),
        None => account.name.clone(),
    }
}

/// The record that is kept of an account of an item: under its name, shown,
/// with the known financial product that it was taken for, if any.
pub fn make_account_record(item_id: String, account: &Account, product: &Option<String>) -> (record:
    AccountRecord)
    ensures
        record.item_id == item_id,
        record.account_id@ == account.account_id@,
        record.account_name@ == match account.official_name {
            Some(official) => official@,
            None => account.name@,
        },
        !record.hidden,
        text_of(record.known_account_id) == text_of(*product),
{
    AccountRecord {
        item_id,
        account_id: account.account_id.clone(),
        account_name: get_account_name(account),
        hidden: false,
        known_account_id: copy_of(product),
    }
}

} // verus!

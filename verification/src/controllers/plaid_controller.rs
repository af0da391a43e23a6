//! What is said of linked accounts at the boundary.

use crate::common::decimal::Decimal;
use vstd::prelude::*;

verus! {

/// A request to exchange a public token for an access token.
#[derive(Debug, PartialEq, Eq)]
pub struct PublicTokenExchangeRequest {
    pub public_token: String,
}

/// The item that an exchange or a removal was about.
#[derive(Debug, PartialEq, Eq)]
pub struct ItemIdResponse {
    pub item_id: String,
}

/// The accounts of a user: those that could be read, and the items that could
/// not.
#[derive(Debug, PartialEq)]
pub struct AccountResponse {
    pub accounts: Vec<AccountSuccess>,
    pub account_errors: Vec<AccountError>,
}

/// An account that could be read, with its balance.
#[derive(Debug, PartialEq, Eq)]
pub struct AccountSuccess {
    pub item_id: String,
    pub name: String,
    pub balance: Decimal,
    pub account_type: String,
    pub account_id: String,
}

/// An item whose accounts could not be read.
#[derive(Debug, PartialEq, Eq)]
pub struct AccountError {
    pub item_id: String,
    pub code: u16,
    pub message: String,
}

/// A request to hide an account from the totals, or to show it again.
#[derive(Debug, PartialEq, Eq)]
pub struct SetAccountAsHiddenPayload {
    pub item_id: String,
    pub account_id: String,
    pub hide_or_not: bool,
}

impl Clone for AccountSuccess {
    fn clone(&self) -> (copy: AccountSuccess)
        ensures
            copy == *self,
    {
        AccountSuccess {
            item_id: self.item_id.clone(),
            name: self.name.clone(),
            balance: self.balance,
            account_type: self.account_type.clone(),
            account_id: self.account_id.clone(),
        }
    }
}

/// An account as the rules see it.
pub struct AccountView {
    pub name: Seq<char>,
    pub balance: (int, nat),
    pub account_type: Seq<char>,
}

impl View for AccountSuccess {
    type V = AccountView;

    open spec fn view(&self) -> AccountView {
        AccountView { name: self.name@, balance: self.balance@, account_type: self.account_type@ }
    }
}

} // verus!

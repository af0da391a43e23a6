//! What the service has to be told to run.

use vstd::prelude::*;

verus! {

/// Where the database is and how to reach the account aggregator.
#[derive(Debug, PartialEq, Eq)]
pub struct Environment {
    pub database_url: String,
    pub database_user: String,
    pub database_pw: String,
    pub database_name: String,
    pub plaid_client_id: String,
    pub plaid_sandbox_secret: String,
}

} // verus!

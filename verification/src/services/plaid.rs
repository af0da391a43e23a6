//! The requests that are put to the account aggregator, and where they go.

use crate::common::text::text_of;
use vstd::prelude::*;
use vstd::string::StringExecFns;

verus! {

/// The user that a link token is for.
#[derive(Debug, PartialEq, Eq)]
pub struct UserInfo {
    pub client_user_id: String,
}

/// A request for a link token.
#[derive(Debug, PartialEq, Eq)]
pub struct LinkTokenCreateRequest {
    pub user: UserInfo,
    pub client_id: Option<String>,
    pub secret: Option<String>,
    pub client_name: Option<String>,
    pub language: String,
    pub country_codes: Vec<String>,
    pub products: Vec<String>,
}

impl LinkTokenCreateRequest {
    /// A request for the user `user_id`: in English, for the United States,
    /// for transactions and authentication, the client still to be filled in.
    pub fn with_user_id(user_id: &str) -> (request: LinkTokenCreateRequest)
        ensures
            request.user.client_user_id@ == user_id@,
            request.client_id is None,
            request.secret is None,
            request.client_name is None,
            request.language@ == "en"@,
            request.country_codes@.len() == 1,
            request.country_codes@[0]@ == "US"@,
            request.products@.len() == 2,
            request.products@[0]@ == "transactions"@,
            request.products@[1]@ == "auth"@,
    {
        let mut country_codes: Vec<String> = Vec::new();
        country_codes.push(String::from_str("US"));
        let mut products: Vec<String> = Vec::new();
        products.push(String::from_str("transactions"));
        products.push(String::from_str("auth"));
        LinkTokenCreateRequest {
            user: UserInfo { client_user_id: String::from_str(user_id) },
            client_id: None,
            secret: None,
            client_name: None,
            language: String::from_str("en"),
            country_codes,
            products,
        }
    }
}

/// The answer to a request for a link token.
#[derive(Debug, PartialEq, Eq)]
pub struct LinkTokenCreateResponse {
    pub expiration: String,
    pub link_token: String,
    pub request_id: Option<String>,
}

/// A request to exchange a public token for an access token.
#[derive(Debug, PartialEq, Eq)]
pub struct PublicTokenExchangeRequest {
    pub client_id: Option<String>,
    pub secret: Option<String>,
    pub public_token: String,
}

/// The answer to an exchange of tokens.
#[derive(Debug, PartialEq, Eq)]
pub struct PublicTokenExchangeResponse {
    pub access_token: String,
    pub item_id: String,
    pub request_id: Option<String>,
}

/// The item that a request was about.
#[derive(Debug, PartialEq, Eq)]
pub struct ItemIdResponse {
    pub item_id: String,
}

/// The environment of the aggregator that requests go to.
#[derive(Clone, Copy, Debug, PartialEq, Eq, Structural)]
pub enum Environment {
    Sandbox,
    Development,
    Production,
}

impl Environment {
    /// The subdomain of the environment.
    pub open spec fn subdomain(self) -> Seq<char> {
        match self {
            Environment::Sandbox => "sandbox"@,
            Environment::Development => "development"@,
            Environment::Production => "production"@,
        }
    }

    /// The host of the environment.
    pub open spec fn host(self) -> Seq<char> {
        "https://"@ + self.subdomain() + ".plaid.com"@
    }

    pub fn to_plaid_host(&self) -> (host: String)
        ensures
            host@ == self.host(),
    {
        let subdomain = match self {
            Environment::Sandbox => "sandbox",
            Environment::Development => "development",
            Environment::Production => "production",
        };
        String::from_str("https://").concat(subdomain).concat(".plaid.com")
    }

    pub fn to_plaid_host_with_endpoint(&self, endpoint: &str) -> (address: String)
        ensures
            address@ == self.host() + endpoint@,
    {
        self.to_plaid_host().concat(endpoint)
    }
}

/// A client of the aggregator.
#[derive(Debug)]
pub struct Client {
    pub client_id: String,
    pub secret: String,
    pub client_name: String,
    pub environment: Environment,
}

/// The text that is given, and the other where none is given.
pub open spec fn text_or(given: Option<String>, other: Seq<char>) -> Option<Seq<char>> {
    match given {
        Some(text) => Some(text@),
        None => Some(other),
    }
}

/// The string that is given, and a copy of the other where none is given.
fn filled(given: Option<String>, other: &String) -> (r: Option<String>)
    ensures
        text_of(r) == text_or(given, other@),
{
    match given {
        Some(text) => Some(text),
        None => Some(other.clone()),
    }
}

impl Client {
    /// The request for a link token as it is sent: what it leaves open of
    /// client id, secret and client name is filled in from the client.
    pub fn link_token_create(&self, options: LinkTokenCreateRequest) -> (request:
        LinkTokenCreateRequest)
        ensures
            text_of(request.client_id) == text_or(options.client_id, self.client_id@),
            text_of(request.secret) == text_or(options.secret, self.secret@),
            text_of(request.client_name) == text_or(options.client_name, self.client_name@),
            request.user == options.user,
            request.language == options.language,
            request.country_codes == options.country_codes,
            request.products == options.products,
    {
        LinkTokenCreateRequest {
            user: options.user,
            client_id: filled(options.client_id, &self.client_id),
            secret: filled(options.secret, &self.secret),
            client_name: filled(options.client_name, &self.client_name),
            language: options.language,
            country_codes: options.country_codes,
            products: options.products,
        }
    }

    /// The request for an exchange of tokens as it is sent: what it leaves open
    /// of client id and secret is filled in from the client.
    pub fn public_token_exchange(&self, options: PublicTokenExchangeRequest) -> (request:
        PublicTokenExchangeRequest)
        ensures
            text_of(request.client_id) == text_or(options.client_id, self.client_id@),
            text_of(request.secret) == text_or(options.secret, self.secret@),
            request.public_token == options.public_token,
    {
        PublicTokenExchangeRequest {
            client_id: filled(options.client_id, &self.client_id),
            secret: filled(options.secret, &self.secret),
            public_token: options.public_token,
        }
    }

    /// Where a request to `endpoint` is sent.
    pub fn address(&self, endpoint: &str) -> (address: String)
        ensures
            address@ == self.environment.host() + endpoint@,
    {
        self.environment.to_plaid_host_with_endpoint(endpoint)
    }
}

} // verus!

//! Financial products that can be recommended to a user.

use vstd::prelude::*;
use vstd::string::StringExecFns;

verus! {

/// The kind of a financial product.
#[derive(Clone, Copy, Debug, PartialEq, Eq, Structural)]
pub enum FinancialProductInfo {
    CreditCard,
    Loan,
    Savings,
    Checking,
    Investment,
    Retirement,
    Other,
}

/// A financial product.
#[derive(Debug)]
pub struct FinancialProduct {
    pub name: String,
    pub description: String,
    pub perks: Vec<String>,
    pub url: Option<String>,
    pub image_url: Option<String>,
    pub product_info: FinancialProductInfo,
}

impl FinancialProduct {
    pub fn new(
        name: &str,
        description: &str,
        perks: Vec<String>,
        url: Option<String>,
        image_url: Option<String>,
        product_info: FinancialProductInfo,
    ) -> (product: FinancialProduct)
        ensures
            product.name@ == name@,
            product.description@ == description@,
            product.perks == perks,
            product.url == url,
            product.image_url == image_url,
            product.product_info == product_info,
    {
        FinancialProduct {
            name: String::from_str(name),
            description: String::from_str(description),
            perks,
            url,
            image_url,
            product_info,
        }
    }
}

} // verus!

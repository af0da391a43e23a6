//! An amount of money: a decimal number with closed arithmetic.

use crate::common::decimal::{value_add, value_div, value_mul, value_sub, Decimal};
use vstd::prelude::*;

verus! {

/// An amount of money. Arithmetic on it never fails: an operation whose result
/// cannot be represented gives back the left operand.
#[derive(Clone, Copy, Debug, PartialEq, Eq)]
pub struct Money {
    pub amount: Decimal,
}

impl View for Money {
    type V = (int, nat);

    open spec fn view(&self) -> (int, nat) {
        self.amount@
    }
}

impl Money {
    /// The amount `d`.
    pub fn new(d: Decimal) -> (m: Money)
        ensures
            m.amount == d,
    {
        Money { amount: d }
    }

    /// `self + other` where that can be represented, else `self`.
    pub fn add(self, other: Money) -> (r: Money)
        ensures
            r@ == value_add(self@, other@),
    {
        Money { amount: self.amount.add(other.amount) }
    }

    /// `self - other` where that can be represented, else `self`.
    pub fn sub(self, other: Money) -> (r: Money)
        ensures
            r@ == value_sub(self@, other@),
    {
        Money { amount: self.amount.sub(other.amount) }
    }

    /// `self * other` where that can be represented, else `self`.
    pub fn mul(self, other: Money) -> (r: Money)
        ensures
            r@ == value_mul(self@, other@),
    {
        Money { amount: self.amount.mul(other.amount) }
    }

    /// `self / other` where `other` is not zero and the quotient can be
    /// represented, else `self`.
    pub fn div(self, other: Money) -> (r: Money)
        ensures
            r@ == value_div(self@, other@),
    {
        Money { amount: self.amount.div(other.amount) }
    }
}

impl Default for Money {
    fn default() -> (m: Money)
        ensures
            m@ == (0int, 0nat),
    {
        Money { amount: Decimal::zero() }
    }
}

impl From<Decimal> for Money {
    fn from(d: Decimal) -> (m: Money) {
        Money { amount: d }
    }
}

impl vstd::std_specs::convert::FromSpecImpl<Decimal> for Money {
    open spec fn obeys_from_spec() -> bool {
        true
    }

    open spec fn from_spec(d: Decimal) -> Money {
        Money { amount: d }
    }
}

} // verus!

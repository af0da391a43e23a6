//! What is said of recurrings at the boundary.

use crate::common::decimal::Decimal;
use crate::common::{decimal_at_least_zero, finding, verdict, Validation, ValidationError};
use crate::models::recurring_model::{Recurring, RecurringView, TimeInterval, Typ};
use vstd::prelude::*;
use vstd::string::StringExecFns;

verus! {

/// A recurring as a user states it.
#[derive(Debug, PartialEq)]
pub struct RecurringNewPayload {
    pub name: String,
    pub start: i64,
    pub end: i64,
    pub principal: Decimal,
    pub amount: Decimal,
    pub interest: Decimal,
    pub frequency: TimeInterval,
}

impl View for RecurringNewPayload {
    type V = RecurringView;

    open spec fn view(&self) -> RecurringView {
        RecurringView {
            id: None,
            name: self.name@,
            start: self.start as int,
            end: self.end as int,
            principal: self.principal@,
            amount: self.amount@,
            interest: self.interest@,
            frequency: self.frequency,
        }
    }
}

impl Clone for RecurringNewPayload {
    fn clone(&self) -> (copy: RecurringNewPayload)
        ensures
            copy == *self,
    {
        RecurringNewPayload {
            name: self.name.clone(),
            start: self.start,
            end: self.end,
            principal: self.principal,
            amount: self.amount,
            interest: self.interest,
            frequency: self.frequency,
        }
    }
}

/// A stated recurring is accepted where it is of one kind: a fixed amount
/// without principal and interest, or a principal without amount.
pub fn validate_recurring_new_payload(data: &RecurringNewPayload) -> (r: Result<
    (),
    ValidationError,
>)
    ensures
        verdict(r) == if data@.is_one_kind() {
            None
        } else {
            Some(
                "Only one of Principal and Amount can be non-zeroand Interest must be zero if Amount is non-zero."@,
            )
        },
{
    if data.principal.is_zero() && data.interest.is_zero() && !data.amount.is_zero() {
        Ok(())
    } else if data.amount.is_zero() && !data.principal.is_zero() {
        Ok(())
    } else {
        Err(
            ValidationError::new(
                "Only one of Principal and Amount can be non-zeroand Interest must be zero if Amount is non-zero.",
            ),
        )
    }
}

impl Validation for RecurringNewPayload {
    fn validate(&self) -> (r: Result<(), String>)
        ensures
            finding(r) == self@.violation(),
    {
        if self.start < 0 || self.end < 0 {
            return Err(ValidationError::new("range").code);
        }
        match decimal_at_least_zero(&self.interest) {
            Err(error) => {
                return Err(error.code);
            },
            Ok(_) => {},
        }
        match validate_recurring_new_payload(self) {
            Err(error) => Err(error.code),
            Ok(_) => Ok(()),
        }
    }
}

impl RecurringNewPayload {
    /// The recurring that is stated.
    pub fn into_recurring(self) -> (recurring: Recurring)
        ensures
            recurring@ == self@,
    {
        Recurring {
            id: None,
            name: self.name,
            start: self.start,
            end: self.end,
            principal: self.principal,
            amount: self.amount,
            interest: self.interest,
            frequency: self.frequency,
        }
    }
}

/// A recurring of a fixed amount each month in the first quarter of 2021.
pub open spec fn monthly_example(name: Seq<char>, amount: int) -> RecurringView {
    RecurringView {
        id: None,
        name,
        start: 1609977600,
        end: 1617753600,
        principal: (0int, 0nat),
        amount: (amount, 0nat),
        interest: (0int, 0nat),
        frequency: TimeInterval { typ: Typ::Monthly, content: 1 },
    }
}

/// The recurrings that are shown as examples: benefits of 300 a month, and a
/// babysitter at 60 a month.
pub fn get_recurring_examples() -> (examples: Vec<RecurringNewPayload>)
    ensures
        examples@.len() == 2,
        examples@[0]@ == monthly_example("Unemployment Benefits"@, 300),
        examples@[1]@ == monthly_example("Pay Babysitter"@, -60),
{
    let mut examples: Vec<RecurringNewPayload> = Vec::new();
    examples.push(
        RecurringNewPayload {
            name: String::from_str("Unemployment Benefits"),
            start: 1609977600,
            end: 1617753600,
            principal: Decimal::new(0, 0),
            interest: Decimal::new(0, 0),
            amount: Decimal::new(300, 0),
            frequency: TimeInterval { typ: Typ::Monthly, content: 1 },
        },
    );
    examples.push(
        RecurringNewPayload {
            name: String::from_str("Pay Babysitter"),
            start: 1609977600,
            end: 1617753600,
            principal: Decimal::new(0, 0),
            interest: Decimal::new(0, 0),
            amount: Decimal::new(-60, 0),
            frequency: TimeInterval { typ: Typ::Monthly, content: 1 },
        },
    );
    examples
}

} // verus!

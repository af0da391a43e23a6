//! Recurring cash flows: a fixed amount paid again and again, or a principal
//! that earns interest.

use crate::common::calendar::{
    day_of_month, day_of_month_at, day_of_year, day_of_year_at, weekday, weekday_at,
};
use crate::common::decimal::{decimal_product, decimal_quotient, decimal_sum, Decimal};
use crate::common::text::{copy_of, text_of};
use crate::common::{decimal_at_least_zero, finding, verdict, Validation, ValidationError};
use vstd::prelude::*;

verus! {

/// How often a recurring comes round.
#[derive(Clone, Copy, Debug, PartialEq, Eq, Structural, PartialOrd, Ord, Hash)]
pub enum Typ {
    Monthly,
    Annually,
    Daily,
    Weekly,
}

/// A frequency: every `content`-th occurrence of `typ`.
#[derive(Clone, Copy, Debug, PartialEq, Eq, Structural)]
pub struct TimeInterval {
    pub typ: Typ,
    pub content: i32,
}

impl TimeInterval {
    pub fn new(typ: Typ, content: i32) -> (interval: TimeInterval)
        ensures
            interval.typ == typ,
            interval.content == content,
    {
        TimeInterval { typ, content }
    }
}

/// A recurring cash flow. Exactly one of `principal` and `amount` is meant to
/// be non-zero: with a principal the recurring compounds at `interest` percent,
/// without one it pays `amount`.
#[derive(Debug)]
pub struct Recurring {
    pub id: Option<String>,
    pub name: String,
    pub start: i64,
    pub end: i64,
    pub principal: Decimal,
    pub amount: Decimal,
    pub interest: Decimal,
    pub frequency: TimeInterval,
}

impl Clone for Recurring {
    fn clone(&self) -> (copy: Recurring)
        ensures
            copy == *self,
    {
        Recurring {
            id: copy_of(&self.id),
            name: self.name.clone(),
            start: self.start,
            end: self.end,
            principal: self.principal,
            amount: self.amount,
            interest: self.interest,
            frequency: self.frequency,
        }
    }
}

/// A recurring as the rules see it.
pub struct RecurringView {
    pub id: Option<Seq<char>>,
    pub name: Seq<char>,
    pub start: int,
    pub end: int,
    pub principal: (int, nat),
    pub amount: (int, nat),
    pub interest: (int, nat),
    pub frequency: TimeInterval,
}

impl View for Recurring {
    type V = RecurringView;

    open spec fn view(&self) -> RecurringView {
        RecurringView {
            id: text_of(self.id),
            name: self.name@,
            start: self.start as int,
            end: self.end as int,
            principal: self.principal@,
            amount: self.amount@,
            interest: self.interest@,
            frequency: self.frequency,
        }
    }
}

/// Whether `date` falls on the calendar grid that starts at `start`: every day
/// for `Daily`, the same weekday for `Weekly`, the same day of the month for
/// `Monthly`, the same day of the year for `Annually`. A moment without a date
/// falls on no grid but the daily one.
pub open spec fn aligned(typ: Typ, start: int, date: int) -> bool {
    match typ {
        Typ::Daily => true,
        Typ::Weekly => weekday_at(start) is Some && weekday_at(start) == weekday_at(date),
        Typ::Monthly => day_of_month_at(start) is Some && day_of_month_at(start)
            == day_of_month_at(date),
        Typ::Annually => day_of_year_at(start) is Some && day_of_year_at(start) == day_of_year_at(
            date,
        ),
    }
}

/// One step of compounding: the interest earned on `principal` at `interest`
/// percent and the principal after it, or `None` where one of the two cannot be
/// represented.
pub open spec fn compounding(principal: (int, nat), interest: (int, nat)) -> Option<
    ((int, nat), (int, nat)),
> {
    match decimal_product(principal, interest) {
        Some(product) => match decimal_quotient(product, (100int, 0nat)) {
            Some(change) => match decimal_sum(principal, change) {
                Some(grown) => Some((change, grown)),
                None => None,
            },
            None => None,
        },
        None => None,
    }
}

impl RecurringView {
    /// Whether the recurring is of one kind: a fixed amount without principal
    /// and interest, or a principal without amount.
    pub open spec fn is_one_kind(self) -> bool {
        ||| self.principal.0 == 0 && self.interest.0 == 0 && self.amount.0 != 0
        ||| self.amount.0 == 0 && self.principal.0 != 0
    }

    /// The first rule that the recurring breaks, by its code: start and end are
    /// not negative, the interest is not negative, and it is of one kind.
    pub open spec fn violation(self) -> Option<Seq<char>> {
        if self.start < 0 || self.end < 0 {
            Some("range"@)
        } else if self.interest.0 < 0 {
            Some("Field must be at least 0"@)
        } else if !self.is_one_kind() {
            Some(
                "Only one of Principal and Amount can be non-zeroand Interest must be zero if Amount is non-zero."@,
            )
        } else {
            None
        }
    }

    /// Whether the recurring is due on `date`: within `[start, end)` and on its
    /// calendar grid.
    pub open spec fn is_active(self, date: int) -> bool {
        self.start <= date < self.end && aligned(self.frequency.typ, self.start, date)
    }

    /// What one step of compounding pays: the interest, or zero where the step
    /// cannot be represented.
    pub open spec fn compound_change(self) -> (int, nat) {
        match compounding(self.principal, self.interest) {
            Some((change, grown)) => change,
            None => (0int, 0nat),
        }
    }

    /// The recurring after one step of compounding: the principal has grown by
    /// the interest, or stays where the step cannot be represented.
    pub open spec fn compounded(self) -> RecurringView {
        match compounding(self.principal, self.interest) {
            Some((change, grown)) => RecurringView { principal: grown, ..self },
            None => self,
        }
    }
}

impl Recurring {
    /// Compounds the principal by one step and returns the interest earned.
    pub fn compound(&mut self) -> (change: Decimal)
        ensures
            change@ == old(self)@.compound_change(),
            final(self)@ == old(self)@.compounded(),
    {
        let step = match self.principal.checked_mul(self.interest) {
            Some(product) => match product.checked_div(Decimal::new(100, 0)) {
                Some(change) => match self.principal.checked_add(change) {
                    Some(grown) => Some((change, grown)),
                    None => None,
                },
                None => None,
            },
            None => None,
        };
        match step {
            Some((change, grown)) => {
                self.principal = grown;
                change
            },
            None => Decimal::zero(),
        }
    }

    /// Whether the recurring is due at `date`, in seconds since the epoch.
    pub fn is_active(&self, date: i64) -> (active: bool)
        ensures
            active == self@.is_active(date as int),
    {
        if !(self.start <= date && self.end > date) {
            return false;
        }
        match self.frequency.typ {
            Typ::Daily => true,
            Typ::Weekly => {
                let first = weekday(self.start);
                first.is_some() && first == weekday(date)
            },
            Typ::Monthly => {
                let first = day_of_month(self.start);
                first.is_some() && first == day_of_month(date)
            },
            Typ::Annually => {
                let first = day_of_year(self.start);
                first.is_some() && first == day_of_year(date)
            },
        }
    }
}

/// A recurring is accepted where it is of one kind: a fixed amount without
/// principal and interest, or a principal without amount.
pub fn validate_recurring(data: &Recurring) -> (r: Result<(), ValidationError>)
    ensures
        verdict(r) == if data@.is_one_kind() {
            None
        } else {
            Some(
                "Only one of Principal and Amount can be non-zeroand Interest must be zero if Amount is non-zero."@,
            )
        },
{
    if data.principal.is_zero() && data.interest.is_zero() && !data.amount.is_zero() {
        Ok(())
    } else if data.amount.is_zero() && !data.principal.is_zero() {
        Ok(())
    } else {
        Err(
            ValidationError::new(
                "Only one of Principal and Amount can be non-zeroand Interest must be zero if Amount is non-zero.",
            ),
        )
    }
}

impl Validation for Recurring {
    fn validate(&self) -> (r: Result<(), String>)
        ensures
            finding(r) == self@.violation(),
    {
        if self.start < 0 || self.end < 0 {
            return Err(ValidationError::new("range").code);
        }
        match decimal_at_least_zero(&self.interest) {
            Err(error) => {
                return Err(error.code);
            },
            Ok(_) => {},
        }
        match validate_recurring(self) {
            Err(error) => Err(error.code),
            Ok(_) => Ok(()),
        }
    }
}

} // verus!

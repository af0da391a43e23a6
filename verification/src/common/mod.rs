//! Values and rules shared by the models and the services.

pub mod calendar;
pub mod decimal;
pub mod errors;
pub mod ids;
pub mod money;
pub mod text;
pub mod validation;

use crate::common::calendar::{
    midnight_of, moment_in_year, parse_date, with_year, year, year_at,
};
use crate::common::decimal::{decimal_sum, less_value, option_view, Decimal};
use crate::common::text::text_of;
use crate::models::plan_model::{AllocationProportion, ProportionView};
use vstd::prelude::*;
use vstd::string::StringExecFns;

verus! {

/// The views of the items of a sequence, in order.
pub open spec fn views<T: View>(items: Seq<T>) -> Seq<T::V> {
    Seq::new(items.len(), |i: int| items[i]@)
}

/// A rule that a value breaks, by its code.
#[derive(Debug, PartialEq, Eq)]
pub struct ValidationError {
    pub code: String,
}

impl ValidationError {
    pub fn new(code: &str) -> (error: ValidationError)
        ensures
            error.code@ == code@,
    {
        ValidationError { code: String::from_str(code) }
    }
}

/// A value that can be held against the rules for it: `Ok`, or the code of the
/// first rule that it breaks.
pub trait Validation {
    fn validate(&self) -> Result<(), String>;
}

/// A model that comes with examples.
pub trait Examples {
    type Output;

    /// The examples, as made at the moment `now`.
    fn examples(now: i64) -> Vec<Self::Output>;
}

/// What a rule says of a value: nothing where it is kept, else its code.
pub open spec fn verdict(r: Result<(), ValidationError>) -> Option<Seq<char>> {
    match r {
        Ok(_) => None,
        Err(error) => Some(error.code@),
    }
}

/// What a validation says: nothing where the rules are kept, else the code of
/// the first that is broken.
pub open spec fn finding(r: Result<(), String>) -> Option<Seq<char>> {
    match r {
        Ok(_) => None,
        Err(code) => Some(code@),
    }
}

/// A decimal is accepted where it is not negative.
pub fn decimal_at_least_zero(d: &Decimal) -> (r: Result<(), ValidationError>)
    ensures
        verdict(r) == if d@.0 >= 0 {
            None
        } else {
            Some("Field must be at least 0"@)
        },
{
    if !d.is_negative() {
        Ok(())
    } else {
        Err(ValidationError::new("Field must be at least 0"))
    }
}

/// Whether a decimal lies between 0 and 100, both included.
pub open spec fn is_percentage(d: (int, nat)) -> bool {
    d.0 >= 0 && !less_value((100int, 0nat), d)
}

/// A decimal is accepted where it lies between 0 and 100.
pub fn decimal_between_zero_or_hundred(d: &Decimal) -> (r: Result<(), ValidationError>)
    ensures
        verdict(r) == if is_percentage(d@) {
            None
        } else {
            Some("Field must be between 0 and 100"@)
        },
{
    if !d.is_negative() && !Decimal::new(100, 0).less_than(d) {
        Ok(())
    } else {
        Err(ValidationError::new("Field must be between 0 and 100"))
    }
}

/// The proportions of the shares added up in order, from zero; `None` where
/// the sum cannot be represented.
pub open spec fn proportions_total(schema: Seq<ProportionView>) -> Option<(int, nat)>
    decreases schema.len(),
{
    if schema.len() == 0 {
        Some((0int, 1nat))
    } else {
        match proportions_total(schema.drop_last()) {
            Some(total) => decimal_sum(total, schema.last().proportion),
            None => None,
        }
    }
}

/// Whether the proportions of the shares are 100 in all, give or take 2: more
/// than 98 and less than 102.
pub open spec fn sums_to_about_100(schema: Seq<ProportionView>) -> bool {
    match proportions_total(schema) {
        Some(total) => less_value((980int, 1nat), total) && less_value(total, (1020int, 1nat)),
        None => false,
    }
}

/// The shares of an allocation are accepted where their proportions are 100 in
/// all, give or take 2.
pub fn allocation_schema_sum_around_100(schema: &Vec<AllocationProportion>) -> (r: Result<
    (),
    ValidationError,
>)
    ensures
        verdict(r) == if sums_to_about_100(views(schema@)) {
            None
        } else {
            Some("Unable to properly calculate allocations"@)
        },
{
    let ghost shares = views(schema@);
    let mut total: Option<Decimal> = Some(Decimal::new(0, 1));
    let mut i: usize = 0;
    while i < schema.len()
        invariant
            i <= schema.len(),
            shares == views(schema@),
            option_view(total) == proportions_total(shares.take(i as int)),
        decreases schema.len() - i,
    {
        proof {
            assert(shares.take(i + 1).drop_last() =~= shares.take(i as int));
            assert(shares.take(i + 1).last() == shares[i as int]);
        }
        total = match total {
            Some(sum) => sum.checked_add(schema[i].proportion),
            None => None,
        };
        i += 1;
    }
    proof {
        assert(shares.take(i as int) =~= shares);
    }
    let around = match total {
        Some(sum) => Decimal::new(980, 1).less_than(&sum) && sum.less_than(&Decimal::new(1020, 1)),
        None => false,
    };
    if around {
        Ok(())
    } else {
        Err(ValidationError::new("Unable to properly calculate allocations"))
    }
}

/// The moment thirteen years before `now`, to the second: the same moment of
/// the calendar, thirteen years back; `None` where the calendar has none.
pub open spec fn thirteen_years_before(now: int) -> Option<i64> {
    match year_at(now) {
        Some(this_year) => if this_year - 13 >= i32::MIN {
            moment_in_year(now, this_year - 13)
        } else {
            None
        },
        None => None,
    }
}

/// What is held against a birthday at the moment `now`: it has to read as a
/// date, and the day has to begin more than thirteen years before `now`.
pub open spec fn birthday_violation(birthday: Seq<char>, now: int) -> Option<Seq<char>> {
    match midnight_of(birthday) {
        None => Some("invalid birthday format. Expected YYYY-mm-dd"@),
        Some(born) => match thirteen_years_before(now) {
            None => Some("Could not extract valid UTC dateTime from birthday"@),
            Some(limit) => if born < limit {
                None
            } else {
                Some("Must be at least 13yo to sign up"@)
            },
        },
    }
}

/// A birthday, written as year, month and day, is accepted where at the moment
/// `now`, in seconds since the epoch, it lies more than thirteen years back.
pub fn min_age_13yo(birthday: &String, now: i64) -> (r: Result<(), ValidationError>)
    ensures
        verdict(r) == birthday_violation(birthday@, now as int),
{
    let born = match parse_date(birthday.as_str()) {
        Some(born) => born,
        None => {
            return Err(ValidationError::new("invalid birthday format. Expected YYYY-mm-dd"));
        },
    };
    let this_year = match year(now) {
        Some(this_year) => this_year,
        None => {
            return Err(ValidationError::new("Could not extract valid UTC dateTime from birthday"));
        },
    };
    if this_year < i32::MIN + 13 {
        return Err(ValidationError::new("Could not extract valid UTC dateTime from birthday"));
    }
    let limit = match with_year(now, this_year - 13) {
        Some(limit) => limit,
        None => {
            return Err(ValidationError::new("Could not extract valid UTC dateTime from birthday"));
        },
    };
    if born < limit {
        Ok(())
    } else {
        Err(ValidationError::new("Must be at least 13yo to sign up"))
    }
}

/// The id that an object has once it has been seen to: its own, and the fresh
/// one where it had none.
pub open spec fn ensured(id: Option<Seq<char>>, fresh: Seq<char>) -> Option<Seq<char>> {
    match id {
        Some(id) => Some(id),
        None => Some(fresh),
    }
}

/// Gives the object the fresh id where it has none.
pub fn ensure_id(id: &mut Option<String>, fresh: &String)
    ensures
        text_of(*final(id)) == ensured(text_of(*old(id)), fresh@),
{
    if id.is_none() {
        *id = Some(fresh.clone());
    }
}

/// The first of the ids that is the given one, by position.
pub open spec fn first_with_id(ids: Seq<Option<Seq<char>>>, id: Seq<char>) -> Option<int>
    decreases ids.len(),
{
    if ids.len() == 0 {
        None
    } else {
        match first_with_id(ids.drop_last(), id) {
            Some(i) => Some(i),
            None => if ids.last() == Some(id) {
                Some(ids.len() - 1)
            } else {
                None
            },
        }
    }
}

/// A first match among the first `k` ids is the first match among all.
pub proof fn lemma_first_with_id_extends(ids: Seq<Option<Seq<char>>>, id: Seq<char>, k: int)
    requires
        0 <= k <= ids.len(),
        first_with_id(ids.take(k), id) is Some,
    ensures
        first_with_id(ids, id) == first_with_id(ids.take(k), id),
    decreases ids.len(),
{
    if k < ids.len() {
        assert(ids.drop_last().take(k) =~= ids.take(k));
        lemma_first_with_id_extends(ids.drop_last(), id, k);
    } else {
        assert(ids.take(k) =~= ids);
    }
}

/// Whether an optional id is the given one.
pub fn has_id(own: &Option<String>, id: &String) -> (same: bool)
    ensures
        same == (text_of(*own) == Some(id@)),
{
    match own {
        Some(own) => own.eq(id),
        None => false,
    }
}

/// The error for an id that none of the objects of the given kind has.
pub fn not_found(kind: &str, id: &String) -> (error: crate::common::errors::ApiError)
    ensures
        error.code() == 400,
        error.message() == "No "@ + kind@ + " with id "@ + id@ + " found in current user"@,
{
    crate::common::errors::ApiError::new(
        400,
        String::from_str("No ").concat(kind).concat(" with id ").concat(id.as_str()).concat(
            " found in current user",
        ),
    )
}

/// The error for a text that is no id.
pub fn malformed_id() -> (error: crate::common::errors::ApiError)
    ensures
        error.code() == 400,
        error.message() == "Malformed Object Id"@,
{
    crate::common::errors::ApiError::new(400, String::from_str("Malformed Object Id"))
}

/// Whether the error says that a text is no id.
pub open spec fn is_malformed(error: crate::common::errors::ApiError) -> bool {
    error.code() == 400 && error.message() == "Malformed Object Id"@
}

} // verus!

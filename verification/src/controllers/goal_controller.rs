//! What is said of goals at the boundary.

use crate::common::decimal::Decimal;
use crate::common::{finding, verdict, Validation, ValidationError};
use crate::models::goal_model::{Goal, GoalMetrics};
use vstd::prelude::*;

verus! {

/// A goal as a user states it; the threshold is an amount in cents.
#[derive(Debug, PartialEq)]
pub struct GoalNewPayload {
    pub name: String,
    pub start: i64,
    pub end: i64,
    pub threshold: i64,
    pub metric: GoalMetrics,
}

impl Clone for GoalNewPayload {
    fn clone(&self) -> (copy: GoalNewPayload)
        ensures
            copy == *self,
    {
        GoalNewPayload {
            name: self.name.clone(),
            start: self.start,
            end: self.end,
            threshold: self.threshold,
            metric: self.metric,
        }
    }
}

/// A stated goal is accepted where it starts before it ends.
pub fn validate_goal_new_payload(data: &GoalNewPayload) -> (r: Result<(), ValidationError>)
    ensures
        verdict(r) == if data.start < data.end {
            None
        } else {
            Some("Start time of Goal should be strictly before End time."@)
        },
{
    if data.start >= data.end {
        return Err(ValidationError::new("Start time of Goal should be strictly before End time."));
    }
    Ok(())
}

impl Validation for GoalNewPayload {
    fn validate(&self) -> (r: Result<(), String>)
        ensures
            finding(r) == if self.start < self.end {
                None
            } else {
                Some("Start time of Goal should be strictly before End time."@)
            },
    {
        match validate_goal_new_payload(self) {
            Err(error) => Err(error.code),
            Ok(_) => Ok(()),
        }
    }
}

impl GoalNewPayload {
    /// The goal that is stated.
    pub fn into_goal(self) -> (goal: Goal)
        ensures
            goal.id is None,
            goal.name == self.name,
            goal.start == self.start,
            goal.end == self.end,
            goal.threshold@ == (self.threshold as int, 0nat),
            goal.metric == self.metric,
    {
        Goal {
            id: None,
            name: self.name,
            start: self.start,
            end: self.end,
            threshold: Decimal::new(self.threshold, 0),
            metric: self.metric,
        }
    }
}

/// The goals that are shown as examples: to save a hundred dollars, and to
/// spend less than a hundred dollars, both in the first quarter of 2021.
pub fn get_goal_examples() -> (examples: Vec<GoalNewPayload>)
    ensures
        examples@.len() == 2,
        examples@[0].name@ == "Save 100 Dollars"@,
        examples@[0].threshold == 10000,
        examples@[0].metric == GoalMetrics::Savings,
        examples@[1].name@ == "Spend under 100 Dollars"@,
        examples@[1].threshold == -10000,
        examples@[1].metric == GoalMetrics::Spending,
        forall|i: int|
            0 <= i < 2 ==> (#[trigger] examples@[i]).start == 1609977600 && examples@[i].end
                == 1617753600,
{
    let mut examples: Vec<GoalNewPayload> = Vec::new();
    examples.push(
        GoalNewPayload {
            name: "Save 100 Dollars".to_owned(),
            start: 1609977600,
            end: 1617753600,
            threshold: 10000,
            metric: GoalMetrics::Savings,
        },
    );
    examples.push(
        GoalNewPayload {
            name: "Spend under 100 Dollars".to_owned(),
            start: 1609977600,
            end: 1617753600,
            threshold: -10000,
            metric: GoalMetrics::Spending,
        },
    );
    examples
}

} // verus!

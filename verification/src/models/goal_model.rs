//! Goals: a change in a running total that a user wants to reach in a span of
//! time.

use crate::common::decimal::Decimal;
use crate::common::text::copy_of;
use vstd::prelude::*;

verus! {

/// The running total that a goal is about.
#[derive(Clone, Copy, Debug, PartialEq, Eq, Structural)]
pub enum GoalMetrics {
    Savings,
    Spending,
    Income,
}

/// A goal: by how much the metric is to change between `start` and `end`.
#[derive(Debug, PartialEq)]
pub struct Goal {
    pub id: Option<String>,
    pub name: String,
    pub start: i64,
    pub end: i64,
    pub threshold: Decimal,
    pub metric: GoalMetrics,
}

/// A goal and how far it has been reached.
#[derive(Debug, PartialEq)]
pub struct GoalAndStatus {
    pub goal: Goal,
    pub progress: Decimal,
}

impl Clone for Goal {
    fn clone(&self) -> (copy: Goal)
        ensures
            copy == *self,
    {
        Goal {
            id: copy_of(&self.id),
            name: self.name.clone(),
            start: self.start,
            end: self.end,
            threshold: self.threshold,
            metric: self.metric,
        }
    }
}

} // verus!

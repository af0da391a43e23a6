//! Leaderboards: the running totals that users are ranked by.

use crate::common::decimal::Decimal;
use vstd::prelude::*;
use vstd::string::StringExecFns;

verus! {

/// The running total that a leaderboard ranks by.
#[derive(Clone, Copy, Debug, PartialEq, Eq, Structural)]
pub enum BoardTypes {
    Savings,
    Spending,
    Income,
}

impl Default for BoardTypes {
    fn default() -> (board: BoardTypes)
        ensures
            board == BoardTypes::Savings,
    {
        BoardTypes::Savings
    }
}

/// Where a user stands on a leaderboard: ahead of `percentile` percent of the
/// others.
#[derive(Debug, PartialEq)]
pub struct Ranking {
    pub leaderboard_type: BoardTypes,
    pub percentile: Decimal,
    pub description: String,
    pub generation_time: i64,
}

impl Ranking {
    /// A ranking made at the moment `now`.
    pub fn new(leaderboard_type: BoardTypes, percentile: Decimal, description: String, now: i64) -> (ranking:
        Ranking)
        ensures
            ranking == (Ranking {
                leaderboard_type,
                percentile,
                description,
                generation_time: now,
            }),
    {
        Ranking { leaderboard_type: leaderboard_type, percentile, description, generation_time: now }
    }
}

impl Default for Ranking {
    /// The ranking that stands in until one has been made: on savings, at
    /// nothing, made at the epoch.
    fn default() -> (ranking: Ranking)
        ensures
            ranking.leaderboard_type == BoardTypes::Savings,
            ranking.percentile@ == (0int, 0nat),
            ranking.description@ == ""@,
            ranking.generation_time == 0,
    {
        Ranking {
            leaderboard_type: BoardTypes::Savings,
            percentile: Decimal::new(0, 0),
            description: String::from_str(""),
            generation_time: 0,
        }
    }
}

impl Clone for Ranking {
    fn clone(&self) -> (copy: Ranking)
        ensures
            copy == *self,
    {
        Ranking {
            leaderboard_type: self.leaderboard_type,
            percentile: self.percentile,
            description: self.description.clone(),
            generation_time: self.generation_time,
        }
    }
}

} // verus!

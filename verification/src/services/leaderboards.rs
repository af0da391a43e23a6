//! The rankings of a user: one for each leaderboard, made afresh when it is more
//! than a day old.

use crate::common::calendar::SECONDS_PER_DAY;
use crate::common::decimal::Decimal;
use crate::models::leaderboard_model::{BoardTypes, Ranking};
use vstd::prelude::*;
use vstd::string::StringExecFns;

verus! {

/// The place of a leaderboard among the rankings of a user.
pub open spec fn slot(board: BoardTypes) -> int {
    match board {
        BoardTypes::Savings => 0,
        BoardTypes::Spending => 1,
        BoardTypes::Income => 2,
    }
}

/// The place of a leaderboard among the rankings of a user.
pub fn board_index(board: BoardTypes) -> (index: usize)
    ensures
        index == slot(board),
{
    match board {
        BoardTypes::Savings => 0,
        BoardTypes::Spending => 1,
        BoardTypes::Income => 2,
    }
}

/// Whether a ranking made at `generation_time` still holds at the moment
/// `now`: it is less than a day old.
pub open spec fn is_fresh(generation_time: int, now: int) -> bool {
    generation_time > now - SECONDS_PER_DAY
}

/// The ranking of a user on a leaderboard as far as it is kept and still holds
/// at the moment `now`. The rankings are filled up with rankings that stand in
/// until there is a place for the leaderboard.
pub fn get_ranking(rankings: &mut Vec<Ranking>, board: BoardTypes, now: i64) -> (kept: Option<
    Ranking,
>)
    ensures
        final(rankings)@.len() == if old(rankings)@.len() > slot(board) {
            old(rankings)@.len()
        } else {
            (slot(board) + 1) as nat
        },
        forall|i: int| 0 <= i < old(rankings)@.len() ==> final(rankings)@[i] == old(rankings)@[i],
        forall|i: int|
            old(rankings)@.len() <= i < final(rankings)@.len() ==> {
                &&& (#[trigger] final(rankings)@[i]).leaderboard_type == BoardTypes::Savings
                &&& final(rankings)@[i].percentile@ == (0int, 0nat)
                &&& final(rankings)@[i].description@ == ""@
                &&& final(rankings)@[i].generation_time == 0
            },
        kept == if is_fresh(final(rankings)@[slot(board)].generation_time as int, now as int) {
            Some(final(rankings)@[slot(board)])
        } else {
            None
        },
{
    let index = board_index(board);
    let ghost before = rankings@;
    while rankings.len() <= index
        invariant
            index == slot(board),
            rankings@.len() >= before.len(),
            rankings@.len() <= index + 1 || rankings@.len() == before.len(),
            before.len() > index ==> rankings@.len() == before.len(),
            forall|i: int| 0 <= i < before.len() ==> rankings@[i] == before[i],
            forall|i: int|
                before.len() <= i < rankings@.len() ==> {
                    &&& (#[trigger] rankings@[i]).leaderboard_type == BoardTypes::Savings
                    &&& rankings@[i].percentile@ == (0int, 0nat)
                    &&& rankings@[i].description@ == ""@
                    &&& rankings@[i].generation_time == 0
                },
        decreases index + 1 - rankings.len(),
    {
        rankings.push(Ranking::default());
    }
    if rankings[index].generation_time as i128 > now as i128 - SECONDS_PER_DAY as i128 {
        Some(rankings[index].clone())
    } else {
        None
    }
}

/// Keeps a ranking in the place of its leaderboard.
pub fn store_ranking(rankings: &mut Vec<Ranking>, board: BoardTypes, rank: Ranking)
    requires
        old(rankings)@.len() > slot(board),
    ensures
        final(rankings)@ == old(rankings)@.update(slot(board), rank),
{
    let index = board_index(board);
    rankings[index] = rank;
}

/// The name of a leaderboard.
pub open spec fn board_name(board: BoardTypes) -> Seq<char> {
    match board {
        BoardTypes::Savings => "Savings Leaderboard"@,
        BoardTypes::Spending => "Spending Leaderboard"@,
        BoardTypes::Income => "Income Leaderboard"@,
    }
}

/// The ranking, made at the moment `now`, of a user who is ahead of
/// `percentile` percent of the others on the leaderboard.
pub fn generate_ranking(board: BoardTypes, percentile: Decimal, now: i64) -> (ranking: Ranking)
    ensures
        ranking.leaderboard_type == board,
        ranking.percentile == percentile,
        ranking.description@ == board_name(board),
        ranking.generation_time == now,
{
    let description = match board {
        BoardTypes::Savings => String::from_str("Savings Leaderboard"),
        BoardTypes::Spending => String::from_str("Spending Leaderboard"),
        BoardTypes::Income => String::from_str("Income Leaderboard"),
    };
    Ranking::new(board, percentile, description, now)
}

} // verus!

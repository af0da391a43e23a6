//! How far a goal has been reached: the change of its metric over its span.

use crate::common::decimal::{value_sub, Decimal};
use crate::common::errors::ApiError;
use crate::common::text::text_of;
use crate::common::ids::{object_id, object_id_of};
use crate::common::{
    first_with_id, has_id, is_malformed, lemma_first_with_id_extends, malformed_id, not_found,
};
use crate::controllers::goal_controller::GoalNewPayload;
use crate::models::goal_model::{Goal, GoalMetrics};
use crate::models::user_model::{Snapshot, SnapshotView};
use vstd::prelude::*;

verus! {

/// The snapshot of zeros taken at the epoch, which stands in where there is no
/// snapshot to go by.
pub open spec fn no_snapshot() -> SnapshotView {
    SnapshotView {
        net_worth: (0int, 0nat),
        running_savings: (0int, 0nat),
        running_spending: (0int, 0nat),
        running_income: (0int, 0nat),
        snapshot_time: 0,
    }
}

/// The last snapshot, in the order of the list, that was taken before `start`.
pub open spec fn last_before(snapshots: Seq<Snapshot>, start: int) -> SnapshotView
    decreases snapshots.len(),
{
    if snapshots.len() == 0 {
        no_snapshot()
    } else if snapshots.last().snapshot_time < start {
        snapshots.last()@
    } else {
        last_before(snapshots.drop_last(), start)
    }
}

/// The last snapshot, in the order of the list, that was taken at or before
/// `end`.
pub open spec fn last_until(snapshots: Seq<Snapshot>, end: int) -> SnapshotView
    decreases snapshots.len(),
{
    if snapshots.len() == 0 {
        no_snapshot()
    } else if snapshots.last().snapshot_time > end {
        last_until(snapshots.drop_last(), end)
    } else {
        snapshots.last()@
    }
}

/// The running total of a snapshot that the metric names.
pub open spec fn metric_of(snapshot: SnapshotView, metric: GoalMetrics) -> (int, nat) {
    match metric {
        GoalMetrics::Income => snapshot.running_income,
        GoalMetrics::Savings => snapshot.running_savings,
        GoalMetrics::Spending => snapshot.running_spending,
    }
}

/// By how much the metric of a goal has changed over its span: from the last
/// snapshot before its start to the last one at or before its end.
pub open spec fn goal_change(
    snapshots: Seq<Snapshot>,
    start: int,
    end: int,
    metric: GoalMetrics,
) -> (int, nat) {
    value_sub(
        metric_of(last_until(snapshots, end), metric),
        metric_of(last_before(snapshots, start), metric),
    )
}

fn find_last_before(snapshots: &Vec<Snapshot>, start: i64) -> (found: Snapshot)
    ensures
        found@ == last_before(snapshots@, start as int),
{
    let mut i: usize = snapshots.len();
    assert(snapshots@.take(i as int) =~= snapshots@);
    while i > 0
        invariant
            i <= snapshots.len(),
            last_before(snapshots@, start as int) == last_before(
                snapshots@.take(i as int),
                start as int,
            ),
        decreases i,
    {
        i -= 1;
        proof {
            assert(snapshots@.take(i + 1).drop_last() =~= snapshots@.take(i as int));
            assert(snapshots@.take(i + 1).last() == snapshots@[i as int]);
        }
        if snapshots[i].snapshot_time < start {
            return snapshots[i];
        }
    }
    Snapshot::default()
}

fn find_last_until(snapshots: &Vec<Snapshot>, end: i64) -> (found: Snapshot)
    ensures
        found@ == last_until(snapshots@, end as int),
{
    let mut i: usize = snapshots.len();
    assert(snapshots@.take(i as int) =~= snapshots@);
    while i > 0
        invariant
            i <= snapshots.len(),
            last_until(snapshots@, end as int) == last_until(
                snapshots@.take(i as int),
                end as int,
            ),
        decreases i,
    {
        i -= 1;
        proof {
            assert(snapshots@.take(i + 1).drop_last() =~= snapshots@.take(i as int));
            assert(snapshots@.take(i + 1).last() == snapshots@[i as int]);
        }
        if !(snapshots[i].snapshot_time > end) {
            return snapshots[i];
        }
    }
    Snapshot::default()
}

/// By how much the metric of the goal has changed over its span, and whether
/// that is exactly the threshold of the goal.
pub fn calculate_goal_change(goal: &Goal, snapshots: &Vec<Snapshot>) -> (r: (Decimal, bool))
    ensures
        r.0@ == goal_change(snapshots@, goal.start as int, goal.end as int, goal.metric),
        r.1 == crate::common::decimal::same_value(r.0@, goal.threshold@),
{
    let last_before_start = find_last_before(snapshots, goal.start);
    let last_in_range = find_last_until(snapshots, goal.end);
    let change = match goal.metric {
        GoalMetrics::Income => last_in_range.running_income.amount.sub(
            last_before_start.running_income.amount,
        ),
        GoalMetrics::Savings => last_in_range.running_savings.amount.sub(
            last_before_start.running_savings.amount,
        ),
        GoalMetrics::Spending => last_in_range.running_spending.amount.sub(
            last_before_start.running_spending.amount,
        ),
    };
    let reached = change == goal.threshold;
    (change, reached)
}

/// The ids of the goals, in their order.
pub open spec fn goal_ids(goals: Seq<Goal>) -> Seq<Option<Seq<char>>> {
    Seq::new(goals.len(), |i: int| text_of(goals[i].id))
}

fn find_goal(goals: &Vec<Goal>, goal_id: &String) -> (r: Option<usize>)
    ensures
        match r {
            Some(i) => i < goals@.len() && first_with_id(goal_ids(goals@), goal_id@) == Some(
                i as int,
            ),
            None => first_with_id(goal_ids(goals@), goal_id@) is None,
        },
{
    let ghost ids = goal_ids(goals@);
    let mut i: usize = 0;
    while i < goals.len()
        invariant
            i <= goals.len(),
            ids == goal_ids(goals@),
            first_with_id(ids.take(i as int), goal_id@) is None,
        decreases goals.len() - i,
    {
        proof {
            assert(ids.take(i + 1).drop_last() =~= ids.take(i as int));
            assert(ids.take(i + 1).last() == ids[i as int]);
        }
        if has_id(&goals[i].id, goal_id) {
            proof {
                lemma_first_with_id_extends(ids, goal_id@, i + 1);
            }
            return Some(i);
        }
        i += 1;
    }
    proof {
        assert(ids.take(i as int) =~= ids);
    }
    None
}

/// Whether the error says that no goal has the id that was asked for as
/// `asked`.
pub open spec fn is_no_goal(error: ApiError, asked: Seq<char>) -> bool {
    error.code() == 400 && error.message() == "No "@ + "goal"@ + " with id "@ + asked
        + " found in current user"@
}

/// The first of the goals that has the id written in `goal_id`. Fails where
/// the text is no id, and where no goal has the id.
pub fn retrieve_goal(goal_id: String, goals: &Vec<Goal>) -> (r: Result<Goal, ApiError>)
    ensures
        match object_id_of(goal_id@) {
            None => r matches Err(error) && is_malformed(error),
            Some(id) => match first_with_id(goal_ids(goals@), id) {
                Some(i) => r == Ok::<Goal, ApiError>(goals@[i]),
                None => r matches Err(error) && is_no_goal(error, goal_id@),
            },
        },
{
    let id = match object_id(goal_id.as_str()) {
        Some(id) => id,
        None => {
            return Err(malformed_id());
        },
    };
    match find_goal(goals, &id) {
        Some(i) => Ok(goals[i].clone()),
        None => Err(not_found("goal", &goal_id)),
    }
}

/// Adds the stated goal, under the id `fresh_id`, to the goals of a user.
pub fn new_goal(goals: &mut Vec<Goal>, payload: GoalNewPayload, fresh_id: String) -> (goal: Goal)
    ensures
        goal == (Goal {
            id: Some(fresh_id),
            name: payload.name,
            start: payload.start,
            end: payload.end,
            threshold: goal.threshold,
            metric: payload.metric,
        }),
        goal.threshold@ == (payload.threshold as int, 0nat),
        final(goals)@ == old(goals)@.push(goal),
{
    let mut goal = payload.into_goal();
    goal.id = Some(fresh_id);
    goals.push(goal.clone());
    goal
}

/// Puts the stated goal in the place of the first goal that has the id written
/// in `goal_id`. Fails, and changes nothing, where the text is no id, and where
/// no goal has the id.
pub fn update_goal(goals: &mut Vec<Goal>, goal_id: String, payload: GoalNewPayload) -> (r: Result<
    Goal,
    ApiError,
>)
    ensures
        match object_id_of(goal_id@) {
            None => r matches Err(error) && is_malformed(error) && final(goals)@ == old(goals)@,
            Some(id) => match first_with_id(goal_ids(old(goals)@), id) {
                Some(i) => {
                    &&& r matches Ok(goal) && text_of(goal.id) == Some(id) && goal.name
                        == payload.name && goal.start == payload.start && goal.end == payload.end
                        && goal.threshold@ == (payload.threshold as int, 0nat) && goal.metric
                        == payload.metric && final(goals)@ == old(goals)@.update(i, goal)
                },
                None => {
                    &&& r matches Err(error) && is_no_goal(error, goal_id@)
                    &&& final(goals)@ == old(goals)@
                },
            },
        },
{
    let id = match object_id(goal_id.as_str()) {
        Some(id) => id,
        None => {
            return Err(malformed_id());
        },
    };
    match find_goal(goals, &id) {
        Some(i) => {
            let mut goal = payload.into_goal();
            goal.id = Some(id);
            goals[i] = goal.clone();
            Ok(goal)
        },
        None => Err(not_found("goal", &goal_id)),
    }
}

/// Takes the first goal that has the id written in `goal_id` from the goals of
/// a user, the last goal moving into its place. Fails, and changes nothing,
/// where the text is no id, and where no goal has the id.
pub fn delete_goal(goals: &mut Vec<Goal>, goal_id: String) -> (r: Result<Goal, ApiError>)
    ensures
        match object_id_of(goal_id@) {
            None => r matches Err(error) && is_malformed(error) && final(goals)@ == old(goals)@,
            Some(id) => match first_with_id(goal_ids(old(goals)@), id) {
                Some(i) => {
                    &&& r == Ok::<Goal, ApiError>(old(goals)@[i])
                    &&& final(goals)@ == old(goals)@.update(i, old(goals)@.last()).drop_last()
                },
                None => {
                    &&& r matches Err(error) && is_no_goal(error, goal_id@)
                    &&& final(goals)@ == old(goals)@
                },
            },
        },
{
    let id = match object_id(goal_id.as_str()) {
        Some(id) => id,
        None => {
            return Err(malformed_id());
        },
    };
    match find_goal(goals, &id) {
        Some(i) => Ok(goals.swap_remove(i)),
        None => Err(not_found("goal", &goal_id)),
    }
}

} // verus!

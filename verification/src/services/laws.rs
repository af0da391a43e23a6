//! What holds of the projection whatever the plan.

use crate::common::calendar::SECONDS_PER_DAY;
use crate::common::decimal::{decimal_product, decimal_quotient, decimal_sum};
use crate::models::plan_model::{AllocationView, EventView, PlanView};
use crate::models::recurring_model::{compounding, RecurringView};
use crate::models::user_model::Snapshot;
use crate::services::timeseries::{
    assembled_series, date_of, effective_index, first_due, pending_after, period,
    projected_series, projection_after, snapshot_series, time_ordered, RecurringStateView,
};
use vstd::prelude::*;

verus! {

/// A recurring without principal pays exactly its amount on a day on which it
/// is due and a period completes, and nothing on a day outside `[start, end)`.
pub proof fn fixed_recurring_pays_its_amount(state: RecurringStateView, date: int)
    requires
        state.rec.principal.0 == 0,
    ensures
        state.releases(date) ==> state.payment(date) == state.rec.amount,
        !(state.rec.start <= date < state.rec.end) ==> state.payment(date) == (0int, 0nat),
        !(state.rec.start <= date < state.rec.end) ==> state.after(date) == state,
{
}

/// Whatever the recurring, it pays nothing and stays as it is on a day outside
/// `[start, end)`.
pub proof fn recurring_rests_outside_its_window(state: RecurringStateView, date: int)
    requires
        !(state.rec.start <= date < state.rec.end),
    ensures
        state.payment(date) == (0int, 0nat),
        state.after(date) == state,
{
}

/// A recurring with a principal `P` and an interest of `r` percent pays
/// `P * r / 100` on a day on which it is due and a period completes, and goes on
/// with the principal `P + P * r / 100`: the next payment is the interest on
/// that. This holds where the three results can be represented.
pub proof fn compounding_recurring_pays_interest(state: RecurringStateView, date: int, next: int)
    requires
        state.rec.principal.0 != 0,
        state.releases(date),
        compounding(state.rec.principal, state.rec.interest) is Some,
    ensures
        ({
            let (change, grown) = compounding(state.rec.principal, state.rec.interest).unwrap();
            &&& decimal_product(state.rec.principal, state.rec.interest) matches Some(product)
                && decimal_quotient(product, (100int, 0nat)) == Some(change)
            &&& decimal_sum(state.rec.principal, change) == Some(grown)
            &&& state.payment(date) == change
            &&& state.after(date).rec == (RecurringView { principal: grown, ..state.rec })
            &&& state.after(date).releases(next) && grown.0 != 0 ==> state.after(date).payment(next)
                == (RecurringView { principal: grown, ..state.rec }).compound_change()
        }),
{
}

/// A recurring pays on every `n`-th day on which it is due, `n` being its
/// period: the count of due days, held modulo `n`, moves on by one on a due
/// day and a payment is released when it comes back to zero.
pub proof fn recurring_counts_due_days(state: RecurringStateView, date: int)
    requires
        state.rec.is_active(date),
    ensures
        state.after(date).phase == (state.phase as int + 1) % period(
            state.rec.frequency.content as int,
        ),
        state.releases(date) <==> state.after(date).phase == 0,
        period(state.rec.frequency.content as int) == 1 ==> state.releases(date),
{
}

/// The allocation in effect is dated at or before the day, and every
/// allocation that stands behind it in the list is dated after the day.
pub proof fn effective_allocation_is_last_dated_before(allocations: Seq<AllocationView>, date: int)
    ensures
        match effective_index(allocations, date) {
            Some(i) => {
                &&& 0 <= i < allocations.len()
                &&& allocations[i].date <= date
                &&& forall|j: int| i < j < allocations.len() ==> allocations[j].date > date
            },
            None => forall|j: int| 0 <= j < allocations.len() ==> allocations[j].date > date,
        },
    decreases allocations.len(),
{
    if allocations.len() > 0 && allocations.last().date > date {
        let shorter = allocations.drop_last();
        effective_allocation_is_last_dated_before(shorter, date);
        assert forall|j: int| 0 <= j < shorter.len() implies shorter[j] == allocations[j] by {}
        match effective_index(shorter, date) {
            Some(i) => {
                assert forall|j: int| i < j < allocations.len() implies allocations[j].date
                    > date by {
                    if j < shorter.len() {
                        assert(shorter[j].date > date);
                    }
                }
            },
            None => {
                assert forall|j: int| 0 <= j < allocations.len() implies allocations[j].date
                    > date by {
                    if j < shorter.len() {
                        assert(shorter[j].date > date);
                    }
                }
            },
        }
    }
}

/// Where the allocations stand in the order of their dates, the one in effect
/// has the greatest date that is not after the day: never a later-dated one,
/// never an earlier one when a closer one qualifies; of several with that date
/// it is the last in the list.
pub proof fn effective_allocation_is_latest(allocations: Seq<AllocationView>, date: int)
    requires
        time_ordered(allocations),
    ensures
        match effective_index(allocations, date) {
            Some(i) => {
                &&& 0 <= i < allocations.len()
                &&& allocations[i].date <= date
                &&& forall|j: int|
                    0 <= j < allocations.len() && allocations[j].date <= date ==> j <= i
                        && allocations[j].date <= allocations[i].date
            },
            None => forall|j: int| 0 <= j < allocations.len() ==> allocations[j].date > date,
        },
{
    effective_allocation_is_last_dated_before(allocations, date);
}

/// The event that fires is the first in the list whose start has been reached.
pub proof fn due_event_is_first_reached(pending: Seq<EventView>, date: int)
    ensures
        match first_due(pending, date) {
            Some(i) => {
                &&& 0 <= i < pending.len()
                &&& pending[i].start <= date
                &&& forall|j: int| 0 <= j < i ==> pending[j].start > date
            },
            None => forall|j: int| 0 <= j < pending.len() ==> pending[j].start > date,
        },
    decreases pending.len(),
{
    if pending.len() > 0 {
        let shorter = pending.drop_last();
        due_event_is_first_reached(shorter, date);
        match first_due(shorter, date) {
            Some(i) => {
                assert(shorter[i] == pending[i]);
                assert forall|j: int| 0 <= j < i implies pending[j].start > date by {
                    assert(shorter[j].start > date);
                }
            },
            None => {
                assert forall|j: int| 0 <= j < shorter.len() implies pending[j].start > date by {
                    assert(shorter[j].start > date);
                }
            },
        }
    }
}

/// An event that fires leaves the pending ones: one event fewer is pending, the
/// others stay in their order, and a day on which nothing is due changes
/// nothing.
pub proof fn fired_event_leaves(pending: Seq<EventView>, date: int)
    ensures
        match first_due(pending, date) {
            Some(i) => {
                &&& pending_after(pending, date).len() == pending.len() - 1
                &&& forall|j: int| 0 <= j < i ==> pending_after(pending, date)[j] == pending[j]
                &&& forall|j: int|
                    i <= j < pending.len() - 1 ==> pending_after(pending, date)[j] == pending[j
                        + 1]
            },
            None => pending_after(pending, date) == pending,
        },
{
    due_event_is_first_reached(pending, date);
}

/// The number of events that have fired in the first `day` days of a run.
pub open spec fn events_fired(
    plan: PlanView,
    roots: Seq<Option<i64>>,
    start_net_worth: (int, nat),
    start_date: int,
    day: nat,
) -> nat
    decreases day,
{
    if day == 0 {
        0
    } else {
        let before = projection_after(plan, roots, start_net_worth, start_date, (day - 1) as nat);
        let earlier = events_fired(plan, roots, start_net_worth, start_date, (day - 1) as nat);
        if first_due(before.pending, date_of(start_date, day as int)) is Some {
            earlier + 1
        } else {
            earlier
        }
    }
}

/// In a run each event fires at most once: at most one fires on a day, and the
/// events that have fired and those still pending are together the events of
/// the plan.
pub proof fn each_event_fires_at_most_once(
    plan: PlanView,
    roots: Seq<Option<i64>>,
    start_net_worth: (int, nat),
    start_date: int,
    day: nat,
)
    ensures
        events_fired(plan, roots, start_net_worth, start_date, day) + projection_after(
            plan,
            roots,
            start_net_worth,
            start_date,
            day,
        ).pending.len() == plan.events.len(),
        events_fired(plan, roots, start_net_worth, start_date, day) <= day,
    decreases day,
{
    if day > 0 {
        each_event_fires_at_most_once(plan, roots, start_net_worth, start_date, (day - 1) as nat);
        let before = projection_after(plan, roots, start_net_worth, start_date, (day - 1) as nat);
        fired_event_leaves(before.pending, date_of(start_date, day as int));
    }
}

/// The projected series holds one entry for each simulated day, dated one day
/// after the other from the day after the start.
pub proof fn projected_series_is_daily(
    plan: PlanView,
    roots: Seq<Option<i64>>,
    days: int,
    start_net_worth: (int, nat),
    start_date: int,
)
    ensures
        days <= 0 ==> projected_series(plan, roots, days, start_net_worth, start_date).len() == 0,
        days > 0 ==> projected_series(plan, roots, days, start_net_worth, start_date).len() == days,
        forall|i: int|
            0 <= i < days ==> (#[trigger] projected_series(
                plan,
                roots,
                days,
                start_net_worth,
                start_date,
            )[i]).0 == start_date + (i + 1) * SECONDS_PER_DAY,
{
}

/// A longer run goes on where a shorter one ended: the series over fewer days
/// is the beginning of the series over more.
pub proof fn projected_series_extends(
    plan: PlanView,
    roots: Seq<Option<i64>>,
    fewer: int,
    more: int,
    start_net_worth: (int, nat),
    start_date: int,
)
    requires
        0 <= fewer <= more,
    ensures
        projected_series(plan, roots, fewer, start_net_worth, start_date) == projected_series(
            plan,
            roots,
            more,
            start_net_worth,
            start_date,
        ).take(fewer),
{
    assert(projected_series(plan, roots, fewer, start_net_worth, start_date) =~= projected_series(
        plan,
        roots,
        more,
        start_net_worth,
        start_date,
    ).take(fewer));
}

/// Two runs on the same plan, roots, horizon and start give the same series.
pub proof fn projection_is_repeatable(
    first_plan: PlanView,
    second_plan: PlanView,
    first_roots: Seq<Option<i64>>,
    second_roots: Seq<Option<i64>>,
    days: int,
    start_net_worth: (int, nat),
    start_date: int,
)
    requires
        first_plan.recurrings =~= second_plan.recurrings,
        first_plan.allocations =~= second_plan.allocations,
        first_plan.events =~= second_plan.events,
        first_roots =~= second_roots,
    ensures
        projected_series(first_plan, first_roots, days, start_net_worth, start_date)
            == projected_series(second_plan, second_roots, days, start_net_worth, start_date),
{
    assert forall|day: nat|
        (#[trigger] projection_after(
            first_plan,
            first_roots,
            start_net_worth,
            start_date,
            day,
        )) == projection_after(second_plan, second_roots, start_net_worth, start_date, day) by {
        lemma_projection_ignores_name(
            first_plan,
            second_plan,
            first_roots,
            start_net_worth,
            start_date,
            day,
        );
    }
    assert(projected_series(first_plan, first_roots, days, start_net_worth, start_date)
        =~= projected_series(second_plan, second_roots, days, start_net_worth, start_date));
}

proof fn lemma_projection_ignores_name(
    first_plan: PlanView,
    second_plan: PlanView,
    roots: Seq<Option<i64>>,
    start_net_worth: (int, nat),
    start_date: int,
    day: nat,
)
    requires
        first_plan.recurrings == second_plan.recurrings,
        first_plan.allocations == second_plan.allocations,
        first_plan.events == second_plan.events,
    ensures
        projection_after(first_plan, roots, start_net_worth, start_date, day) == projection_after(
            second_plan,
            roots,
            start_net_worth,
            start_date,
            day,
        ),
    decreases day,
{
    if day > 0 {
        lemma_projection_ignores_name(
            first_plan,
            second_plan,
            roots,
            start_net_worth,
            start_date,
            (day - 1) as nat,
        );
    }
}

/// The assembled series is as long as the snapshots and the simulated days
/// together, and begins with the snapshots in their order.
pub proof fn assembled_series_keeps_history(
    snapshots: Seq<Snapshot>,
    plan: PlanView,
    roots: Seq<Option<i64>>,
    days: int,
    start_net_worth: (int, nat),
    start_date: int,
)
    requires
        days >= 0,
    ensures
        ({
            let series = assembled_series(
                snapshots,
                projected_series(plan, roots, days, start_net_worth, start_date),
            );
            &&& series.len() == snapshots.len() + days
            &&& series.take(snapshots.len() as int) == snapshot_series(snapshots)
            &&& forall|i: int|
                0 <= i < snapshots.len() ==> #[trigger] series[i] == (
                    snapshots[i].snapshot_time as int,
                    snapshots[i].net_worth@,
                )
            &&& series.skip(snapshots.len() as int) == projected_series(
                plan,
                roots,
                days,
                start_net_worth,
                start_date,
            )
        }),
{
    let projected = projected_series(plan, roots, days, start_net_worth, start_date);
    let series = assembled_series(snapshots, projected);
    assert(series.take(snapshots.len() as int) =~= snapshot_series(snapshots));
    assert(series.skip(snapshots.len() as int) =~= projected);
}

} // verus!

//! The snapshots of a user: which is the last, and when a new one is due.

use crate::common::calendar::SECONDS_PER_DAY;
use crate::common::decimal::{value_add, value_sub, Decimal};
use crate::common::money::Money;
use crate::common::views;
use crate::models::user_model::{AccountRecord, Snapshot, SnapshotView};
use vstd::prelude::*;

verus! {

/// Whether a new snapshot is due at the moment `now`, in seconds since the
/// epoch: the last one was taken more than a day ago. Without any snapshot the
/// last one counts as taken at the epoch.
pub fn need_new_snapshot(snapshots: &Vec<Snapshot>, now: i64) -> (due: bool)
    ensures
        due == (now - last_time(snapshots@) > SECONDS_PER_DAY),
{
    let last = get_last_snapshot(snapshots).snapshot_time;
    now as i128 - last as i128 > SECONDS_PER_DAY as i128
}

/// The time of the last snapshot, and the epoch where there is none.
pub open spec fn last_time(snapshots: Seq<Snapshot>) -> int {
    if snapshots.len() == 0 {
        0
    } else {
        snapshots.last().snapshot_time as int
    }
}

/// The last snapshot, and one of zeros taken at the epoch where there is none.
pub fn get_last_snapshot(snapshots: &Vec<Snapshot>) -> (last: Snapshot)
    ensures
        snapshots@.len() > 0 ==> last == snapshots@.last(),
        snapshots@.len() == 0 ==> {
            &&& last.net_worth@ == (0int, 0nat)
            &&& last.running_savings@ == (0int, 0nat)
            &&& last.running_spending@ == (0int, 0nat)
            &&& last.running_income@ == (0int, 0nat)
            &&& last.snapshot_time == 0
        },
        last.snapshot_time == last_time(snapshots@),
{
    if snapshots.len() == 0 {
        return Snapshot::default();
    }
    snapshots[snapshots.len() - 1]
}

/// Money in, money out and net worth over the items of a user, each added up
/// in order from zero.
pub open spec fn item_totals(stats: Seq<(Money, Money, Money)>) -> (
    (int, nat),
    (int, nat),
    (int, nat),
)
    decreases stats.len(),
{
    if stats.len() == 0 {
        ((0int, 0nat), (0int, 0nat), (0int, 0nat))
    } else {
        let before = item_totals(stats.drop_last());
        let item = stats.last();
        (value_add(before.0, item.0@), value_add(before.1, item.1@), value_add(before.2, item.2@))
    }
}

/// The snapshot that follows `last` at the moment `now`. Net worth is that of
/// the items, and the net worth that the user reports where nothing is linked.
/// The running totals go on from those of `last`: income by the money that
/// came in, spending by the money that went out, savings by the difference;
/// where `last` is less than a day old they stay as they were.
pub open spec fn next_snapshot(
    totals: ((int, nat), (int, nat), (int, nat)),
    last: SnapshotView,
    reported_net_worth: (int, nat),
    linked: bool,
    now: int,
) -> SnapshotView {
    let adjustment = if linked {
        (0int, 0nat)
    } else {
        reported_net_worth
    };
    let recent = last.snapshot_time + SECONDS_PER_DAY > now;
    let savings = if recent {
        (0int, 0nat)
    } else {
        value_sub(totals.0, totals.1)
    };
    let spending = if recent {
        (0int, 0nat)
    } else {
        totals.1
    };
    let income = if recent {
        (0int, 0nat)
    } else {
        totals.0
    };
    SnapshotView {
        net_worth: value_add(totals.2, adjustment),
        running_savings: value_add(savings, last.running_savings),
        running_spending: value_add(spending, last.running_spending),
        running_income: value_add(income, last.running_income),
        snapshot_time: now,
    }
}

/// The view of the last snapshot, and of one of zeros taken at the epoch where
/// there is none.
pub open spec fn last_view(snapshots: Seq<Snapshot>) -> SnapshotView {
    if snapshots.len() == 0 {
        SnapshotView {
            net_worth: (0int, 0nat),
            running_savings: (0int, 0nat),
            running_spending: (0int, 0nat),
            running_income: (0int, 0nat),
            snapshot_time: 0,
        }
    } else {
        snapshots.last()@
    }
}

/// Adds the snapshot of the moment `now` to those of a user. `per_item_stats`
/// holds money in, money out and net worth of each linked item;
/// `reported_net_worth` is what the user reports and counts where `linked` is
/// false, that is, where no item is linked.
pub fn add_new_snapshot(
    snapshots: &mut Vec<Snapshot>,
    per_item_stats: &Vec<(Money, Money, Money)>,
    reported_net_worth: Money,
    linked: bool,
    now: i64,
)
    ensures
        final(snapshots)@.len() == old(snapshots)@.len() + 1,
        final(snapshots)@.drop_last() == old(snapshots)@,
        final(snapshots)@.last()@ == next_snapshot(
            item_totals(per_item_stats@),
            last_view(old(snapshots)@),
            reported_net_worth@,
            linked,
            now as int,
        ),
{
    let mut total_money_in = Money::default();
    let mut total_money_out = Money::default();
    let mut total_net = Money::default();
    let mut i: usize = 0;
    while i < per_item_stats.len()
        invariant
            i <= per_item_stats.len(),
            (total_money_in@, total_money_out@, total_net@) == item_totals(
                per_item_stats@.take(i as int),
            ),
        decreases per_item_stats.len() - i,
    {
        proof {
            assert(per_item_stats@.take(i + 1).drop_last() =~= per_item_stats@.take(i as int));
            assert(per_item_stats@.take(i + 1).last() == per_item_stats@[i as int]);
        }
        let item = per_item_stats[i];
        total_money_in = total_money_in.add(item.0);
        total_money_out = total_money_out.add(item.1);
        total_net = total_net.add(item.2);
        i += 1;
    }
    proof {
        assert(per_item_stats@.take(i as int) =~= per_item_stats@);
    }
    let last_snapshot = get_last_snapshot(snapshots);
    let net_worth_adjustment = if linked {
        Money::new(Decimal::new(0, 0))
    } else {
        reported_net_worth
    };
    let zero = Money::new(Decimal::new(0, 0));
    let recent = last_snapshot.snapshot_time as i128 + SECONDS_PER_DAY as i128 > now as i128;
    let fresh = if recent {
        Snapshot::new_with_time(total_net.add(net_worth_adjustment), zero, zero, zero, now)
    } else {
        Snapshot::new_with_time(
            total_net.add(net_worth_adjustment),
            total_money_in.sub(total_money_out),
            total_money_out,
            total_money_in,
            now,
        )
    };
    let ghost before = snapshots@;
    snapshots.push(
        Snapshot {
            net_worth: fresh.net_worth,
            running_savings: fresh.running_savings.add(last_snapshot.running_savings),
            running_spending: fresh.running_spending.add(last_snapshot.running_spending),
            running_income: fresh.running_income.add(last_snapshot.running_income),
            snapshot_time: fresh.snapshot_time,
        },
    );
    assert(snapshots@.drop_last() =~= before);
}

/// The ids of the accounts that are hidden, in the order of the records.
pub open spec fn hidden_ids(records: Seq<AccountRecord>) -> Seq<Seq<char>>
    decreases records.len(),
{
    if records.len() == 0 {
        Seq::empty()
    } else if records.last().hidden {
        hidden_ids(records.drop_last()).push(records.last().account_id@)
    } else {
        hidden_ids(records.drop_last())
    }
}

/// The ids of the accounts that are hidden from the totals.
pub fn get_excluded_accounts(records: &Vec<AccountRecord>) -> (excluded: Vec<String>)
    ensures
        views(excluded@) == hidden_ids(records@),
{
    let mut excluded: Vec<String> = Vec::new();
    let mut i: usize = 0;
    assert(views(excluded@) =~= hidden_ids(records@.take(0)));
    while i < records.len()
        invariant
            i <= records.len(),
            views(excluded@) == hidden_ids(records@.take(i as int)),
        decreases records.len() - i,
    {
        proof {
            assert(records@.take(i + 1).drop_last() =~= records@.take(i as int));
            assert(records@.take(i + 1).last() == records@[i as int]);
        }
        if records[i].hidden {
            let ghost before = views(excluded@);
            excluded.push(records[i].account_id.clone());
            assert(views(excluded@) =~= before.push(records@[i as int].account_id@));
        }
        i += 1;
    }
    proof {
        assert(records@.take(i as int) =~= records@);
    }
    excluded
}

} // verus!

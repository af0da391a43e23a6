//! How a user compares with similar users: the rates at which running totals
//! change, held against those of each peer.

use crate::common::decimal::{less_value, value_div, value_sub, Decimal};
use crate::common::errors::AppError;
use crate::common::text::{digits_of, number_text};
use crate::models::insight_model::{Insight, InsightTypes};
use crate::models::user_model::{Snapshot, SnapshotView};
use vstd::prelude::*;
use vstd::string::StringExecFns;

verus! {

/// The number of days that an insight looks back.
pub const INSIGHT_LOOKBACK_DAYS: u64 = 30;

/// The number of days that a ranking looks back.
pub const RANKING_LOOKBACK_DAYS: u64 = 365;

/// Among the similar users, how many the user is ahead of in each running
/// total, and how many there are.
#[derive(Clone, Copy, Debug, PartialEq, Eq, Structural)]
pub struct SimilarUserMetrics {
    pub spending_less: u64,
    pub savings_less: u64,
    pub income_less: u64,
    pub total_similar_users: u64,
}

impl Default for SimilarUserMetrics {
    fn default() -> (metrics: SimilarUserMetrics)
        ensures
            metrics == (SimilarUserMetrics {
                spending_less: 0,
                savings_less: 0,
                income_less: 0,
                total_similar_users: 0,
            }),
    {
        SimilarUserMetrics {
            spending_less: 0,
            savings_less: 0,
            income_less: 0,
            total_similar_users: 0,
        }
    }
}

impl SimilarUserMetrics {
    /// The two counts added up, field by field.
    pub open spec fn plus(self, other: SimilarUserMetrics) -> (int, int, int, int) {
        (
            self.spending_less + other.spending_less,
            self.savings_less + other.savings_less,
            self.income_less + other.income_less,
            self.total_similar_users + other.total_similar_users,
        )
    }

    /// The counts as numbers without bound.
    pub open spec fn counts(self) -> (int, int, int, int) {
        (
            self.spending_less as int,
            self.savings_less as int,
            self.income_less as int,
            self.total_similar_users as int,
        )
    }

    /// The two counts added up, field by field. The sums have to fit.
    pub fn add(self, other: SimilarUserMetrics) -> (sum: SimilarUserMetrics)
        requires
            self.spending_less + other.spending_less <= u64::MAX,
            self.savings_less + other.savings_less <= u64::MAX,
            self.income_less + other.income_less <= u64::MAX,
            self.total_similar_users + other.total_similar_users <= u64::MAX,
        ensures
            sum.counts() == self.plus(other),
    {
        SimilarUserMetrics {
            spending_less: self.spending_less + other.spending_less,
            savings_less: self.savings_less + other.savings_less,
            income_less: self.income_less + other.income_less,
            total_similar_users: self.total_similar_users + other.total_similar_users,
        }
    }
}

/// The rates, per second, at which the running totals of a user change.
#[derive(Clone, Copy, Debug)]
pub struct UserMetricRates {
    pub spending_rate: Decimal,
    pub savings_rate: Decimal,
    pub income_rate: Decimal,
}

/// Rates as the rules see them: spending, savings, income.
pub struct RatesView {
    pub spending_rate: (int, nat),
    pub savings_rate: (int, nat),
    pub income_rate: (int, nat),
}

impl View for UserMetricRates {
    type V = RatesView;

    open spec fn view(&self) -> RatesView {
        RatesView {
            spending_rate: self.spending_rate@,
            savings_rate: self.savings_rate@,
            income_rate: self.income_rate@,
        }
    }
}

/// The rates of someone whose totals do not change.
pub open spec fn no_rates() -> RatesView {
    RatesView {
        spending_rate: (0int, 0nat),
        savings_rate: (0int, 0nat),
        income_rate: (0int, 0nat),
    }
}

/// The rates between two snapshots: the change of each running total over the
/// seconds that lie between them, and no rates where none lie between them.
pub open spec fn rates_between(start: SnapshotView, end: SnapshotView) -> RatesView {
    if start.snapshot_time == end.snapshot_time {
        no_rates()
    } else {
        let elapsed = (end.snapshot_time - start.snapshot_time, 0nat);
        RatesView {
            spending_rate: value_div(value_sub(end.running_spending, start.running_spending), elapsed),
            savings_rate: value_div(value_sub(end.running_savings, start.running_savings), elapsed),
            income_rate: value_div(value_sub(end.running_income, start.running_income), elapsed),
        }
    }
}

impl RatesView {
    /// Whom the rates are ahead of: one for each rate that is greater than the
    /// other's, and one similar user.
    pub open spec fn compare(self, other: RatesView) -> (int, int, int, int) {
        (
            if less_value(other.spending_rate, self.spending_rate) {
                1int
            } else {
                0int
            },
            if less_value(other.savings_rate, self.savings_rate) {
                1int
            } else {
                0int
            },
            if less_value(other.income_rate, self.income_rate) {
                1int
            } else {
                0int
            },
            1int,
        )
    }
}

impl Default for UserMetricRates {
    fn default() -> (rates: UserMetricRates)
        ensures
            rates@ == no_rates(),
    {
        UserMetricRates {
            spending_rate: Decimal::new(0, 0),
            savings_rate: Decimal::new(0, 0),
            income_rate: Decimal::new(0, 0),
        }
    }
}

impl UserMetricRates {
    /// The rates between two snapshots.
    pub fn new(start: &Snapshot, end: &Snapshot) -> (rates: UserMetricRates)
        ensures
            rates@ == rates_between(start@, end@),
    {
        if start.snapshot_time == end.snapshot_time {
            return UserMetricRates::default();
        }
        let seconds = end.snapshot_time as i128 - start.snapshot_time as i128;
        let elapsed = match Decimal::try_from_i128_with_scale(seconds, 0) {
            Some(elapsed) => elapsed,
            None => {
                assert(false);
                Decimal::new(0, 0)
            },
        };
        UserMetricRates {
            spending_rate: end.running_spending.sub(start.running_spending).amount.div(elapsed),
            savings_rate: end.running_savings.sub(start.running_savings).amount.div(elapsed),
            income_rate: end.running_income.sub(start.running_income).amount.div(elapsed),
        }
    }

    /// Whom these rates are ahead of when held against those of one similar
    /// user.
    pub fn compare(&self, other: &UserMetricRates) -> (metrics: SimilarUserMetrics)
        ensures
            metrics.counts() == self@.compare(other@),
    {
        SimilarUserMetrics {
            spending_less: if other.spending_rate.less_than(&self.spending_rate) {
                1
            } else {
                0
            },
            savings_less: if other.savings_rate.less_than(&self.savings_rate) {
                1
            } else {
                0
            },
            income_less: if other.income_rate.less_than(&self.income_rate) {
                1
            } else {
                0
            },
            total_similar_users: 1,
        }
    }
}

/// The first snapshot taken at or after `since`, by position.
pub open spec fn first_since(snapshots: Seq<Snapshot>, since: int) -> Option<int>
    decreases snapshots.len(),
{
    if snapshots.len() == 0 {
        None
    } else {
        match first_since(snapshots.drop_last(), since) {
            Some(i) => Some(i),
            None => if snapshots.last().snapshot_time >= since {
                Some(snapshots.len() - 1)
            } else {
                None
            },
        }
    }
}

/// The last snapshot taken at or after `since`, by position.
pub open spec fn last_since(snapshots: Seq<Snapshot>, since: int) -> Option<int>
    decreases snapshots.len(),
{
    if snapshots.len() == 0 {
        None
    } else if snapshots.last().snapshot_time >= since {
        Some(snapshots.len() - 1)
    } else {
        last_since(snapshots.drop_last(), since)
    }
}

/// The rates of a user from `since` on: those between the first and the last
/// of the snapshots taken at or after `since`, and no rates where there is no
/// such snapshot.
pub open spec fn rates_since(snapshots: Seq<Snapshot>, since: int) -> RatesView {
    match (first_since(snapshots, since), last_since(snapshots, since)) {
        (Some(first), Some(last)) => rates_between(snapshots[first]@, snapshots[last]@),
        _ => no_rates(),
    }
}

proof fn lemma_first_since_extends(snapshots: Seq<Snapshot>, since: int, k: int)
    requires
        0 <= k <= snapshots.len(),
        first_since(snapshots.take(k), since) is Some,
    ensures
        first_since(snapshots, since) == first_since(snapshots.take(k), since),
    decreases snapshots.len(),
{
    if k < snapshots.len() {
        assert(snapshots.drop_last().take(k) =~= snapshots.take(k));
        lemma_first_since_extends(snapshots.drop_last(), since, k);
    } else {
        assert(snapshots.take(k) =~= snapshots);
    }
}

fn find_first_since(snapshots: &Vec<Snapshot>, since: i64) -> (r: Option<usize>)
    ensures
        match r {
            Some(i) => i < snapshots@.len() && first_since(snapshots@, since as int) == Some(
                i as int,
            ),
            None => first_since(snapshots@, since as int) is None,
        },
{
    let mut i: usize = 0;
    while i < snapshots.len()
        invariant
            i <= snapshots.len(),
            first_since(snapshots@.take(i as int), since as int) is None,
        decreases snapshots.len() - i,
    {
        proof {
            assert(snapshots@.take(i + 1).drop_last() =~= snapshots@.take(i as int));
            assert(snapshots@.take(i + 1).last() == snapshots@[i as int]);
        }
        if snapshots[i].snapshot_time >= since {
            proof {
                lemma_first_since_extends(snapshots@, since as int, i + 1);
            }
            return Some(i);
        }
        i += 1;
    }
    proof {
        assert(snapshots@.take(i as int) =~= snapshots@);
    }
    None
}

fn find_last_since(snapshots: &Vec<Snapshot>, since: i64) -> (r: Option<usize>)
    ensures
        match r {
            Some(i) => i < snapshots@.len() && last_since(snapshots@, since as int) == Some(
                i as int,
            ),
            None => last_since(snapshots@, since as int) is None,
        },
{
    let mut i: usize = snapshots.len();
    assert(snapshots@.take(i as int) =~= snapshots@);
    while i > 0
        invariant
            i <= snapshots.len(),
            last_since(snapshots@, since as int) == last_since(
                snapshots@.take(i as int),
                since as int,
            ),
        decreases i,
    {
        i -= 1;
        proof {
            assert(snapshots@.take(i + 1).drop_last() =~= snapshots@.take(i as int));
            assert(snapshots@.take(i + 1).last() == snapshots@[i as int]);
        }
        if snapshots[i].snapshot_time >= since {
            return Some(i);
        }
    }
    None
}

/// The rates of a user from the moment `since` on.
pub fn calculate_rates(snapshots: &Vec<Snapshot>, since: i64) -> (rates: UserMetricRates)
    ensures
        rates@ == rates_since(snapshots@, since as int),
{
    match (find_first_since(snapshots, since), find_last_since(snapshots, since)) {
        (Some(first), Some(last)) => UserMetricRates::new(&snapshots[first], &snapshots[last]),
        _ => UserMetricRates::default(),
    }
}

/// The snapshots of one similar user as the rules see them; `None` where they
/// could not be read.
pub open spec fn peer_view(peer: Option<Vec<Snapshot>>) -> Option<Seq<Snapshot>> {
    match peer {
        Some(snapshots) => Some(snapshots@),
        None => None,
    }
}

/// A user held against the similar users, one after the other: for each whose
/// snapshots could be read, whom the user's rates are ahead of.
pub open spec fn compared(mine: RatesView, peers: Seq<Option<Vec<Snapshot>>>, since: int) -> (
    int,
    int,
    int,
    int,
)
    decreases peers.len(),
{
    if peers.len() == 0 {
        (0int, 0int, 0int, 0int)
    } else {
        let before = compared(mine, peers.drop_last(), since);
        match peers.last() {
            Some(snapshots) => {
                let one = mine.compare(rates_since(snapshots@, since));
                (before.0 + one.0, before.1 + one.1, before.2 + one.2, before.3 + one.3)
            },
            None => before,
        }
    }
}

/// Holds the snapshots of a user against those of each similar user, from the
/// moment `since` on. A similar user whose snapshots could not be read is
/// `None` and is passed over.
pub fn compare_snapshots_to_user(
    users_snapshots: &Vec<Snapshot>,
    similar_users_snapshots: &Vec<Option<Vec<Snapshot>>>,
    since: i64,
) -> (metrics: SimilarUserMetrics)
    ensures
        metrics.counts() == compared(
            rates_since(users_snapshots@, since as int),
            similar_users_snapshots@,
            since as int,
        ),
        metrics.spending_less <= metrics.total_similar_users <= similar_users_snapshots@.len(),
        metrics.savings_less <= metrics.total_similar_users,
        metrics.income_less <= metrics.total_similar_users,
{
    let my_rate = calculate_rates(users_snapshots, since);
    let ghost peers = similar_users_snapshots@;
    let mut metrics = SimilarUserMetrics::default();
    let mut i: usize = 0;
    while i < similar_users_snapshots.len()
        invariant
            i <= similar_users_snapshots.len(),
            peers == similar_users_snapshots@,
            my_rate@ == rates_since(users_snapshots@, since as int),
            metrics.counts() == compared(my_rate@, peers.take(i as int), since as int),
            metrics.spending_less <= metrics.total_similar_users <= i,
            metrics.savings_less <= metrics.total_similar_users,
            metrics.income_less <= metrics.total_similar_users,
        decreases similar_users_snapshots.len() - i,
    {
        proof {
            assert(peers.take(i + 1).drop_last() =~= peers.take(i as int));
            assert(peers.take(i + 1).last() == peers[i as int]);
        }
        match &similar_users_snapshots[i] {
            Some(snapshots) => {
                let rate = calculate_rates(snapshots, since);
                metrics = metrics.add(my_rate.compare(&rate));
            },
            None => {},
        }
        i += 1;
    }
    proof {
        assert(peers.take(i as int) =~= peers);
    }
    metrics
}

/// The part of `count` in `total`, in whole percent.
pub open spec fn percent_of(count: int, total: int) -> int {
    100 * count / total
}

/// The text of an insight of the given kind: how the user did over the last
/// thirty days against `share` percent of the similar users.
pub open spec fn insight_text(insight_type: InsightTypes, share: int) -> Seq<char> {
    match insight_type {
        InsightTypes::Savings => "Your savings over the last "@ + digits_of(
            INSIGHT_LOOKBACK_DAYS as int,
        ) + " days puts you above "@ + digits_of(share) + "% of similar users!"@,
        InsightTypes::Spending => "Your spending rate over the last "@ + digits_of(
            INSIGHT_LOOKBACK_DAYS as int,
        ) + " days is higher than "@ + digits_of(share) + "% of similar users."@,
        _ => "Your income over the last "@ + digits_of(INSIGHT_LOOKBACK_DAYS as int)
            + " days is higher than "@ + digits_of(share) + "% of users."@,
    }
}

/// Whether similar users can be the subject of an insight of the kind.
pub open spec fn is_peer_insight(insight_type: InsightTypes) -> bool {
    insight_type == InsightTypes::Savings || insight_type == InsightTypes::Spending || insight_type
        == InsightTypes::Income
}

/// The count of the metrics that an insight of the kind is about.
pub open spec fn count_for(metrics: SimilarUserMetrics, insight_type: InsightTypes) -> int {
    match insight_type {
        InsightTypes::Savings => metrics.savings_less as int,
        InsightTypes::Spending => metrics.spending_less as int,
        _ => metrics.income_less as int,
    }
}

/// The title of an insight of the kind.
pub open spec fn insight_title(insight_type: InsightTypes) -> Seq<char> {
    match insight_type {
        InsightTypes::Savings => "Savings Insight"@,
        InsightTypes::Spending => "Spending Insight"@,
        _ => "Income Insight"@,
    }
}

/// The part of `count` in `total`, in whole percent.
fn percent(count: u64, total: u64) -> (share: u128)
    requires
        0 < total,
    ensures
        share == percent_of(count as int, total as int),
{
    100 * (count as u128) / (total as u128)
}

/// The insight, made at the moment `now`, that tells a user how they compare
/// with similar users in savings, spending or income. Fails where there are no
/// similar users, and for any other kind of insight.
pub fn generate_similar_user_insight(
    metrics: SimilarUserMetrics,
    insight_type: InsightTypes,
    id: Option<String>,
    now: i64,
) -> (r: Result<Insight, AppError>)
    ensures
        r is Ok <==> metrics.total_similar_users > 0 && is_peer_insight(insight_type),
        match r {
            Ok(insight) => {
                &&& metrics.total_similar_users > 0
                &&& is_peer_insight(insight_type)
                &&& insight.id == id
                &&& insight.title@ == insight_title(insight_type)
                &&& insight.description@ == insight_text(
                    insight_type,
                    percent_of(
                        count_for(metrics, insight_type),
                        metrics.total_similar_users as int,
                    ),
                )
                &&& insight.insight_type == insight_type
                &&& !insight.dismissed
                &&& insight.image is None
                &&& insight.generation_time == now
            },
            Err(error) => if metrics.total_similar_users == 0 {
                error.message() == "No peers for insight generation"@
            } else {
                !is_peer_insight(insight_type) && error.message()
                    == "Requested bad insight type from similar_user"@
            },
        },
{
    if metrics.total_similar_users == 0 {
        return Err(AppError::new("No peers for insight generation"));
    }
    let days = number_text(INSIGHT_LOOKBACK_DAYS as u128);
    match insight_type {
        InsightTypes::Savings => {
            let share = number_text(percent(metrics.savings_less, metrics.total_similar_users));
            Ok(
                Insight::new(
                    id,
                    String::from_str("Savings Insight"),
                    String::from_str("Your savings over the last ").concat(days.as_str()).concat(
                        " days puts you above ",
                    ).concat(share.as_str()).concat("% of similar users!"),
                    InsightTypes::Savings,
                    None,
                    now,
                ),
            )
        },
        InsightTypes::Spending => {
            let share = number_text(percent(metrics.spending_less, metrics.total_similar_users));
            Ok(
                Insight::new(
                    id,
                    String::from_str("Spending Insight"),
                    String::from_str("Your spending rate over the last ").concat(
                        days.as_str(),
                    ).concat(" days is higher than ").concat(share.as_str()).concat(
                        "% of similar users.",
                    ),
                    InsightTypes::Spending,
                    None,
                    now,
                ),
            )
        },
        InsightTypes::Income => {
            let share = number_text(percent(metrics.income_less, metrics.total_similar_users));
            Ok(
                Insight::new(
                    id,
                    String::from_str("Income Insight"),
                    String::from_str("Your income over the last ").concat(days.as_str()).concat(
                        " days is higher than ",
                    ).concat(share.as_str()).concat("% of users."),
                    InsightTypes::Income,
                    None,
                    now,
                ),
            )
        },
        _ => Err(AppError::new("Requested bad insight type from similar_user")),
    }
}

} // verus!

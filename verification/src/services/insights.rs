//! Which insight a user is given next, and when to look for the next user.

use crate::common::calendar::SECONDS_PER_DAY;
use crate::models::financial_product_model::FinancialProduct;
use crate::common::errors::ApiError;
use crate::common::text::{copy_of, text_of};
use crate::common::ids::{object_id, object_id_of};
use crate::common::{
    first_with_id, has_id, is_malformed, lemma_first_with_id_extends, malformed_id, not_found,
};
use crate::models::insight_model::{Insight, InsightTypes};
use vstd::prelude::*;
use vstd::string::StringExecFns;

verus! {

/// The shortest time, in seconds, to wait before looking for a user again.
pub const SHORTEST_WAIT: i64 = 30;

/// The kinds of insight in the order in which they are considered.
pub open spec fn kinds() -> Seq<InsightTypes> {
    seq![
        InsightTypes::ProductRecommendation,
        InsightTypes::Savings,
        InsightTypes::Spending,
        InsightTypes::Income,
        InsightTypes::Goal,
    ]
}

/// When an insight of the kind was last generated, as far as the insights say:
/// the latest generation time among those of the kind.
pub open spec fn latest_among(insights: Seq<Insight>, kind: InsightTypes) -> Option<int>
    decreases insights.len(),
{
    if insights.len() == 0 {
        None
    } else {
        let before = latest_among(insights.drop_last(), kind);
        if insights.last().insight_type == kind {
            match before {
                Some(time) => if time >= insights.last().generation_time {
                    Some(time)
                } else {
                    Some(insights.last().generation_time as int)
                },
                None => Some(insights.last().generation_time as int),
            }
        } else {
            before
        }
    }
}

/// When an insight of the kind was last generated. A product recommendation
/// counts as generated at -1 at the earliest, a savings insight at -2; a kind
/// of which there is no insight has no time.
pub open spec fn latest_of(insights: Seq<Insight>, kind: InsightTypes) -> Option<int> {
    let floor = match kind {
        InsightTypes::ProductRecommendation => Some(-1int),
        InsightTypes::Savings => Some(-2int),
        _ => None,
    };
    match (floor, latest_among(insights, kind)) {
        (Some(least), Some(time)) => if time >= least {
            Some(time)
        } else {
            Some(least)
        },
        (Some(least), None) => Some(least),
        (None, found) => found,
    }
}

/// The choice among the first `n` kinds: the kind whose last insight is the
/// oldest and older than `now`, the earlier kind where two are equally old,
/// and a product recommendation with the time `now` where no kind has an
/// insight older than `now`.
pub open spec fn choice_among(insights: Seq<Insight>, now: int, n: int) -> (InsightTypes, int)
    decreases n,
{
    if n <= 0 {
        (InsightTypes::ProductRecommendation, now)
    } else {
        let before = choice_among(insights, now, n - 1);
        match latest_of(insights, kinds()[n - 1]) {
            Some(time) => if time < before.1 {
                (kinds()[n - 1], time)
            } else {
                before
            },
            None => before,
        }
    }
}

/// The kind of the insight that is due next.
pub open spec fn due_kind(insights: Seq<Insight>, now: int) -> InsightTypes {
    choice_among(insights, now, 5).0
}

/// When an insight of the kind was last generated, as far as the insights say.
fn latest_generation(insights: &Vec<Insight>, kind: InsightTypes) -> (r: Option<i64>)
    ensures
        match r {
            Some(time) => latest_among(insights@, kind) == Some(time as int),
            None => latest_among(insights@, kind) is None,
        },
{
    let mut latest: Option<i64> = None;
    let mut i: usize = 0;
    while i < insights.len()
        invariant
            i <= insights.len(),
            match latest {
                Some(time) => latest_among(insights@.take(i as int), kind) == Some(time as int),
                None => latest_among(insights@.take(i as int), kind) is None,
            },
        decreases insights.len() - i,
    {
        proof {
            assert(insights@.take(i + 1).drop_last() =~= insights@.take(i as int));
            assert(insights@.take(i + 1).last() == insights@[i as int]);
        }
        if insights[i].insight_type == kind {
            latest = match latest {
                Some(time) => if time >= insights[i].generation_time {
                    Some(time)
                } else {
                    Some(insights[i].generation_time)
                },
                None => Some(insights[i].generation_time),
            };
        }
        i += 1;
    }
    proof {
        assert(insights@.take(i as int) =~= insights@);
    }
    latest
}

/// When an insight of the kind was last generated, with the floors for product
/// recommendations and savings insights.
fn latest_with_floor(insights: &Vec<Insight>, kind: InsightTypes) -> (r: Option<i64>)
    ensures
        match r {
            Some(time) => latest_of(insights@, kind) == Some(time as int),
            None => latest_of(insights@, kind) is None,
        },
{
    let floor: Option<i64> = match kind {
        InsightTypes::ProductRecommendation => Some(-1),
        InsightTypes::Savings => Some(-2),
        _ => None,
    };
    match (floor, latest_generation(insights, kind)) {
        (Some(least), Some(time)) => if time >= least {
            Some(time)
        } else {
            Some(least)
        },
        (Some(least), None) => Some(least),
        (None, found) => found,
    }
}

/// The kind of insight that a user is given next, at the moment `now`: the
/// kind whose last insight is the oldest. Insights that are not yet generated
/// do not count.
pub fn next_insight_type(insights: &Vec<Insight>, now: i64) -> (kind: InsightTypes)
    ensures
        kind == due_kind(insights@, now as int),
        kind != InsightTypes::Incomplete,
{
    let mut order: Vec<InsightTypes> = Vec::new();
    order.push(InsightTypes::ProductRecommendation);
    order.push(InsightTypes::Savings);
    order.push(InsightTypes::Spending);
    order.push(InsightTypes::Income);
    order.push(InsightTypes::Goal);
    assert(order@ =~= kinds());
    let mut best = (InsightTypes::ProductRecommendation, now);
    let mut n: usize = 0;
    while n < 5
        invariant
            n <= 5,
            order@ == kinds(),
            (best.0, best.1 as int) == choice_among(insights@, now as int, n as int),
            best.0 != InsightTypes::Incomplete,
        decreases 5 - n,
    {
        let kind = order[n];
        match latest_with_floor(insights, kind) {
            Some(time) => {
                if time < best.1 {
                    best = (kind, time);
                }
            },
            None => {},
        }
        n += 1;
    }
    best.0
}

/// How long to wait at the moment `now` before looking again for a user who is
/// due an insight: until a day has passed since `min_time`, the earliest time
/// at which any user was last given one, and half a minute at the least. With
/// no such time it counts as `now`.
pub open spec fn wait_time(now: int, min_time: Option<i64>) -> int {
    let earliest = match min_time {
        Some(time) => time as int,
        None => now,
    };
    let wait = SECONDS_PER_DAY - (now - earliest);
    if wait < SHORTEST_WAIT {
        SHORTEST_WAIT as int
    } else if wait > i64::MAX {
        i64::MAX as int
    } else {
        wait
    }
}

/// How many seconds to wait at the moment `now` before looking again for a user
/// who is due an insight.
pub fn calculate_wait_time(now: i64, min_time: Option<i64>) -> (sleep_time: i64)
    ensures
        sleep_time == wait_time(now as int, min_time),
        sleep_time >= SHORTEST_WAIT,
{
    let earliest = match min_time {
        Some(time) => time,
        None => now,
    };
    let wait: i128 = SECONDS_PER_DAY as i128 - (now as i128 - earliest as i128);
    if wait < SHORTEST_WAIT as i128 {
        SHORTEST_WAIT
    } else if wait > i64::MAX as i128 {
        i64::MAX
    } else {
        wait as i64
    }
}

/// The insight, made at the moment `now`, that recommends a financial product.
pub fn generate_product_insight(product: &FinancialProduct, id: Option<String>, now: i64) -> (insight:
    Insight)
    ensures
        insight.id == id,
        insight.title@ == "Try this new account others like you are using"@,
        insight.description@ == "Many users similar to you are using a "@ + product.name@
            + " account: "@ + product.description@,
        insight.insight_type == InsightTypes::ProductRecommendation,
        !insight.dismissed,
        text_of(insight.image) == text_of(product.image_url),
        insight.generation_time == now,
{
    let image = copy_of(&product.image_url);
    Insight::new(
        id,
        String::from_str("Try this new account others like you are using"),
        String::from_str("Many users similar to you are using a ").concat(
            product.name.as_str(),
        ).concat(" account: ").concat(product.description.as_str()),
        InsightTypes::ProductRecommendation,
        image,
        now,
    )
}

/// The ids of the insights, in their order.
pub open spec fn insight_ids(insights: Seq<Insight>) -> Seq<Option<Seq<char>>> {
    Seq::new(insights.len(), |i: int| text_of(insights[i].id))
}

fn find_insight(insights: &Vec<Insight>, insight_id: &String) -> (r: Option<usize>)
    ensures
        match r {
            Some(i) => i < insights@.len() && first_with_id(insight_ids(insights@), insight_id@)
                == Some(i as int),
            None => first_with_id(insight_ids(insights@), insight_id@) is None,
        },
{
    let ghost ids = insight_ids(insights@);
    let mut i: usize = 0;
    while i < insights.len()
        invariant
            i <= insights.len(),
            ids == insight_ids(insights@),
            first_with_id(ids.take(i as int), insight_id@) is None,
        decreases insights.len() - i,
    {
        proof {
            assert(ids.take(i + 1).drop_last() =~= ids.take(i as int));
            assert(ids.take(i + 1).last() == ids[i as int]);
        }
        if has_id(&insights[i].id, insight_id) {
            proof {
                lemma_first_with_id_extends(ids, insight_id@, i + 1);
            }
            return Some(i);
        }
        i += 1;
    }
    proof {
        assert(ids.take(i as int) =~= ids);
    }
    None
}

/// Marks the first insight that has the id written in `insight_id` as
/// dismissed and hands it out. Fails, and changes nothing, where the text is no
/// id, and where no insight has the id.
pub fn dismiss_insight(insights: &mut Vec<Insight>, insight_id: String) -> (r: Result<
    Insight,
    ApiError,
>)
    ensures
        match object_id_of(insight_id@) {
            None => r matches Err(error) && is_malformed(error) && final(insights)@ == old(
                insights,
            )@,
            Some(id) => match first_with_id(insight_ids(old(insights)@), id) {
                Some(i) => {
                    &&& r == Ok::<Insight, ApiError>(
                        Insight { dismissed: true, ..old(insights)@[i] },
                    )
                    &&& final(insights)@ == old(insights)@.update(
                        i,
                        Insight { dismissed: true, ..old(insights)@[i] },
                    )
                },
                None => {
                    &&& r matches Err(error) && error.code() == 400 && error.message() == "No "@
                        + "insight"@ + " with id "@ + id + " found in current user"@
                    &&& final(insights)@ == old(insights)@
                },
            },
        },
{
    let id = match object_id(insight_id.as_str()) {
        Some(id) => id,
        None => {
            return Err(malformed_id());
        },
    };
    match find_insight(insights, &id) {
        Some(i) => {
            insights[i].dismissed = true;
            Ok(insights[i].clone())
        },
        None => Err(not_found("insight", &id)),
    }
}

/// The insights that have not been dismissed, in their order.
pub open spec fn not_dismissed(insights: Seq<Insight>) -> Seq<Insight>
    decreases insights.len(),
{
    if insights.len() == 0 {
        Seq::empty()
    } else if !insights.last().dismissed {
        not_dismissed(insights.drop_last()).push(insights.last())
    } else {
        not_dismissed(insights.drop_last())
    }
}

/// The insights of a user that have not been dismissed.
pub fn get_non_dismissed_insights(insights: &Vec<Insight>) -> (shown: Vec<Insight>)
    ensures
        shown@ == not_dismissed(insights@),
{
    let mut shown: Vec<Insight> = Vec::new();
    let mut i: usize = 0;
    assert(shown@ =~= not_dismissed(insights@.take(0)));
    while i < insights.len()
        invariant
            i <= insights.len(),
            shown@ == not_dismissed(insights@.take(i as int)),
        decreases insights.len() - i,
    {
        proof {
            assert(insights@.take(i + 1).drop_last() =~= insights@.take(i as int));
            assert(insights@.take(i + 1).last() == insights@[i as int]);
        }
        if !insights[i].dismissed {
            shown.push(insights[i].clone());
        }
        i += 1;
    }
    proof {
        assert(insights@.take(i as int) =~= insights@);
    }
    shown
}

} // verus!

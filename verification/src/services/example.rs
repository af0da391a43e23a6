//! A made-up series of net worth to show what a series looks like: a year of
//! ups and downs behind, two years of steady growth ahead.

use crate::common::calendar::SECONDS_PER_DAY;
use crate::common::decimal::Decimal;
use crate::common::money::Money;
use crate::common::views;
use crate::controllers::timeseries_controller::{TimeseriesEntry, TimeseriesResponse};
use vstd::prelude::*;

verus! {

/// The number of days that the example looks back: 54 weeks.
pub const EXAMPLE_PAST_DAYS: i64 = 378;

/// The number of days that the example looks ahead: 108 weeks.
pub const EXAMPLE_FUTURE_DAYS: i64 = 756;

/// By how many cents the example moves on the `i`-th day of the past: down on
/// every third day, up on the others, a little more each day.
pub open spec fn past_step(i: int) -> int {
    if i % 3 == 0 {
        -321 * i - 2207
    } else {
        231 * i + 1408
    }
}

/// The example, in cents, on the `i`-th day of the past. It starts at a
/// thousand dollars.
pub open spec fn past_value(i: nat) -> int
    decreases i,
{
    if i == 0 {
        100000
    } else {
        past_value((i - 1) as nat) + past_step(i - 1)
    }
}

/// Three in a thousand of a value, in whole cents, rounded towards zero.
pub open spec fn three_per_mille(value: int) -> int {
    if value >= 0 {
        value * 3 / 1000
    } else {
        -((-value) * 3 / 1000)
    }
}

/// The example, in cents, on the `k`-th day from today on: it grows by three in
/// a thousand each day.
pub open spec fn future_value(k: nat) -> int
    decreases k,
{
    if k == 0 {
        past_value(EXAMPLE_PAST_DAYS as nat)
    } else {
        future_value((k - 1) as nat) + three_per_mille(future_value((k - 1) as nat))
    }
}

/// The example series as of `today`: one entry a day from 54 weeks ago to 108
/// weeks ahead, in dollars and cents.
pub open spec fn example_series(today: int) -> Seq<(int, (int, nat))> {
    Seq::new(
        (EXAMPLE_PAST_DAYS + EXAMPLE_FUTURE_DAYS) as nat,
        |i: int|
            if i < EXAMPLE_PAST_DAYS {
                (today - (EXAMPLE_PAST_DAYS - i) * SECONDS_PER_DAY, (past_value(i as nat), 2nat))
            } else {
                (
                    today + (i - EXAMPLE_PAST_DAYS) * SECONDS_PER_DAY,
                    (future_value((i - EXAMPLE_PAST_DAYS) as nat), 2nat),
                )
            },
    )
}

/// The fourth power of `1000 + 3k`, which bounds the growth of the example
/// over `k` days.
spec fn quartic(k: int) -> int {
    (1000 + 3 * k) * (1000 + 3 * k) * ((1000 + 3 * k) * (1000 + 3 * k))
}

proof fn lemma_quartic_grows(k: int)
    requires
        0 <= k <= 756,
    ensures
        1003 * quartic(k) <= 1000 * quartic(k + 1),
        0 < quartic(k) <= 114_100_000_000_000,
{
    let y = 1000 + 3 * k;
    let s = y * y;
    let t = (y + 3) * (y + 3);
    assert(1_000_000 <= s <= 10_679_824) by (nonlinear_arith)
        requires
            s == y * y,
            1000 <= y <= 3268,
    ;
    assert(t == s + 6 * y + 9) by (nonlinear_arith)
        requires
            s == y * y,
            t == (y + 3) * (y + 3),
    ;
    assert(s * s <= 114_100_000_000_000 && s * s > 0) by (nonlinear_arith)
        requires
            1_000_000 <= s <= 10_679_824,
    ;
    // t >= s * (1 + 6 / y) >= s * 1.0015, and 1.0015 squared is more than 1.003
    assert(10000 * t >= 10015 * s) by (nonlinear_arith)
        requires
            t == s + 6 * y + 9,
            s == y * y,
            1000 <= y <= 3268,
    ;
    assert(100_000_000 * (t * t) >= 100_300_225 * (s * s)) by (nonlinear_arith)
        requires
            10000 * t >= 10015 * s,
            s > 0,
            t > 0,
    ;
    assert(quartic(k) == s * s);
    assert(quartic(k + 1) == t * t) by {
        assert(1000 + 3 * (k + 1) == y + 3);
    }
}

/// The example series as of the moment `today`, in seconds since the epoch.
pub fn get_example(today: i64) -> (response: TimeseriesResponse)
    requires
        today - EXAMPLE_PAST_DAYS * SECONDS_PER_DAY >= i64::MIN,
        today + EXAMPLE_FUTURE_DAYS * SECONDS_PER_DAY <= i64::MAX,
    ensures
        response.start == today,
        views(response.series@) == example_series(today as int),
{
    let mut res: Vec<TimeseriesEntry> = Vec::new();
    let mut start: i64 = today - EXAMPLE_PAST_DAYS * SECONDS_PER_DAY;
    let mut next_day: i64 = today;
    let mut last_value: i64 = 100000;
    let mut i: i64 = 0;

    while start < today
        invariant
            0 <= i <= EXAMPLE_PAST_DAYS,
            start == today - (EXAMPLE_PAST_DAYS - i) * SECONDS_PER_DAY,
            today - EXAMPLE_PAST_DAYS * SECONDS_PER_DAY >= i64::MIN,
            last_value == past_value(i as nat),
            -(100000 + 130000 * i) <= last_value <= 100000 + 130000 * i,
            res@.len() == i,
            forall|j: int|
                0 <= j < i ==> (#[trigger] res@[j])@ == (
                    today - (EXAMPLE_PAST_DAYS - j) * SECONDS_PER_DAY,
                    (past_value(j as nat), 2nat),
                ),
        decreases today - start,
    {
        res.push(
            TimeseriesEntry { date: start, net_worth: Money::new(Decimal::new(last_value, 2)) },
        );
        let third = (i as u64) % 3 == 0;
        assert(third == (i % 3 == 0));
        let step: i64 = if third {
            0 - 321 * i - 2207
        } else {
            231 * i + 1408
        };
        last_value += step;
        start = start + SECONDS_PER_DAY;
        i += 1;
    }

    let mut k: i64 = 0;
    proof {
        lemma_quartic_grows(0);
        assert(quartic(0) == 1_000_000_000_000) by (nonlinear_arith)
            requires
                quartic(0) == (1000 + 3 * 0) * (1000 + 3 * 0) * ((1000 + 3 * 0) * (1000 + 3 * 0)),
        ;
    }
    while k < EXAMPLE_FUTURE_DAYS
        invariant
            0 <= k <= EXAMPLE_FUTURE_DAYS,
            next_day == today + k * SECONDS_PER_DAY,
            today + EXAMPLE_FUTURE_DAYS * SECONDS_PER_DAY <= i64::MAX,
            last_value == future_value(k as nat),
            -50_000_000 * quartic(k as int) <= last_value * 1_000_000_000_000 <= 50_000_000
                * quartic(k as int),
            res@.len() == EXAMPLE_PAST_DAYS + k,
            forall|j: int|
                0 <= j < res@.len() ==> (#[trigger] res@[j])@ == example_series(today as int)[j],
        decreases EXAMPLE_FUTURE_DAYS - k,
    {
        proof {
            lemma_quartic_grows(k as int);
        }
        res.push(
            TimeseriesEntry { date: next_day, net_worth: Money::new(Decimal::new(last_value, 2)) },
        );
        let growth: i64 = if last_value >= 0 {
            last_value * 3 / 1000
        } else {
            -((-last_value) * 3 / 1000)
        };
        assert(growth == three_per_mille(last_value as int));
        assert(-3 * last_value <= 1000 * growth <= 3 * last_value || 3 * last_value <= 1000 * growth
            <= -3 * last_value);
        last_value += growth;
        next_day = next_day + SECONDS_PER_DAY;
        k += 1;
    }

    assert(views(res@) =~= example_series(today as int));
    TimeseriesResponse { start: today, series: res }
}

} // verus!

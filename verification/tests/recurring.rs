use pfp_server::common::decimal::Decimal;
use pfp_server::models::recurring_model::{Recurring, TimeInterval, Typ};
use pfp_server::services::timeseries::{
    calculate_payments_from_recurrings, recurring_states, RecurringState,
};

const DAY: i64 = 86_400;
// 2021-01-01 00:00:00 UTC, a Friday
const NEW_YEAR: i64 = 1_609_459_200;

fn fixed(typ: Typ, every_n: i32, start: i64, end: i64, amount: i64) -> Recurring {
    Recurring {
        id: None,
        name: "fixed".to_string(),
        start,
        end,
        principal: Decimal::new(0, 0),
        amount: Decimal::new(amount, 0),
        interest: Decimal::new(0, 0),
        frequency: TimeInterval::new(typ, every_n),
    }
}

fn compounding(principal: Decimal, interest: Decimal) -> Recurring {
    Recurring {
        id: None,
        name: "compounding".to_string(),
        start: NEW_YEAR,
        end: NEW_YEAR + 100 * DAY,
        principal,
        amount: Decimal::new(0, 0),
        interest,
        frequency: TimeInterval::new(Typ::Daily, 1),
    }
}

#[test]
fn time_interval_new_keeps_its_parts() {
    let interval = TimeInterval::new(Typ::Weekly, 3);
    assert_eq!(interval.typ, Typ::Weekly);
    assert_eq!(interval.content, 3);
}

#[test]
fn recurring_is_active_within_its_window_only() {
    let rec = fixed(Typ::Daily, 1, NEW_YEAR, NEW_YEAR + 2 * DAY, 5);
    assert!(!rec.is_active(NEW_YEAR - 1));
    assert!(rec.is_active(NEW_YEAR));
    assert!(rec.is_active(NEW_YEAR + 2 * DAY - 1));
    assert!(!rec.is_active(NEW_YEAR + 2 * DAY));
}

#[test]
fn weekly_recurring_is_active_on_its_weekday() {
    let rec = fixed(Typ::Weekly, 1, NEW_YEAR, NEW_YEAR + 100 * DAY, 5);
    assert!(rec.is_active(NEW_YEAR));
    assert!(!rec.is_active(NEW_YEAR + DAY));
    assert!(!rec.is_active(NEW_YEAR + 6 * DAY));
    assert!(rec.is_active(NEW_YEAR + 7 * DAY));
    assert!(rec.is_active(NEW_YEAR + 14 * DAY + 3600));
}

#[test]
fn monthly_recurring_is_active_on_its_day_of_the_month() {
    let rec = fixed(Typ::Monthly, 1, NEW_YEAR, NEW_YEAR + 100 * DAY, 5);
    assert!(rec.is_active(NEW_YEAR));
    assert!(!rec.is_active(NEW_YEAR + 7 * DAY));
    // 2021-02-01
    assert!(rec.is_active(1_612_137_600));
    // 2021-02-02
    assert!(!rec.is_active(1_612_137_600 + DAY));
}

#[test]
fn annual_recurring_is_active_on_its_day_of_the_year() {
    let rec = fixed(Typ::Annually, 1, NEW_YEAR, NEW_YEAR + 1000 * DAY, 5);
    assert!(rec.is_active(NEW_YEAR));
    // 2021-02-01: the first of a month, but the 32nd day of the year
    assert!(!rec.is_active(1_612_137_600));
    // 2022-01-01
    assert!(rec.is_active(1_640_995_200));
}

#[test]
fn recurring_without_a_date_is_aligned_only_daily() {
    let far = i64::MAX - 10;
    let daily = fixed(Typ::Daily, 1, far - 10, i64::MAX, 5);
    let weekly = fixed(Typ::Weekly, 1, far - 10, i64::MAX, 5);
    assert!(daily.is_active(far));
    assert!(!weekly.is_active(far));
}

#[test]
fn fixed_recurring_pays_its_amount_when_due_and_nothing_outside() {
    let mut state = RecurringState::from(fixed(Typ::Daily, 1, NEW_YEAR, NEW_YEAR + 2 * DAY, 250));
    assert_eq!(state.take_payment(NEW_YEAR - DAY), Decimal::new(0, 0));
    assert_eq!(state.take_payment(NEW_YEAR), Decimal::new(250, 0));
    assert_eq!(state.take_payment(NEW_YEAR + DAY), Decimal::new(250, 0));
    assert_eq!(state.take_payment(NEW_YEAR + 2 * DAY), Decimal::new(0, 0));
    assert_eq!(state.rec.amount, Decimal::new(250, 0));
}

#[test]
fn compounding_recurring_pays_interest_on_the_grown_principal() {
    let mut state =
        RecurringState::from(compounding(Decimal::new(100, 0), Decimal::new(12, 0)));
    assert_eq!(state.take_payment(NEW_YEAR), Decimal::new(12, 0));
    assert_eq!(state.rec.principal, Decimal::new(112, 0));
    assert_eq!(state.take_payment(NEW_YEAR + DAY), Decimal::new(1344, 2));
    assert_eq!(state.rec.principal, Decimal::new(12544, 2));
}

#[test]
fn compounding_that_cannot_be_represented_pays_nothing() {
    let max = Decimal::try_from_i128_with_scale(79_228_162_514_264_337_593_543_950_335, 0).unwrap();
    let mut state = RecurringState::from(compounding(max, Decimal::new(200, 0)));
    assert_eq!(state.take_payment(NEW_YEAR), Decimal::new(0, 0));
    assert_eq!(state.rec.principal, max);
    let mut rec = compounding(Decimal::new(50, 0), Decimal::new(10, 0));
    assert_eq!(rec.compound(), Decimal::new(5, 0));
    assert_eq!(rec.principal, Decimal::new(55, 0));
}

#[test]
fn recurring_pays_every_nth_due_day() {
    let mut state = RecurringState::from(fixed(Typ::Daily, 3, NEW_YEAR, NEW_YEAR + 100 * DAY, 7));
    let paid: Vec<Decimal> = (0..7).map(|d| state.take_payment(NEW_YEAR + d * DAY)).collect();
    let seven = Decimal::new(7, 0);
    let zero = Decimal::new(0, 0);
    assert_eq!(paid, vec![zero, zero, seven, zero, zero, seven, zero]);
}

#[test]
fn days_that_are_not_due_are_not_counted() {
    let mut state = RecurringState::from(fixed(Typ::Weekly, 2, NEW_YEAR, NEW_YEAR + 100 * DAY, 7));
    let paid: Vec<i64> = (0..29)
        .filter(|d| state.take_payment(NEW_YEAR + d * DAY) == Decimal::new(7, 0))
        .collect();
    assert_eq!(paid, vec![7, 21]);
}

#[test]
fn period_that_is_not_positive_counts_as_one() {
    for every_n in [0, -1, -2, i32::MIN] {
        let mut state =
            RecurringState::from(fixed(Typ::Daily, every_n, NEW_YEAR, NEW_YEAR + 100 * DAY, 7));
        for d in 0..4 {
            assert_eq!(state.take_payment(NEW_YEAR + d * DAY), Decimal::new(7, 0));
        }
    }
}

#[test]
fn payments_are_added_up_over_the_recurrings() {
    let recurrings = vec![
        fixed(Typ::Daily, 1, NEW_YEAR, NEW_YEAR + 10 * DAY, 100),
        fixed(Typ::Daily, 1, NEW_YEAR + 5 * DAY, NEW_YEAR + 10 * DAY, 1000),
        fixed(Typ::Daily, 2, NEW_YEAR, NEW_YEAR + 10 * DAY, -30),
        compounding(Decimal::new(200, 0), Decimal::new(1, 0)),
    ];
    let mut states = recurring_states(&recurrings);
    assert_eq!(states.len(), 4);
    assert_eq!(
        calculate_payments_from_recurrings(&mut states, NEW_YEAR).amount,
        Decimal::new(102, 0)
    );
    assert_eq!(
        calculate_payments_from_recurrings(&mut states, NEW_YEAR + DAY).amount,
        Decimal::new(7202, 2)
    );
    assert_eq!(
        calculate_payments_from_recurrings(&mut states, NEW_YEAR - DAY).amount,
        Decimal::new(0, 0)
    );
    assert_eq!(calculate_payments_from_recurrings(&mut Vec::new(), NEW_YEAR).amount, Decimal::new(0, 0));
}

use pfp_server::common::decimal::Decimal;
use pfp_server::common::money::Money;
use pfp_server::common::Validation;
use pfp_server::controllers::goal_controller::GoalNewPayload;
use pfp_server::controllers::plaid_controller::AccountSuccess;
use pfp_server::controllers::recurring_controller::RecurringNewPayload;
use pfp_server::controllers::user_controller::{SignupPayload, UpdatePayload};
use pfp_server::models::financial_product_model::{FinancialProduct, FinancialProductInfo};
use pfp_server::models::goal_model::{Goal, GoalMetrics};
use pfp_server::models::insight_model::{Insight, InsightTypes};
use pfp_server::models::leaderboard_model::{BoardTypes, Ranking};
use pfp_server::models::plan_model::{Allocation, AssetClass, Plan};
use pfp_server::models::recurring_model::{Recurring, TimeInterval, Typ};
use pfp_server::models::user_model::{AccountRecord, Location, PlaidItem, Snapshot, User};
use pfp_server::services::finchplaid::{
    calculate_money_in_out, calculate_net_worth, coefficient_of, contains, get_account_balance_coefficients,
    get_account_data, get_account_transaction_coefficients, Account, Transaction,
};
use pfp_server::services::goals::{
    calculate_goal_change, delete_goal, new_goal, retrieve_goal, update_goal,
};
use pfp_server::services::insights::{
    calculate_wait_time, dismiss_insight, generate_product_insight, get_non_dismissed_insights,
    next_insight_type,
};
use pfp_server::services::leaderboards::{board_index, generate_ranking, get_ranking, store_ranking};
use pfp_server::services::plans::{
    generate_plaid_allocation, generate_sample_events, generate_sample_plan,
    get_asset_classes_and_default_apys, get_user_plan, plan_for_projection,
};
use pfp_server::services::recurrings::{
    delete_recurring, get_recurring, new_recurring, update_recurring,
};
use pfp_server::services::similar_user::{
    calculate_rates, compare_snapshots_to_user, generate_similar_user_insight, SimilarUserMetrics,
    UserMetricRates,
};
use pfp_server::services::snapshots::{
    add_new_snapshot, get_excluded_accounts, get_last_snapshot, need_new_snapshot,
};
use pfp_server::services::users::{
    all_or_unhidden, account_error, add_plaid_plan, delete_item, delete_item_from, hide_unhide_account, login,
    shown_accounts, signup, store_plan, update,
};

const NOW: i64 = 1_623_758_400;
const DAY: i64 = 86_400;
const ID_A: &str = "0123456789abcdef01234567";
const ID_B: &str = "89abcdef0123456789abcdef";

fn money(n: i64) -> Money {
    Money::new(Decimal::new(n, 0))
}

fn snapshot(savings: i64, spending: i64, income: i64, time: i64) -> Snapshot {
    Snapshot {
        net_worth: money(0),
        running_savings: money(savings),
        running_spending: money(spending),
        running_income: money(income),
        snapshot_time: time,
    }
}

fn account(id: &str, kind: &str, balance: Option<i64>) -> Account {
    Account {
        account_id: id.to_string(),
        name: format!("name of {}", id),
        official_name: None,
        account_type: kind.to_string(),
        balance: balance.map(|b| Decimal::new(b, 2)),
    }
}

fn transaction(id: &str, amount: Option<i64>) -> Transaction {
    Transaction { account_id: id.to_string(), amount: amount.map(|a| Decimal::new(a, 2)) }
}

fn record(item: &str, account: &str, hidden: bool) -> AccountRecord {
    AccountRecord {
        item_id: item.to_string(),
        account_id: account.to_string(),
        account_name: "n".to_string(),
        hidden,
        known_account_id: None,
    }
}

fn insight(id: &str, kind: InsightTypes, time: i64, dismissed: bool) -> Insight {
    Insight {
        id: Some(id.to_string()),
        title: "t".to_string(),
        description: "d".to_string(),
        insight_type: kind,
        dismissed,
        image: None,
        generation_time: time,
    }
}

fn goal(id: &str, start: i64, end: i64, threshold: i64, metric: GoalMetrics) -> Goal {
    Goal {
        id: Some(id.to_string()),
        name: "g".to_string(),
        start,
        end,
        threshold: Decimal::new(threshold, 0),
        metric,
    }
}

fn stated_goal(name: &str) -> GoalNewPayload {
    GoalNewPayload {
        name: name.to_string(),
        start: 1,
        end: 2,
        threshold: 5,
        metric: GoalMetrics::Income,
    }
}

fn stated_recurring(name: &str) -> RecurringNewPayload {
    RecurringNewPayload {
        name: name.to_string(),
        start: 1,
        end: 2,
        principal: Decimal::new(0, 0),
        amount: Decimal::new(9, 0),
        interest: Decimal::new(0, 0),
        frequency: TimeInterval::new(Typ::Daily, 1),
    }
}

fn kept_recurring(id: &str, name: &str) -> Recurring {
    let mut kept = stated_recurring(name).into_recurring();
    kept.id = Some(id.to_string());
    kept
}

fn plan(name: &str) -> Plan {
    Plan { id: None, name: name.to_string(), recurrings: vec![], allocations: vec![], events: vec![] }
}

#[test]
fn sample_plan_is_as_of_now() {
    let plan = generate_sample_plan(NOW);
    assert_eq!(plan.name, "Test Plan");
    assert_eq!(plan.recurrings.len(), 1);
    assert_eq!(plan.recurrings[0].name, "Test Recurring");
    assert_eq!((plan.recurrings[0].start, plan.recurrings[0].end), (NOW, NOW));
    assert_eq!(plan.recurrings[0].frequency, TimeInterval::new(Typ::Monthly, 1));
    assert_eq!(plan.allocations.len(), 1);
    assert_eq!(plan.allocations[0].date, NOW);
    assert_eq!(plan.allocations[0].schema[0].asset.name, "Finch Savings Account");
    assert_eq!(plan.allocations[0].schema[0].asset.annualized_performance, Decimal::new(105, 2));
    assert_eq!(plan.allocations[0].schema[0].proportion, Decimal::new(100, 0));
    assert!(plan.allocations[0].validate().is_ok());
    assert_eq!(plan.events.len(), 1);
    assert_eq!(plan.events[0].start, NOW);
    assert_eq!(plan.events[0].transforms[0].class, AssetClass::Equity);
    assert_eq!(plan.events[0].transforms[0].change, Decimal::new(10, 0));
}

#[test]
fn sample_events_are_four() {
    let events = generate_sample_events(NOW);
    let names: Vec<&str> = events.iter().map(|e| e.name.as_str()).collect();
    assert_eq!(names, vec!["COVID-19", "Meme Stocks Pop Off", "Bull Market", "Zimbabwe Inflation"]);
    assert!(events.iter().all(|e| e.start == NOW && e.validate().is_ok()));
    assert_eq!(events[0].transforms.len(), 3);
    assert_eq!(events[0].transforms[1].class, AssetClass::Etf);
    assert_eq!(events[0].transforms[1].change, Decimal::new(-25, 0));
    assert_eq!(events[2].transforms[3].change, Decimal::new(-5, 1));
    assert_eq!(events[3].transforms[0].change, Decimal::new(-9999, 2));
}

#[test]
fn default_apys_are_five() {
    let table = get_asset_classes_and_default_apys();
    let classes: Vec<AssetClass> = table.iter().map(|e| e.class.clone()).collect();
    assert_eq!(
        classes,
        vec![
            AssetClass::Cash,
            AssetClass::Equity,
            AssetClass::Etf,
            AssetClass::Fixed,
            AssetClass::MutualFund
        ]
    );
    let apys: Vec<Decimal> = table.iter().map(|e| e.apy).collect();
    assert_eq!(
        apys,
        vec![
            Decimal::new(100, 2),
            Decimal::new(105, 2),
            Decimal::new(110, 2),
            Decimal::new(102, 2),
            Decimal::new(120, 2)
        ]
    );
}

#[test]
fn user_plan_is_the_first_or_all_cash() {
    let cash = get_user_plan(&vec![], NOW);
    assert_eq!(cash.name, "Your default Plan");
    assert!(cash.recurrings.is_empty() && cash.events.is_empty());
    assert_eq!(cash.allocations.len(), 1);
    assert_eq!(cash.allocations[0].description, "Just cash!");
    assert_eq!(cash.allocations[0].date, NOW);
    assert_eq!(cash.allocations[0].schema[0].asset.name, "Dollars");
    assert_eq!(cash.allocations[0].schema[0].asset.annualized_performance, Decimal::new(101, 2));
    assert!(cash.allocations[0].validate().is_ok());
    let first = get_user_plan(&vec![plan("first"), plan("second")], NOW);
    assert_eq!(first.name, "first");
}

#[test]
fn projection_plan_takes_the_recurrings_of_the_user_along() {
    let own = vec![kept_recurring(ID_A, "own")];
    let sample = plan_for_projection(&vec![], &own, NOW);
    assert_eq!(sample.name, "Test Plan");
    let names: Vec<&str> = sample.recurrings.iter().map(|r| r.name.as_str()).collect();
    assert_eq!(names, vec!["Test Recurring", "own"]);
    let mut first = plan("first");
    first.recurrings = vec![kept_recurring(ID_B, "planned")];
    let chosen = plan_for_projection(&vec![first, plan("second")], &own, NOW);
    assert_eq!(chosen.name, "first");
    let names: Vec<&str> = chosen.recurrings.iter().map(|r| r.name.as_str()).collect();
    assert_eq!(names, vec!["planned", "own"]);
}

#[test]
fn plaid_allocation_skips_accounts_that_do_not_count() {
    let accounts = vec![
        AccountSuccess {
            item_id: "i".to_string(),
            name: "loan".to_string(),
            balance: Decimal::new(900, 0),
            account_type: "loan".to_string(),
            account_id: "a".to_string(),
        },
        AccountSuccess {
            item_id: "i".to_string(),
            name: "broker".to_string(),
            balance: Decimal::new(250, 0),
            account_type: "investment".to_string(),
            account_id: "b".to_string(),
        },
    ];
    let allocation = generate_plaid_allocation(&accounts, Decimal::new(1000, 0), NOW);
    assert_eq!(allocation.description, "Current Holdings");
    assert_eq!(allocation.date, NOW);
    assert_eq!(allocation.schema.len(), 1);
    assert_eq!(allocation.schema[0].asset.name, "broker");
    assert_eq!(allocation.schema[0].asset.class, AssetClass::Equity);
    assert_eq!(allocation.schema[0].proportion, Decimal::new(25, 0));
    assert_eq!(allocation.schema[0].asset.annualized_performance, Decimal::new(105, 2));
}

#[test]
fn last_snapshot_and_when_a_new_one_is_due() {
    let snapshots = vec![snapshot(1, 2, 3, NOW - 3 * DAY), snapshot(4, 5, 6, NOW - DAY)];
    assert_eq!(get_last_snapshot(&snapshots), snapshots[1]);
    assert_eq!(get_last_snapshot(&vec![]), Snapshot::default());
    assert!(!need_new_snapshot(&snapshots, NOW));
    assert!(need_new_snapshot(&snapshots, NOW + 1));
    assert!(need_new_snapshot(&vec![], NOW));
    assert!(!need_new_snapshot(&vec![], DAY));
    assert!(need_new_snapshot(&vec![snapshot(0, 0, 0, i64::MIN)], i64::MAX));
    assert!(!need_new_snapshot(&vec![snapshot(0, 0, 0, i64::MAX)], i64::MIN));
}

#[test]
fn new_snapshot_goes_on_from_the_last() {
    let stats = vec![(money(100), money(-30), money(1000)), (money(5), money(-1), money(200))];
    let mut snapshots = vec![snapshot(10, -20, 30, NOW - 2 * DAY)];
    add_new_snapshot(&mut snapshots, &stats, money(77), true, NOW);
    assert_eq!(snapshots.len(), 2);
    assert_eq!(snapshots[0], snapshot(10, -20, 30, NOW - 2 * DAY));
    let added = snapshots[1];
    assert_eq!(added.snapshot_time, NOW);
    assert_eq!(added.net_worth, money(1200));
    assert_eq!(added.running_income, money(135));
    assert_eq!(added.running_spending, money(-51));
    assert_eq!(added.running_savings, money(146));
}

#[test]
fn new_snapshot_leaves_the_running_totals_where_the_last_is_recent() {
    let stats = vec![(money(100), money(-30), money(1000))];
    let mut snapshots = vec![snapshot(10, -20, 30, NOW - DAY + 1)];
    add_new_snapshot(&mut snapshots, &stats, money(77), true, NOW);
    let added = snapshots[1];
    assert_eq!(added.net_worth, money(1000));
    assert_eq!(
        (added.running_savings, added.running_spending, added.running_income),
        (money(10), money(-20), money(30))
    );
    let mut at_the_edge = vec![snapshot(10, -20, 30, NOW - DAY)];
    add_new_snapshot(&mut at_the_edge, &stats, money(77), true, NOW);
    assert_eq!(at_the_edge[1].running_income, money(130));
}

#[test]
fn new_snapshot_of_a_user_without_accounts_takes_the_reported_net_worth() {
    let mut snapshots = vec![];
    add_new_snapshot(&mut snapshots, &vec![], money(77), false, NOW);
    assert_eq!(snapshots.len(), 1);
    assert_eq!(snapshots[0].net_worth, money(77));
    assert_eq!(snapshots[0].running_savings, money(0));
    assert_eq!(snapshots[0].snapshot_time, NOW);
}

#[test]
fn excluded_accounts_are_the_hidden_ones() {
    let records = vec![record("i", "a", true), record("i", "b", false), record("j", "c", true)];
    assert_eq!(get_excluded_accounts(&records), vec!["a".to_string(), "c".to_string()]);
    assert!(get_excluded_accounts(&vec![]).is_empty());
    assert!(contains(&vec!["a".to_string(), "b".to_string()], &"b".to_string()));
    assert!(!contains(&vec!["a".to_string(), "b".to_string()], &"c".to_string()));
}

#[test]
fn accounts_count_by_their_type() {
    let accounts = vec![
        account("d", "depository", Some(10)),
        account("c", "credit", Some(10)),
        account("l", "loan", Some(10)),
        account("i", "investment", Some(10)),
        account("o", "other", Some(10)),
        account("d", "loan", Some(10)),
    ];
    let balance = get_account_balance_coefficients(&accounts);
    assert_eq!(balance.iter().map(|e| e.1).collect::<Vec<_>>(), vec![1, 0, 0, 1, 0, 0]);
    assert_eq!(balance[3].0, "i");
    let moves = get_account_transaction_coefficients(&accounts);
    assert_eq!(moves.iter().map(|e| e.1).collect::<Vec<_>>(), vec![-1, -1, 0, 1, 0, 0]);
    // the last entry for an account counts
    assert_eq!(coefficient_of(&moves, &"d".to_string()), 0);
    assert_eq!(coefficient_of(&moves, &"c".to_string()), -1);
    assert_eq!(coefficient_of(&moves, &"unknown".to_string()), 0);
}

#[test]
fn net_worth_is_over_the_accounts_that_count() {
    let accounts = vec![
        account("d", "depository", Some(10050)),
        account("c", "credit", Some(99900)),
        account("i", "investment", Some(4320000)),
        account("x", "investment", None),
    ];
    assert_eq!(calculate_net_worth(&accounts, &vec![]), Money::new(Decimal::new(4330050, 2)));
    assert_eq!(
        calculate_net_worth(&accounts, &vec!["i".to_string()]),
        Money::new(Decimal::new(10050, 2))
    );
    assert_eq!(calculate_net_worth(&vec![], &vec![]), money(0));
}

#[test]
fn money_in_and_out_are_told_apart_by_sign() {
    let accounts = vec![
        account("d", "depository", Some(0)),
        account("i", "investment", Some(0)),
        account("l", "loan", Some(0)),
    ];
    let transactions = vec![
        transaction("d", Some(1000)),
        transaction("d", Some(-250)),
        transaction("i", Some(700)),
        transaction("i", Some(-40)),
        transaction("l", Some(99999)),
        transaction("d", None),
        transaction("unknown", Some(55)),
    ];
    let (money_in, money_out) = calculate_money_in_out(&accounts, &transactions, &vec![]);
    assert_eq!(money_in, Money::new(Decimal::new(950, 2)));
    assert_eq!(money_out, Money::new(Decimal::new(-1040, 2)));
    let (money_in, money_out) =
        calculate_money_in_out(&accounts, &transactions, &vec!["i".to_string()]);
    assert_eq!(money_in, Money::new(Decimal::new(250, 2)));
    assert_eq!(money_out, Money::new(Decimal::new(-1000, 2)));
}

#[test]
fn account_data_is_shown_with_weighted_balances() {
    let accounts = vec![account("d", "depository", Some(10050)), account("c", "credit", Some(5))];
    let shown = get_account_data(&"item".to_string(), &accounts).unwrap();
    assert_eq!(shown.len(), 2);
    assert_eq!(shown[0].item_id, "item");
    assert_eq!(shown[0].account_id, "d");
    assert_eq!(shown[0].name, "name of d");
    assert_eq!(shown[0].account_type, "depository");
    assert_eq!(shown[0].balance, Decimal::new(10050, 2));
    assert_eq!(shown[1].balance, Decimal::new(0, 0));
    let broken = vec![account("d", "depository", Some(1)), account("c", "credit", None)];
    let error = get_account_data(&"item".to_string(), &broken).unwrap_err();
    assert_eq!(error.status(), 500);
    assert_eq!(error.text(), "Decimal conversion error");
}

#[test]
fn similar_user_test_compare_snapshots_to_user() {
    let other_users_snapshots: Vec<Option<Vec<Snapshot>>> = vec![
        Some(vec![snapshot(0, 0, 0, 50), snapshot(5000, 0, 0, 100)]),
        Some(vec![snapshot(0, 0, 0, 50), snapshot(4500, 0, 0, 100)]),
    ];
    let this_users_snapshots = vec![snapshot(0, 0, 0, 50), snapshot(4700, 0, 0, 100)];

    let metrics = compare_snapshots_to_user(&this_users_snapshots, &other_users_snapshots, 1);

    assert_eq!(metrics.savings_less, 1);
    assert_eq!(metrics.total_similar_users, 2);
}

#[test]
fn ranking_test_compare_snapshots_to_user() {
    let other_users_snapshots: Vec<Option<Vec<Snapshot>>> = vec![
        Some(vec![snapshot(0, 0, 0, 50), snapshot(5000, 0, 0, 100)]),
        None,
        Some(vec![snapshot(0, 0, 0, 50), snapshot(4500, 10, 0, 100)]),
    ];
    let this_users_snapshots = vec![snapshot(0, 0, 0, 50), snapshot(4700, 0, 7, 100)];

    let metrics = compare_snapshots_to_user(&this_users_snapshots, &other_users_snapshots, 1);

    assert_eq!(
        metrics,
        SimilarUserMetrics {
            spending_less: 0,
            savings_less: 1,
            income_less: 2,
            total_similar_users: 2
        }
    );
    assert_eq!(
        compare_snapshots_to_user(&this_users_snapshots, &vec![], 1),
        SimilarUserMetrics::default()
    );
}

#[test]
fn rates_are_the_change_per_second() {
    let rates = UserMetricRates::new(&snapshot(0, 10, 0, 50), &snapshot(4700, -40, 25, 100));
    assert_eq!(rates.savings_rate, Decimal::new(94, 0));
    assert_eq!(rates.spending_rate, Decimal::new(-1, 0));
    assert_eq!(rates.income_rate, Decimal::new(5, 1));
    let none = UserMetricRates::new(&snapshot(0, 0, 0, 50), &snapshot(4700, 0, 0, 50));
    assert_eq!(none.savings_rate, Decimal::new(0, 0));
    let snapshots =
        vec![snapshot(1, 0, 0, 10), snapshot(0, 0, 0, 50), snapshot(100, 0, 0, 60), snapshot(7, 0, 0, 40)];
    // the first and the last at or after 45, in the order of the list
    assert_eq!(calculate_rates(&snapshots, 45).savings_rate, Decimal::new(10, 0));
    assert_eq!(calculate_rates(&snapshots, 61).savings_rate, Decimal::new(0, 0));
    assert_eq!(calculate_rates(&snapshots, 5).savings_rate, Decimal::new(2, 1));
    let ahead = UserMetricRates::new(&snapshot(0, 0, 0, 0), &snapshot(10, 10, 10, 10));
    let behind = UserMetricRates::new(&snapshot(0, 0, 0, 0), &snapshot(5, 10, 20, 10));
    assert_eq!(
        ahead.compare(&behind),
        SimilarUserMetrics {
            spending_less: 0,
            savings_less: 1,
            income_less: 0,
            total_similar_users: 1
        }
    );
    let sum = ahead.compare(&behind).add(behind.compare(&ahead));
    assert_eq!(
        sum,
        SimilarUserMetrics {
            spending_less: 0,
            savings_less: 1,
            income_less: 1,
            total_similar_users: 2
        }
    );
}

#[test]
fn similar_user_insight_tells_the_share() {
    let metrics = SimilarUserMetrics {
        spending_less: 1,
        savings_less: 2,
        income_less: 3,
        total_similar_users: 3,
    };
    let savings =
        generate_similar_user_insight(metrics, InsightTypes::Savings, Some(ID_A.to_string()), NOW)
            .unwrap();
    assert_eq!(savings.title, "Savings Insight");
    assert_eq!(
        savings.description,
        "Your savings over the last 30 days puts you above 66% of similar users!"
    );
    assert_eq!(savings.insight_type, InsightTypes::Savings);
    assert_eq!(savings.id, Some(ID_A.to_string()));
    assert_eq!(savings.generation_time, NOW);
    assert!(!savings.dismissed);
    let spending = generate_similar_user_insight(metrics, InsightTypes::Spending, None, NOW).unwrap();
    assert_eq!(
        spending.description,
        "Your spending rate over the last 30 days is higher than 33% of similar users."
    );
    let income = generate_similar_user_insight(metrics, InsightTypes::Income, None, NOW).unwrap();
    assert_eq!(income.title, "Income Insight");
    assert_eq!(
        income.description,
        "Your income over the last 30 days is higher than 100% of users."
    );
    let bad = generate_similar_user_insight(metrics, InsightTypes::Goal, None, NOW).unwrap_err();
    assert_eq!(bad.into_api_error().text(), "Requested bad insight type from similar_user");
    let alone =
        generate_similar_user_insight(SimilarUserMetrics::default(), InsightTypes::Savings, None, NOW)
            .unwrap_err();
    assert_eq!(alone.into_api_error().text(), "No peers for insight generation");
}

#[test]
fn next_insight_is_of_the_kind_that_is_longest_ago() {
    assert_eq!(next_insight_type(&vec![], NOW), InsightTypes::Savings);
    let insights = vec![
        insight(ID_A, InsightTypes::Savings, NOW - 10, false),
        insight(ID_A, InsightTypes::Incomplete, -100, false),
    ];
    assert_eq!(next_insight_type(&insights, NOW), InsightTypes::ProductRecommendation);
    let insights = vec![
        insight(ID_A, InsightTypes::Savings, NOW - 10, false),
        insight(ID_A, InsightTypes::ProductRecommendation, NOW - 20, false),
        insight(ID_A, InsightTypes::Income, NOW - 15, false),
        insight(ID_A, InsightTypes::ProductRecommendation, NOW - 5, false),
        insight(ID_A, InsightTypes::Savings, NOW - 30, false),
    ];
    assert_eq!(next_insight_type(&insights, NOW), InsightTypes::Income);
    let insights = vec![
        insight(ID_A, InsightTypes::Savings, NOW, false),
        insight(ID_A, InsightTypes::ProductRecommendation, NOW, false),
        insight(ID_A, InsightTypes::Goal, NOW - 1, false),
    ];
    assert_eq!(next_insight_type(&insights, NOW), InsightTypes::Goal);
    // nothing is older than the moment itself
    assert_eq!(next_insight_type(&vec![], -5), InsightTypes::ProductRecommendation);
}

#[test]
fn wait_is_until_a_day_has_passed_and_half_a_minute_at_least() {
    assert_eq!(calculate_wait_time(NOW, Some(NOW - 1000)), DAY - 1000);
    assert_eq!(calculate_wait_time(NOW, Some(NOW - DAY)), 30);
    assert_eq!(calculate_wait_time(NOW, Some(NOW - DAY + 31)), 31);
    assert_eq!(calculate_wait_time(NOW, None), DAY);
    assert_eq!(calculate_wait_time(NOW, Some(NOW + 5)), DAY + 5);
    assert_eq!(calculate_wait_time(i64::MIN, Some(i64::MAX)), i64::MAX);
    assert_eq!(calculate_wait_time(i64::MAX, Some(i64::MIN)), 30);
}

#[test]
fn product_insight_names_the_product() {
    let product = FinancialProduct::new(
        "Gold",
        "shiny",
        vec![],
        None,
        Some("img".to_string()),
        FinancialProductInfo::CreditCard,
    );
    let made = generate_product_insight(&product, Some(ID_A.to_string()), NOW);
    assert_eq!(made.title, "Try this new account others like you are using");
    assert_eq!(made.description, "Many users similar to you are using a Gold account: shiny");
    assert_eq!(made.insight_type, InsightTypes::ProductRecommendation);
    assert_eq!(made.image, Some("img".to_string()));
    assert_eq!(made.id, Some(ID_A.to_string()));
    assert_eq!(made.generation_time, NOW);
}

#[test]
fn insight_is_dismissed_by_its_id() {
    let mut insights = vec![
        insight(ID_B, InsightTypes::Savings, 1, false),
        insight(ID_A, InsightTypes::Income, 2, false),
        insight(ID_A, InsightTypes::Goal, 3, false),
    ];
    let dismissed = dismiss_insight(&mut insights, ID_A.to_uppercase()).unwrap();
    assert_eq!(dismissed, insight(ID_A, InsightTypes::Income, 2, true));
    assert_eq!(insights[1], dismissed);
    assert!(!insights[0].dismissed && !insights[2].dismissed);
    let shown = get_non_dismissed_insights(&insights);
    assert_eq!(shown, vec![insights[0].clone(), insights[2].clone()]);
    let malformed = dismiss_insight(&mut insights, "xyz".to_string()).unwrap_err();
    assert_eq!((malformed.status(), malformed.text().as_str()), (400, "Malformed Object Id"));
    let missing = dismiss_insight(&mut insights, "ffffffffffffffffffffffff".to_string()).unwrap_err();
    assert_eq!(
        missing.text(),
        "No insight with id ffffffffffffffffffffffff found in current user"
    );
}

#[test]
fn goal_change_is_over_its_span() {
    let snapshots = vec![
        snapshot(0, 0, 0, 1),
        snapshot(0, 0, 0, 2),
        snapshot(0, 0, 0, 4),
        snapshot(5000, -1000, 0, 6),
        snapshot(5000, -1000, 0, 7),
        snapshot(5000, -1000, 0, 10),
        snapshot(5000, -21000, 0, 11),
    ];
    let saving = goal(ID_A, 3, 10, 10000, GoalMetrics::Savings);
    assert_eq!(calculate_goal_change(&saving, &snapshots), (Decimal::new(5000, 0), false));
    let spending = goal(ID_A, 5, 9, -10000, GoalMetrics::Spending);
    assert_eq!(calculate_goal_change(&spending, &snapshots), (Decimal::new(-1000, 0), false));
    let spending = goal(ID_A, 6, 12, -21000, GoalMetrics::Spending);
    assert_eq!(calculate_goal_change(&spending, &snapshots), (Decimal::new(-21000, 0), true));
    let income = goal(ID_A, 6, 12, 1, GoalMetrics::Income);
    assert_eq!(calculate_goal_change(&income, &vec![]), (Decimal::new(0, 0), false));
}

#[test]
fn goals_are_kept_by_id() {
    let mut goals = vec![
        goal(ID_A, 1, 2, 3, GoalMetrics::Income),
        goal(ID_B, 4, 5, 6, GoalMetrics::Savings),
    ];
    assert_eq!(retrieve_goal(ID_B.to_string(), &goals).unwrap(), goals[1]);
    assert_eq!(retrieve_goal(ID_B.to_uppercase(), &goals).unwrap(), goals[1]);
    let malformed = retrieve_goal("nope".to_string(), &goals).unwrap_err();
    assert_eq!((malformed.status(), malformed.text().as_str()), (400, "Malformed Object Id"));
    let missing = retrieve_goal("ffffffffffffffffffffffff".to_string(), &goals).unwrap_err();
    assert_eq!(
        (missing.status(), missing.text().as_str()),
        (400, "No goal with id ffffffffffffffffffffffff found in current user")
    );
    let added = new_goal(&mut goals, stated_goal("added"), "ffffffffffffffffffffffff".to_string());
    assert_eq!(added.id, Some("ffffffffffffffffffffffff".to_string()));
    assert_eq!(goals.len(), 3);
    assert_eq!(goals[2], added);
    let updated = update_goal(&mut goals, ID_A.to_string(), stated_goal("updated")).unwrap();
    assert_eq!(updated.name, "updated");
    assert_eq!(updated.id, Some(ID_A.to_string()));
    assert_eq!(updated.threshold, Decimal::new(5, 0));
    assert_eq!(goals[0], updated);
    assert!(update_goal(&mut goals, "0".repeat(24), stated_goal("x")).is_err());
    assert!(update_goal(&mut goals, "0".repeat(23), stated_goal("x")).is_err());
    let deleted = delete_goal(&mut goals, ID_A.to_string()).unwrap();
    assert_eq!(deleted, updated);
    assert_eq!(goals.iter().map(|g| g.name.as_str()).collect::<Vec<_>>(), vec!["added", "g"]);
    assert!(delete_goal(&mut goals, ID_A.to_string()).is_err());
    assert_eq!(goals.len(), 2);
}

#[test]
fn recurrings_are_kept_by_id() {
    let mut recurrings = vec![kept_recurring(ID_A, "a"), kept_recurring(ID_B, "b")];
    assert_eq!(get_recurring(ID_B.to_string(), &recurrings).unwrap().name, "b");
    let malformed = get_recurring("nope".to_string(), &recurrings).unwrap_err();
    assert_eq!(malformed.text(), "Malformed Object Id");
    let missing = get_recurring("0".repeat(24), &recurrings).unwrap_err();
    assert_eq!(
        missing.text(),
        "No recurring with id 000000000000000000000000 found in current user"
    );
    let added = new_recurring(&mut recurrings, stated_recurring("added"), "f".repeat(24));
    assert_eq!(added.id, Some("f".repeat(24)));
    assert_eq!(recurrings.len(), 3);
    assert_eq!(recurrings[2].name, "added");
    let updated = update_recurring(&mut recurrings, ID_A.to_string(), stated_recurring("updated")).unwrap();
    assert_eq!(updated.id, Some(ID_A.to_string()));
    assert_eq!(recurrings[0].name, "updated");
    assert!(update_recurring(&mut recurrings, "0".repeat(24), stated_recurring("x")).is_err());
    let deleted = delete_recurring(&mut recurrings, ID_A.to_string()).unwrap();
    assert_eq!(deleted.name, "updated");
    assert_eq!(recurrings.iter().map(|r| r.name.as_str()).collect::<Vec<_>>(), vec!["added", "b"]);
    assert!(delete_recurring(&mut recurrings, "zz".to_string()).is_err());
}

#[test]
fn item_is_deleted_with_its_records() {
    let item = |id: &str| PlaidItem { item_id: id.to_string(), access_token: "12345".to_string() };
    let mut accounts = vec![item("a"), item("b"), item("c")];
    let mut records = vec![record("a", "1", false), record("b", "2", false), record("a", "3", true)];
    assert_eq!(delete_item_from("a".to_string(), &mut accounts, &mut records), Ok("a".to_string()));
    assert_eq!(accounts, vec![item("c"), item("b")]);
    assert_eq!(records, vec![record("b", "2", false)]);
    let error = delete_item_from("a".to_string(), &mut accounts, &mut records).unwrap_err();
    assert_eq!(error.status(), 400);
    assert_eq!(error.text(), "No account with id a found in current user");
    assert_eq!(accounts.len(), 2);
    assert_eq!(records.len(), 1);
}

#[test]
fn test_delete_account() {
    let account_id = "jdgBn5mNDjSKwnLQng66C3n3mnRjMEi1mVMqx".to_string();

    let to_delete = PlaidItem { item_id: account_id.clone(), access_token: String::from("12345") };
    let mut accounts_array: Vec<PlaidItem> = Vec::new();
    accounts_array.push(to_delete);

    let mut user = User {
        id: None,
        email: String::from("test@test.com"),
        password: String::from("test@test.com"),
        first_name: String::from("fn"),
        last_name: String::from("ln"),
        income: Decimal::new(0, 1),
        net_worth: Decimal::new(0, 1),
        location: Location { ..Default::default() },
        birthday: "1970-01-01".to_string(),
        accounts: accounts_array,
        account_records: vec![],
        snapshots: Vec::new(),
        recurrings: Vec::new(),
        goals: Vec::new(),
        insights: Vec::new(),
        plans: Vec::new(),
    };

    let mut found = false;

    let _ = delete_item(account_id.clone(), &mut user);

    for account in user.accounts.iter() {
        if account.item_id.eq(&account_id) {
            found = true;
            break;
        }
    }

    assert_eq!(false, found);
}

#[test]
fn plaid_plan_is_added_to_the_first_plan() {
    let mut plans = vec![];
    add_plaid_plan(&mut plans, Allocation::default(), ID_A.to_string());
    assert_eq!(plans.len(), 1);
    assert_eq!(plans[0].name, "My Plan");
    assert_eq!(plans[0].id, Some(ID_A.to_string()));
    assert_eq!(plans[0].allocations.len(), 1);
    add_plaid_plan(&mut plans, Allocation::default(), ID_B.to_string());
    assert_eq!(plans.len(), 1);
    assert_eq!(plans[0].id, Some(ID_A.to_string()));
    assert_eq!(plans[0].allocations.len(), 2);
    store_plan(&mut plans, plan("stored"));
    assert_eq!(plans.len(), 1);
    assert_eq!(plans[0].name, "stored");
    let mut none = vec![];
    store_plan(&mut none, plan("first"));
    assert_eq!(none[0].name, "first");
}

#[test]
fn accounts_are_hidden_and_shown() {
    let mut records = vec![record("i", "a", false), record("i", "b", false), record("j", "a", false)];
    hide_unhide_account(&mut records, &"i".to_string(), &"a".to_string(), true);
    assert_eq!(records, vec![record("i", "a", true), record("i", "b", false), record("j", "a", false)]);
    hide_unhide_account(&mut records, &"i".to_string(), &"a".to_string(), false);
    assert!(records.iter().all(|r| !r.hidden));
    let success = |id: &str| AccountSuccess {
        item_id: "i".to_string(),
        name: "n".to_string(),
        balance: Decimal::new(1, 0),
        account_type: "t".to_string(),
        account_id: id.to_string(),
    };
    let accounts = vec![success("a"), success("b"), success("c")];
    let excluded = vec!["b".to_string()];
    assert_eq!(shown_accounts(&accounts, &excluded, true), accounts);
    assert_eq!(shown_accounts(&accounts, &excluded, false), vec![success("a"), success("c")]);
    let error = account_error(&PlaidItem { item_id: "i".to_string(), access_token: "t".to_string() });
    assert_eq!(error.item_id, "i");
    assert_eq!(error.code, 500);
    assert_eq!(error.message, "Failed to obtain account information with given id");
}

#[test]
fn users_sign_up_log_in_and_change() {
    let data = || SignupPayload {
        email: "a@b.com".to_string(),
        password: "pw".to_string(),
        first_name: "f".to_string(),
        last_name: "l".to_string(),
        income: Decimal::new(5, 0),
        location: Location::default(),
        birthday: "1990-01-01".to_string(),
    };
    let taken = signup(data(), true, Some("hash".to_string())).unwrap_err();
    assert_eq!((taken.status(), taken.text().as_str()), (400, "Email is in use"));
    let unhashed = signup(data(), false, None).unwrap_err();
    assert_eq!((unhashed.status(), unhashed.text().as_str()), (400, "Password hashing failed"));
    let user = signup(data(), false, Some("hash".to_string())).unwrap();
    assert_eq!(user.email, "a@b.com");
    assert_eq!(user.password, "hash");
    assert_eq!(user.id, None);
    assert_eq!(user.net_worth, Decimal::new(0, 0));
    assert!(user.plans.is_empty() && user.snapshots.is_empty());

    let unknown = login(None, Some(true)).unwrap_err();
    assert_eq!((unknown.status(), unknown.text().as_str()), (500, "User not found"));
    let user = login(Some(user), Some(true)).unwrap();
    let wrong = login(Some(signup(data(), false, Some("h".to_string())).unwrap()), Some(false))
        .unwrap_err();
    assert_eq!((wrong.status(), wrong.text().as_str()), (401, "Incorrect user or password"));
    let unchecked =
        login(Some(signup(data(), false, Some("h".to_string())).unwrap()), None).unwrap_err();
    assert_eq!((unchecked.status(), unchecked.text().as_str()), (500, "Password checking failed"));

    let change = UpdatePayload {
        email: None,
        password: Some("new".to_string()),
        first_name: Some("g".to_string()),
        last_name: None,
        income: None,
        net_worth: Some(Decimal::new(99, 0)),
        location: None,
        birthday: None,
    };
    let changed = update(user, change, Some("new hash".to_string())).unwrap();
    assert_eq!(changed.email, "a@b.com");
    assert_eq!(changed.password, "new hash");
    assert_eq!(changed.first_name, "g");
    assert_eq!(changed.last_name, "l");
    assert_eq!(changed.net_worth, Decimal::new(99, 0));
    let change = UpdatePayload {
        email: None,
        password: Some("new".to_string()),
        first_name: None,
        last_name: None,
        income: None,
        net_worth: None,
        location: None,
        birthday: None,
    };
    let failed = update(changed, change, None).unwrap_err();
    assert_eq!(failed.text(), "Password hashing failed");
}

#[test]
fn rankings_are_kept_for_a_day() {
    assert_eq!(board_index(BoardTypes::Savings), 0);
    assert_eq!(board_index(BoardTypes::Spending), 1);
    assert_eq!(board_index(BoardTypes::Income), 2);
    let mut rankings = vec![];
    assert_eq!(get_ranking(&mut rankings, BoardTypes::Spending, NOW), None);
    assert_eq!(rankings, vec![Ranking::default(), Ranking::default()]);
    let made = generate_ranking(BoardTypes::Spending, Decimal::new(191, 1), NOW);
    assert_eq!(made.description, "Spending Leaderboard");
    assert_eq!(made.leaderboard_type, BoardTypes::Spending);
    assert_eq!(made.generation_time, NOW);
    assert_eq!(generate_ranking(BoardTypes::Savings, Decimal::new(1, 0), NOW).description, "Savings Leaderboard");
    assert_eq!(generate_ranking(BoardTypes::Income, Decimal::new(1, 0), NOW).description, "Income Leaderboard");
    store_ranking(&mut rankings, BoardTypes::Spending, made.clone());
    assert_eq!(get_ranking(&mut rankings, BoardTypes::Spending, NOW + DAY - 1), Some(made));
    assert_eq!(get_ranking(&mut rankings, BoardTypes::Spending, NOW + DAY), None);
    assert_eq!(get_ranking(&mut rankings, BoardTypes::Savings, NOW), None);
    assert_eq!(rankings.len(), 2);
    assert_eq!(get_ranking(&mut rankings, BoardTypes::Income, 0), Some(Ranking::default()));
    assert_eq!(rankings.len(), 3);
}

#[test]
fn test_calc_freq_of_known_accounts() {
    let object_ids: Vec<String> = (1..10).map(|i| format!("{:024x}", i)).collect();

    let extracted_known_accounts: Vec<Option<Vec<String>>> = vec![
        Some(vec![object_ids[0].clone(), object_ids[1].clone()]),
        Some(vec![object_ids[0].clone(), object_ids[2].clone()]),
        Some(vec![object_ids[1].clone(), object_ids[2].clone()]),
        Some(vec![object_ids[0].clone()]),
    ];

    let known_account_frequencies =
        pfp_server::services::products::get_frequency_of_known_accounts(&extracted_known_accounts);

    let mut freqs = known_account_frequencies.clone();

    let mut ans = vec![
        (object_ids[0].clone(), 3),
        (object_ids[1].clone(), 2),
        (object_ids[2].clone(), 2),
    ];

    freqs.sort();
    ans.sort();

    assert_eq!(freqs, ans);

    for choice in 0..5 {
        assert_eq!(
            pfp_server::services::products::get_most_frequent_account(
                &known_account_frequencies,
                choice
            ),
            Some(object_ids[0].clone())
        );
    }
}

#[test]
fn most_frequent_accounts_may_tie() {
    let lists = vec![
        Some(vec!["b".to_string(), "a".to_string()]),
        None,
        Some(vec!["a".to_string(), "c".to_string(), "b".to_string()]),
    ];
    let table = pfp_server::services::products::get_frequency_of_known_accounts(&lists);
    assert_eq!(
        table,
        vec![("b".to_string(), 2), ("a".to_string(), 2), ("c".to_string(), 1)]
    );
    assert_eq!(
        pfp_server::services::products::most_frequent_accounts(&table),
        vec!["b".to_string(), "a".to_string()]
    );
    let picks: Vec<Option<String>> = (0..4)
        .map(|choice| pfp_server::services::products::get_most_frequent_account(&table, choice))
        .collect();
    assert_eq!(
        picks,
        vec![
            Some("b".to_string()),
            Some("a".to_string()),
            Some("b".to_string()),
            Some("a".to_string())
        ]
    );
    assert_eq!(pfp_server::services::products::get_most_frequent_account(&vec![], 3), None);
}

#[test]
fn accounts_are_recorded_under_their_official_name() {
    let mut plain = account("a", "depository", Some(1));
    let record = pfp_server::services::finchplaid::make_account_record(
        "item".to_string(),
        &plain,
        &Some(ID_A.to_string()),
    );
    assert_eq!(
        record,
        AccountRecord {
            item_id: "item".to_string(),
            account_id: "a".to_string(),
            account_name: "name of a".to_string(),
            hidden: false,
            known_account_id: Some(ID_A.to_string()),
        }
    );
    plain.official_name = Some("official".to_string());
    assert_eq!(pfp_server::services::finchplaid::get_account_name(&plain), "official");
    let record =
        pfp_server::services::finchplaid::make_account_record("item".to_string(), &plain, &None);
    assert_eq!(record.account_name, "official");
    assert_eq!(record.known_account_id, None);
}

#[test]
fn accounts_are_asked_for_as_all_or_unhidden() {
    assert_eq!(all_or_unhidden(&"all".to_string()), Ok(true));
    assert_eq!(all_or_unhidden(&"unhidden".to_string()), Ok(false));
    let error = all_or_unhidden(&"hidden".to_string()).unwrap_err();
    assert_eq!(error.status(), 400);
    assert_eq!(error.text(), "Should request 'all' or 'unhidden', requested 'hidden'");
}

#[test]
fn plaid_allocation_is_all_in_a_depository_without_net_worth() {
    let accounts = vec![AccountSuccess {
        item_id: "i".to_string(),
        name: "broker".to_string(),
        balance: Decimal::new(250, 0),
        account_type: "investment".to_string(),
        account_id: "b".to_string(),
    }];
    for net_worth in [Decimal::new(0, 0), Decimal::new(-5, 0)] {
        let allocation =
            pfp_server::services::plans::get_plaid_allocation(&accounts, net_worth, NOW);
        assert_eq!(allocation.description, "Current Holdings");
        assert_eq!(allocation.date, NOW);
        assert_eq!(allocation.schema.len(), 1);
        assert_eq!(allocation.schema[0].asset.name, "depository");
        assert_eq!(allocation.schema[0].asset.class, AssetClass::Cash);
        assert_eq!(allocation.schema[0].proportion, Decimal::new(100, 0));
        assert_eq!(allocation.schema[0].asset.annualized_performance, Decimal::new(1, 0));
    }
    let held = pfp_server::services::plans::get_plaid_allocation(&accounts, Decimal::new(500, 0), NOW);
    assert_eq!(held.schema[0].asset.name, "broker");
    assert_eq!(held.schema[0].proportion, Decimal::new(50, 0));
    let taken = Snapshot::new(money(1), money(2), money(3), money(4), NOW);
    assert_eq!(taken, Snapshot::new_with_time(money(1), money(2), money(3), money(4), NOW));
    assert_eq!(taken.snapshot_time, NOW);
}

/// Progress as a float: the change over the threshold, 100 where the change is
/// exactly the threshold.
fn progress(goal: &Goal, snapshots: &Vec<Snapshot>) -> f64 {
    let (change, reached) = calculate_goal_change(goal, snapshots);
    if reached {
        return 100.0;
    }
    let float = |d: Decimal| d.mantissa() as f64 / 10f64.powi(d.scale() as i32);
    float(change) / float(goal.threshold)
}

#[test]
fn test_calculate_progress() {
    let saving_goal = Goal {
        id: None,
        name: "Save 100 Dollars".to_string(),
        start: 3,
        end: 10,
        threshold: Decimal::new(10000, 0), // dollars times 100
        metric: GoalMetrics::Savings,
    };

    let snapshots = vec![
        snapshot(0, 0, 0, 1),
        snapshot(0, 0, 0, 2),
        snapshot(0, 0, 0, 4),
        snapshot(5000, -1000, 0, 6),
        snapshot(5000, -1000, 0, 7),
        snapshot(5000, -1000, 0, 10),
        snapshot(5000, -21000, 0, 11),
    ];

    assert_eq!(0.5 as f64, progress(&saving_goal, &snapshots));

    let spending_goal = Goal {
        id: None,
        name: "Spend under 100 Dollars".to_string(),
        start: 5,
        end: 9,
        threshold: Decimal::new(-10000, 0), // dollars times 100
        metric: GoalMetrics::Spending,
    };

    assert_eq!(0.1 as f64, progress(&spending_goal, &snapshots));

    let spending_goal2 = Goal {
        id: None,
        name: "Spend under 100 Dollars".to_string(),
        start: 6,
        end: 12,
        threshold: Decimal::new(-10000, 0), // dollars times 100
        metric: GoalMetrics::Spending,
    };

    assert_eq!(2.1 as f64, progress(&spending_goal2, &snapshots));
}

#[test]
fn test_calculate_progress_no_snapshots() {
    let goal = Goal {
        id: None,
        name: "Spend under 100 Dollars".to_string(),
        start: 6,
        end: 12,
        threshold: Decimal::new(-10000, 0), // dollars times 100
        metric: GoalMetrics::Spending,
    };

    // no snapshots should complete successfully and return _no_ progress
    assert_eq!(0.0 as f64, progress(&goal, &vec![]));
}

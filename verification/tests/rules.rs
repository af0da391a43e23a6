use pfp_server::common::decimal::Decimal;
use pfp_server::common::errors::{ApiError, AppError};
use pfp_server::common::{ensure_id, Examples, Validation, ValidationError};
use pfp_server::controllers::goal_controller::{
    get_goal_examples, validate_goal_new_payload, GoalNewPayload,
};
use pfp_server::controllers::plans_controller::{PlanNewPayload, PlanUpdatePayload};
use pfp_server::controllers::recurring_controller::{
    get_recurring_examples, validate_recurring_new_payload, RecurringNewPayload,
};
use pfp_server::controllers::user_controller::{
    validate_validate_user_payload, LoginPayload, SignupPayload, SignupResponse, UpdatePayload,
    ValidateUserContentType, ValidateUserPayload,
};
use pfp_server::models::financial_product_model::{FinancialProduct, FinancialProductInfo};
use pfp_server::models::goal_model::GoalMetrics;
use pfp_server::models::insight_model::{Insight, InsightTypes};
use pfp_server::models::leaderboard_model::{BoardTypes, Ranking};
use pfp_server::models::plan_model::{
    transforms_asset_class_unique, Allocation, AllocationProportion, Asset, AssetClass,
    AssetClassChange, Event, Plan,
};
use pfp_server::models::recurring_model::{validate_recurring, Recurring, TimeInterval, Typ};
use pfp_server::models::user_model::{Location, Snapshot, User};
use pfp_server::services::plaid::{
    Client, Environment, LinkTokenCreateRequest, PublicTokenExchangeRequest,
};

// 2021-06-15 12:00:00 UTC
const NOW: i64 = 1_623_758_400;

fn recurring(start: i64, principal: i64, amount: i64, interest: i64) -> Recurring {
    Recurring {
        id: None,
        name: "r".to_string(),
        start,
        end: 10,
        principal: Decimal::new(principal, 0),
        amount: Decimal::new(amount, 0),
        interest: Decimal::new(interest, 0),
        frequency: TimeInterval::new(Typ::Monthly, 1),
    }
}

fn event(start: i64, classes: Vec<AssetClass>) -> Event {
    Event {
        id: None,
        name: "e".to_string(),
        start,
        transforms: classes
            .into_iter()
            .map(|class| AssetClassChange { class, change: Decimal::new(1, 0) })
            .collect(),
    }
}

fn allocation(proportion: i64) -> Allocation {
    Allocation {
        id: None,
        description: "a".to_string(),
        date: 0,
        schema: vec![AllocationProportion {
            asset: Asset {
                name: "x".to_string(),
                class: AssetClass::Cash,
                annualized_performance: Decimal::new(1, 0),
            },
            proportion: Decimal::new(proportion, 0),
        }],
    }
}

fn signup() -> SignupPayload {
    SignupPayload {
        email: "me@chucknorris.com".to_string(),
        password: "fafdfdf".to_string(),
        first_name: "first name".to_string(),
        last_name: "last name".to_string(),
        income: Decimal::new(1000, 0),
        location: Location::default(),
        birthday: "1970-01-01".to_string(),
    }
}

#[test]
fn test_signup_payload() {
    let birthday = "1970-01-01".to_string();
    let now = chrono::Utc::now().timestamp();

    assert_eq!(
        Ok(()),
        SignupPayload {
            email: "me@chucknorris.com".to_string(),
            password: "fafdfdf".to_string(),
            first_name: "first name".to_string(),
            last_name: "last name".to_string(),
            income: Decimal::new(1000, 0),
            location: Location::default(),
            birthday: birthday.clone(),
        }
        .validate(now)
    );

    // should fail on Negative Income
    assert!(SignupPayload {
        email: "me@chucknorris.com".to_string(),
        password: "fadfdfda".to_string(),
        first_name: "first name".to_string(),
        last_name: "last name".to_string(),
        income: Decimal::new(-1, 0),
        location: Location::default(),
        birthday: birthday.clone(),
    }
    .validate(now)
    .is_err());

    // fail on bad email
    assert!(SignupPayload {
        email: "bad email".to_string(),
        password: "".to_string(),
        first_name: "first name".to_string(),
        last_name: "last name".to_string(),
        income: Decimal::new(1000, 0),
        location: Location::default(),
        birthday: birthday.clone(),
    }
    .validate(now)
    .is_err());

    // fail on empty password
    assert!(SignupPayload {
        email: "me@chucknorris.com".to_string(),
        password: "".to_string(),
        first_name: "first name".to_string(),
        last_name: "last name".to_string(),
        income: Decimal::new(1000, 0),
        location: Location::default(),
        birthday: birthday.clone(),
    }
    .validate(now)
    .is_err());

    // eventually fail on empty name
    assert!(SignupPayload {
        email: "me@chucknorris.com".to_string(),
        password: "fadfdf".to_string(),
        first_name: "".to_string(),
        last_name: "".to_string(),
        income: Decimal::new(1000, 0),
        location: Location::default(),
        birthday: birthday.clone(),
    }
    .validate(now)
    .is_err());

    // fail on too young
    assert!(SignupPayload {
        email: "me@chucknorris.com".to_string(),
        password: "fadfdf".to_string(),
        first_name: "a".to_string(),
        last_name: "b".to_string(),
        income: Decimal::new(1000, 0),
        location: Location::default(),
        birthday: chrono::Utc::now().format("%Y-%m-%d").to_string(),
    }
    .validate(now)
    .is_err());
}

#[test]
fn signup_names_the_first_rule_that_is_broken() {
    assert_eq!(SignupPayload { email: "x".to_string(), ..signup() }.validate(NOW), Err("email".to_string()));
    assert_eq!(
        SignupPayload { first_name: String::new(), ..signup() }.validate(NOW),
        Err("length".to_string())
    );
    assert_eq!(
        SignupPayload { last_name: String::new(), ..signup() }.validate(NOW),
        Err("length".to_string())
    );
    assert_eq!(
        SignupPayload { income: Decimal::new(-1, 2), ..signup() }.validate(NOW),
        Err("Field must be at least 0".to_string())
    );
    assert_eq!(
        SignupPayload { birthday: "2015-01-01".to_string(), ..signup() }.validate(NOW),
        Err("Must be at least 13yo to sign up".to_string())
    );
}

#[test]
fn update_holds_only_what_is_given_against_the_rules() {
    let nothing = UpdatePayload {
        email: None,
        password: None,
        first_name: None,
        last_name: None,
        income: None,
        net_worth: None,
        location: None,
        birthday: None,
    };
    assert_eq!(nothing.validate(NOW), Ok(()));
    assert_eq!(
        UpdatePayload { email: Some("nope".to_string()), ..nothing }.validate(NOW),
        Err("email".to_string())
    );
    let nothing = UpdatePayload {
        email: Some("a@b.com".to_string()),
        password: Some("".to_string()),
        first_name: None,
        last_name: None,
        income: None,
        net_worth: None,
        location: None,
        birthday: None,
    };
    assert_eq!(nothing.validate(NOW), Err("length".to_string()));
}

#[test]
fn login_names_the_first_rule_that_is_broken() {
    let bad_mail =
        LoginPayload { email: "not an email".to_string(), password: "".to_string() };
    assert_eq!(bad_mail.validate(), Err("email".to_string()));
    let no_password =
        LoginPayload { email: "me@chucknorris.com".to_string(), password: "".to_string() };
    assert_eq!(no_password.validate(), Err("length".to_string()));
    let no_mail = LoginPayload { email: "".to_string(), password: "x".to_string() };
    assert_eq!(no_mail.validate(), Err("email".to_string()));
}

#[test]
fn single_fields_of_a_signup_are_looked_at() {
    let look = |field, content: &str| {
        validate_validate_user_payload(
            &ValidateUserPayload { field, content: content.to_string() },
            NOW,
        )
    };
    assert!(look(ValidateUserContentType::Email, "me@chucknorris.com").is_ok());
    assert_eq!(
        look(ValidateUserContentType::Email, "me").unwrap_err(),
        ValidationError::new("Email is invaid")
    );
    assert!(look(ValidateUserContentType::Password, "12345678").is_ok());
    assert!(look(ValidateUserContentType::Password, "äöüäöüäö").is_ok());
    assert_eq!(
        look(ValidateUserContentType::Password, "1234567").unwrap_err().code,
        "Password must be at least 8 characters long"
    );
    assert!(look(ValidateUserContentType::Birthday, "1990-02-03").is_ok());
    assert_eq!(
        look(ValidateUserContentType::Birthday, "1990").unwrap_err().code,
        "invalid birthday format. Expected YYYY-mm-dd"
    );
}

#[test]
fn recurring_is_of_one_kind() {
    assert!(validate_recurring(&recurring(0, 0, 5, 0)).is_ok());
    assert!(validate_recurring(&recurring(0, 5, 0, 0)).is_ok());
    assert!(validate_recurring(&recurring(0, 5, 0, 3)).is_ok());
    assert!(validate_recurring(&recurring(0, 0, 0, 0)).is_err());
    assert!(validate_recurring(&recurring(0, 0, 5, 3)).is_err());
    assert_eq!(
        validate_recurring(&recurring(0, 5, 5, 0)).unwrap_err().code,
        "Only one of Principal and Amount can be non-zeroand Interest must be zero if Amount is non-zero."
    );
}

#[test]
fn recurring_names_the_first_rule_that_is_broken() {
    assert_eq!(recurring(-1, 5, 5, -1).validate(), Err("range".to_string()));
    assert_eq!(recurring(0, 5, 5, -1).validate(), Err("Field must be at least 0".to_string()));
    assert!(recurring(0, 5, 5, 0).validate().unwrap_err().starts_with("Only one of"));
    let mut late = recurring(0, 5, 0, 0);
    late.end = -5;
    assert_eq!(late.validate(), Err("range".to_string()));
}

#[test]
fn stated_recurring_is_held_against_the_same_rules() {
    let stated = RecurringNewPayload {
        name: "r".to_string(),
        start: 0,
        end: 10,
        principal: Decimal::new(5, 0),
        amount: Decimal::new(5, 0),
        interest: Decimal::new(0, 0),
        frequency: TimeInterval::new(Typ::Daily, 1),
    };
    assert!(validate_recurring_new_payload(&stated).is_err());
    assert!(stated.validate().is_err());
    let good = RecurringNewPayload { amount: Decimal::new(0, 0), ..stated.clone() };
    assert_eq!(good.validate(), Ok(()));
    assert_eq!(
        RecurringNewPayload { start: -1, ..good.clone() }.validate(),
        Err("range".to_string())
    );
    let made = good.clone().into_recurring();
    assert_eq!(made.id, None);
    assert_eq!(made.name, "r");
    assert_eq!(made.principal, Decimal::new(5, 0));
    assert_eq!(made.frequency, TimeInterval::new(Typ::Daily, 1));
    let examples = get_recurring_examples();
    assert_eq!(examples.len(), 2);
    assert_eq!(examples[0].name, "Unemployment Benefits");
    assert_eq!(examples[0].amount, Decimal::new(300, 0));
    assert_eq!(examples[1].amount, Decimal::new(-60, 0));
    assert!(examples.iter().all(|e| e.validate().is_ok()));
}

#[test]
fn event_names_the_first_rule_that_is_broken() {
    assert_eq!(event(-1, vec![AssetClass::Cash, AssetClass::Cash]).validate(), Err("range".to_string()));
    assert_eq!(
        event(0, vec![AssetClass::Cash, AssetClass::Equity, AssetClass::Cash]).validate(),
        Err("At most one AssetClassChange allowed per Asset Class".to_string())
    );
    assert!(transforms_asset_class_unique(&vec![]).is_ok());
    assert!(event(
        0,
        vec![AssetClass::Custom("a".to_string()), AssetClass::Custom("b".to_string())]
    )
    .validate()
    .is_ok());
    assert!(event(
        0,
        vec![AssetClass::Custom("a".to_string()), AssetClass::Custom("a".to_string())]
    )
    .validate()
    .is_err());
}

#[test]
fn asset_classes_are_the_same_by_kind_and_name() {
    assert!(AssetClass::Etf.same(&AssetClass::Etf));
    assert!(!AssetClass::Etf.same(&AssetClass::Fixed));
    assert!(AssetClass::Custom("a".to_string()).same(&AssetClass::Custom("a".to_string())));
    assert!(!AssetClass::Custom("a".to_string()).same(&AssetClass::Custom("b".to_string())));
    assert!(!AssetClass::Custom("Cash".to_string()).same(&AssetClass::Cash));
    assert_eq!(AssetClass::MutualFund.clone(), AssetClass::MutualFund);
}

#[test]
fn share_of_an_allocation_is_a_percentage() {
    let share = |proportion| AllocationProportion {
        asset: Asset {
            name: "x".to_string(),
            class: AssetClass::Cash,
            annualized_performance: Decimal::new(1, 0),
        },
        proportion,
    };
    assert!(share(Decimal::new(0, 0)).validate().is_ok());
    assert!(share(Decimal::new(100, 0)).validate().is_ok());
    assert_eq!(
        share(Decimal::new(1001, 1)).validate(),
        Err("Field must be between 0 and 100".to_string())
    );
}

#[test]
fn default_allocation_is_all_cash() {
    let allocation = Allocation::default();
    assert_eq!(allocation.description, "default");
    assert_eq!(allocation.date, 0);
    assert_eq!(allocation.schema.len(), 1);
    assert_eq!(allocation.schema[0].asset.class, AssetClass::Cash);
    assert_eq!(allocation.schema[0].asset.name, "Cash");
    assert_eq!(allocation.schema[0].proportion, Decimal::new(100, 0));
    assert_eq!(allocation.schema[0].asset.annualized_performance, Decimal::new(0, 0));
    assert!(allocation.validate().is_ok());
}

#[test]
fn stated_plan_needs_an_allocation() {
    let stated = |recurrings, allocations, events| PlanNewPayload {
        name: "p".to_string(),
        recurrings,
        allocations,
        events,
    };
    assert_eq!(stated(vec![], vec![allocation(100)], vec![]).validate(), Ok(()));
    // the allocations themselves are not looked into
    assert_eq!(stated(vec![], vec![allocation(5)], vec![]).validate(), Ok(()));
    assert_eq!(stated(vec![], vec![], vec![]).validate(), Err("length".to_string()));
    assert_eq!(
        stated(vec![recurring(0, 5, 0, 0), recurring(-1, 5, 0, 0)], vec![], vec![]).validate(),
        Err("range".to_string())
    );
    assert!(stated(vec![], vec![allocation(100)], vec![event(0, vec![AssetClass::Cash; 2])])
        .validate()
        .is_err());
    let plan = stated(vec![recurring(0, 5, 0, 0)], vec![allocation(100)], vec![]).into_plan();
    assert_eq!(plan.id, None);
    assert_eq!(plan.name, "p");
    assert_eq!(plan.recurrings.len(), 1);
    assert_eq!(plan.allocations.len(), 1);
}

#[test]
fn plan_update_replaces_what_it_gives() {
    let plan = Plan {
        id: Some("abc".to_string()),
        name: "old".to_string(),
        recurrings: vec![recurring(0, 5, 0, 0)],
        allocations: vec![allocation(100)],
        events: vec![event(0, vec![])],
    };
    let nothing =
        PlanUpdatePayload { name: None, recurrings: None, allocations: None, events: None };
    assert_eq!(nothing.validate(), Ok(()));
    let same = nothing.apply(plan.clone());
    assert_eq!(same.name, "old");
    assert_eq!(same.recurrings.len(), 1);
    let update = PlanUpdatePayload {
        name: Some("new".to_string()),
        recurrings: Some(vec![]),
        allocations: Some(vec![allocation(50), allocation(50)]),
        events: None,
    };
    assert_eq!(update.validate(), Ok(()));
    let updated = update.apply(plan);
    assert_eq!(updated.id, Some("abc".to_string()));
    assert_eq!(updated.name, "new");
    assert!(updated.recurrings.is_empty());
    assert_eq!(updated.allocations.len(), 2);
    assert_eq!(updated.events.len(), 1);
    let bad = PlanUpdatePayload {
        name: None,
        recurrings: Some(vec![recurring(0, 5, 5, 0)]),
        allocations: None,
        events: None,
    };
    assert!(bad.validate().is_err());
}

#[test]
fn plan_gets_ids_where_it_has_none() {
    let plan = Plan {
        id: None,
        name: "p".to_string(),
        recurrings: vec![recurring(0, 5, 0, 0), Recurring { id: Some("kept".to_string()), ..recurring(0, 5, 0, 0) }],
        allocations: vec![allocation(100)],
        events: vec![event(0, vec![]), event(0, vec![])],
    };
    let fresh: Vec<String> = (0..6).map(|i| format!("id{}", i)).collect();
    let plan = plan.ensure_ids(&fresh);
    assert_eq!(plan.id, Some("id0".to_string()));
    assert_eq!(plan.recurrings[0].id, Some("id1".to_string()));
    assert_eq!(plan.recurrings[1].id, Some("kept".to_string()));
    assert_eq!(plan.allocations[0].id, Some("id3".to_string()));
    assert_eq!(plan.events[0].id, Some("id4".to_string()));
    assert_eq!(plan.events[1].id, Some("id5".to_string()));
    let mut id = Some("own".to_string());
    ensure_id(&mut id, &"fresh".to_string());
    assert_eq!(id, Some("own".to_string()));
    let mut id = None;
    ensure_id(&mut id, &"fresh".to_string());
    assert_eq!(id, Some("fresh".to_string()));
}

#[test]
fn stated_goal_starts_before_it_ends() {
    let stated = |start, end| GoalNewPayload {
        name: "g".to_string(),
        start,
        end,
        threshold: -10000,
        metric: GoalMetrics::Spending,
    };
    assert!(validate_goal_new_payload(&stated(1, 2)).is_ok());
    assert_eq!(
        validate_goal_new_payload(&stated(2, 2)).unwrap_err().code,
        "Start time of Goal should be strictly before End time."
    );
    assert!(stated(3, 2).validate().is_err());
    assert_eq!(stated(1, 2).validate(), Ok(()));
    let goal = stated(1, 2).into_goal();
    assert_eq!(goal.id, None);
    assert_eq!(goal.threshold, Decimal::new(-10000, 0));
    assert_eq!(goal.metric, GoalMetrics::Spending);
    let examples = get_goal_examples();
    assert_eq!(examples.len(), 2);
    assert_eq!(examples[0].name, "Save 100 Dollars");
    assert_eq!(examples[1].threshold, -10000);
    assert!(examples.iter().all(|e| e.start == 1609977600 && e.end == 1617753600));
}

#[test]
fn location_lies_on_the_globe() {
    let at = |lat, lon| Location { has_location: true, lat: Decimal::new(lat, 1), lon: Decimal::new(lon, 1) };
    assert!(Location::default().validate().is_ok());
    assert!(!Location::default().has_location);
    assert!(at(900, -1800).validate().is_ok());
    assert_eq!(at(901, 0).validate(), Err("range".to_string()));
    assert!(at(-901, 0).validate().is_err());
    assert!(at(0, 1801).validate().is_err());
    assert!(at(0, -1801).validate().is_err());
}

#[test]
fn api_error_keeps_code_and_message() {
    let error = ApiError::new(404, "gone".to_string());
    assert_eq!(error.status(), 404);
    assert_eq!(error.text(), "gone");
    assert_eq!(error.clone(), error);
    let inner = AppError::new("broken").into_api_error();
    assert_eq!(inner, ApiError::new(500, "broken".to_string()));
}

#[test]
fn insight_examples_are_two() {
    let examples = Insight::examples(NOW);
    assert_eq!(examples.len(), 2);
    assert_eq!(examples[0].title, "Wealthfront Cash Account");
    assert_eq!(examples[0].insight_type, InsightTypes::ProductRecommendation);
    assert!(examples[0].image.as_ref().unwrap().starts_with("https://theme.zdassets.com/"));
    assert_eq!(examples[1].title, "Savings Insight");
    assert_eq!(
        examples[1].description,
        "You are saving more per month than 63% of users in your income bracket!"
    );
    assert_eq!(examples[1].image, None);
    assert!(examples.iter().all(|e| !e.dismissed && e.generation_time == NOW && e.id.is_none()));
    let incomplete = Insight::incomplete(NOW);
    assert_eq!(incomplete.insight_type, InsightTypes::Incomplete);
    assert_eq!(incomplete.title, "");
    assert_eq!(incomplete.generation_time, NOW);
}

#[test]
fn defaults_are_savings_and_zero() {
    assert_eq!(BoardTypes::default(), BoardTypes::Savings);
    let ranking = Ranking::default();
    assert_eq!(ranking.leaderboard_type, BoardTypes::Savings);
    assert_eq!(ranking.percentile, Decimal::new(0, 0));
    assert_eq!(ranking.description, "");
    assert_eq!(ranking.generation_time, 0);
    let made = Ranking::new(BoardTypes::Income, Decimal::new(5, 1), "d".to_string(), NOW);
    assert_eq!(made.generation_time, NOW);
    assert_eq!(made.clone(), made);
    let snapshot = Snapshot::default();
    assert_eq!(snapshot.snapshot_time, 0);
    assert_eq!(snapshot.net_worth.amount, Decimal::new(0, 0));
    let product = FinancialProduct::new(
        "n",
        "d",
        vec!["perk".to_string()],
        None,
        Some("img".to_string()),
        FinancialProductInfo::Loan,
    );
    assert_eq!(product.name, "n");
    assert_eq!(product.description, "d");
    assert_eq!(product.perks, vec!["perk".to_string()]);
    assert_eq!(product.url, None);
    assert_eq!(product.image_url, Some("img".to_string()));
    assert_eq!(product.product_info, FinancialProductInfo::Loan);
}

#[test]
fn signup_response_is_taken_from_the_user() {
    let user = User {
        id: None,
        email: "e".to_string(),
        password: "p".to_string(),
        first_name: "f".to_string(),
        last_name: "l".to_string(),
        income: Decimal::new(7, 0),
        net_worth: Decimal::new(8, 0),
        location: Location::default(),
        birthday: "b".to_string(),
        accounts: vec![],
        account_records: vec![],
        snapshots: vec![],
        recurrings: vec![],
        goals: vec![],
        insights: vec![],
        plans: vec![],
    };
    let response = SignupResponse::new(user);
    assert_eq!(
        response,
        SignupResponse {
            email: "e".to_string(),
            first_name: "f".to_string(),
            last_name: "l".to_string(),
            income: Decimal::new(7, 0),
            location: Location::default(),
        }
    );
}

#[test]
fn plaid_hosts_are_named_after_the_environment() {
    assert_eq!(Environment::Sandbox.to_plaid_host(), "https://sandbox.plaid.com");
    assert_eq!(Environment::Development.to_plaid_host(), "https://development.plaid.com");
    assert_eq!(Environment::Production.to_plaid_host(), "https://production.plaid.com");
    assert_eq!(
        Environment::Sandbox.to_plaid_host_with_endpoint("/link/token/create"),
        "https://sandbox.plaid.com/link/token/create"
    );
}

#[test]
fn plaid_requests_are_filled_in_from_the_client() {
    let client = Client {
        client_id: "id".to_string(),
        secret: "secret".to_string(),
        client_name: "finch".to_string(),
        environment: Environment::Development,
    };
    let request = LinkTokenCreateRequest::with_user_id("user");
    assert_eq!(request.user.client_user_id, "user");
    assert_eq!(request.client_id, None);
    assert_eq!(request.language, "en");
    assert_eq!(request.country_codes, vec!["US".to_string()]);
    assert_eq!(request.products, vec!["transactions".to_string(), "auth".to_string()]);
    let mut own = LinkTokenCreateRequest::with_user_id("user");
    own.secret = Some("own".to_string());
    let sent = client.link_token_create(own);
    assert_eq!(sent.client_id, Some("id".to_string()));
    assert_eq!(sent.secret, Some("own".to_string()));
    assert_eq!(sent.client_name, Some("finch".to_string()));
    assert_eq!(sent.user.client_user_id, "user");
    let exchange = client.public_token_exchange(PublicTokenExchangeRequest {
        client_id: Some("other".to_string()),
        secret: None,
        public_token: "token".to_string(),
    });
    assert_eq!(exchange.client_id, Some("other".to_string()));
    assert_eq!(exchange.secret, Some("secret".to_string()));
    assert_eq!(exchange.public_token, "token");
    assert_eq!(
        client.address("/item/public_token/exchange"),
        "https://development.plaid.com/item/public_token/exchange"
    );
}

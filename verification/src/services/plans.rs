//! The plan of a user, the plans that stand in where there is none, and the
//! allocation that linked accounts amount to.

use crate::common::decimal::{value_div, value_mul, Decimal};
use crate::common::views;
use crate::controllers::plaid_controller::{AccountSuccess, AccountView};
use crate::controllers::timeseries_controller::TimeseriesResponse;
use crate::models::plan_model::{
    Allocation, AllocationProportion, AllocationView, Asset, AssetClass, AssetClassAndApy,
    AssetClassChange, AssetClassView, ChangeView, Event, EventView, Plan, PlanView, ProportionView,
};
use crate::models::recurring_model::{Recurring, RecurringView, TimeInterval, Typ};
use vstd::prelude::*;
use vstd::string::StringExecFns;

verus! {

/// A plan together with the series it projects.
#[derive(Debug)]
pub struct PlanResponse {
    pub plan: Plan,
    pub timeseries: TimeseriesResponse,
}

/// The plan that a user without plans is shown: everything in dollars that
/// grow by one percent a year, from `now` on.
pub open spec fn cash_plan(now: int) -> PlanView {
    PlanView {
        id: None,
        name: "Your default Plan"@,
        recurrings: Seq::empty(),
        allocations: seq![
            AllocationView {
                id: None,
                description: "Just cash!"@,
                date: now,
                schema: seq![
                    ProportionView {
                        name: "Dollars"@,
                        class: AssetClassView::Cash,
                        annualized_performance: (101int, 2nat),
                        proportion: (100int, 0nat),
                    },
                ],
            },
        ],
        events: Seq::empty(),
    }
}

/// The first plan of a user, and the cash plan as of `now` where there is
/// none.
pub fn get_user_plan(plans: &Vec<Plan>, now: i64) -> (plan: Plan)
    ensures
        plan@ == if plans@.len() < 1 {
            cash_plan(now as int)
        } else {
            plans@[0]@
        },
{
    if plans.len() < 1 {
        let mut schema: Vec<AllocationProportion> = Vec::new();
        schema.push(
            AllocationProportion {
                asset: Asset {
                    name: String::from_str("Dollars"),
                    class: AssetClass::Cash,
                    annualized_performance: Decimal::new(101, 2),
                },
                proportion: Decimal::new(100, 0),
            },
        );
        let alloc = Allocation {
            id: None,
            description: String::from_str("Just cash!"),
            date: now,
            schema,
        };
        let mut allocations: Vec<Allocation> = Vec::new();
        allocations.push(alloc);
        let plan = Plan {
            id: None,
            name: String::from_str("Your default Plan"),
            recurrings: Vec::new(),
            events: Vec::new(),
            allocations,
        };
        proof {
            let expected = cash_plan(now as int);
            assert(plan@.allocations[0].schema =~= expected.allocations[0].schema);
            assert(plan@.allocations =~= expected.allocations);
            assert(plan@.recurrings =~= expected.recurrings);
            assert(plan@.events =~= expected.events);
        }
        plan
    } else {
        plans[0].clone()
    }
}

/// The sample plan as of `now`: a monthly recurring of nothing, a savings
/// account that grows by five percent a year, and an event that lifts equity by
/// ten percent.
pub open spec fn sample_plan(now: int) -> PlanView {
    PlanView {
        id: None,
        name: "Test Plan"@,
        recurrings: seq![
            RecurringView {
                id: None,
                name: "Test Recurring"@,
                start: now,
                end: now,
                principal: (0int, 1nat),
                amount: (0int, 1nat),
                interest: (0int, 1nat),
                frequency: TimeInterval { typ: Typ::Monthly, content: 1 },
            },
        ],
        allocations: seq![
            AllocationView {
                id: None,
                description: "A Test Allocation"@,
                date: now,
                schema: seq![
                    ProportionView {
                        name: "Finch Savings Account"@,
                        class: AssetClassView::Cash,
                        annualized_performance: (105int, 2nat),
                        proportion: (1000int, 1nat),
                    },
                ],
            },
        ],
        events: seq![
            EventView {
                id: None,
                name: "Test Event"@,
                start: now,
                transforms: seq![ChangeView { class: AssetClassView::Equity, change: (100int, 1nat) }],
            },
        ],
    }
}

/// The sample plan as of `now`.
pub fn generate_sample_plan(now: i64) -> (plan: Plan)
    ensures
        plan@ == sample_plan(now as int),
{
    let mut recurrings: Vec<Recurring> = Vec::new();
    recurrings.push(
        Recurring {
            id: None,
            name: String::from_str("Test Recurring"),
            start: now,
            end: now,
            principal: Decimal::new(0, 1),
            amount: Decimal::new(0, 1),
            interest: Decimal::new(0, 1),
            frequency: TimeInterval { typ: Typ::Monthly, content: 1 },
        },
    );
    let savings_account = Asset {
        name: String::from_str("Finch Savings Account"),
        class: AssetClass::Cash,
        annualized_performance: Decimal::new(105, 2),
    };
    let share = AllocationProportion { asset: savings_account, proportion: Decimal::new(1000, 1) };
    let mut schema: Vec<AllocationProportion> = Vec::new();
    schema.push(share);
    let allocation = Allocation {
        id: None,
        description: String::from_str("A Test Allocation"),
        date: now,
        schema,
    };
    let mut allocations: Vec<Allocation> = Vec::new();
    allocations.push(allocation);
    let mut transforms: Vec<AssetClassChange> = Vec::new();
    transforms.push(AssetClassChange { class: AssetClass::Equity, change: Decimal::new(100, 1) });
    let mut events: Vec<Event> = Vec::new();
    events.push(Event { id: None, name: String::from_str("Test Event"), start: now, transforms });
    let plan = Plan {
        id: None,
        name: String::from_str("Test Plan"),
        recurrings,
        allocations,
        events,
    };
    proof {
        let expected = sample_plan(now as int);
        assert(plan@.allocations[0].schema =~= expected.allocations[0].schema);
        assert(plan@.events[0].transforms =~= expected.events[0].transforms);
        assert(plan@.allocations =~= expected.allocations);
        assert(plan@.recurrings =~= expected.recurrings);
        assert(plan@.events =~= expected.events);
    }
    plan
}

/// The plan that a projection runs on: the first plan of the user, or the
/// sample plan as of `now` where there is none, with the user's own recurrings
/// behind those of the plan.
pub open spec fn projection_plan(plans: Seq<Plan>, recurrings: Seq<Recurring>, now: int) -> PlanView {
    let base = if plans.len() > 0 {
        plans[0]@
    } else {
        sample_plan(now)
    };
    PlanView { recurrings: base.recurrings + views(recurrings), ..base }
}

/// The plan that a projection for a user runs on.
pub fn plan_for_projection(plans: &Vec<Plan>, recurrings: &Vec<Recurring>, now: i64) -> (plan: Plan)
    ensures
        plan@ == projection_plan(plans@, recurrings@, now as int),
{
    let mut plan = if plans.len() > 0 {
        plans[0].clone()
    } else {
        generate_sample_plan(now)
    };
    let ghost base = plan@;
    let mut own = recurrings.clone();
    assert(views(own@) =~= views(recurrings@));
    plan.recurrings.append(&mut own);
    assert(plan@.recurrings =~= base.recurrings + views(recurrings@));
    plan
}

/// An event as the rules see it.
pub open spec fn event_of(name: Seq<char>, start: int, transforms: Seq<ChangeView>) -> EventView {
    EventView { id: None, name, start, transforms }
}

/// A change to an asset class as the rules see it.
pub open spec fn change_of(class: AssetClassView, mantissa: int, scale: nat) -> ChangeView {
    ChangeView { class, change: (mantissa, scale) }
}

/// The sample events as of `now`: a pandemic, a run on meme stocks, a bull
/// market and a hyperinflation.
pub open spec fn sample_events(now: int) -> Seq<EventView> {
    seq![
        event_of(
            "COVID-19"@,
            now,
            seq![
                change_of(AssetClassView::Equity, -300, 1),
                change_of(AssetClassView::Etf, -250, 1),
                change_of(AssetClassView::MutualFund, -220, 1),
            ],
        ),
        event_of(
            "Meme Stocks Pop Off"@,
            now,
            seq![change_of(AssetClassView::Equity, 4000, 1)],
        ),
        event_of(
            "Bull Market"@,
            now,
            seq![
                change_of(AssetClassView::Equity, 2000, 1),
                change_of(AssetClassView::Etf, 1400, 1),
                change_of(AssetClassView::MutualFund, 1600, 1),
                change_of(AssetClassView::Fixed, -5, 1),
                change_of(AssetClassView::Cash, -20, 1),
            ],
        ),
        event_of(
            "Zimbabwe Inflation"@,
            now,
            seq![change_of(AssetClassView::Cash, -9999, 2)],
        ),
    ]
}

/// One change to an asset class.
fn change(class: AssetClass, mantissa: i64, scale: u32) -> (r: AssetClassChange)
    requires
        scale <= 28,
    ensures
        r@ == change_of(class@, mantissa as int, scale as nat),
{
    AssetClassChange { class, change: Decimal::new(mantissa, scale) }
}

/// The sample events as of `now`.
pub fn generate_sample_events(now: i64) -> (events: Vec<Event>)
    ensures
        views(events@) == sample_events(now as int),
{
    let mut covid: Vec<AssetClassChange> = Vec::new();
    covid.push(change(AssetClass::Equity, -300, 1));
    covid.push(change(AssetClass::Etf, -250, 1));
    covid.push(change(AssetClass::MutualFund, -220, 1));
    let mut meme: Vec<AssetClassChange> = Vec::new();
    meme.push(change(AssetClass::Equity, 4000, 1));
    let mut bull: Vec<AssetClassChange> = Vec::new();
    bull.push(change(AssetClass::Equity, 2000, 1));
    bull.push(change(AssetClass::Etf, 1400, 1));
    bull.push(change(AssetClass::MutualFund, 1600, 1));
    bull.push(change(AssetClass::Fixed, -5, 1));
    bull.push(change(AssetClass::Cash, -20, 1));
    let mut inflation: Vec<AssetClassChange> = Vec::new();
    inflation.push(change(AssetClass::Cash, -9999, 2));
    let mut events: Vec<Event> = Vec::new();
    events.push(
        Event { id: None, name: String::from_str("COVID-19"), start: now, transforms: covid },
    );
    events.push(
        Event {
            id: None,
            name: String::from_str("Meme Stocks Pop Off"),
            start: now,
            transforms: meme,
        },
    );
    events.push(
        Event { id: None, name: String::from_str("Bull Market"), start: now, transforms: bull },
    );
    events.push(
        Event {
            id: None,
            name: String::from_str("Zimbabwe Inflation"),
            start: now,
            transforms: inflation,
        },
    );
    proof {
        let expected = sample_events(now as int);
        assert(events@[0]@.transforms =~= expected[0].transforms);
        assert(events@[1]@.transforms =~= expected[1].transforms);
        assert(events@[2]@.transforms =~= expected[2].transforms);
        assert(events@[3]@.transforms =~= expected[3].transforms);
        assert(views(events@) =~= expected);
    }
    events
}

/// The asset classes that have a yearly rate by default, with that rate.
pub open spec fn default_apys() -> Seq<(AssetClassView, (int, nat))> {
    seq![
        (AssetClassView::Cash, (100int, 2nat)),
        (AssetClassView::Equity, (105int, 2nat)),
        (AssetClassView::Etf, (110int, 2nat)),
        (AssetClassView::Fixed, (102int, 2nat)),
        (AssetClassView::MutualFund, (120int, 2nat)),
    ]
}

impl View for AssetClassAndApy {
    type V = (AssetClassView, (int, nat));

    open spec fn view(&self) -> (AssetClassView, (int, nat)) {
        (self.class@, self.apy@)
    }
}

/// The asset classes that have a yearly rate by default, with that rate.
pub fn get_asset_classes_and_default_apys() -> (table: Vec<AssetClassAndApy>)
    ensures
        views(table@) == default_apys(),
{
    let mut table: Vec<AssetClassAndApy> = Vec::new();
    table.push(AssetClassAndApy { class: AssetClass::Cash, apy: Decimal::new(100, 2) });
    table.push(AssetClassAndApy { class: AssetClass::Equity, apy: Decimal::new(105, 2) });
    table.push(AssetClassAndApy { class: AssetClass::Etf, apy: Decimal::new(110, 2) });
    table.push(AssetClassAndApy { class: AssetClass::Fixed, apy: Decimal::new(102, 2) });
    table.push(AssetClassAndApy { class: AssetClass::MutualFund, apy: Decimal::new(120, 2) });
    assert(views(table@) =~= default_apys());
    table
}

/// The asset class that an account of the given type counts as: cash for a
/// depository, equity for an investment, none for any other.
pub open spec fn class_of_account(account_type: Seq<char>) -> Option<AssetClassView> {
    if account_type == "depository"@ {
        Some(AssetClassView::Cash)
    } else if account_type == "investment"@ {
        Some(AssetClassView::Equity)
    } else {
        None
    }
}

/// The yearly rate that the table holds for the class: that of the last entry
/// for it, and 1.0 where there is none.
pub open spec fn rate_in(table: Seq<(AssetClassView, (int, nat))>, class: AssetClassView) -> (
    int,
    nat,
)
    decreases table.len(),
{
    if table.len() == 0 {
        (10int, 1nat)
    } else if table.last().0 == class {
        table.last().1
    } else {
        rate_in(table.drop_last(), class)
    }
}

/// The share that an account holds of `net_worth`, if its type counts: its
/// balance over net worth, times 100, at the default rate of its class.
pub open spec fn share_of_account(account: AccountView, net_worth: (int, nat)) -> Option<
    ProportionView,
> {
    match class_of_account(account.account_type) {
        Some(class) => Some(
            ProportionView {
                name: account.name,
                class,
                annualized_performance: rate_in(default_apys(), class),
                proportion: value_mul(value_div(account.balance, net_worth), (1000int, 1nat)),
            },
        ),
        None => None,
    }
}

/// The shares of the accounts whose type counts, in the order of the accounts.
pub open spec fn shares_of_accounts(accounts: Seq<AccountView>, net_worth: (int, nat)) -> Seq<
    ProportionView,
>
    decreases accounts.len(),
{
    if accounts.len() == 0 {
        Seq::empty()
    } else {
        match share_of_account(accounts.last(), net_worth) {
            Some(share) => shares_of_accounts(accounts.drop_last(), net_worth).push(share),
            None => shares_of_accounts(accounts.drop_last(), net_worth),
        }
    }
}

/// The yearly rate that the table holds for the class, and 1.0 where it holds
/// none.
fn default_rate(table: &Vec<AssetClassAndApy>, class: &AssetClass) -> (rate: Decimal)
    ensures
        rate@ == rate_in(views(table@), class@),
{
    let ghost all = views(table@);
    let mut i: usize = table.len();
    assert(all.take(i as int) =~= all);
    while i > 0
        invariant
            i <= table.len(),
            all == views(table@),
            rate_in(all, class@) == rate_in(all.take(i as int), class@),
        decreases i,
    {
        i -= 1;
        proof {
            assert(all.take(i + 1).drop_last() =~= all.take(i as int));
            assert(all.take(i + 1).last() == all[i as int]);
        }
        if table[i].class.same(class) {
            return table[i].apy;
        }
    }
    Decimal::new(10, 1)
}

/// The allocation that the accounts amount to as of `now`: one share for each
/// depository and each investment account, by its part in `net_worth`.
pub fn generate_plaid_allocation(accounts: &Vec<AccountSuccess>, net_worth: Decimal, now: i64) -> (allocation:
    Allocation)
    ensures
        allocation@ == (AllocationView {
            id: None,
            description: "Current Holdings"@,
            date: now as int,
            schema: shares_of_accounts(views(accounts@), net_worth@),
        }),
{
    let table = get_asset_classes_and_default_apys();
    let depository = String::from_str("depository");
    let investment = String::from_str("investment");
    let ghost all = views(accounts@);
    let mut schema: Vec<AllocationProportion> = Vec::new();
    let mut i: usize = 0;
    assert(views(schema@) =~= shares_of_accounts(all.take(0), net_worth@));
    while i < accounts.len()
        invariant
            i <= accounts.len(),
            all == views(accounts@),
            views(table@) == default_apys(),
            depository@ == "depository"@,
            investment@ == "investment"@,
            views(schema@) == shares_of_accounts(all.take(i as int), net_worth@),
        decreases accounts.len() - i,
    {
        let account = &accounts[i];
        proof {
            assert(all.take(i + 1).drop_last() =~= all.take(i as int));
            assert(all.take(i + 1).last() == all[i as int]);
        }
        let asset_class = if account.account_type.eq(&depository) {
            Some(AssetClass::Cash)
        } else if account.account_type.eq(&investment) {
            Some(AssetClass::Equity)
        } else {
            None
        };
        match asset_class {
            Some(class) => {
                let performance = default_rate(&table, &class);
                let ghost before = views(schema@);
                schema.push(
                    AllocationProportion {
                        asset: Asset {
                            name: account.name.clone(),
                            class,
                            annualized_performance: performance,
                        },
                        proportion: account.balance.div(net_worth).mul(Decimal::new(1000, 1)),
                    },
                );
                assert(views(schema@) =~= before.push(
                    share_of_account(all[i as int], net_worth@).unwrap(),
                ));
            },
            None => {},
        }
        i += 1;
    }
    proof {
        assert(all.take(i as int) =~= all);
    }
    Allocation { id: None, description: String::from_str("Current Holdings"), date: now, schema }
}

/// What stands in for the holdings of a user without net worth: everything in
/// a depository that neither grows nor shrinks.
pub open spec fn no_holdings() -> Seq<ProportionView> {
    seq![
        ProportionView {
            name: "depository"@,
            class: AssetClassView::Cash,
            annualized_performance: (10int, 1nat),
            proportion: (1000int, 1nat),
        },
    ]
}

/// The allocation that the accounts of a user amount to as of `now`: by their
/// parts in `net_worth` where that is positive, else all in a depository.
pub fn get_plaid_allocation(accounts: &Vec<AccountSuccess>, net_worth: Decimal, now: i64) -> (allocation:
    Allocation)
    ensures
        allocation@ == (AllocationView {
            id: None,
            description: "Current Holdings"@,
            date: now as int,
            schema: if net_worth@.0 > 0 {
                shares_of_accounts(views(accounts@), net_worth@)
            } else {
                no_holdings()
            },
        }),
{
    if !net_worth.is_negative() && !net_worth.is_zero() {
        generate_plaid_allocation(accounts, net_worth, now)
    } else {
        let mut schema: Vec<AllocationProportion> = Vec::new();
        schema.push(
            AllocationProportion {
                asset: Asset {
                    name: String::from_str("depository"),
                    class: AssetClass::Cash,
                    annualized_performance: Decimal::new(10, 1),
                },
                proportion: Decimal::new(1000, 1),
            },
        );
        let allocation = Allocation {
            id: None,
            description: String::from_str("Current Holdings"),
            date: now,
            schema,
        };
        assert(allocation@.schema =~= no_holdings());
        allocation
    }
}

} // verus!

//! Plans: recurring cash flows, dated asset allocations and one-time events.

use crate::common::decimal::Decimal;
use crate::common::{
    allocation_schema_sum_around_100, decimal_between_zero_or_hundred, ensure_id, ensured, finding,
    is_percentage, sums_to_about_100, verdict, views, Validation, ValidationError,
};
use crate::common::text::{copy_of, text_of};
use crate::models::recurring_model::{Recurring, RecurringView};
use vstd::prelude::*;
use vstd::string::StringExecFns;

verus! {

/// A class of assets.
#[derive(Debug, PartialEq, Eq, Hash)]
pub enum AssetClass {
    Cash,
    Equity,
    Etf,
    Fixed,
    MutualFund,
    Other,
    Custom(String),
}

/// An asset class as the rules see it: a custom class is its name.
pub enum AssetClassView {
    Cash,
    Equity,
    Etf,
    Fixed,
    MutualFund,
    Other,
    Custom(Seq<char>),
}

impl View for AssetClass {
    type V = AssetClassView;

    open spec fn view(&self) -> AssetClassView {
        match self {
            AssetClass::Cash => AssetClassView::Cash,
            AssetClass::Equity => AssetClassView::Equity,
            AssetClass::Etf => AssetClassView::Etf,
            AssetClass::Fixed => AssetClassView::Fixed,
            AssetClass::MutualFund => AssetClassView::MutualFund,
            AssetClass::Other => AssetClassView::Other,
            AssetClass::Custom(name) => AssetClassView::Custom(name@),
        }
    }
}

impl AssetClass {
    /// Whether the two are the same class.
    pub fn same(&self, other: &AssetClass) -> (r: bool)
        ensures
            r == (self@ == other@),
    {
        match (self, other) {
            (AssetClass::Cash, AssetClass::Cash) => true,
            (AssetClass::Equity, AssetClass::Equity) => true,
            (AssetClass::Etf, AssetClass::Etf) => true,
            (AssetClass::Fixed, AssetClass::Fixed) => true,
            (AssetClass::MutualFund, AssetClass::MutualFund) => true,
            (AssetClass::Other, AssetClass::Other) => true,
            (AssetClass::Custom(a), AssetClass::Custom(b)) => a.eq(b),
            _ => false,
        }
    }
}

/// An asset: a name, a class and the factor by which it grows in a year.
#[derive(Debug, PartialEq, Eq)]
pub struct Asset {
    pub name: String,
    pub class: AssetClass,
    pub annualized_performance: Decimal,
}

/// An asset class with the factor by which it grows in a year.
#[derive(Debug, PartialEq)]
pub struct AssetClassAndApy {
    pub class: AssetClass,
    pub apy: Decimal,
}

/// The change, in percent, that an event brings to one asset class.
#[derive(Debug, PartialEq)]
pub struct AssetClassChange {
    pub class: AssetClass,
    pub change: Decimal,
}

/// The share, in percent, of net worth that is held in one asset.
#[derive(Debug, PartialEq, Eq)]
pub struct AllocationProportion {
    pub asset: Asset,
    pub proportion: Decimal,
}

/// How net worth is spread over assets from `date` on.
#[derive(Debug, PartialEq)]
pub struct Allocation {
    pub id: Option<String>,
    pub description: String,
    pub date: i64,
    pub schema: Vec<AllocationProportion>,
}

/// A one-time shock to some asset classes, due once `start` is reached.
#[derive(Debug, PartialEq)]
pub struct Event {
    pub id: Option<String>,
    pub name: String,
    pub start: i64,
    pub transforms: Vec<AssetClassChange>,
}

/// A plan.
#[derive(Debug)]
pub struct Plan {
    pub id: Option<String>,
    pub name: String,
    pub recurrings: Vec<Recurring>,
    pub allocations: Vec<Allocation>,
    pub events: Vec<Event>,
}

/// A share of an allocation as the rules see it.
pub struct ProportionView {
    pub name: Seq<char>,
    pub class: AssetClassView,
    pub annualized_performance: (int, nat),
    pub proportion: (int, nat),
}

/// An allocation as the rules see it.
pub struct AllocationView {
    pub id: Option<Seq<char>>,
    pub description: Seq<char>,
    pub date: int,
    pub schema: Seq<ProportionView>,
}

/// A change to an asset class as the rules see it.
pub struct ChangeView {
    pub class: AssetClassView,
    pub change: (int, nat),
}

/// An event as the rules see it.
pub struct EventView {
    pub id: Option<Seq<char>>,
    pub name: Seq<char>,
    pub start: int,
    pub transforms: Seq<ChangeView>,
}

/// A plan as the rules see it.
pub struct PlanView {
    pub id: Option<Seq<char>>,
    pub name: Seq<char>,
    pub recurrings: Seq<RecurringView>,
    pub allocations: Seq<AllocationView>,
    pub events: Seq<EventView>,
}

impl View for AllocationProportion {
    type V = ProportionView;

    open spec fn view(&self) -> ProportionView {
        ProportionView {
            name: self.asset.name@,
            class: self.asset.class@,
            annualized_performance: self.asset.annualized_performance@,
            proportion: self.proportion@,
        }
    }
}

impl View for Allocation {
    type V = AllocationView;

    open spec fn view(&self) -> AllocationView {
        AllocationView {
            id: text_of(self.id),
            description: self.description@,
            date: self.date as int,
            schema: views(self.schema@),
        }
    }
}

impl View for AssetClassChange {
    type V = ChangeView;

    open spec fn view(&self) -> ChangeView {
        ChangeView { class: self.class@, change: self.change@ }
    }
}

impl View for Event {
    type V = EventView;

    open spec fn view(&self) -> EventView {
        EventView {
            id: text_of(self.id),
            name: self.name@,
            start: self.start as int,
            transforms: views(self.transforms@),
        }
    }
}

impl View for Plan {
    type V = PlanView;

    open spec fn view(&self) -> PlanView {
        PlanView {
            id: text_of(self.id),
            name: self.name@,
            recurrings: views(self.recurrings@),
            allocations: views(self.allocations@),
            events: views(self.events@),
        }
    }
}

/// The shares of the allocation that holds when a plan has none in effect:
/// everything in cash.
pub open spec fn default_schema() -> Seq<ProportionView> {
    seq![
        ProportionView {
            name: "Cash"@,
            class: AssetClassView::Cash,
            annualized_performance: (0int, 1nat),
            proportion: (1000int, 1nat),
        },
    ]
}

impl Default for Allocation {
    /// Everything in cash that does not grow, from the epoch on.
    fn default() -> (allocation: Allocation)
        ensures
            allocation@ == (AllocationView {
                id: None,
                description: "default"@,
                date: 0,
                schema: default_schema(),
            }),
    {
        let mut schema: Vec<AllocationProportion> = Vec::new();
        schema.push(
            AllocationProportion {
                asset: Asset {
                    name: String::from_str("Cash"),
                    class: AssetClass::Cash,
                    annualized_performance: Decimal::new(0, 1),
                },
                proportion: Decimal::new(1000, 1),
            },
        );
        let allocation = Allocation {
            id: None,
            description: String::from_str("default"),
            date: 0,
            schema,
        };
        assert(allocation@.schema =~= default_schema());
        allocation
    }
}

impl Clone for AssetClass {
    fn clone(&self) -> (copy: AssetClass)
        ensures
            copy == *self,
    {
        match self {
            AssetClass::Cash => AssetClass::Cash,
            AssetClass::Equity => AssetClass::Equity,
            AssetClass::Etf => AssetClass::Etf,
            AssetClass::Fixed => AssetClass::Fixed,
            AssetClass::MutualFund => AssetClass::MutualFund,
            AssetClass::Other => AssetClass::Other,
            AssetClass::Custom(name) => AssetClass::Custom(name.clone()),
        }
    }
}

impl Clone for Asset {
    fn clone(&self) -> (copy: Asset)
        ensures
            copy == *self,
    {
        Asset {
            name: self.name.clone(),
            class: self.class.clone(),
            annualized_performance: self.annualized_performance,
        }
    }
}

impl Clone for AssetClassAndApy {
    fn clone(&self) -> (copy: AssetClassAndApy)
        ensures
            copy == *self,
    {
        AssetClassAndApy { class: self.class.clone(), apy: self.apy }
    }
}

impl Clone for AssetClassChange {
    fn clone(&self) -> (copy: AssetClassChange)
        ensures
            copy == *self,
    {
        AssetClassChange { class: self.class.clone(), change: self.change }
    }
}

impl Clone for AllocationProportion {
    fn clone(&self) -> (copy: AllocationProportion)
        ensures
            copy == *self,
    {
        AllocationProportion { asset: self.asset.clone(), proportion: self.proportion }
    }
}

impl Clone for Allocation {
    fn clone(&self) -> (copy: Allocation)
        ensures
            copy@ == self@,
    {
        let schema = self.schema.clone();
        assert(schema@ =~= self.schema@);
        Allocation {
            id: copy_of(&self.id),
            description: self.description.clone(),
            date: self.date,
            schema,
        }
    }
}

impl Clone for Event {
    fn clone(&self) -> (copy: Event)
        ensures
            copy@ == self@,
    {
        let transforms = self.transforms.clone();
        assert(transforms@ =~= self.transforms@);
        Event { id: copy_of(&self.id), name: self.name.clone(), start: self.start, transforms }
    }
}

impl Clone for Plan {
    fn clone(&self) -> (copy: Plan)
        ensures
            copy@ == self@,
    {
        let recurrings = self.recurrings.clone();
        let allocations = self.allocations.clone();
        let events = self.events.clone();
        assert(views(recurrings@) =~= views(self.recurrings@));
        assert(views(allocations@) =~= views(self.allocations@));
        assert(views(events@) =~= views(self.events@));
        Plan { id: copy_of(&self.id), name: self.name.clone(), recurrings, allocations, events }
    }
}

/// Whether no two of the transforms name the same asset class.
pub open spec fn classes_distinct(transforms: Seq<ChangeView>) -> bool {
    forall|i: int, j: int|
        0 <= i < j < transforms.len() ==> transforms[i].class != transforms[j].class
}

/// The transforms of an event are accepted where no two of them name the same
/// asset class.
pub fn transforms_asset_class_unique(transforms: &Vec<AssetClassChange>) -> (r: Result<
    (),
    ValidationError,
>)
    ensures
        verdict(r) == if classes_distinct(views(transforms@)) {
            None
        } else {
            Some("At most one AssetClassChange allowed per Asset Class"@)
        },
{
    let ghost all = views(transforms@);
    let mut j: usize = 0;
    while j < transforms.len()
        invariant
            j <= transforms.len(),
            all == views(transforms@),
            forall|a: int, b: int| 0 <= a < b < j ==> all[a].class != all[b].class,
        decreases transforms.len() - j,
    {
        let mut i: usize = 0;
        while i < j
            invariant
                i <= j < transforms.len(),
                all == views(transforms@),
                forall|a: int| 0 <= a < i ==> all[a].class != all[j as int].class,
            decreases j - i,
        {
            if transforms[i].class.same(&transforms[j].class) {
                assert(all[i as int].class == all[j as int].class);
                return Err(
                    ValidationError::new("At most one AssetClassChange allowed per Asset Class"),
                );
            }
            i += 1;
        }
        j += 1;
    }
    Ok(())
}

impl EventView {
    /// The first rule that the event breaks, by its code: the start is not
    /// negative, and no two transforms name the same asset class.
    pub open spec fn violation(self) -> Option<Seq<char>> {
        if self.start < 0 {
            Some("range"@)
        } else if !classes_distinct(self.transforms) {
            Some("At most one AssetClassChange allowed per Asset Class"@)
        } else {
            None
        }
    }
}

impl Validation for Event {
    fn validate(&self) -> (r: Result<(), String>)
        ensures
            finding(r) == self@.violation(),
    {
        if self.start < 0 {
            return Err(ValidationError::new("range").code);
        }
        match transforms_asset_class_unique(&self.transforms) {
            Err(error) => Err(error.code),
            Ok(_) => Ok(()),
        }
    }
}

impl Validation for Allocation {
    /// An allocation is accepted where its proportions are 100 in all, give or
    /// take 2.
    fn validate(&self) -> (r: Result<(), String>)
        ensures
            finding(r) == if sums_to_about_100(self@.schema) {
                None
            } else {
                Some("Unable to properly calculate allocations"@)
            },
    {
        match allocation_schema_sum_around_100(&self.schema) {
            Err(error) => Err(error.code),
            Ok(_) => Ok(()),
        }
    }
}

impl Validation for AllocationProportion {
    /// A share is accepted where its proportion lies between 0 and 100.
    fn validate(&self) -> (r: Result<(), String>)
        ensures
            finding(r) == if is_percentage(self@.proportion) {
                None
            } else {
                Some("Field must be between 0 and 100"@)
            },
    {
        match decimal_between_zero_or_hundred(&self.proportion) {
            Err(error) => Err(error.code),
            Ok(_) => Ok(()),
        }
    }
}

/// A plan in which everything has an id: each part keeps its own, and takes
/// one of the fresh ids where it had none. The first fresh id is for the plan,
/// the next ones for the recurrings, then for the allocations, then for the
/// events, each in their order.
pub open spec fn with_ids(plan: PlanView, fresh: Seq<Seq<char>>) -> PlanView {
    let r = plan.recurrings.len() as int;
    let a = plan.allocations.len() as int;
    PlanView {
        id: ensured(plan.id, fresh[0]),
        name: plan.name,
        recurrings: Seq::new(
            plan.recurrings.len(),
            |i: int|
                RecurringView { id: ensured(plan.recurrings[i].id, fresh[1 + i]), ..plan.recurrings[i] },
        ),
        allocations: Seq::new(
            plan.allocations.len(),
            |i: int|
                AllocationView {
                    id: ensured(plan.allocations[i].id, fresh[1 + r + i]),
                    ..plan.allocations[i]
                },
        ),
        events: Seq::new(
            plan.events.len(),
            |i: int|
                EventView { id: ensured(plan.events[i].id, fresh[1 + r + a + i]), ..plan.events[i] },
        ),
    }
}

impl Plan {
    /// Sees to it that the plan and each of its parts has an id. `fresh` holds
    /// the ids to give out: enough for the plan and all its parts.
    pub fn ensure_ids(self, fresh: &Vec<String>) -> (plan: Plan)
        requires
            fresh@.len() >= 1 + self.recurrings@.len() + self.allocations@.len()
                + self.events@.len(),
        ensures
            plan@ == with_ids(self@, views(fresh@)),
    {
        let ghost before = self@;
        let ghost ids = views(fresh@);
        let mut plan = self;
        ensure_id(&mut plan.id, &fresh[0]);
        let r = plan.recurrings.len();
        let a = plan.allocations.len();
        let n = fresh.len();
        let mut i: usize = 0;
        while i < plan.recurrings.len()
            invariant
                n == fresh@.len(),
                i <= plan.recurrings.len() == r,
                a == plan.allocations.len(),
                ids == views(fresh@),
                fresh@.len() >= 1 + r + a + plan.events@.len(),
                plan.name@ == before.name,
                text_of(plan.id) == ensured(before.id, ids[0]),
                views(plan.allocations@) == before.allocations,
                views(plan.events@) == before.events,
                before.recurrings.len() == r,
                forall|j: int|
                    0 <= j < i ==> (#[trigger] plan.recurrings@[j])@ == (RecurringView {
                        id: ensured(before.recurrings[j].id, ids[1 + j]),
                        ..before.recurrings[j]
                    }),
                forall|j: int| i <= j < r ==> (#[trigger] plan.recurrings@[j])@ == before.recurrings[j],
            decreases plan.recurrings.len() - i,
        {
            ensure_id(&mut plan.recurrings[i].id, &fresh[1 + i]);
            i += 1;
        }
        let mut i: usize = 0;
        while i < plan.allocations.len()
            invariant
                n == fresh@.len(),
                i <= plan.allocations.len() == a,
                r == plan.recurrings.len(),
                ids == views(fresh@),
                fresh@.len() >= 1 + r + a + plan.events@.len(),
                plan.name@ == before.name,
                text_of(plan.id) == ensured(before.id, ids[0]),
                views(plan.recurrings@) == with_ids(before, ids).recurrings,
                views(plan.events@) == before.events,
                before.recurrings.len() == r,
                before.allocations.len() == a,
                forall|j: int|
                    0 <= j < i ==> (#[trigger] plan.allocations@[j])@ == (AllocationView {
                        id: ensured(before.allocations[j].id, ids[1 + r + j]),
                        ..before.allocations[j]
                    }),
                forall|j: int|
                    i <= j < a ==> (#[trigger] plan.allocations@[j])@ == before.allocations[j],
            decreases plan.allocations.len() - i,
        {
            ensure_id(&mut plan.allocations[i].id, &fresh[1 + r + i]);
            i += 1;
        }
        let e = plan.events.len();
        let mut i: usize = 0;
        while i < plan.events.len()
            invariant
                n == fresh@.len(),
                i <= plan.events.len() == e,
                r == plan.recurrings.len(),
                a == plan.allocations.len(),
                ids == views(fresh@),
                fresh@.len() >= 1 + r + a + e,
                plan.name@ == before.name,
                text_of(plan.id) == ensured(before.id, ids[0]),
                views(plan.recurrings@) == with_ids(before, ids).recurrings,
                views(plan.allocations@) == with_ids(before, ids).allocations,
                before.recurrings.len() == r,
                before.allocations.len() == a,
                before.events.len() == e,
                forall|j: int|
                    0 <= j < i ==> (#[trigger] plan.events@[j])@ == (EventView {
                        id: ensured(before.events[j].id, ids[1 + r + a + j]),
                        ..before.events[j]
                    }),
                forall|j: int| i <= j < e ==> (#[trigger] plan.events@[j])@ == before.events[j],
            decreases plan.events.len() - i,
        {
            ensure_id(&mut plan.events[i].id, &fresh[1 + r + a + i]);
            i += 1;
        }
        proof {
            assert(views(plan.events@) =~= with_ids(before, ids).events);
        }
        plan
    }
}

} // verus!

//! The projection of net worth: from the last observed snapshot, day by day,
//! under a plan of recurring cash flows, dated allocations and one-time events.
//!
//! Each simulated day the allocation in effect is looked up, at most one due
//! event is applied and leaves the pending ones, net worth grows by the daily
//! rate of the allocation, and the recurrings that are due pay in or out.
//!
//! Everything here is decimal arithmetic. The daily rate of an allocation is
//! the 365th root of its blended yearly rate; taking that root is left to the
//! caller, who hands it in as a whole number of billionths.

use crate::common::calendar::SECONDS_PER_DAY;
use crate::common::decimal::{
    decimal_product, decimal_quotient, decimal_sum, option_view, value_add, value_mul, Decimal,
};
use crate::common::money::Money;
use crate::common::views;
use crate::controllers::timeseries_controller::{TimeseriesEntry, TimeseriesResponse};
use crate::models::plan_model::{
    default_schema, Allocation, AllocationProportion, AllocationView, AssetClass, AssetClassChange,
    AssetClassView, ChangeView, Event, EventView, Plan, PlanView, ProportionView,
};
use crate::models::recurring_model::{Recurring, RecurringView};
use crate::models::user_model::Snapshot;
use vstd::prelude::*;

verus! {

/// The daily rate, in billionths, that stands for "no growth".
pub const NO_GROWTH: i64 = 1_000_000_000;

/// The scale at which a daily rate is held: billionths.
pub const RATE_SCALE: u32 = 9;

// ---------------------------------------------------------------------------
// Recurrings during one run
// ---------------------------------------------------------------------------

/// A recurring during one projection: its definition, whose principal grows
/// as it compounds, and the number of due days seen so far, counted modulo the
/// recurring's period.
#[derive(Debug)]
pub struct RecurringState {
    pub rec: Recurring,
    pub phase: u32,
}

/// A recurring during one projection as the rules see it.
pub struct RecurringStateView {
    pub rec: RecurringView,
    pub phase: nat,
}

impl View for RecurringState {
    type V = RecurringStateView;

    open spec fn view(&self) -> RecurringStateView {
        RecurringStateView { rec: self.rec@, phase: self.phase as nat }
    }
}

/// The period of a recurring that pays every `every_n`-th due day: `every_n`,
/// and 1 where that is not positive.
pub open spec fn period(every_n: int) -> int {
    if every_n < 1 {
        1
    } else {
        every_n
    }
}

impl RecurringStateView {
    /// The count of due days, modulo the period, once one more has been seen.
    pub open spec fn next_phase(self) -> nat {
        ((self.phase as int + 1) % period(self.rec.frequency.content as int)) as nat
    }

    /// Whether the recurring pays on `date`: it is due, and this due day
    /// completes a period.
    pub open spec fn releases(self, date: int) -> bool {
        self.rec.is_active(date) && self.next_phase() == 0
    }

    /// What the recurring pays on `date`: nothing unless it releases; its amount
    /// where it has no principal; else the interest of one step of compounding.
    pub open spec fn payment(self, date: int) -> (int, nat) {
        if !self.releases(date) {
            (0int, 0nat)
        } else if self.rec.principal.0 == 0 {
            self.rec.amount
        } else {
            self.rec.compound_change()
        }
    }

    /// The recurring once `date` has passed: a due day has been counted, and a
    /// principal that paid interest has grown by it.
    pub open spec fn after(self, date: int) -> RecurringStateView {
        if !self.rec.is_active(date) {
            self
        } else if self.next_phase() != 0 || self.rec.principal.0 == 0 {
            RecurringStateView { phase: self.next_phase(), ..self }
        } else {
            RecurringStateView { rec: self.rec.compounded(), phase: self.next_phase() }
        }
    }
}

impl RecurringState {
    /// Counts one more due day and says whether it completes a period.
    fn check_skip(&mut self) -> (released: bool)
        ensures
            final(self)@ == (RecurringStateView { phase: old(self)@.next_phase(), ..old(self)@ }),
            released == (old(self)@.next_phase() == 0),
    {
        let every: u64 = if self.rec.frequency.content < 1 {
            1
        } else {
            self.rec.frequency.content as u64
        };
        let next: u64 = (self.phase as u64 + 1) % every;
        self.phase = next as u32;
        next == 0
    }

    /// What the recurring pays on `date`, given in seconds since the epoch. To
    /// be called once for each simulated day, in the order of the days.
    pub fn take_payment(&mut self, date: i64) -> (payment: Decimal)
        ensures
            payment@ == old(self)@.payment(date as int),
            final(self)@ == old(self)@.after(date as int),
    {
        if !self.rec.is_active(date) {
            return Decimal::zero();
        }
        if !self.check_skip() {
            return Decimal::zero();
        }
        if self.rec.principal.is_zero() {
            self.rec.amount
        } else {
            self.rec.compound()
        }
    }
}

impl From<Recurring> for RecurringState {
    fn from(rec: Recurring) -> (state: RecurringState) {
        RecurringState { rec, phase: 0 }
    }
}

impl vstd::std_specs::convert::FromSpecImpl<Recurring> for RecurringState {
    open spec fn obeys_from_spec() -> bool {
        true
    }

    open spec fn from_spec(rec: Recurring) -> RecurringState {
        RecurringState { rec, phase: 0 }
    }
}

/// The recurrings of a plan at the start of a run: no due day seen yet.
pub open spec fn fresh_states(recurrings: Seq<RecurringView>) -> Seq<RecurringStateView> {
    Seq::new(recurrings.len(), |i: int| RecurringStateView { rec: recurrings[i], phase: 0 })
}

/// The recurrings once `date` has passed.
pub open spec fn advance(states: Seq<RecurringStateView>, date: int) -> Seq<RecurringStateView> {
    Seq::new(states.len(), |i: int| states[i].after(date))
}

/// What the recurrings pay on `date` in all: their payments added up in order,
/// from zero, a payment that would take the total out of range being left out.
pub open spec fn payments_total(states: Seq<RecurringStateView>, date: int) -> (int, nat)
    decreases states.len(),
{
    if states.len() == 0 {
        (0int, 0nat)
    } else {
        value_add(payments_total(states.drop_last(), date), states.last().payment(date))
    }
}

/// Wraps each recurring of a plan for one run.
pub fn recurring_states(recurrings: &Vec<Recurring>) -> (states: Vec<RecurringState>)
    ensures
        views(states@) == fresh_states(views(recurrings@)),
{
    let mut states: Vec<RecurringState> = Vec::new();
    let mut i: usize = 0;
    while i < recurrings.len()
        invariant
            i <= recurrings.len(),
            states@.len() == i,
            forall|j: int|
                0 <= j < i ==> #[trigger] states@[j]@ == (RecurringStateView {
                    rec: recurrings@[j]@,
                    phase: 0,
                }),
        decreases recurrings.len() - i,
    {
        states.push(RecurringState::from(recurrings[i].clone()));
        i += 1;
    }
    assert(views(states@) =~= fresh_states(views(recurrings@)));
    states
}

/// The payments of all recurrings on `date`; each recurring moves on by a day.
pub fn calculate_payments_from_recurrings(recurrings: &mut Vec<RecurringState>, date: i64) -> (total:
    Money)
    ensures
        total@ == payments_total(views(old(recurrings)@), date as int),
        views(final(recurrings)@) == advance(views(old(recurrings)@), date as int),
{
    let ghost before = views(recurrings@);
    let mut total = Decimal::zero();
    let mut i: usize = 0;
    while i < recurrings.len()
        invariant
            i <= recurrings.len(),
            recurrings@.len() == before.len(),
            forall|j: int| 0 <= j < i ==> #[trigger] recurrings@[j]@ == before[j].after(date as int),
            forall|j: int| i <= j < before.len() ==> #[trigger] recurrings@[j]@ == before[j],
            total@ == payments_total(before.take(i as int), date as int),
        decreases recurrings.len() - i,
    {
        let payment = recurrings[i].take_payment(date);
        proof {
            assert(before.take(i + 1).drop_last() =~= before.take(i as int));
            assert(before.take(i + 1).last() == before[i as int]);
        }
        total = total.add(payment);
        i += 1;
    }
    proof {
        assert(before.take(i as int) =~= before);
        assert(views(recurrings@) =~= advance(before, date as int));
    }
    Money::new(total)
}

// ---------------------------------------------------------------------------
// Allocations
// ---------------------------------------------------------------------------

/// The allocation in effect on `date`: the last in the list that is dated at
/// or before it, by position; none where every allocation is dated later.
pub open spec fn effective_index(allocations: Seq<AllocationView>, date: int) -> Option<int>
    decreases allocations.len(),
{
    if allocations.len() == 0 {
        None
    } else if allocations.last().date <= date {
        Some(allocations.len() - 1)
    } else {
        effective_index(allocations.drop_last(), date)
    }
}

/// Whether the allocations are in the order of their dates.
pub open spec fn time_ordered(allocations: Seq<AllocationView>) -> bool {
    forall|i: int, j: int|
        0 <= i <= j < allocations.len() ==> allocations[i].date <= allocations[j].date
}

/// The position held in an optional index.
pub open spec fn option_index(r: Option<usize>) -> Option<int> {
    match r {
        Some(i) => Some(i as int),
        None => None,
    }
}

/// The position of the allocation in effect on `date`, if there is one.
pub fn effective_allocation(allocations: &Vec<Allocation>, date: i64) -> (r: Option<usize>)
    ensures
        option_index(r) == effective_index(views(allocations@), date as int),
        r matches Some(i) ==> i < allocations@.len(),
{
    let ghost all = views(allocations@);
    let mut i: usize = allocations.len();
    assert(all.take(i as int) =~= all);
    while i > 0
        invariant
            i <= allocations.len(),
            all == views(allocations@),
            effective_index(all, date as int) == effective_index(all.take(i as int), date as int),
        decreases i,
    {
        i -= 1;
        proof {
            assert(all.take(i + 1).drop_last() =~= all.take(i as int));
            assert(all.take(i + 1).last() == all[i as int]);
        }
        if allocations[i].date <= date {
            return Some(i);
        }
    }
    None
}

/// The blended yearly rate of an allocation: over its shares in order, from
/// zero, the sum of `proportion * annualized_performance / 100`; `None` where a
/// step cannot be represented.
pub open spec fn blended_rate(schema: Seq<ProportionView>) -> Option<(int, nat)>
    decreases schema.len(),
{
    if schema.len() == 0 {
        Some((0int, 0nat))
    } else {
        match blended_rate(schema.drop_last()) {
            Some(total) => match decimal_product(
                schema.last().proportion,
                schema.last().annualized_performance,
            ) {
                Some(product) => match decimal_quotient(product, (1000int, 1nat)) {
                    Some(part) => decimal_sum(total, part),
                    None => None,
                },
                None => None,
            },
            None => None,
        }
    }
}

/// The blended yearly rate of the allocation, or `None` where it cannot be
/// represented.
pub fn calculate_apy_from_allocation(allocation: &Allocation) -> (apy: Option<Decimal>)
    ensures
        option_view(apy) == blended_rate(allocation@.schema),
{
    let ghost schema = allocation@.schema;
    let mut total: Option<Decimal> = Some(Decimal::zero());
    let mut i: usize = 0;
    while i < allocation.schema.len()
        invariant
            i <= allocation.schema.len(),
            schema == views(allocation.schema@),
            option_view(total) == blended_rate(schema.take(i as int)),
        decreases allocation.schema.len() - i,
    {
        let share = &allocation.schema[i];
        proof {
            assert(schema.take(i + 1).drop_last() =~= schema.take(i as int));
            assert(schema.take(i + 1).last() == schema[i as int]);
        }
        total = match total {
            Some(sum) => match share.proportion.checked_mul(share.asset.annualized_performance) {
                Some(product) => match product.checked_div(Decimal::new(1000, 1)) {
                    Some(part) => sum.checked_add(part),
                    None => None,
                },
                None => None,
            },
            None => None,
        };
        i += 1;
    }
    proof {
        assert(schema.take(i as int) =~= schema);
    }
    total
}

/// The allocation in effect on `date`, by its position, with its blended yearly
/// rate; none where every allocation is dated after `date`. The rate is `None`
/// where it cannot be represented.
pub fn resolve(allocations: &Vec<Allocation>, date: i64) -> (r: Option<(usize, Option<Decimal>)>)
    ensures
        match r {
            Some((i, apy)) => {
                &&& effective_index(views(allocations@), date as int) == Some(i as int)
                &&& i < allocations@.len()
                &&& option_view(apy) == blended_rate(allocations@[i as int]@.schema)
            },
            None => effective_index(views(allocations@), date as int) is None,
        },
{
    match effective_allocation(allocations, date) {
        Some(i) => Some((i, calculate_apy_from_allocation(&allocations[i]))),
        None => None,
    }
}

/// The blended yearly rate of each allocation of a plan, in the plan's order.
pub fn allocation_apys(allocations: &Vec<Allocation>) -> (apys: Vec<Option<Decimal>>)
    ensures
        apys@.len() == allocations@.len(),
        forall|i: int|
            0 <= i < apys@.len() ==> option_view(#[trigger] apys@[i]) == blended_rate(
                allocations@[i]@.schema,
            ),
{
    let mut apys: Vec<Option<Decimal>> = Vec::new();
    let mut i: usize = 0;
    while i < allocations.len()
        invariant
            i <= allocations.len(),
            apys@.len() == i,
            forall|j: int|
                0 <= j < i ==> option_view(#[trigger] apys@[j]) == blended_rate(
                    allocations@[j]@.schema,
                ),
        decreases allocations.len() - i,
    {
        apys.push(calculate_apy_from_allocation(&allocations[i]));
        i += 1;
    }
    apys
}

/// The daily rate for a 365th root given in billionths: the root at scale 9,
/// and exactly 1 where there is no root.
pub open spec fn daily_rate(root: Option<i64>) -> (int, nat) {
    match root {
        Some(billionths) => (billionths as int, RATE_SCALE as nat),
        None => (NO_GROWTH as int, RATE_SCALE as nat),
    }
}

/// The value after one day of growth. `root` is the 365th root of the yearly
/// rate in billionths, `None` where it could not be taken: then the value does
/// not grow. Nor does it where the product cannot be represented.
pub fn calculate_account_value_from_apy(previous_value: Money, root: Option<i64>) -> (value: Money)
    ensures
        value@ == value_mul(previous_value@, daily_rate(root)),
{
    let rate = match root {
        Some(billionths) => Decimal::new(billionths, RATE_SCALE),
        None => Decimal::new(NO_GROWTH, RATE_SCALE),
    };
    previous_value.mul(Money::new(rate))
}

// ---------------------------------------------------------------------------
// Events
// ---------------------------------------------------------------------------

/// The change that the transforms hold for `class`: that of the first of them
/// that names it.
pub open spec fn first_change(transforms: Seq<ChangeView>, class: AssetClassView) -> Option<
    (int, nat),
>
    decreases transforms.len(),
{
    if transforms.len() == 0 {
        None
    } else {
        match first_change(transforms.drop_last(), class) {
            Some(change) => Some(change),
            None => if transforms.last().class == class {
                Some(transforms.last().change)
            } else {
                None
            },
        }
    }
}

/// What one share of an allocation contributes under an event: its proportion
/// where the event leaves its class alone, else
/// `proportion * (100 + change) / 100`.
pub open spec fn share_under_event(transforms: Seq<ChangeView>, share: ProportionView) -> Option<
    (int, nat),
> {
    match first_change(transforms, share.class) {
        Some(change) => match decimal_sum((100int, 0nat), change) {
            Some(percent) => match decimal_product(share.proportion, percent) {
                Some(product) => decimal_quotient(product, (100int, 0nat)),
                None => None,
            },
            None => None,
        },
        None => Some(share.proportion),
    }
}

/// The contributions of the shares under an event, added up in order from
/// zero.
pub open spec fn shares_under_event(
    transforms: Seq<ChangeView>,
    schema: Seq<ProportionView>,
) -> Option<(int, nat)>
    decreases schema.len(),
{
    if schema.len() == 0 {
        Some((0int, 1nat))
    } else {
        match shares_under_event(transforms, schema.drop_last()) {
            Some(total) => match share_under_event(transforms, schema.last()) {
                Some(part) => decimal_sum(total, part),
                None => None,
            },
            None => None,
        }
    }
}

/// The factor by which an event changes net worth that is spread as `schema`
/// says: the contributions of the shares in all, over 100; `None` where a step
/// cannot be represented.
pub open spec fn event_multiplier(transforms: Seq<ChangeView>, schema: Seq<ProportionView>) -> Option<
    (int, nat),
> {
    match shares_under_event(transforms, schema) {
        Some(total) => decimal_quotient(total, (100int, 0nat)),
        None => None,
    }
}

proof fn lemma_first_change_extends(transforms: Seq<ChangeView>, class: AssetClassView, k: int)
    requires
        0 <= k <= transforms.len(),
        first_change(transforms.take(k), class) is Some,
    ensures
        first_change(transforms, class) == first_change(transforms.take(k), class),
    decreases transforms.len(),
{
    if k < transforms.len() {
        assert(transforms.drop_last().take(k) =~= transforms.take(k));
        lemma_first_change_extends(transforms.drop_last(), class, k);
    } else {
        assert(transforms.take(k) =~= transforms);
    }
}

/// The change that the transforms hold for `class`, if any.
fn find_change(transforms: &Vec<AssetClassChange>, class: &AssetClass) -> (r: Option<Decimal>)
    ensures
        option_view(r) == first_change(views(transforms@), class@),
{
    let ghost all = views(transforms@);
    let mut i: usize = 0;
    while i < transforms.len()
        invariant
            i <= transforms.len(),
            all == views(transforms@),
            first_change(all.take(i as int), class@) is None,
        decreases transforms.len() - i,
    {
        proof {
            assert(all.take(i + 1).drop_last() =~= all.take(i as int));
            assert(all.take(i + 1).last() == all[i as int]);
        }
        if transforms[i].class.same(class) {
            proof {
                lemma_first_change_extends(all, class@, i + 1);
            }
            return Some(transforms[i].change);
        }
        i += 1;
    }
    proof {
        assert(all.take(i as int) =~= all);
    }
    None
}

/// The contributions, added up, of the given shares under the given
/// transforms.
fn total_under_event(transforms: &Vec<AssetClassChange>, schema: &Vec<AllocationProportion>) -> (r:
    Option<Decimal>)
    ensures
        option_view(r) == shares_under_event(views(transforms@), views(schema@)),
{
    let ghost shares = views(schema@);
    let mut total: Option<Decimal> = Some(Decimal::new(0, 1));
    let mut i: usize = 0;
    while i < schema.len()
        invariant
            i <= schema.len(),
            shares == views(schema@),
            option_view(total) == shares_under_event(views(transforms@), shares.take(i as int)),
        decreases schema.len() - i,
    {
        let share = &schema[i];
        proof {
            assert(shares.take(i + 1).drop_last() =~= shares.take(i as int));
            assert(shares.take(i + 1).last() == shares[i as int]);
        }
        let part = match find_change(transforms, &share.asset.class) {
            Some(change) => match Decimal::new(100, 0).checked_add(change) {
                Some(percent) => match share.proportion.checked_mul(percent) {
                    Some(product) => product.checked_div(Decimal::new(100, 0)),
                    None => None,
                },
                None => None,
            },
            None => Some(share.proportion),
        };
        total = match total {
            Some(sum) => match part {
                Some(part) => sum.checked_add(part),
                None => None,
            },
            None => None,
        };
        i += 1;
    }
    proof {
        assert(shares.take(i as int) =~= shares);
    }
    total
}

/// The factor by which the event changes net worth that is spread as the
/// allocation says, or `None` where it cannot be represented.
pub fn calculate_account_value_from_event(event: &Event, allocation: &Allocation) -> (factor: Option<
    Money,
>)
    ensures
        match factor {
            Some(m) => event_multiplier(event@.transforms, allocation@.schema) == Some(m@),
            None => event_multiplier(event@.transforms, allocation@.schema) is None,
        },
{
    match total_under_event(&event.transforms, &allocation.schema) {
        Some(total) => match total.checked_div(Decimal::new(100, 0)) {
            Some(factor) => Some(Money::new(factor)),
            None => None,
        },
        None => None,
    }
}

/// The event that fires on `date`: the first in the list whose start has been
/// reached.
pub open spec fn first_due(pending: Seq<EventView>, date: int) -> Option<int>
    decreases pending.len(),
{
    if pending.len() == 0 {
        None
    } else {
        match first_due(pending.drop_last(), date) {
            Some(i) => Some(i),
            None => if pending.last().start <= date {
                Some(pending.len() - 1)
            } else {
                None
            },
        }
    }
}

/// The events that are still pending once `date` has passed: all but the one
/// that fired.
pub open spec fn pending_after(pending: Seq<EventView>, date: int) -> Seq<EventView> {
    match first_due(pending, date) {
        Some(i) => pending.remove(i),
        None => pending,
    }
}

/// Net worth once a factor has been applied: the product, and the net worth as
/// it was where there is no factor or the product cannot be represented.
pub open spec fn shocked(net_worth: (int, nat), factor: Option<(int, nat)>) -> (int, nat) {
    match factor {
        Some(f) => value_mul(net_worth, f),
        None => net_worth,
    }
}

/// Net worth once the event that fires on `date`, if any, has been applied to
/// it under the allocation `schema`.
pub open spec fn net_worth_after_events(
    pending: Seq<EventView>,
    date: int,
    schema: Seq<ProportionView>,
    net_worth: (int, nat),
) -> (int, nat) {
    match first_due(pending, date) {
        Some(i) => shocked(net_worth, event_multiplier(pending[i].transforms, schema)),
        None => net_worth,
    }
}

proof fn lemma_first_due_extends(pending: Seq<EventView>, date: int, k: int)
    requires
        0 <= k <= pending.len(),
        first_due(pending.take(k), date) is Some,
    ensures
        first_due(pending, date) == first_due(pending.take(k), date),
    decreases pending.len(),
{
    if k < pending.len() {
        assert(pending.drop_last().take(k) =~= pending.take(k));
        lemma_first_due_extends(pending.drop_last(), date, k);
    } else {
        assert(pending.take(k) =~= pending);
    }
}

/// The position of the event that fires on `date`, if any.
fn find_due(pending: &Vec<Event>, date: i64) -> (r: Option<usize>)
    ensures
        option_index(r) == first_due(views(pending@), date as int),
        r matches Some(i) ==> i < pending@.len(),
{
    let ghost all = views(pending@);
    let mut i: usize = 0;
    while i < pending.len()
        invariant
            i <= pending.len(),
            all == views(pending@),
            first_due(all.take(i as int), date as int) is None,
        decreases pending.len() - i,
    {
        proof {
            assert(all.take(i + 1).drop_last() =~= all.take(i as int));
            assert(all.take(i + 1).last() == all[i as int]);
        }
        if pending[i].start <= date {
            proof {
                lemma_first_due_extends(all, date as int, i + 1);
            }
            return Some(i);
        }
        i += 1;
    }
    proof {
        assert(all.take(i as int) =~= all);
    }
    None
}

/// Applies the event that fires on `date`, if any, to net worth held as
/// `allocation` says, and takes it out of the pending events.
pub fn apply_due(
    pending: &mut Vec<Event>,
    date: i64,
    allocation: &Allocation,
    net_worth: Money,
) -> (value: Money)
    ensures
        value@ == net_worth_after_events(
            views(old(pending)@),
            date as int,
            allocation@.schema,
            net_worth@,
        ),
        views(final(pending)@) == pending_after(views(old(pending)@), date as int),
{
    match find_due(pending, date) {
        Some(i) => {
            let ghost before = pending@;
            let event = pending.remove(i);
            proof {
                assert(views(pending@) =~= views(before).remove(i as int));
                assert(event@ == views(before)[i as int]);
            }
            match calculate_account_value_from_event(&event, allocation) {
                Some(factor) => net_worth.mul(factor),
                None => net_worth,
            }
        },
        None => net_worth,
    }
}

// ---------------------------------------------------------------------------
// The run
// ---------------------------------------------------------------------------

/// What a run carries from one day to the next.
pub struct Projection {
    pub net_worth: (int, nat),
    pub pending: Seq<EventView>,
    pub recurrings: Seq<RecurringStateView>,
}

/// The shares that net worth is held in on `date`: those of the allocation in
/// effect, and all cash where there is none.
pub open spec fn schema_on(allocations: Seq<AllocationView>, date: int) -> Seq<ProportionView> {
    match effective_index(allocations, date) {
        Some(i) => allocations[i].schema,
        None => default_schema(),
    }
}

/// The 365th root, in billionths, that holds on `date`: that of the allocation
/// in effect, and none where there is no such allocation or no root for it.
pub open spec fn root_on(allocations: Seq<AllocationView>, roots: Seq<Option<i64>>, date: int) -> Option<
    i64,
> {
    match effective_index(allocations, date) {
        Some(i) => if i < roots.len() {
            roots[i]
        } else {
            None
        },
        None => None,
    }
}

/// One simulated day: the due event is applied and leaves, net worth grows by
/// the daily rate, and the payments of the recurrings are added.
pub open spec fn day_step(
    allocations: Seq<AllocationView>,
    roots: Seq<Option<i64>>,
    before: Projection,
    date: int,
) -> Projection {
    let after_event = net_worth_after_events(
        before.pending,
        date,
        schema_on(allocations, date),
        before.net_worth,
    );
    let grown = value_mul(after_event, daily_rate(root_on(allocations, roots, date)));
    Projection {
        net_worth: value_add(grown, payments_total(before.recurrings, date)),
        pending: pending_after(before.pending, date),
        recurrings: advance(before.recurrings, date),
    }
}

/// The date of the `day`-th simulated day.
pub open spec fn date_of(start_date: int, day: int) -> int {
    start_date + day * SECONDS_PER_DAY
}

/// The run after `day` simulated days.
pub open spec fn projection_after(
    plan: PlanView,
    roots: Seq<Option<i64>>,
    start_net_worth: (int, nat),
    start_date: int,
    day: nat,
) -> Projection
    decreases day,
{
    if day == 0 {
        Projection {
            net_worth: start_net_worth,
            pending: plan.events,
            recurrings: fresh_states(plan.recurrings),
        }
    } else {
        day_step(
            plan.allocations,
            roots,
            projection_after(plan, roots, start_net_worth, start_date, (day - 1) as nat),
            date_of(start_date, day as int),
        )
    }
}

/// The projected series: for each of the days `1..=days`, its date and the net
/// worth at its end. Empty where `days` is not positive.
pub open spec fn projected_series(
    plan: PlanView,
    roots: Seq<Option<i64>>,
    days: int,
    start_net_worth: (int, nat),
    start_date: int,
) -> Seq<(int, (int, nat))> {
    Seq::new(
        if days > 0 {
            days as nat
        } else {
            0
        },
        |i: int|
            (
                date_of(start_date, i + 1),
                projection_after(plan, roots, start_net_worth, start_date, (i + 1) as nat).net_worth,
            ),
    )
}

/// Projects net worth over `days` days from `start_date`, one entry for each
/// of the days `start_date + 1 day ..= start_date + days days`.
///
/// `daily_roots` holds, for each allocation of the plan and in their order, the
/// 365th root of its blended yearly rate in billionths, or `None` where the
/// root could not be taken.
pub fn generate_timeseries_from_plan(
    plan: Plan,
    days: i64,
    start_net_worth: Money,
    start_date: i64,
    daily_roots: &Vec<Option<i64>>,
) -> (series: Vec<TimeseriesEntry>)
    requires
        days > 0 ==> start_date + days * SECONDS_PER_DAY <= i64::MAX,
    ensures
        views(series@) == projected_series(
            plan@,
            daily_roots@,
            days as int,
            start_net_worth@,
            start_date as int,
        ),
        series@.len() == if days > 0 {
            days as nat
        } else {
            0
        },
        forall|i: int|
            0 <= i < series@.len() ==> (#[trigger] series@[i]).date == date_of(
                start_date as int,
                i + 1,
            ),
{
    let ghost model = plan@;
    let ghost roots = daily_roots@;
    let mut series: Vec<TimeseriesEntry> = Vec::new();
    let mut net_worth = start_net_worth;
    let mut recurrings = recurring_states(&plan.recurrings);
    let allocations = plan.allocations;
    let mut events = plan.events;
    let fallback = Allocation::default();
    let mut day: i64 = 0;
    let mut date: i64 = start_date;
    while day < days
        invariant
            0 <= day,
            days > 0 ==> day <= days,
            days <= 0 ==> day == 0,
            date == date_of(start_date as int, day as int),
            days > 0 ==> start_date + days * SECONDS_PER_DAY <= i64::MAX,
            roots == daily_roots@,
            model.allocations == views(allocations@),
            fallback@.schema == default_schema(),
            series@.len() == day,
            forall|k: int|
                0 <= k < day ==> #[trigger] series@[k]@ == (
                    date_of(start_date as int, k + 1),
                    projection_after(
                        model,
                        roots,
                        start_net_worth@,
                        start_date as int,
                        (k + 1) as nat,
                    ).net_worth,
                ),
            (Projection {
                net_worth: net_worth@,
                pending: views(events@),
                recurrings: views(recurrings@),
            }) == projection_after(model, roots, start_net_worth@, start_date as int, day as nat),
        decreases days - day,
    {
        day += 1;
        date = date + SECONDS_PER_DAY;
        let effective = effective_allocation(&allocations, date);
        let root = match effective {
            Some(i) => if i < daily_roots.len() {
                daily_roots[i]
            } else {
                None
            },
            None => None,
        };
        net_worth = match effective {
            Some(i) => apply_due(&mut events, date, &allocations[i], net_worth),
            None => apply_due(&mut events, date, &fallback, net_worth),
        };
        let payments = calculate_payments_from_recurrings(&mut recurrings, date);
        net_worth = calculate_account_value_from_apy(net_worth, root).add(payments);
        series.push(TimeseriesEntry { date, net_worth });
    }
    proof {
        assert(views(series@) =~= projected_series(
            model,
            roots,
            days as int,
            start_net_worth@,
            start_date as int,
        ));
        assert forall|i: int| 0 <= i < series@.len() implies (#[trigger] series@[i]).date
            == date_of(start_date as int, i + 1) by {
            assert(series@[i]@.0 == date_of(start_date as int, i + 1));
        }
    }
    series
}

// ---------------------------------------------------------------------------
// The series handed out
// ---------------------------------------------------------------------------

/// The snapshots as a series: for each its time and its net worth.
pub open spec fn snapshot_series(snapshots: Seq<Snapshot>) -> Seq<(int, (int, nat))> {
    Seq::new(snapshots.len(), |i: int| (snapshots[i].snapshot_time as int, snapshots[i].net_worth@))
}

/// The snapshots as a series of net worth, in their order.
pub fn generate_timeseries_from_snapshots(snapshots: &Vec<Snapshot>) -> (series: Vec<TimeseriesEntry>)
    ensures
        views(series@) == snapshot_series(snapshots@),
{
    let mut series: Vec<TimeseriesEntry> = Vec::new();
    let mut i: usize = 0;
    while i < snapshots.len()
        invariant
            i <= snapshots.len(),
            series@.len() == i,
            forall|j: int|
                0 <= j < i ==> #[trigger] series@[j]@ == (
                    snapshots@[j].snapshot_time as int,
                    snapshots@[j].net_worth@,
                ),
        decreases snapshots.len() - i,
    {
        series.push(
            TimeseriesEntry { date: snapshots[i].snapshot_time, net_worth: snapshots[i].net_worth },
        );
        i += 1;
    }
    assert(views(series@) =~= snapshot_series(snapshots@));
    series
}

/// The historical series followed by the projected one.
pub open spec fn assembled_series(
    snapshots: Seq<Snapshot>,
    projected: Seq<(int, (int, nat))>,
) -> Seq<(int, (int, nat))> {
    snapshot_series(snapshots) + projected
}

/// Puts the projected series behind the one of the snapshots: nothing is
/// dropped, merged or moved.
pub fn assemble(snapshots: &Vec<Snapshot>, projected: Vec<TimeseriesEntry>) -> (series: Vec<
    TimeseriesEntry,
>)
    ensures
        views(series@) == assembled_series(snapshots@, views(projected@)),
        series@.len() == snapshots@.len() + projected@.len(),
{
    let mut series = generate_timeseries_from_snapshots(snapshots);
    let mut projected = projected;
    let ghost history = series@;
    let ghost future = projected@;
    series.append(&mut projected);
    assert(views(series@) =~= views(history) + views(future));
    series
}

/// The series of a user: the snapshots, then the projection of `days` days
/// under `plan` from the last snapshot on. There has to be a snapshot.
///
/// `daily_roots` is as for [`generate_timeseries_from_plan`].
pub fn get_timeseries(
    plan: Plan,
    days: i64,
    snapshots: &Vec<Snapshot>,
    daily_roots: &Vec<Option<i64>>,
) -> (response: TimeseriesResponse)
    requires
        snapshots@.len() > 0,
        days > 0 ==> snapshots@.last().snapshot_time + days * SECONDS_PER_DAY <= i64::MAX,
    ensures
        response.start == snapshots@.last().snapshot_time,
        views(response.series@) == assembled_series(
            snapshots@,
            projected_series(
                plan@,
                daily_roots@,
                days as int,
                snapshots@.last().net_worth@,
                snapshots@.last().snapshot_time as int,
            ),
        ),
        response.series@.len() == snapshots@.len() + if days > 0 {
            days as nat
        } else {
            0
        },
{
    let last_day = snapshots[snapshots.len() - 1];
    let projected = generate_timeseries_from_plan(
        plan,
        days,
        last_day.net_worth,
        last_day.snapshot_time,
        daily_roots,
    );
    TimeseriesResponse { start: last_day.snapshot_time, series: assemble(snapshots, projected) }
}

} // verus!

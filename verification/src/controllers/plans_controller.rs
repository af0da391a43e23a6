//! What is said of plans at the boundary.

use crate::common::validation::validate_count;
use crate::common::{finding, views, Validation, ValidationError};
use crate::models::plan_model::{Allocation, Event, EventView, Plan, PlanView};
use crate::models::recurring_model::{Recurring, RecurringView};
use vstd::prelude::*;

verus! {

/// A plan as a user states it.
#[derive(Debug)]
pub struct PlanNewPayload {
    pub name: String,
    pub recurrings: Vec<Recurring>,
    pub allocations: Vec<Allocation>,
    pub events: Vec<Event>,
}

/// What a user wants changed of a plan: each part that is given takes the
/// place of the plan's.
#[derive(Debug)]
pub struct PlanUpdatePayload {
    pub name: Option<String>,
    pub recurrings: Option<Vec<Recurring>>,
    pub allocations: Option<Vec<Allocation>>,
    pub events: Option<Vec<Event>>,
}

/// The first rule that one of the recurrings breaks, by its code.
pub open spec fn recurrings_violation(recurrings: Seq<RecurringView>) -> Option<Seq<char>>
    decreases recurrings.len(),
{
    if recurrings.len() == 0 {
        None
    } else {
        match recurrings_violation(recurrings.drop_last()) {
            Some(code) => Some(code),
            None => recurrings.last().violation(),
        }
    }
}

/// The first rule that one of the events breaks, by its code.
pub open spec fn events_violation(events: Seq<EventView>) -> Option<Seq<char>>
    decreases events.len(),
{
    if events.len() == 0 {
        None
    } else {
        match events_violation(events.drop_last()) {
            Some(code) => Some(code),
            None => events.last().violation(),
        }
    }
}

/// The first rule that the parts of a plan break, by its code: each recurring
/// keeps its rules, there is an allocation, and each event keeps its rules.
pub open spec fn parts_violation(
    recurrings: Seq<RecurringView>,
    allocations: nat,
    events: Seq<EventView>,
) -> Option<Seq<char>> {
    match recurrings_violation(recurrings) {
        Some(code) => Some(code),
        None => if allocations < 1 {
            Some("length"@)
        } else {
            events_violation(events)
        },
    }
}

proof fn lemma_recurrings_violation_extends(recurrings: Seq<RecurringView>, k: int)
    requires
        0 <= k <= recurrings.len(),
        recurrings_violation(recurrings.take(k)) is Some,
    ensures
        recurrings_violation(recurrings) == recurrings_violation(recurrings.take(k)),
    decreases recurrings.len(),
{
    if k < recurrings.len() {
        assert(recurrings.drop_last().take(k) =~= recurrings.take(k));
        lemma_recurrings_violation_extends(recurrings.drop_last(), k);
    } else {
        assert(recurrings.take(k) =~= recurrings);
    }
}

proof fn lemma_events_violation_extends(events: Seq<EventView>, k: int)
    requires
        0 <= k <= events.len(),
        events_violation(events.take(k)) is Some,
    ensures
        events_violation(events) == events_violation(events.take(k)),
    decreases events.len(),
{
    if k < events.len() {
        assert(events.drop_last().take(k) =~= events.take(k));
        lemma_events_violation_extends(events.drop_last(), k);
    } else {
        assert(events.take(k) =~= events);
    }
}

fn validate_recurrings(recurrings: &Vec<Recurring>) -> (r: Result<(), String>)
    ensures
        finding(r) == recurrings_violation(views(recurrings@)),
{
    let ghost all = views(recurrings@);
    let mut i: usize = 0;
    while i < recurrings.len()
        invariant
            i <= recurrings.len(),
            all == views(recurrings@),
            recurrings_violation(all.take(i as int)) is None,
        decreases recurrings.len() - i,
    {
        proof {
            assert(all.take(i + 1).drop_last() =~= all.take(i as int));
            assert(all.take(i + 1).last() == all[i as int]);
        }
        match recurrings[i].validate() {
            Err(code) => {
                proof {
                    lemma_recurrings_violation_extends(all, i + 1);
                }
                return Err(code);
            },
            Ok(_) => {},
        }
        i += 1;
    }
    proof {
        assert(all.take(i as int) =~= all);
    }
    Ok(())
}

fn validate_events(events: &Vec<Event>) -> (r: Result<(), String>)
    ensures
        finding(r) == events_violation(views(events@)),
{
    let ghost all = views(events@);
    let mut i: usize = 0;
    while i < events.len()
        invariant
            i <= events.len(),
            all == views(events@),
            events_violation(all.take(i as int)) is None,
        decreases events.len() - i,
    {
        proof {
            assert(all.take(i + 1).drop_last() =~= all.take(i as int));
            assert(all.take(i + 1).last() == all[i as int]);
        }
        match events[i].validate() {
            Err(code) => {
                proof {
                    lemma_events_violation_extends(all, i + 1);
                }
                return Err(code);
            },
            Ok(_) => {},
        }
        i += 1;
    }
    proof {
        assert(all.take(i as int) =~= all);
    }
    Ok(())
}

impl Validation for PlanNewPayload {
    fn validate(&self) -> (r: Result<(), String>)
        ensures
            finding(r) == parts_violation(
                views(self.recurrings@),
                self.allocations@.len(),
                views(self.events@),
            ),
    {
        match validate_recurrings(&self.recurrings) {
            Err(code) => {
                return Err(code);
            },
            Ok(_) => {},
        }
        if !validate_count(&self.allocations, Some(1), None, None) {
            return Err(ValidationError::new("length").code);
        }
        validate_events(&self.events)
    }
}

impl PlanUpdatePayload {
    /// The first rule that the update breaks, by its code: each part that is
    /// given keeps the rules that hold for it in a plan.
    pub open spec fn violation(&self) -> Option<Seq<char>> {
        parts_violation(
            match self.recurrings {
                Some(recurrings) => views(recurrings@),
                None => Seq::empty(),
            },
            match self.allocations {
                Some(allocations) => allocations@.len(),
                None => 1,
            },
            match self.events {
                Some(events) => views(events@),
                None => Seq::empty(),
            },
        )
    }
}

impl Validation for PlanUpdatePayload {
    fn validate(&self) -> (r: Result<(), String>)
        ensures
            finding(r) == self.violation(),
    {
        match &self.recurrings {
            Some(recurrings) => match validate_recurrings(recurrings) {
                Err(code) => {
                    return Err(code);
                },
                Ok(_) => {},
            },
            None => {},
        }
        match &self.allocations {
            Some(allocations) => {
                if !validate_count(allocations, Some(1), None, None) {
                    return Err(ValidationError::new("length").code);
                }
            },
            None => {},
        }
        match &self.events {
            Some(events) => validate_events(events),
            None => Ok(()),
        }
    }
}

impl PlanNewPayload {
    /// The plan that is stated.
    pub fn into_plan(self) -> (plan: Plan)
        ensures
            plan.id is None,
            plan.name == self.name,
            plan.recurrings == self.recurrings,
            plan.allocations == self.allocations,
            plan.events == self.events,
    {
        Plan {
            id: None,
            name: self.name,
            recurrings: self.recurrings,
            allocations: self.allocations,
            events: self.events,
        }
    }
}

impl PlanUpdatePayload {
    /// The plan with each part that the update gives in the place of its own.
    pub open spec fn applied_to(self, plan: PlanView) -> PlanView {
        PlanView {
            id: plan.id,
            name: match self.name {
                Some(name) => name@,
                None => plan.name,
            },
            recurrings: match self.recurrings {
                Some(recurrings) => views(recurrings@),
                None => plan.recurrings,
            },
            allocations: match self.allocations {
                Some(allocations) => views(allocations@),
                None => plan.allocations,
            },
            events: match self.events {
                Some(events) => views(events@),
                None => plan.events,
            },
        }
    }

    /// Changes the plan as the update says.
    pub fn apply(self, plan: Plan) -> (updated: Plan)
        ensures
            updated@ == self.applied_to(plan@),
    {
        let mut plan = plan;
        if let Some(name) = self.name {
            plan.name = name;
        }
        if let Some(recurrings) = self.recurrings {
            plan.recurrings = recurrings;
        }
        if let Some(allocations) = self.allocations {
            plan.allocations = allocations;
        }
        if let Some(events) = self.events {
            plan.events = events;
        }
        plan
    }
}

} // verus!

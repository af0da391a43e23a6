//! What is kept of a user: the linked items and the snapshots of net worth.

use crate::common::decimal::{less_value, Decimal};
use crate::common::money::Money;
use crate::common::{finding, Validation, ValidationError};
use crate::models::goal_model::Goal;
use crate::models::insight_model::Insight;
use crate::models::plan_model::Plan;
use crate::models::recurring_model::Recurring;
use vstd::prelude::*;

verus! {

/// An item linked at the account aggregator.
#[derive(Debug, PartialEq)]
pub struct PlaidItem {
    pub item_id: String,
    pub access_token: String,
}

/// Net worth and running totals as observed at `snapshot_time`.
#[derive(Clone, Copy, Debug, PartialEq)]
pub struct Snapshot {
    pub net_worth: Money,
    pub running_savings: Money,
    pub running_spending: Money,
    pub running_income: Money,
    pub snapshot_time: i64,
}

/// A snapshot as the rules see it.
pub struct SnapshotView {
    pub net_worth: (int, nat),
    pub running_savings: (int, nat),
    pub running_spending: (int, nat),
    pub running_income: (int, nat),
    pub snapshot_time: int,
}

impl View for Snapshot {
    type V = SnapshotView;

    open spec fn view(&self) -> SnapshotView {
        SnapshotView {
            net_worth: self.net_worth@,
            running_savings: self.running_savings@,
            running_spending: self.running_spending@,
            running_income: self.running_income@,
            snapshot_time: self.snapshot_time as int,
        }
    }
}

/// An account of a user as it is kept: whether it is hidden from the totals,
/// and the known financial product that it was taken for.
#[derive(Debug, PartialEq)]
pub struct AccountRecord {
    pub item_id: String,
    pub account_id: String,
    pub account_name: String,
    pub hidden: bool,
    pub known_account_id: Option<String>,
}

impl Clone for AccountRecord {
    fn clone(&self) -> (copy: AccountRecord)
        ensures
            copy == *self,
    {
        AccountRecord {
            item_id: self.item_id.clone(),
            account_id: self.account_id.clone(),
            account_name: self.account_name.clone(),
            hidden: self.hidden,
            known_account_id: match &self.known_account_id {
                Some(id) => Some(id.clone()),
                None => None,
            },
        }
    }
}

impl Clone for PlaidItem {
    fn clone(&self) -> (copy: PlaidItem)
        ensures
            copy == *self,
    {
        PlaidItem { item_id: self.item_id.clone(), access_token: self.access_token.clone() }
    }
}

impl Snapshot {
    /// A snapshot taken at the moment `now`.
    pub fn new(
        net_worth: Money,
        running_savings: Money,
        running_spending: Money,
        running_income: Money,
        now: i64,
    ) -> (snapshot: Snapshot)
        ensures
            snapshot == (Snapshot {
                net_worth,
                running_savings,
                running_spending,
                running_income,
                snapshot_time: now,
            }),
    {
        Snapshot::new_with_time(net_worth, running_savings, running_spending, running_income, now)
    }

    /// A snapshot taken at `snapshot_time`.
    pub fn new_with_time(
        net_worth: Money,
        running_savings: Money,
        running_spending: Money,
        running_income: Money,
        snapshot_time: i64,
    ) -> (snapshot: Snapshot)
        ensures
            snapshot == (Snapshot {
                net_worth,
                running_savings,
                running_spending,
                running_income,
                snapshot_time,
            }),
    {
        Snapshot { net_worth, running_savings, running_spending, running_income, snapshot_time }
    }
}

impl Default for Snapshot {
    /// All amounts zero, taken at the epoch.
    fn default() -> (snapshot: Snapshot)
        ensures
            snapshot.net_worth@ == (0int, 0nat),
            snapshot.running_savings@ == (0int, 0nat),
            snapshot.running_spending@ == (0int, 0nat),
            snapshot.running_income@ == (0int, 0nat),
            snapshot.snapshot_time == 0,
    {
        Snapshot {
            net_worth: Money::new(Decimal::zero()),
            running_savings: Money::new(Decimal::zero()),
            running_spending: Money::new(Decimal::zero()),
            running_income: Money::new(Decimal::zero()),
            snapshot_time: 0,
        }
    }
}

/// Where a user lives, in degrees of latitude and longitude.
#[derive(Clone, Copy, Debug, PartialEq)]
pub struct Location {
    pub has_location: bool,
    pub lat: Decimal,
    pub lon: Decimal,
}

impl Default for Location {
    /// No location: zero degrees both ways.
    fn default() -> (location: Location)
        ensures
            !location.has_location,
            location.lat@ == (0int, 1nat),
            location.lon@ == (0int, 1nat),
    {
        Location { has_location: false, lat: Decimal::new(0, 1), lon: Decimal::new(0, 1) }
    }
}

/// Whether a number of degrees lies within `bound` degrees of zero, both ways.
pub open spec fn within_degrees(degrees: (int, nat), bound: int) -> bool {
    !less_value(degrees, (-bound, 0nat)) && !less_value((bound, 0nat), degrees)
}

impl Validation for Location {
    /// A location is accepted where the latitude lies between -90 and 90 and
    /// the longitude between -180 and 180.
    fn validate(&self) -> (r: Result<(), String>)
        ensures
            finding(r) == if within_degrees(self.lat@, 90) && within_degrees(self.lon@, 180) {
                None
            } else {
                Some("range"@)
            },
    {
        let lat_ok = !self.lat.less_than(&Decimal::new(-90, 0)) && !Decimal::new(90, 0).less_than(
            &self.lat,
        );
        let lon_ok = !self.lon.less_than(&Decimal::new(-180, 0)) && !Decimal::new(
            180,
            0,
        ).less_than(&self.lon);
        if lat_ok && lon_ok {
            Ok(())
        } else {
            Err(ValidationError::new("range").code)
        }
    }
}

/// A user.
#[derive(Debug)]
pub struct User {
    pub id: Option<String>,
    pub email: String,
    pub password: String,
    pub first_name: String,
    pub last_name: String,
    pub income: Decimal,
    pub net_worth: Decimal,
    pub location: Location,
    pub birthday: String,
    pub accounts: Vec<PlaidItem>,
    pub account_records: Vec<AccountRecord>,
    pub snapshots: Vec<Snapshot>,
    pub recurrings: Vec<Recurring>,
    pub goals: Vec<Goal>,
    pub insights: Vec<Insight>,
    pub plans: Vec<Plan>,
}

} // verus!

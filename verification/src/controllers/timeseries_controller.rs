//! The net-worth series as it is handed out.

use crate::common::money::Money;
use vstd::prelude::*;

verus! {

/// Net worth on one day.
#[derive(Clone, Copy, Debug, PartialEq, Eq)]
pub struct TimeseriesEntry {
    pub date: i64,
    pub net_worth: Money,
}

/// A date and the net worth on it.
impl View for TimeseriesEntry {
    type V = (int, (int, nat));

    open spec fn view(&self) -> (int, (int, nat)) {
        (self.date as int, self.net_worth@)
    }
}

/// A series of net worth, past and projected, and the moment at which the
/// projection starts.
#[derive(Debug, PartialEq)]
pub struct TimeseriesResponse {
    pub start: i64,
    pub series: Vec<TimeseriesEntry>,
}

} // verus!

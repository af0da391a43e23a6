//! Personal-finance planning: decimal money, plans of recurring cash flows,
//! dated asset allocations and one-time market events, and the day-by-day
//! projection of net worth under such a plan.

pub mod common;
pub mod controllers;
pub mod models;
pub mod services;

//! The shapes of what goes in and out at the boundary.

pub mod goal_controller;
pub mod plaid_controller;
pub mod plans_controller;
pub mod recurring_controller;
pub mod timeseries_controller;
pub mod user_controller;

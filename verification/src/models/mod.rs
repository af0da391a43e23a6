//! The data a plan is made of, and what else is kept of a user.

pub mod financial_product_model;
pub mod goal_model;
pub mod insight_model;
pub mod leaderboard_model;
pub mod plan_model;
pub mod recurring_model;
pub mod user_model;

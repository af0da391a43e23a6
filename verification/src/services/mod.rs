//! What is computed from the models.

pub mod example;
pub mod finchplaid;
pub mod goals;
pub mod insights;
pub mod laws;
pub mod leaderboards;
pub mod plaid;
pub mod plans;
pub mod products;
pub mod recurrings;
pub mod secrets;
pub mod similar_user;
pub mod snapshots;
pub mod timeseries;
pub mod users;

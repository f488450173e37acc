//! Shade: campaigns with fee policies, staking and affiliates, stretch goals,
//! vesting timelines and merchant auto-withdrawal, as a verified state model.

pub mod errors;
pub mod types;
pub mod events;
pub mod leaderboard;
pub mod totals;
pub mod shade;
pub mod campaign;
pub mod stretch_goals;
pub mod vesting;
pub mod auto_withdrawal;
pub mod laws;

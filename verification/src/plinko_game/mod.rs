//! The Plinko game contract: ball paths, payouts, statistics and leaderboards.

pub mod contract;
pub mod error;
pub mod leaderboard;
pub mod msg;
pub mod rng;
pub mod state;

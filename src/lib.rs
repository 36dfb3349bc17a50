pub mod analytics;
pub mod commands;
pub mod demo;
pub mod detect;
pub mod leaderboard;
pub mod poll;
pub mod rate_limit;
pub mod retry;
pub mod riot_data;
pub mod session;

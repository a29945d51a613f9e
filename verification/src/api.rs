//! The two read-mostly projections served to HTTP clients: the
//! leaderboard of the top players on each side, and the current lobby
//! with per-slot ratings.

pub mod leaderboard;
pub mod lobby;

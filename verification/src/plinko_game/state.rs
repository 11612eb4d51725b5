//! The game's stored state, held as plain values.

use vstd::prelude::*;

verus! {

/// The contents of a leaderboard entry: a player, the value it is ranked by
/// and, on the best-wins boards, the multiplier of that win.
pub struct EntryView {
    pub player: Seq<char>,
    pub value: u128,
    pub multiplier: Option<Seq<char>>,
}

/// The view of an optional string.
pub open spec fn opt_string_view(s: Option<String>) -> Option<Seq<char>> {
    match s {
        Some(t) => Some(t@),
        None => None,
    }
}

/// One ranked row of a leaderboard.
#[derive(Debug)]
pub struct LeaderboardEntry {
    pub player: String,
    pub value: u128,
    pub multiplier: Option<String>,
}

impl View for LeaderboardEntry {
    type V = EntryView;

    open spec fn view(&self) -> EntryView {
        EntryView {
            player: self.player@,
            value: self.value,
            multiplier: opt_string_view(self.multiplier),
        }
    }
}

/// The views of the rows of a leaderboard, in order.
pub open spec fn entries_view(s: Seq<LeaderboardEntry>) -> Seq<EntryView> {
    s.map_values(|e: LeaderboardEntry| e@)
}


/// The game's configuration.
#[derive(Debug)]
pub struct Config {
    pub token_denom: String,
    pub admin: String,
}

/// Totals over all games.
#[derive(Debug, Clone, Copy, PartialEq, Eq, Structural)]
pub struct Stats {
    pub total_games: u64,
    pub total_wagered: u128,
    pub total_won: u128,
    pub house_balance: u128,
}

/// Totals of one player.
#[derive(Debug)]
pub struct UserStats {
    pub total_games: u64,
    pub total_wagered: u128,
    pub total_won: u128,
    pub best_win_pnl: u128,
    pub best_win_multiplier: String,
}

/// The contents of a player's totals.
pub struct UserStatsView {
    pub total_games: u64,
    pub total_wagered: u128,
    pub total_won: u128,
    pub best_win_pnl: u128,
    pub best_win_multiplier: Seq<char>,
}

impl View for UserStats {
    type V = UserStatsView;

    open spec fn view(&self) -> UserStatsView {
        UserStatsView {
            total_games: self.total_games,
            total_wagered: self.total_wagered,
            total_won: self.total_won,
            best_win_pnl: self.best_win_pnl,
            best_win_multiplier: self.best_win_multiplier@,
        }
    }
}

/// The totals of a player who has not played yet.
pub open spec fn fresh_user_stats() -> UserStatsView {
    UserStatsView {
        total_games: 0,
        total_wagered: 0,
        total_won: 0,
        best_win_pnl: 0,
        best_win_multiplier: "0.0x"@,
    }
}

/// Stored totals of a player, or those of a player who has not played.
pub open spec fn user_stats_or_fresh(u: Option<UserStats>) -> UserStatsView {
    match u {
        Some(s) => s@,
        None => fresh_user_stats(),
    }
}

impl UserStats {
    /// The totals of a player who has not played yet.
    pub fn fresh() -> (u: UserStats)
        ensures
            u@ == fresh_user_stats(),
    {
        UserStats {
            total_games: 0,
            total_wagered: 0,
            total_won: 0,
            best_win_pnl: 0,
            best_win_multiplier: String::from_str("0.0x"),
        }
    }
}

/// Today's leaderboards (reset at 00:00 UTC).
#[derive(Debug)]
pub struct DailyLeaderboard {
    /// Timestamp of last reset
    pub last_reset: u64,
    pub entries_best_wins: Vec<LeaderboardEntry>,
    pub entries_wagered: Vec<LeaderboardEntry>,
}

} // verus!

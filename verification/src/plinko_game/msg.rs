//! Messages and responses of the game contract.

use vstd::prelude::*;

use crate::plinko_game::state::opt_string_view;

verus! {

/// Configuration given when the game is set up.
#[derive(Debug)]
pub struct InstantiateMsg {
    /// The token denom to use for the game (e.g., factory/{purchase_contract}/plink)
    pub token_denom: String,
}

/// Actions of the game.
#[derive(Debug)]
pub enum ExecuteMsg {
    Play { difficulty: Difficulty, risk_level: RiskLevel },
    /// Withdraw house winnings (admin only)
    WithdrawHouse { amount: u128 },
}

/// Questions the game answers.
#[derive(Debug)]
pub enum QueryMsg {
    Config {},
    Stats {},
    History { player: String, limit: Option<u32> },
    UserStats { player: String },
    GlobalLeaderboard { leaderboard_type: LeaderboardType, limit: Option<u32> },
    DailyLeaderboard { leaderboard_type: LeaderboardType, limit: Option<u32> },
}

/// Board size: 8, 12 or 16 rows of pegs.
#[derive(Clone, Copy, Debug, PartialEq, Eq, Structural)]
pub enum Difficulty {
    Easy,
    Medium,
    Hard,
}

/// Spread of the payout table.
#[derive(Clone, Copy, Debug, PartialEq, Eq, Structural)]
pub enum RiskLevel {
    Low,
    Medium,
    High,
}

/// Which ranking a leaderboard keeps.
#[derive(Clone, Copy, Debug, PartialEq, Eq, Structural)]
pub enum LeaderboardType {
    /// Sorted by best single game PnL
    BestWins,
    /// Sorted by cumulative wagered amount
    TotalWagered,
}

#[derive(Debug)]
pub struct ConfigResponse {
    pub token_denom: String,
    pub admin: String,
}

#[derive(Debug)]
pub struct StatsResponse {
    pub total_games: u64,
    pub total_wagered: u128,
    pub total_won: u128,
    pub house_balance: u128,
}

#[derive(Debug)]
pub struct UserStatsResponse {
    pub player: String,
    pub total_games: u64,
    pub total_wagered: u128,
    pub total_won: u128,
    pub best_win_pnl: u128,
    pub best_win_multiplier: String,
}

/// A leaderboard row as queries return it.
#[derive(Debug)]
pub struct LeaderboardEntry {
    pub player: String,
    pub value: u128,
    /// Only for BestWins
    pub multiplier: Option<String>,
}

impl View for LeaderboardEntry {
    type V = crate::plinko_game::state::EntryView;

    open spec fn view(&self) -> crate::plinko_game::state::EntryView {
        crate::plinko_game::state::EntryView {
            player: self.player@,
            value: self.value,
            multiplier: opt_string_view(self.multiplier),
        }
    }
}

#[derive(Debug)]
pub struct LeaderboardResponse {
    pub entries: Vec<LeaderboardEntry>,
    pub leaderboard_type: LeaderboardType,
}

#[derive(Debug)]
pub struct HistoryResponse {
    pub games: Vec<GameRecord>,
}

/// One finished game.
#[derive(Debug)]
pub struct GameRecord {
    pub player: String,
    pub difficulty: Difficulty,
    pub risk_level: RiskLevel,
    pub bet_amount: u128,
    pub multiplier: String,
    pub win_amount: u128,
    /// Profit/Loss (win_amount - bet_amount, zero when negative)
    pub pnl: u128,
    pub timestamp: u64,
    pub path: Vec<bool>,
}

} // verus!

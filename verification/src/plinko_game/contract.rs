//! The game's decisions: what a play or a withdrawal does to the stored
//! state and what it answers, and what the queries return.

use vstd::prelude::*;

use crate::common::{
    append_decimal, checked_add_amount, checked_sub_amount, decimal, decimal_string,
    find_sent_amount, sent_amount, BlockInfo, Coin, ContractResponse, Message, MessageView,
    OverflowError, OverflowOperation,
};
use crate::plinko_game::error::ContractError;
use crate::plinko_game::leaderboard::{
    find_player_row, player_row, should_reset_daily, update_leaderboard, updated_leaderboard, utc_day,
};
use crate::plinko_game::msg::{
    ConfigResponse, Difficulty, GameRecord, HistoryResponse, InstantiateMsg, LeaderboardResponse,
    LeaderboardType, RiskLevel, StatsResponse, UserStatsResponse,
};
use crate::plinko_game::msg::LeaderboardEntry as MsgLeaderboardEntry;
use crate::plinko_game::rng::{
    ball_path, calculate_bucket_index, count_right, generate_ball_path, seed_input,
};
use crate::plinko_game::state::{
    entries_view, opt_string_view, EntryView, fresh_user_stats, user_stats_or_fresh, Config, DailyLeaderboard, LeaderboardEntry, Stats,
    UserStats, UserStatsView,
};

verus! {

/// Rows of pegs on the board of a difficulty.
pub open spec fn rows_for(difficulty: Difficulty) -> u8 {
    match difficulty {
        Difficulty::Easy => 8,
        Difficulty::Medium => 12,
        Difficulty::Hard => 16,
    }
}

/// Rows of pegs: Easy 8, Medium 12, Hard 16.
pub fn get_rows(difficulty: &Difficulty) -> (rows: u8)
    ensures
        rows == rows_for(*difficulty),
{
    match difficulty {
        Difficulty::Easy => 8,
        Difficulty::Medium => 12,
        Difficulty::Hard => 16,
    }
}

/// What a bet wins at a multiplier `numerator / denominator`: the bet times
/// the numerator, divided by the denominator and rounded down; none when the
/// product overflows or the denominator is zero.
pub open spec fn payout(bet: u128, multiplier: (u64, u64)) -> Option<u128> {
    if bet * multiplier.0 > u128::MAX || multiplier.1 == 0 {
        None
    } else {
        Some(((bet * multiplier.0) / (multiplier.1 as int)) as u128)
    }
}

/// The profit of a game: the win above the bet, zero for a loss.
pub open spec fn profit(bet: u128, win: u128) -> u128 {
    if win > bet { (win - bet) as u128 } else { 0 }
}

/// The multiplier as the game reports it: whole part, one decimal
/// (rounded down) and an `x`, such as `2.5x`.
pub open spec fn multiplier_label(numerator: u64, denominator: u64) -> Seq<char> {
    decimal((numerator / denominator) as nat) + "."@
        + decimal(((numerator % denominator) * 10 / (denominator as int)) as nat) + "x"@
}

/// The path as the game reports it: `1` for right, `0` for left.
pub open spec fn path_chars(path: Seq<u8>) -> Seq<char> {
    Seq::new(path.len(), |i: int| if path[i] != 0 { '1' } else { '0' })
}

/// The path as a game record stores it: `true` for right.
pub open spec fn path_flags(path: Seq<u8>) -> Seq<bool> {
    Seq::new(path.len(), |i: int| path[i] != 0)
}

/// Whether the house and game totals can take a bet and its win.
pub open spec fn stats_can_record(stats: Stats, bet: u128, win: u128) -> bool {
    &&& stats.total_wagered + bet <= u128::MAX
    &&& stats.total_won + win <= u128::MAX
    &&& stats.house_balance + bet <= u128::MAX
    &&& stats.house_balance + bet >= win
}

/// Why a play with this bet, bucket and multiplier table fails, checked in
/// the order the game checks; none when it succeeds. `day_wagered` is what
/// the player has wagered today before this game.
pub open spec fn play_failure(
    bet: u128,
    bucket: nat,
    table: Seq<(u64, u64)>,
    stats: Stats,
    user: UserStatsView,
    day_wagered: u128,
) -> Option<ContractError> {
    if bet == 0 {
        Some(ContractError::InvalidBetAmount {})
    } else if bucket >= table.len() {
        Some(ContractError::InvalidMultiplierIndex {})
    } else {
        match payout(bet, table[bucket as int]) {
            None => Some(ContractError::OverflowError {}),
            Some(win) => {
                if stats.total_wagered + bet > u128::MAX {
                    Some(ContractError::OverflowError {})
                } else if stats.total_won + win > u128::MAX {
                    Some(ContractError::OverflowError {})
                } else if stats.house_balance + bet > u128::MAX {
                    Some(ContractError::Overflow(OverflowError { operation: OverflowOperation::Add }))
                } else if stats.house_balance + bet < win {
                    Some(ContractError::Overflow(OverflowError { operation: OverflowOperation::Sub }))
                } else if user.total_wagered + bet > u128::MAX {
                    Some(ContractError::Overflow(OverflowError { operation: OverflowOperation::Add }))
                } else if user.total_won + win > u128::MAX {
                    Some(ContractError::Overflow(OverflowError { operation: OverflowOperation::Add }))
                } else if day_wagered + bet > u128::MAX {
                    Some(ContractError::Overflow(OverflowError { operation: OverflowOperation::Add }))
                } else {
                    None
                }
            },
        }
    }
}

/// The totals after a game with this bet and win.
pub open spec fn stats_after_play(stats: Stats, bet: u128, win: u128) -> Stats {
    Stats {
        total_games: (stats.total_games + 1) as u64,
        total_wagered: (stats.total_wagered + bet) as u128,
        total_won: (stats.total_won + win) as u128,
        house_balance: (stats.house_balance + bet - win) as u128,
    }
}

/// A player's totals after a game; the best win moves only on a strictly
/// larger profit.
pub open spec fn user_after_play(
    user: UserStatsView,
    bet: u128,
    win: u128,
    label: Seq<char>,
) -> UserStatsView {
    let pnl = profit(bet, win);
    UserStatsView {
        total_games: (user.total_games + 1) as u64,
        total_wagered: (user.total_wagered + bet) as u128,
        total_won: (user.total_won + win) as u128,
        best_win_pnl: if pnl > user.best_win_pnl { pnl } else { user.best_win_pnl },
        best_win_multiplier: if pnl > user.best_win_pnl { label } else { user.best_win_multiplier },
    }
}

/// The attributes a play reports.
pub open spec fn play_attributes(
    player: Seq<char>,
    bet: u128,
    win: u128,
    label: Seq<char>,
    bucket: nat,
    path: Seq<u8>,
) -> Seq<(Seq<char>, Seq<char>)> {
    seq![
        ("action"@, "play"@),
        ("player"@, player),
        ("bet_amount"@, decimal(bet as nat)),
        ("win_amount"@, decimal(win as nat)),
        ("pnl"@, decimal(profit(bet, win) as nat)),
        ("multiplier"@, label),
        ("bucket"@, decimal(bucket)),
        ("path"@, path_chars(path)),
    ]
}

/// The payout of the bucket the ball fell in.
fn compute_payout(bet: u128, multipliers: &Vec<(u64, u64)>, bucket: usize) -> (r: Result<u128, ContractError>)
    requires
        bucket < multipliers@.len(),
    ensures
        match payout(bet, multipliers@[bucket as int]) {
            Some(win) => (r matches Ok(w) && w == win),
            None => r matches Err(ContractError::OverflowError {}),
        },
{
    let (numerator, denominator) = multipliers[bucket];
    let product = match bet.checked_mul(numerator as u128) {
        Some(p) => p,
        None => return Err(ContractError::OverflowError {}),
    };
    match product.checked_div(denominator as u128) {
        Some(w) => Ok(w),
        None => Err(ContractError::OverflowError {}),
    }
}

/// The game totals with one more game, or the first overflow.
fn record_game(stats: &Stats, bet: u128, win: u128) -> (r: Result<Stats, ContractError>)
    requires
        stats.total_games < u64::MAX,
    ensures
        stats_can_record(*stats, bet, win) ==> r == Ok::<Stats, ContractError>(stats_after_play(*stats, bet, win)),
        !stats_can_record(*stats, bet, win) ==> r is Err,
        stats.total_wagered + bet > u128::MAX ==> r matches Err(ContractError::OverflowError {}),
        stats.total_wagered + bet <= u128::MAX && stats.total_won + win > u128::MAX
            ==> r matches Err(ContractError::OverflowError {}),
        stats.total_wagered + bet <= u128::MAX && stats.total_won + win <= u128::MAX
            && stats.house_balance + bet > u128::MAX
            ==> r == Err::<Stats, ContractError>(ContractError::Overflow(OverflowError { operation: OverflowOperation::Add })),
        stats.total_wagered + bet <= u128::MAX && stats.total_won + win <= u128::MAX
            && stats.house_balance + bet <= u128::MAX && stats.house_balance + bet < win
            ==> r == Err::<Stats, ContractError>(ContractError::Overflow(OverflowError { operation: OverflowOperation::Sub })),
{
    let total_games = stats.total_games + 1;
    let total_wagered = match stats.total_wagered.checked_add(bet) {
        Some(t) => t,
        None => return Err(ContractError::OverflowError {}),
    };
    let total_won = match stats.total_won.checked_add(win) {
        Some(t) => t,
        None => return Err(ContractError::OverflowError {}),
    };
    // House balance receives the bet and pays out the win.
    let house = match checked_add_amount(stats.house_balance, bet) {
        Ok(h) => h,
        Err(e) => return Err(ContractError::Overflow(e)),
    };
    let house = match checked_sub_amount(house, win) {
        Ok(h) => h,
        Err(e) => return Err(ContractError::Overflow(e)),
    };
    Ok(Stats { total_games, total_wagered, total_won, house_balance: house })
}

/// Whether a player's totals can take a bet and its win.
pub open spec fn user_can_record(user: UserStatsView, bet: u128, win: u128) -> bool {
    &&& user.total_wagered + bet <= u128::MAX
    &&& user.total_won + win <= u128::MAX
}

/// A player's totals with one more game, or the first overflow.
fn record_user_game(user: UserStats, bet: u128, win: u128, label: &String) -> (r: Result<UserStats, ContractError>)
    requires
        user.total_games < u64::MAX,
    ensures
        user_can_record(user@, bet, win) ==> (r matches Ok(u) && u@ == user_after_play(user@, bet, win, label@)),
        !user_can_record(user@, bet, win) ==> (r matches Err(ContractError::Overflow(e)) && e.operation
            == OverflowOperation::Add),
{
    let total_games = user.total_games + 1;
    let total_wagered = match checked_add_amount(user.total_wagered, bet) {
        Ok(t) => t,
        Err(e) => return Err(ContractError::Overflow(e)),
    };
    let total_won = match checked_add_amount(user.total_won, win) {
        Ok(t) => t,
        Err(e) => return Err(ContractError::Overflow(e)),
    };
    let pnl = win.saturating_sub(bet);
    let (best_win_pnl, best_win_multiplier) = if pnl > user.best_win_pnl {
        (pnl, label.clone())
    } else {
        (user.best_win_pnl, user.best_win_multiplier)
    };
    Ok(UserStats { total_games, total_wagered, total_won, best_win_pnl, best_win_multiplier })
}

/// The multiplier label `{whole}.{tenths}x`.
fn multiplier_string(numerator: u64, denominator: u64) -> (s: String)
    requires
        denominator != 0,
    ensures
        s@ == multiplier_label(numerator, denominator),
{
    let mut s = String::new();
    append_decimal(&mut s, (numerator / denominator) as u128);
    s.append(".");
    let tenths = (numerator % denominator) as u128 * 10 / denominator as u128;
    append_decimal(&mut s, tenths);
    s.append("x");
    assert(s@ =~= multiplier_label(numerator, denominator));
    s
}

/// The path as `0`/`1` characters.
fn path_string(path: &Vec<u8>) -> (s: String)
    ensures
        s@ == path_chars(path@),
{
    let mut s = String::new();
    let mut i: usize = 0;
    while i < path.len()
        invariant
            i <= path@.len(),
            s@ =~= path_chars(path@).take(i as int),
        decreases path@.len() - i,
    {
        proof {
            reveal_strlit("1");
            reveal_strlit("0");
        }
        if path[i] != 0 {
            s.append("1");
        } else {
            s.append("0");
        }
        i = i + 1;
    }
    assert(path_chars(path@).take(i as int) =~= path_chars(path@));
    s
}

/// The path as stored flags.
fn path_to_flags(path: &Vec<u8>) -> (flags: Vec<bool>)
    ensures
        flags@ == path_flags(path@),
{
    let mut flags: Vec<bool> = Vec::new();
    let mut i: usize = 0;
    while i < path.len()
        invariant
            i <= path@.len(),
            flags@ =~= path_flags(path@).take(i as int),
        decreases path@.len() - i,
    {
        flags.push(path[i] != 0);
        i = i + 1;
    }
    assert(path_flags(path@).take(i as int) =~= path_flags(path@));
    flags
}

/// What a successful play leaves behind: the new stored state, the game's
/// record and the response.
#[derive(Debug)]
pub struct PlayOutcome {
    pub stats: Stats,
    pub user_stats: UserStats,
    pub global_best_wins: Vec<LeaderboardEntry>,
    pub global_total_wagered: Vec<LeaderboardEntry>,
    pub daily: DailyLeaderboard,
    pub player_game_count: u64,
    pub game_record: GameRecord,
    pub response: ContractResponse,
}

/// The daily boards at `now`: emptied and restarted when a new UTC day has
/// begun since the last reset.
pub open spec fn daily_at(daily: DailyLeaderboard, now: u64) -> (u64, Seq<EntryView>, Seq<EntryView>) {
    if utc_day(now) > utc_day(daily.last_reset) {
        (now, Seq::empty(), Seq::empty())
    } else {
        (daily.last_reset, entries_view(daily.entries_best_wins@), entries_view(daily.entries_wagered@))
    }
}

/// Law: for a non-zero denominator and a product that fits, the win is the
/// bet times the numerator divided by the denominator, rounded down, for
/// every multiplier (below one too): `win * d <= bet * n < (win + 1) * d`.
pub proof fn law_payout_is_rounded_down_ratio(bet: u128, multiplier: (u64, u64))
    requires
        multiplier.1 != 0,
        bet * multiplier.0 <= u128::MAX,
    ensures
        payout(bet, multiplier) is Some,
        payout(bet, multiplier).unwrap() * multiplier.1 <= bet * multiplier.0,
        bet * multiplier.0 < (payout(bet, multiplier).unwrap() + 1) * multiplier.1,
{
    let x = bet as int * multiplier.0 as int;
    let d = multiplier.1 as int;
    let q = x / d;
    assert(payout(bet, multiplier).unwrap() == q);
    assert(q * d <= x && x < (q + 1) * d) by (nonlinear_arith)
        requires
            d > 0,
            x >= 0,
            q == x / d,
    ;
}

/// Law: a payout refuses exactly a zero denominator or a product that does
/// not fit; it grows with the numerator, and it is positive whenever the
/// bet times the numerator reaches the denominator.
pub proof fn law_payout_monotone_and_positive(bet: u128, n1: u64, n2: u64, d: u64)
    ensures
        payout(bet, (n1, d)) is None <==> (d == 0 || bet * n1 > u128::MAX),
        payout(bet, (n1, d)) is Some && payout(bet, (n2, d)) is Some && n1 <= n2
            ==> payout(bet, (n1, d)).unwrap() <= payout(bet, (n2, d)).unwrap(),
        payout(bet, (n1, d)) is Some && bet * n1 >= d ==> payout(bet, (n1, d)).unwrap() >= 1,
{
    if payout(bet, (n1, d)) is Some {
        law_payout_is_rounded_down_ratio(bet, (n1, d));
        let w1 = payout(bet, (n1, d)).unwrap() as int;
        if bet * n1 >= d {
            assert(w1 >= 1) by (nonlinear_arith)
                requires
                    bet * n1 < (w1 + 1) * d,
                    bet * n1 >= d,
                    d > 0,
                    w1 >= 0,
            ;
        }
        if payout(bet, (n2, d)) is Some && n1 <= n2 {
            law_payout_is_rounded_down_ratio(bet, (n2, d));
            let w2 = payout(bet, (n2, d)).unwrap() as int;
            assert(bet * n1 <= bet * n2) by (nonlinear_arith)
                requires
                    n1 <= n2,
            ;
            assert(w1 <= w2) by (nonlinear_arith)
                requires
                    w1 * d <= bet * n1,
                    bet * n1 <= bet * n2,
                    bet * n2 < (w2 + 1) * d,
                    d > 0,
            ;
        }
    }
}

/// The largest multiplier a payout table may hold.
pub const MAX_MULTIPLIER: u64 = 1000;

/// A multiplier of at most `MAX_MULTIPLIER` times.
pub open spec fn multiplier_capped(multiplier: (u64, u64)) -> bool {
    multiplier.0 <= MAX_MULTIPLIER * multiplier.1
}

/// A payout table whose every multiplier is at most `MAX_MULTIPLIER` times.
pub open spec fn table_capped(table: Seq<(u64, u64)>) -> bool {
    forall|i: int| 0 <= i < table.len() ==> multiplier_capped(#[trigger] table[i])
}

/// Law: at a multiplier of at most `MAX_MULTIPLIER` times, a win is at most
/// `MAX_MULTIPLIER` times the bet.
pub proof fn law_win_capped(bet: u128, multiplier: (u64, u64))
    requires
        multiplier_capped(multiplier),
        payout(bet, multiplier) is Some,
    ensures
        payout(bet, multiplier).unwrap() <= MAX_MULTIPLIER * bet,
{
    let n = multiplier.0 as int;
    let d = multiplier.1 as int;
    let b = bet as int;
    assert(b * n <= b * (1000 * d)) by (nonlinear_arith)
        requires
            n <= 1000 * d,
            b >= 0,
    ;
    assert((b * n) / d <= 1000 * b) by (nonlinear_arith)
        requires
            b * n <= b * (1000 * d),
            d > 0,
            b >= 0,
            n >= 0,
    ;
}

/// Today's best-win row of a player after a game with profit `pnl`: the
/// larger of the day's best so far and this game's profit, with the
/// multiplier of the game that made it (the earlier one on a tie).
pub open spec fn day_best_row(prev: Option<EntryView>, pnl: u128, label: Seq<char>) -> (u128, Option<Seq<char>>) {
    match prev {
        Some(r) => if pnl > r.value { (pnl, Some(label)) } else { (r.value, r.multiplier) },
        None => (pnl, Some(label)),
    }
}

/// What a player has wagered today according to the player's row on
/// today's wagered board (zero without a row).
pub open spec fn day_wagered_before(prev: Option<EntryView>) -> u128 {
    match prev {
        Some(r) => r.value,
        None => 0,
    }
}

/// The ball path of a play.
pub open spec fn play_path(block: BlockInfo, sender: Seq<char>, player_count: u64, difficulty: Difficulty) -> Seq<u8> {
    ball_path(seed_input(block.height, block.time_nanos, sender, player_count), rows_for(difficulty) as nat)
}

/// Whether a play would count past `u64::MAX`: the game count once the
/// payout is known, the player's game count once the game totals take the
/// game, the player's number of games once everything else succeeded.
pub open spec fn play_overflows_counter(
    bet: u128,
    bucket: nat,
    table: Seq<(u64, u64)>,
    stats: Stats,
    user: UserStatsView,
    day_wagered: u128,
    player_count: u64,
) -> bool {
    &&& bet != 0
    &&& bucket < table.len()
    &&& payout(bet, table[bucket as int]) is Some
    &&& {
        let win = payout(bet, table[bucket as int]).unwrap();
        ||| stats.total_games == u64::MAX
        ||| (stats_can_record(stats, bet, win) && user.total_games == u64::MAX)
        ||| (stats_can_record(stats, bet, win) && user_can_record(user, bet, win)
            && day_wagered + bet <= u128::MAX && player_count == u64::MAX)
    }
}

/// What a play answers: the error of `play_failure` when there is one,
/// otherwise the outcome with every total, board, record and message
/// updated as the game rules say.
pub open spec fn play_result(
    config: Config,
    block: BlockInfo,
    sender: Seq<char>,
    funds: Seq<Coin>,
    difficulty: Difficulty,
    risk_level: RiskLevel,
    table: Seq<(u64, u64)>,
    stats: Stats,
    user_stats: Option<UserStats>,
    player_count: u64,
    global_best_wins: Seq<EntryView>,
    global_total_wagered: Seq<EntryView>,
    daily: DailyLeaderboard,
    result: Result<PlayOutcome, ContractError>,
) -> bool {
    let bet = sent_amount(funds, config.token_denom@);
    let path = play_path(block, sender, player_count, difficulty);
    let bucket = count_right(path);
    let user = user_stats_or_fresh(user_stats);
    let now = block.spec_seconds();
    let d = daily_at(daily, now);
    let day_wagered = day_wagered_before(player_row(d.2, sender));
    let failure = play_failure(bet, bucket, table, stats, user, day_wagered);
    &&& (result is Err <==> failure is Some)
    &&& (result matches Err(e) ==> failure == Some(e))
    &&& (result matches Ok(out) ==> {
        let m = table[bucket as int];
        let win = payout(bet, m).unwrap();
        let pnl = profit(bet, win);
        let label = multiplier_label(m.0, m.1);
        let u = user_after_play(user, bet, win, label);
        let best = day_best_row(player_row(d.1, sender), pnl, label);
        &&& out.stats == stats_after_play(stats, bet, win)
        &&& out.user_stats@ == u
        &&& entries_view(out.global_best_wins@) == updated_leaderboard(
            global_best_wins, sender, u.best_win_pnl, Some(u.best_win_multiplier))
        &&& entries_view(out.global_total_wagered@) == updated_leaderboard(
            global_total_wagered, sender, u.total_wagered, None)
        &&& out.daily.last_reset == d.0
        &&& entries_view(out.daily.entries_best_wins@) == updated_leaderboard(d.1, sender, best.0, best.1)
        &&& entries_view(out.daily.entries_wagered@) == updated_leaderboard(
            d.2, sender, (day_wagered + bet) as u128, None)
        &&& out.player_game_count == player_count + 1
        &&& out.game_record.player@ == sender
        &&& out.game_record.difficulty == difficulty
        &&& out.game_record.risk_level == risk_level
        &&& out.game_record.bet_amount == bet
        &&& out.game_record.multiplier@ == label
        &&& out.game_record.win_amount == win
        &&& out.game_record.pnl == pnl
        &&& out.game_record.timestamp == now
        &&& out.game_record.path@ == path_flags(path)
        &&& path.len() == rows_for(difficulty)
        &&& bucket <= rows_for(difficulty)
        &&& (table_capped(table) ==> win <= MAX_MULTIPLIER * bet)
        &&& out.response.messages_view() == (if win != 0 {
            seq![MessageView::BankSend { to_address: sender, denom: config.token_denom@, amount: win }]
        } else {
            Seq::empty()
        })
        &&& out.response.attributes_view() == play_attributes(sender, bet, win, label, bucket, path)
    })
}

/// Play one game: the bet is the first coin of the game's denomination sent
/// along, the ball path comes from the block, the player and the player's
/// game count, the win is the bet times the multiplier of the bucket the
/// ball lands in (`multipliers` is the payout table of the chosen
/// difficulty and risk level). Updates the game and player totals, the
/// global leaderboards (best single-game profit, total wagered), today's
/// leaderboards (best single-game profit of the day, amount wagered today),
/// the player's game count and history, and pays the win to the player.
pub fn execute_play(
    config: &Config,
    block: &BlockInfo,
    sender: &String,
    funds: &Vec<Coin>,
    difficulty: Difficulty,
    risk_level: RiskLevel,
    multipliers: &Vec<(u64, u64)>,
    stats: &Stats,
    user_stats: Option<UserStats>,
    player_count: u64,
    global_best_wins: Vec<LeaderboardEntry>,
    global_total_wagered: Vec<LeaderboardEntry>,
    daily: DailyLeaderboard,
) -> (result: Result<PlayOutcome, ContractError>)
    requires
        stats.total_games < u64::MAX,
        user_stats_or_fresh(user_stats).total_games < u64::MAX,
        player_count < u64::MAX,
    ensures
        play_result(
            *config,
            *block,
            sender@,
            funds@,
            difficulty,
            risk_level,
            multipliers@,
            *stats,
            user_stats,
            player_count,
            entries_view(global_best_wins@),
            entries_view(global_total_wagered@),
            daily,
            result,
        ),
{
    // Get bet amount from sent funds
    let bet_amount = find_sent_amount(funds, &config.token_denom);
    if bet_amount == 0 {
        return Err(ContractError::InvalidBetAmount {});
    }

    // Generate provably fair random path
    let rows = get_rows(&difficulty);
    let path = generate_ball_path(block.height, block.time_nanos, sender.as_str(), player_count, rows);
    let bucket_index = calculate_bucket_index(path.as_slice());

    // Get multiplier for this bucket
    if bucket_index >= multipliers.len() {
        return Err(ContractError::InvalidMultiplierIndex {});
    }
    let (numerator, denominator) = multipliers[bucket_index];

    // Calculate win amount: bet_amount * (numerator / denominator)
    let win_amount = compute_payout(bet_amount, multipliers, bucket_index)?;
    let pnl = win_amount.saturating_sub(bet_amount);

    // Update global stats
    let new_stats = record_game(stats, bet_amount, win_amount)?;

    // Update user stats
    let user = match user_stats {
        Some(u) => u,
        None => UserStats::fresh(),
    };
    assert(multipliers@[bucket_index as int] == (numerator, denominator));
    let multiplier_str = multiplier_string(numerator, denominator);
    let user = record_user_game(user, bet_amount, win_amount, &multiplier_str)?;

    // Update global leaderboards
    let ghost old_global_best = global_best_wins;
    let ghost old_global_wag = global_total_wagered;
    let mut global_best_wins = global_best_wins;
    update_leaderboard(
        &mut global_best_wins,
        sender.clone(),
        user.best_win_pnl,
        Some(user.best_win_multiplier.clone()),
    );
    let mut global_wagered = global_total_wagered;
    update_leaderboard(&mut global_wagered, sender.clone(), user.total_wagered, None);

    // Update daily leaderboard (with reset check)
    let now = block.seconds();
    let ghost old_daily = daily;
    let mut daily = daily;
    if should_reset_daily(daily.last_reset, now) {
        daily = DailyLeaderboard { last_reset: now, entries_best_wins: Vec::new(), entries_wagered: Vec::new() };
        assert(entries_view(daily.entries_best_wins@) =~= Seq::empty());
        assert(entries_view(daily.entries_wagered@) =~= Seq::empty());
    }
    // Today's best win is the larger of the day's best so far and this
    // game's profit; today's wager adds this bet to the day's wagers.
    let (day_best, day_best_multiplier) = match find_player_row(&daily.entries_best_wins, sender) {
        Some((best, best_multiplier)) => {
            if pnl > best {
                (pnl, Some(multiplier_str.clone()))
            } else {
                (best, best_multiplier)
            }
        },
        None => (pnl, Some(multiplier_str.clone())),
    };
    let day_wagered_so_far: u128 = match find_player_row(&daily.entries_wagered, sender) {
        Some((wagered, _)) => wagered,
        None => 0,
    };
    let day_wagered = match checked_add_amount(day_wagered_so_far, bet_amount) {
        Ok(w) => w,
        Err(e) => return Err(ContractError::Overflow(e)),
    };
    let ghost day_best_multiplier_ghost = day_best_multiplier;
    let ghost pre_best = entries_view(daily.entries_best_wins@);
    let ghost pre_wag = entries_view(daily.entries_wagered@);
    update_leaderboard(&mut daily.entries_best_wins, sender.clone(), day_best, day_best_multiplier);
    update_leaderboard(&mut daily.entries_wagered, sender.clone(), day_wagered, None);

    let path_bool = path_to_flags(&path);
    let game_record = GameRecord {
        player: sender.clone(),
        difficulty,
        risk_level,
        bet_amount,
        multiplier: multiplier_str.clone(),
        win_amount,
        pnl,
        timestamp: now,
        path: path_bool,
    };

    // Create bank message to send winnings
    let mut response = ContractResponse::new();
    if win_amount != 0 {
        response.add_message(Message::BankSend {
            to_address: sender.clone(),
            denom: config.token_denom.clone(),
            amount: win_amount,
        });
    }
    let path_str = path_string(&path);
    response.add_attribute("action", String::from_str("play"));
    response.add_attribute("player", sender.clone());
    response.add_attribute("bet_amount", decimal_string(bet_amount));
    response.add_attribute("win_amount", decimal_string(win_amount));
    response.add_attribute("pnl", decimal_string(pnl));
    response.add_attribute("multiplier", multiplier_str);
    response.add_attribute("bucket", decimal_string(bucket_index as u128));
    response.add_attribute("path", path_str);

    let ghost d = daily_at(old_daily, block.spec_seconds());
    assert(daily.last_reset == d.0);
    assert(pre_best == d.1);
    assert(pre_wag == d.2);
    assert(entries_view(daily.entries_best_wins@) == updated_leaderboard(d.1, sender@, day_best, opt_string_view(day_best_multiplier_ghost)));
    assert((day_best, opt_string_view(day_best_multiplier_ghost)) == day_best_row(player_row(d.1, sender@), pnl, multiplier_str@));
    assert(day_wagered == day_wagered_before(player_row(d.2, sender@)) + bet_amount);
    let out = PlayOutcome {
        stats: new_stats,
        user_stats: user,
        global_best_wins,
        global_total_wagered: global_wagered,
        daily,
        player_game_count: player_count + 1,
        game_record,
        response,
    };
    proof {
        let bet = sent_amount(funds@, config.token_denom@);
        let spec_path = play_path(*block, sender@, player_count, difficulty);
        let bucket = count_right(spec_path);
        let user = user_stats_or_fresh(user_stats);
        let day_wagered = day_wagered_before(player_row(d.2, sender@));
        assert(bet == bet_amount);
        assert(spec_path == path@);
        assert(bucket == bucket_index);
        assert(play_failure(bet, bucket, multipliers@, *stats, user, day_wagered) is None);
        let m = multipliers@[bucket as int];
        let win = payout(bet, m).unwrap();
        let pnl = profit(bet, win);
        let label = multiplier_label(m.0, m.1);
        let u = user_after_play(user, bet, win, label);
        let best = day_best_row(player_row(d.1, sender@), pnl, label);
        assert(win == win_amount);
        assert(label == multiplier_str@);
        assert(out.stats == stats_after_play(*stats, bet, win));
        assert(out.user_stats@ == u);
        assert(entries_view(out.global_best_wins@) == updated_leaderboard(
            entries_view(old_global_best@), sender@, u.best_win_pnl, Some(u.best_win_multiplier)));
        assert(entries_view(out.global_total_wagered@) == updated_leaderboard(
            entries_view(old_global_wag@), sender@, u.total_wagered, None));
        assert(entries_view(out.daily.entries_best_wins@) == updated_leaderboard(d.1, sender@, best.0, best.1));
        assert(entries_view(out.daily.entries_wagered@) == updated_leaderboard(
            d.2, sender@, (day_wagered + bet) as u128, None));
        assert(out.game_record.path@ == path_flags(spec_path));
        if table_capped(multipliers@) {
            assert(multiplier_capped(m));
            law_win_capped(bet, m);
        }
        assert(out.response.attributes_view() == play_attributes(sender@, bet, win, label, bucket, spec_path));
    }
    Ok(out)
}


/// Play one game when no counter is full; otherwise answer what the game
/// answers before it would count past `u64::MAX`: the error of a check that
/// comes first, or `None` when the play reaches the full counter.
pub fn try_execute_play(
    config: &Config,
    block: &BlockInfo,
    sender: &String,
    funds: &Vec<Coin>,
    difficulty: Difficulty,
    risk_level: RiskLevel,
    multipliers: &Vec<(u64, u64)>,
    stats: &Stats,
    user_stats: Option<UserStats>,
    player_count: u64,
    global_best_wins: Vec<LeaderboardEntry>,
    global_total_wagered: Vec<LeaderboardEntry>,
    daily: DailyLeaderboard,
) -> (result: Option<Result<PlayOutcome, ContractError>>)
    ensures
        ({
            let bet = sent_amount(funds@, config.token_denom@);
            let bucket = count_right(play_path(*block, sender@, player_count, difficulty));
            let user = user_stats_or_fresh(user_stats);
            let d = daily_at(daily, block.spec_seconds());
            let day_wagered = day_wagered_before(player_row(d.2, sender@));
            &&& (result is None <==> play_overflows_counter(
                bet, bucket, multipliers@, *stats, user, day_wagered, player_count))
            &&& (result matches Some(r) ==> play_result(
                *config,
                *block,
                sender@,
                funds@,
                difficulty,
                risk_level,
                multipliers@,
                *stats,
                user_stats,
                player_count,
                entries_view(global_best_wins@),
                entries_view(global_total_wagered@),
                daily,
                r,
            ))
        }),
{
    let (user_games, user_wagered, user_won) = match &user_stats {
        Some(u) => (u.total_games, u.total_wagered, u.total_won),
        None => (0, 0, 0),
    };
    if stats.total_games < u64::MAX && user_games < u64::MAX && player_count < u64::MAX {
        return Some(
            execute_play(
                config,
                block,
                sender,
                funds,
                difficulty,
                risk_level,
                multipliers,
                stats,
                user_stats,
                player_count,
                global_best_wins,
                global_total_wagered,
                daily,
            ),
        );
    }
    // A counter is full: the checks that come before it still answer.

    let ghost user = user_stats_or_fresh(user_stats);
    let ghost d = daily_at(daily, block.spec_seconds());
    let ghost day_wagered = day_wagered_before(player_row(d.2, sender@));
    let bet = find_sent_amount(funds, &config.token_denom);
    if bet == 0 {
        return Some(Err(ContractError::InvalidBetAmount {}));
    }
    let rows = get_rows(&difficulty);
    let path = generate_ball_path(block.height, block.time_nanos, sender.as_str(), player_count, rows);
    let bucket = calculate_bucket_index(path.as_slice());
    assert(path@ == play_path(*block, sender@, player_count, difficulty));
    if bucket >= multipliers.len() {
        return Some(Err(ContractError::InvalidMultiplierIndex {}));
    }
    let win = match compute_payout(bet, multipliers, bucket) {
        Ok(w) => w,
        Err(e) => return Some(Err(e)),
    };
    if stats.total_games == u64::MAX {
        return None;
    }
    if stats.total_wagered.checked_add(bet).is_none() || stats.total_won.checked_add(win).is_none() {
        return Some(Err(ContractError::OverflowError {}));
    }
    let house = match checked_add_amount(stats.house_balance, bet) {
        Ok(h) => h,
        Err(e) => return Some(Err(ContractError::Overflow(e))),
    };
    if let Err(e) = checked_sub_amount(house, win) {
        return Some(Err(ContractError::Overflow(e)));
    }
    if user_games == u64::MAX {
        return None;
    }
    if let Err(e) = checked_add_amount(user_wagered, bet) {
        return Some(Err(ContractError::Overflow(e)));
    }
    if let Err(e) = checked_add_amount(user_won, win) {
        return Some(Err(ContractError::Overflow(e)));
    }
    let now = block.seconds();
    let wagered_today: u128 = if should_reset_daily(daily.last_reset, now) {
        0
    } else {
        match find_player_row(&daily.entries_wagered, sender) {
            Some((w, _)) => w,
            None => 0,
        }
    };
    proof {
        if !(utc_day(now) > utc_day(daily.last_reset)) {
            assert(d.2 == entries_view(daily.entries_wagered@));
        } else {
            assert(d.2 =~= Seq::<EntryView>::empty());
        }
    }
    assert(wagered_today == day_wagered);
    if let Err(e) = checked_add_amount(wagered_today, bet) {
        return Some(Err(ContractError::Overflow(e)));
    }
    None
}

/// The state a new game starts from.
#[derive(Debug)]
pub struct GameInit {
    pub config: Config,
    pub stats: Stats,
    pub global_best_wins: Vec<LeaderboardEntry>,
    pub global_total_wagered: Vec<LeaderboardEntry>,
    pub daily: DailyLeaderboard,
    pub response: ContractResponse,
}

/// Set up the game: the sender becomes the admin, all totals start at zero,
/// the boards start empty and today's boards start at the block time.
pub fn instantiate(block: &BlockInfo, sender: &String, msg: InstantiateMsg) -> (init: GameInit)
    ensures
        init.config.token_denom@ == msg.token_denom@,
        init.config.admin@ == sender@,
        init.stats == (Stats { total_games: 0, total_wagered: 0, total_won: 0, house_balance: 0 }),
        init.global_best_wins@.len() == 0,
        init.global_total_wagered@.len() == 0,
        init.daily.last_reset == block.spec_seconds(),
        init.daily.entries_best_wins@.len() == 0,
        init.daily.entries_wagered@.len() == 0,
        init.response.messages_view() == Seq::<MessageView>::empty(),
        init.response.attributes_view() == seq![("action"@, "instantiate"@)],
{
    let config = Config { token_denom: msg.token_denom, admin: sender.clone() };
    let stats = Stats { total_games: 0, total_wagered: 0, total_won: 0, house_balance: 0 };
    let daily = DailyLeaderboard {
        last_reset: block.seconds(),
        entries_best_wins: Vec::new(),
        entries_wagered: Vec::new(),
    };
    let mut response = ContractResponse::new();
    response.add_attribute("action", String::from_str("instantiate"));
    assert(response.attributes_view() =~= seq![("action"@, "instantiate"@)]);
    GameInit {
        config,
        stats,
        global_best_wins: Vec::new(),
        global_total_wagered: Vec::new(),
        daily,
        response,
    }
}

/// Withdraw house winnings (admin only): refused to anyone but the admin,
/// and for more than the house balance; otherwise the balance drops by the
/// amount and the amount is sent to the admin.
pub fn execute_withdraw_house(
    config: &Config,
    stats: &Stats,
    sender: &String,
    amount: u128,
) -> (result: Result<(Stats, ContractResponse), ContractError>)
    ensures
        sender@ != config.admin@ ==> result matches Err(ContractError::Unauthorized {}),
        sender@ == config.admin@ && amount > stats.house_balance
            ==> result matches Err(ContractError::InsufficientBalance {}),
        result is Ok <==> sender@ == config.admin@ && amount <= stats.house_balance,
        result matches Ok((s, r)) ==> {
            &&& s == (Stats { house_balance: (stats.house_balance - amount) as u128, ..*stats })
            &&& r.messages_view() == seq![MessageView::BankSend {
                to_address: config.admin@,
                denom: config.token_denom@,
                amount,
            }]
            &&& r.attributes_view() == seq![("action"@, "withdraw_house"@), ("amount"@, decimal(amount as nat))]
        },
{
    if *sender != config.admin {
        return Err(ContractError::Unauthorized {});
    }
    if amount > stats.house_balance {
        return Err(ContractError::InsufficientBalance {});
    }
    let house_balance = match checked_sub_amount(stats.house_balance, amount) {
        Ok(h) => h,
        Err(e) => return Err(ContractError::Overflow(e)),
    };
    let new_stats = Stats { house_balance, ..*stats };
    let mut response = ContractResponse::new();
    response.add_message(Message::BankSend {
        to_address: config.admin.clone(),
        denom: config.token_denom.clone(),
        amount,
    });
    response.add_attribute("action", String::from_str("withdraw_house"));
    response.add_attribute("amount", decimal_string(amount));
    Ok((new_stats, response))
}

/// The game's configuration.
pub fn query_config(config: &Config) -> (r: ConfigResponse)
    ensures
        r.token_denom@ == config.token_denom@,
        r.admin@ == config.admin@,
{
    ConfigResponse { token_denom: config.token_denom.clone(), admin: config.admin.clone() }
}

/// The game totals.
pub fn query_stats(stats: &Stats) -> (r: StatsResponse)
    ensures
        r.total_games == stats.total_games,
        r.total_wagered == stats.total_wagered,
        r.total_won == stats.total_won,
        r.house_balance == stats.house_balance,
{
    StatsResponse {
        total_games: stats.total_games,
        total_wagered: stats.total_wagered,
        total_won: stats.total_won,
        house_balance: stats.house_balance,
    }
}

/// Rows a page holds when none is asked for.
pub const DEFAULT_LIMIT: u32 = 10;

/// Most rows a page holds.
pub const MAX_LIMIT: u32 = 100;

/// The page size of a query: the limit asked for (10 when none), at most 100.
pub open spec fn page_size(limit: Option<u32>) -> nat {
    let l = match limit {
        Some(l) => l,
        None => DEFAULT_LIMIT,
    };
    if l < MAX_LIMIT { l as nat } else { MAX_LIMIT as nat }
}

fn page_size_of(limit: Option<u32>) -> (n: u32)
    ensures
        n == page_size(limit),
{
    let l = match limit {
        Some(l) => l,
        None => DEFAULT_LIMIT,
    };
    if l < MAX_LIMIT { l } else { MAX_LIMIT }
}

/// The game numbers of a player's history that a query covers: the last
/// `page_size(limit)` of the `player_count` games, as `start..end`.
pub fn history_window(player_count: u64, limit: Option<u32>) -> (window: (u64, u64))
    ensures
        window.1 == player_count,
        window.0 == (if player_count >= page_size(limit) { player_count - page_size(limit) } else { 0 }),
{
    let limit = page_size_of(limit) as u64;
    let start = player_count.saturating_sub(limit);
    (start, player_count)
}

/// The games of a history window that were found, in order.
pub open spec fn found_records(records: Seq<Option<GameRecord>>) -> Seq<GameRecord>
    decreases records.len(),
{
    if records.len() == 0 {
        Seq::empty()
    } else {
        let rest = found_records(records.drop_last());
        match records.last() {
            Some(g) => rest.push(g),
            None => rest,
        }
    }
}

/// Law: a history keeps every stored record of its window in order: a
/// window of stored records gives exactly those records, missing records
/// are skipped, and the history of two windows side by side is the one
/// history followed by the other.
pub proof fn law_history_keeps_stored_records(records: Seq<Option<GameRecord>>, more: Seq<Option<GameRecord>>)
    ensures
        (forall|i: int| 0 <= i < records.len() ==> (#[trigger] records[i]) is Some) ==> found_records(
            records,
        ) == Seq::new(records.len(), |i: int| records[i].unwrap()),
        found_records(records + more) == found_records(records) + found_records(more),
        found_records(seq![None::<GameRecord>]).len() == 0,
    decreases more.len(),
{
    if more.len() == 0 {
        assert(records + more =~= records);
        assert(found_records(records) + found_records(more) =~= found_records(records));
    } else {
        law_history_keeps_stored_records(records, more.drop_last());
        assert((records + more).drop_last() =~= records + more.drop_last());
        assert((records + more).last() == more.last());
        match more.last() {
            Some(g) => {
                assert(found_records(records) + found_records(more) =~= (found_records(records)
                    + found_records(more.drop_last())).push(g));
            },
            None => {},
        }
    }
    lemma_all_stored_records(records);
    let one = seq![None::<GameRecord>];
    assert(one.drop_last() =~= Seq::<Option<GameRecord>>::empty());
    assert(one.last() is None);
    assert(found_records(one) == found_records(one.drop_last()));
    assert(found_records(Seq::<Option<GameRecord>>::empty()).len() == 0);
}

proof fn lemma_all_stored_records(records: Seq<Option<GameRecord>>)
    ensures
        (forall|i: int| 0 <= i < records.len() ==> (#[trigger] records[i]) is Some) ==> found_records(
            records,
        ) == Seq::new(records.len(), |i: int| records[i].unwrap()),
    decreases records.len(),
{
    if records.len() > 0 && forall|i: int| 0 <= i < records.len() ==> (#[trigger] records[i]) is Some {
        let r = records.drop_last();
        assert forall|i: int| 0 <= i < r.len() implies (#[trigger] r[i]) is Some by {
            assert(r[i] == records[i]);
        }
        lemma_all_stored_records(r);
        assert(records[records.len() - 1] is Some);
        assert(found_records(records) =~= Seq::new(records.len(), |i: int| records[i].unwrap()));
    } else if records.len() == 0 {
        assert(found_records(records) =~= Seq::new(records.len(), |i: int| records[i].unwrap()));
    }
}

/// A player's history from the stored records of a window, skipping game
/// numbers that hold none.
pub fn query_history(records: Vec<Option<GameRecord>>) -> (r: HistoryResponse)
    ensures
        r.games@ == found_records(records@),
{
    let ghost orig = records@;
    let mut records = records;
    let mut rev: Vec<GameRecord> = Vec::new();
    // Take records from the back; `rev` holds the found ones, last first.
    while records.len() > 0
        invariant
            found_records(orig) == found_records(records@) + rev@.reverse(),
            records@.len() <= orig.len(),
        decreases records.len(),
    {
        let ghost before = records@;
        let last = records.pop();
        match last {
            Some(Some(g)) => {
                let ghost r0 = rev@;
                rev.push(g);
                assert(rev@.reverse() =~= seq![g] + r0.reverse());
                assert(found_records(before) == found_records(records@).push(g));
                assert(found_records(records@).push(g) + r0.reverse() =~= found_records(records@) + rev@.reverse());
            },
            _ => {
                assert(before.drop_last() =~= records@);
            },
        }
    }
    let mut games: Vec<GameRecord> = Vec::new();
    assert(found_records(records@) =~= Seq::<GameRecord>::empty());
    let ghost all = rev@.reverse();
    while rev.len() > 0
        invariant
            games@ + rev@.reverse() == all,
        decreases rev.len(),
    {
        let ghost r0 = rev@;
        let g = rev.pop().unwrap();
        let ghost g0 = games@;
        games.push(g);
        assert(r0.reverse() =~= seq![g] + rev@.reverse());
        assert(games@ + rev@.reverse() =~= g0 + r0.reverse());
    }
    assert(rev@.reverse() =~= Seq::<GameRecord>::empty());
    assert(games@ =~= all);
    HistoryResponse { games }
}

/// A player's totals, those of a player who has not played when none are stored.
pub fn query_user_stats(player: String, stored: Option<UserStats>) -> (r: UserStatsResponse)
    ensures
        ({
            let u = user_stats_or_fresh(stored);
            &&& r.player@ == player@
            &&& r.total_games == u.total_games
            &&& r.total_wagered == u.total_wagered
            &&& r.total_won == u.total_won
            &&& r.best_win_pnl == u.best_win_pnl
            &&& r.best_win_multiplier@ == u.best_win_multiplier
        }),
{
    let user_stats = match stored {
        Some(u) => u,
        None => UserStats::fresh(),
    };
    UserStatsResponse {
        player,
        total_games: user_stats.total_games,
        total_wagered: user_stats.total_wagered,
        total_won: user_stats.total_won,
        best_win_pnl: user_stats.best_win_pnl,
        best_win_multiplier: user_stats.best_win_multiplier,
    }
}

/// The rows of a response, by their contents.
pub open spec fn response_entries_view(s: Seq<MsgLeaderboardEntry>) -> Seq<EntryView> {
    s.map_values(|e: MsgLeaderboardEntry| e@)
}

/// The first `page_size(limit)` rows of a board.
pub open spec fn leaderboard_page(board: Seq<EntryView>, limit: Option<u32>) -> Seq<EntryView> {
    if board.len() <= page_size(limit) { board } else { board.take(page_size(limit) as int) }
}

/// Law: a leaderboard page is the top of the stored board, whatever the
/// rows' values: it holds the board's first rows in order, as many as the
/// board has up to the limit asked for (10 when none), at most 100.
pub proof fn law_page_is_top_of_board(board: Seq<EntryView>, limit: Option<u32>)
    ensures
        ({
            let asked: int = match limit {
                Some(l) => l as int,
                None => 10,
            };
            let size = if asked < 100 { asked } else { 100 };
            let page = leaderboard_page(board, limit);
            &&& page.len() == (if board.len() < size { board.len() as int } else { size })
            &&& forall|i: int| 0 <= i < page.len() ==> page[i] == board[i]
        }),
{
}

/// The first `n` rows of a board, as query rows.
fn first_rows(entries: Vec<LeaderboardEntry>, n: u32) -> (rows: Vec<MsgLeaderboardEntry>)
    ensures
        response_entries_view(rows@) == (if entries@.len() <= n { entries_view(entries@) } else {
            entries_view(entries@).take(n as int)
        }),
{
    let ghost orig = entries_view(entries@);
    let mut remaining = entries;
    let mut rows: Vec<MsgLeaderboardEntry> = Vec::new();
    while rows.len() < n as usize && remaining.len() > 0
        invariant
            rows@.len() <= n,
            response_entries_view(rows@) + entries_view(remaining@) == orig,
        decreases remaining.len(),
    {
        let ghost before = entries_view(remaining@);
        let ghost r0 = response_entries_view(rows@);
        let e = remaining.remove(0);
        assert(entries_view(remaining@) =~= before.drop_first());
        rows.push(MsgLeaderboardEntry { player: e.player, value: e.value, multiplier: e.multiplier });
        assert(response_entries_view(rows@) =~= r0.push(before[0]));
        assert(response_entries_view(rows@) + entries_view(remaining@) =~= r0 + before);
    }
    proof {
        let r = response_entries_view(rows@);
        if rows@.len() < n {
            assert(entries_view(remaining@) =~= Seq::<EntryView>::empty());
            assert(r =~= orig);
        } else {
            assert(r =~= orig.take(n as int));
        }
    }
    rows
}

/// The top of a global leaderboard.
pub fn query_global_leaderboard(
    best_wins: Vec<LeaderboardEntry>,
    total_wagered: Vec<LeaderboardEntry>,
    leaderboard_type: LeaderboardType,
    limit: Option<u32>,
) -> (r: LeaderboardResponse)
    ensures
        r.leaderboard_type == leaderboard_type,
        response_entries_view(r.entries@) == leaderboard_page(
            match leaderboard_type {
                LeaderboardType::BestWins => entries_view(best_wins@),
                LeaderboardType::TotalWagered => entries_view(total_wagered@),
            },
            limit,
        ),
{
    let n = page_size_of(limit);
    let entries = match leaderboard_type {
        LeaderboardType::BestWins => best_wins,
        LeaderboardType::TotalWagered => total_wagered,
    };
    LeaderboardResponse { entries: first_rows(entries, n), leaderboard_type }
}

/// The top of today's leaderboard; empty when a new UTC day has begun since
/// the last reset.
pub fn query_daily_leaderboard(
    daily: DailyLeaderboard,
    now: u64,
    leaderboard_type: LeaderboardType,
    limit: Option<u32>,
) -> (r: LeaderboardResponse)
    ensures
        r.leaderboard_type == leaderboard_type,
        response_entries_view(r.entries@) == (if utc_day(now) > utc_day(daily.last_reset) {
            Seq::<EntryView>::empty()
        } else {
            leaderboard_page(
                match leaderboard_type {
                    LeaderboardType::BestWins => entries_view(daily.entries_best_wins@),
                    LeaderboardType::TotalWagered => entries_view(daily.entries_wagered@),
                },
                limit,
            )
        }),
{
    let n = page_size_of(limit);
    // Check if reset is needed (for query consistency)
    let entries = if should_reset_daily(daily.last_reset, now) {
        let e: Vec<LeaderboardEntry> = Vec::new();
        assert(entries_view(e@) =~= Seq::<EntryView>::empty());
        e
    } else {
        match leaderboard_type {
            LeaderboardType::BestWins => daily.entries_best_wins,
            LeaderboardType::TotalWagered => daily.entries_wagered,
        }
    };
    LeaderboardResponse { entries: first_rows(entries, n), leaderboard_type }
}


/// The house never holds more than it took in: its balance and all wins
/// paid together stay within all bets received.
pub open spec fn house_ledger_balanced(stats: Stats) -> bool {
    stats.house_balance + stats.total_won <= stats.total_wagered
}

/// A player's best profit is at most all the player has won.
pub open spec fn user_stats_consistent(user: UserStatsView) -> bool {
    user.best_win_pnl <= user.total_won
}

/// Law: the game totals start balanced.
pub proof fn law_initial_ledger_balanced()
    ensures
        house_ledger_balanced(Stats { total_games: 0, total_wagered: 0, total_won: 0, house_balance: 0 }),
{
}

/// Law: a play keeps the house ledger balanced: the house gains the bet and
/// pays the win, and the totals grow by the same amounts.
pub proof fn law_play_keeps_ledger_balanced(stats: Stats, bet: u128, win: u128)
    requires
        house_ledger_balanced(stats),
        stats_can_record(stats, bet, win),
    ensures
        house_ledger_balanced(stats_after_play(stats, bet, win)),
{
}

/// Law: without withdrawals the house balance is exactly what it took in
/// minus what it paid: a play keeps `house_balance + total_won ==
/// total_wagered`.
pub proof fn law_play_keeps_ledger_exact(stats: Stats, bet: u128, win: u128)
    requires
        stats.house_balance + stats.total_won == stats.total_wagered,
        stats_can_record(stats, bet, win),
    ensures
        ({
            let after = stats_after_play(stats, bet, win);
            after.house_balance + after.total_won == after.total_wagered
        }),
{
}

/// Law: every play the game accepts keeps the house ledger balanced, and
/// exact while no withdrawal has been made, whatever else the play updates.
pub proof fn law_accepted_play_keeps_ledger(
    config: Config,
    block: BlockInfo,
    sender: Seq<char>,
    funds: Seq<Coin>,
    difficulty: Difficulty,
    risk_level: RiskLevel,
    table: Seq<(u64, u64)>,
    stats: Stats,
    user_stats: Option<UserStats>,
    player_count: u64,
    global_best_wins: Seq<EntryView>,
    global_total_wagered: Seq<EntryView>,
    daily: DailyLeaderboard,
    out: PlayOutcome,
)
    requires
        play_result(
            config,
            block,
            sender,
            funds,
            difficulty,
            risk_level,
            table,
            stats,
            user_stats,
            player_count,
            global_best_wins,
            global_total_wagered,
            daily,
            Ok::<PlayOutcome, ContractError>(out),
        ),
    ensures
        house_ledger_balanced(stats) ==> house_ledger_balanced(out.stats),
        stats.house_balance + stats.total_won == stats.total_wagered ==> out.stats.house_balance
            + out.stats.total_won == out.stats.total_wagered,
{
}

/// Law: a withdrawal the game accepts keeps the house ledger balanced.
pub proof fn law_withdraw_keeps_ledger_balanced(stats: Stats, amount: u128)
    requires
        house_ledger_balanced(stats),
        amount <= stats.house_balance,
    ensures
        house_ledger_balanced(Stats { house_balance: (stats.house_balance - amount) as u128, ..stats }),
{
}

/// Law: a play keeps a player's best profit within the player's total
/// winnings, and the best profit never decreases.
pub proof fn law_play_keeps_user_stats_consistent(user: UserStatsView, bet: u128, win: u128, label: Seq<char>)
    requires
        user_stats_consistent(user),
        user_can_record(user, bet, win),
        user.total_games < u64::MAX,
    ensures
        user_stats_consistent(user_after_play(user, bet, win, label)),
        user_after_play(user, bet, win, label).best_win_pnl >= user.best_win_pnl,
{
}

/// Law: today's best-win row of a player is the day's best single-game
/// profit: the larger of the best so far and this game's profit, so a
/// worse game never lowers it.
pub proof fn law_day_best_is_max(prev: Option<EntryView>, pnl: u128, label: Seq<char>)
    ensures
        day_best_row(prev, pnl, label).0 >= pnl,
        prev matches Some(r) ==> day_best_row(prev, pnl, label).0 >= r.value,
        prev matches Some(r) ==> (day_best_row(prev, pnl, label).0 == r.value
            || day_best_row(prev, pnl, label).0 == pnl),
        prev is None ==> day_best_row(prev, pnl, label) == (pnl, Some(label)),
{
}

/// Law: a player who has not played has consistent totals.
pub proof fn law_fresh_user_stats_consistent()
    ensures
        user_stats_consistent(fresh_user_stats()),
{
}

} // verus!

use vstd::prelude::*;

use crate::plinko_game::state::{entries_view, opt_string_view, EntryView, LeaderboardEntry};

verus! {

/// Law: once due, a daily reset stays due as time goes on, and it is never
/// due at the moment of the last reset.
pub proof fn law_daily_reset_monotonic(last_reset: u64, t1: u64, t2: u64)
    ensures
        utc_day(t1) > utc_day(last_reset) && t1 <= t2 ==> utc_day(t2) > utc_day(last_reset),
        !(utc_day(last_reset) > utc_day(last_reset)),
{
    if t1 <= t2 {
        assert(t1 as int / 86400 <= t2 as int / 86400) by (nonlinear_arith)
            requires
                t1 <= t2,
        ;
    }
}

/// Largest number of rows a leaderboard keeps.
pub const MAX_LEADERBOARD_SIZE: usize = 100;

/// The rows of `s` whose player is not `player`, in their order.
pub open spec fn without_player(s: Seq<EntryView>, player: Seq<char>) -> Seq<EntryView>
    decreases s.len(),
{
    if s.len() == 0 {
        Seq::empty()
    } else {
        let rest = without_player(s.drop_first(), player);
        if s[0].player == player {
            rest
        } else {
            seq![s[0]] + rest
        }
    }
}

/// The index of the first row of `s` whose value is below `value`, or the
/// length of `s` when there is none.
pub open spec fn insert_position(s: Seq<EntryView>, value: u128) -> nat
    decreases s.len(),
{
    if s.len() == 0 {
        0
    } else if s[0].value < value {
        0
    } else {
        1 + insert_position(s.drop_first(), value)
    }
}

/// At most the first `MAX_LEADERBOARD_SIZE` rows of `s`.
pub open spec fn trimmed(s: Seq<EntryView>) -> Seq<EntryView> {
    if s.len() > MAX_LEADERBOARD_SIZE {
        s.take(MAX_LEADERBOARD_SIZE as int)
    } else {
        s
    }
}

/// The board after `player` is (re)ranked with `value`: the player's old rows
/// are dropped, the new row goes before the first row with a lower value,
/// and the board is cut to `MAX_LEADERBOARD_SIZE` rows.
pub open spec fn updated_leaderboard(
    board: Seq<EntryView>,
    player: Seq<char>,
    value: u128,
    multiplier: Option<Seq<char>>,
) -> Seq<EntryView> {
    let rest = without_player(board, player);
    let entry = EntryView { player, value, multiplier };
    trimmed(rest.insert(insert_position(rest, value) as int, entry))
}

/// `insert_position` is the first index whose value is below `value`.
pub proof fn lemma_insert_position(s: Seq<EntryView>, value: u128)
    ensures
        insert_position(s, value) <= s.len(),
        forall|k: int| 0 <= k < insert_position(s, value) ==> s[k].value >= value,
        insert_position(s, value) < s.len() ==> s[insert_position(s, value) as int].value < value,
    decreases s.len(),
{
    if s.len() > 0 && s[0].value >= value {
        lemma_insert_position(s.drop_first(), value);
        assert forall|k: int| 0 <= k < insert_position(s, value) implies s[k].value >= value by {
            if k > 0 {
                assert(s[k] == s.drop_first()[k - 1]);
            }
        }
    }
}

/// Any index before which all values are at least `value` and at which the
/// value is below `value` (or which is the end) is `insert_position`.
pub proof fn lemma_insert_position_unique(s: Seq<EntryView>, value: u128, j: int)
    requires
        0 <= j <= s.len(),
        forall|k: int| 0 <= k < j ==> s[k].value >= value,
        j < s.len() ==> s[j].value < value,
    ensures
        insert_position(s, value) == j,
{
    lemma_insert_position(s, value);
    let p = insert_position(s, value) as int;
    if p < j {
        assert(s[p].value >= value);
    } else if j < p {
        assert(s[j].value >= value);
    }
}

/// Rows are ranked from the highest value down.
pub open spec fn sorted_desc(s: Seq<EntryView>) -> bool {
    forall|i: int, j: int| 0 <= i < j < s.len() ==> s[i].value >= s[j].value
}

/// No player has two rows.
pub open spec fn unique_players(s: Seq<EntryView>) -> bool {
    forall|i: int, j: int| 0 <= i < j < s.len() ==> s[i].player != s[j].player
}

/// Whether `s` holds a row of `player`.
pub open spec fn has_player(s: Seq<EntryView>, player: Seq<char>) -> bool {
    exists|i: int| 0 <= i < s.len() && s[i].player == player
}

/// The rows kept by `without_player` are rows of the input, none of them
/// the removed player's, and ranking and distinct players carry over.
pub proof fn lemma_without_player(s: Seq<EntryView>, player: Seq<char>)
    ensures
        without_player(s, player).len() <= s.len(),
        forall|i: int| 0 <= i < without_player(s, player).len() ==> {
            &&& (#[trigger] without_player(s, player)[i]).player != player
            &&& s.contains(without_player(s, player)[i])
        },
        sorted_desc(s) ==> sorted_desc(without_player(s, player)),
        unique_players(s) ==> unique_players(without_player(s, player)),
        !has_player(s, player) ==> without_player(s, player) == s,
    decreases s.len(),
{
    if s.len() > 0 {
        let t = s.drop_first();
        lemma_without_player(t, player);
        let r = without_player(t, player);
        assert forall|x: EntryView| t.contains(x) implies s.contains(x) by {
            let k = choose|k: int| 0 <= k < t.len() && t[k] == x;
            assert(s[k + 1] == x);
        }
        if s[0].player != player {
            let w = seq![s[0]] + r;
            assert forall|i: int| 0 <= i < w.len() implies {
                &&& (#[trigger] w[i]).player != player
                &&& s.contains(w[i])
            } by {
                if i == 0 {
                    assert(s[0] == w[0]);
                } else {
                    assert(w[i] == r[i - 1]);
                }
            }
            if sorted_desc(s) {
                assert(sorted_desc(t)) by {
                    assert forall|i: int, j: int| 0 <= i < j < t.len() implies t[i].value >= t[j].value by {
                        assert(t[i] == s[i + 1] && t[j] == s[j + 1]);
                    }
                }
                assert forall|i: int, j: int| 0 <= i < j < w.len() implies w[i].value >= w[j].value by {
                    if i == 0 {
                        assert(t.contains(r[j - 1]));
                        let k = choose|k: int| 0 <= k < t.len() && t[k] == r[j - 1];
                        assert(s[k + 1] == t[k]);
                    } else {
                        assert(w[i] == r[i - 1] && w[j] == r[j - 1]);
                    }
                }
            }
            if unique_players(s) {
                assert(unique_players(t)) by {
                    assert forall|i: int, j: int| 0 <= i < j < t.len() implies t[i].player != t[j].player by {
                        assert(t[i] == s[i + 1] && t[j] == s[j + 1]);
                    }
                }
                assert forall|i: int, j: int| 0 <= i < j < w.len() implies w[i].player != w[j].player by {
                    if i == 0 {
                        assert(t.contains(r[j - 1]));
                        let k = choose|k: int| 0 <= k < t.len() && t[k] == r[j - 1];
                        assert(s[k + 1] == t[k]);
                    } else {
                        assert(w[i] == r[i - 1] && w[j] == r[j - 1]);
                    }
                }
            }
            if !has_player(s, player) {
                assert(!has_player(t, player)) by {
                    if has_player(t, player) {
                        let k = choose|k: int| 0 <= k < t.len() && t[k].player == player;
                        assert(s[k + 1] == t[k]);
                    }
                }
                assert(w =~= s);
            }
        } else {
            assert forall|x: EntryView| r.contains(x) implies s.contains(x) by {
                let k = choose|k: int| 0 <= k < r.len() && r[k] == x;
                assert(t.contains(r[k]));
            }
            if sorted_desc(s) {
                assert(sorted_desc(t)) by {
                    assert forall|i: int, j: int| 0 <= i < j < t.len() implies t[i].value >= t[j].value by {
                        assert(t[i] == s[i + 1] && t[j] == s[j + 1]);
                    }
                }
            }
            if unique_players(s) {
                assert(unique_players(t)) by {
                    assert forall|i: int, j: int| 0 <= i < j < t.len() implies t[i].player != t[j].player by {
                        assert(t[i] == s[i + 1] && t[j] == s[j + 1]);
                    }
                }
            }
            assert(has_player(s, player)) by {
                assert(s[0].player == player);
            }
        }
    }
}

/// Inserting a row at `insert_position` into a ranked board keeps it ranked.
pub proof fn lemma_insert_keeps_sorted(s: Seq<EntryView>, e: EntryView)
    requires
        sorted_desc(s),
    ensures
        sorted_desc(s.insert(insert_position(s, e.value) as int, e)),
{
    lemma_insert_position(s, e.value);
    let p = insert_position(s, e.value) as int;
    let w = s.insert(p, e);
    assert forall|i: int, j: int| 0 <= i < j < w.len() implies w[i].value >= w[j].value by {
        if j < p {
        } else if j == p {
            assert(w[i] == s[i]);
        } else if i < p {
            assert(w[j] == s[j - 1]);
            assert(w[i] == s[i]);
        } else if i == p {
            assert(w[j] == s[j - 1]);
            assert(s[p].value < e.value);
            if j - 1 > p {
                assert(s[p].value >= s[j - 1].value);
            }
        } else {
            assert(w[j] == s[j - 1] && w[i] == s[i - 1]);
        }
    }
}

/// Law: updating a ranked board leaves it ranked from the highest value down.
pub proof fn law_update_keeps_ranking(
    board: Seq<EntryView>,
    player: Seq<char>,
    value: u128,
    multiplier: Option<Seq<char>>,
)
    requires
        sorted_desc(board),
    ensures
        sorted_desc(updated_leaderboard(board, player, value, multiplier)),
{
    lemma_without_player(board, player);
    let rest = without_player(board, player);
    let e = EntryView { player, value, multiplier };
    lemma_insert_keeps_sorted(rest, e);
}

/// Law: a board never holds more than `MAX_LEADERBOARD_SIZE` rows after an
/// update.
pub proof fn law_update_bounded(
    board: Seq<EntryView>,
    player: Seq<char>,
    value: u128,
    multiplier: Option<Seq<char>>,
)
    ensures
        updated_leaderboard(board, player, value, multiplier).len() <= MAX_LEADERBOARD_SIZE,
{
}

/// Law: after an update the player has at most one row, it carries the new
/// value and multiplier, and every other row was already on the board;
/// a board with distinct players keeps distinct players.
pub proof fn law_update_one_row_per_player(
    board: Seq<EntryView>,
    player: Seq<char>,
    value: u128,
    multiplier: Option<Seq<char>>,
)
    ensures
        ({
            let u = updated_leaderboard(board, player, value, multiplier);
            &&& forall|i: int| 0 <= i < u.len() && u[i].player == player ==>
                u[i] == (EntryView { player, value, multiplier })
            &&& forall|i: int, j: int| 0 <= i < j < u.len() && u[i].player == player ==>
                u[j].player != player
            &&& forall|i: int| 0 <= i < u.len() && u[i].player != player ==> board.contains(u[i])
            &&& unique_players(board) ==> unique_players(u)
        }),
{
    lemma_without_player(board, player);
    let rest = without_player(board, player);
    let e = EntryView { player, value, multiplier };
    lemma_insert_position(rest, value);
    let p = insert_position(rest, value) as int;
    let w = rest.insert(p, e);
    let u = updated_leaderboard(board, player, value, multiplier);
    assert(u.len() <= w.len());
    assert forall|i: int| 0 <= i < u.len() implies u[i] == w[i] by {}
    assert forall|i: int| 0 <= i < w.len() && i != p implies
        (#[trigger] w[i]).player != player && board.contains(w[i]) by {
        if i < p {
            assert(w[i] == rest[i]);
        } else {
            assert(w[i] == rest[i - 1]);
        }
    }
    if unique_players(board) {
        assert forall|i: int, j: int| 0 <= i < j < u.len() implies u[i].player != u[j].player by {
            assert(u[i] == w[i] && u[j] == w[j]);
            if i != p && j != p {
                let ii = if i < p { i } else { i - 1 };
                let jj = if j < p { j } else { j - 1 };
                assert(w[i] == rest[ii] && w[j] == rest[jj]);
            }
        }
    }
}

/// Law: when fewer than `MAX_LEADERBOARD_SIZE` other players are ranked,
/// the updated player is on the board with the new value.
pub proof fn law_update_player_listed(
    board: Seq<EntryView>,
    player: Seq<char>,
    value: u128,
    multiplier: Option<Seq<char>>,
)
    requires
        without_player(board, player).len() < MAX_LEADERBOARD_SIZE,
    ensures
        updated_leaderboard(board, player, value, multiplier).contains(
            EntryView { player, value, multiplier },
        ),
{
    let rest = without_player(board, player);
    lemma_insert_position(rest, value);
    let p = insert_position(rest, value) as int;
    let u = updated_leaderboard(board, player, value, multiplier);
    assert(u[p] == (EntryView { player, value, multiplier }));
}

/// Removing a player's rows from a concatenation removes them from each part.
pub proof fn lemma_without_player_concat(a: Seq<EntryView>, b: Seq<EntryView>, player: Seq<char>)
    ensures
        without_player(a + b, player) == without_player(a, player) + without_player(b, player),
    decreases a.len(),
{
    if a.len() == 0 {
        assert(a + b =~= b);
        assert(without_player(a, player) + without_player(b, player) =~= without_player(b, player));
    } else {
        lemma_without_player_concat(a.drop_first(), b, player);
        assert((a + b).drop_first() =~= a.drop_first() + b);
        assert((a + b)[0] == a[0]);
        if a[0].player == player {
        } else {
            assert(seq![a[0]] + (without_player(a.drop_first(), player) + without_player(b, player))
                =~= (seq![a[0]] + without_player(a.drop_first(), player)) + without_player(b, player));
        }
    }
}

/// The insert position within the first `n` rows is the overall one, capped at `n`.
pub proof fn lemma_insert_position_take(s: Seq<EntryView>, value: u128, n: int)
    requires
        0 <= n <= s.len(),
    ensures
        insert_position(s.take(n), value) == if insert_position(s, value) < n {
            insert_position(s, value) as int
        } else {
            n
        },
{
    lemma_insert_position(s, value);
    let p = insert_position(s, value) as int;
    let t = s.take(n);
    let q = if p < n { p } else { n };
    assert forall|k: int| 0 <= k < q implies t[k].value >= value by {
        assert(t[k] == s[k]);
    }
    if q < n {
        assert(t[q] == s[q]);
    }
    lemma_insert_position_unique(t, value, q);
}

/// Removing a player's rows from a board that had none, after inserting one
/// row of that player anywhere, gives the board back.
pub proof fn lemma_remove_inserted(keep: Seq<EntryView>, p: int, e: EntryView, player: Seq<char>)
    requires
        !has_player(keep, player),
        e.player == player,
        0 <= p <= keep.len(),
    ensures
        without_player(keep.insert(p, e), player) == keep,
{
    let a = keep.take(p);
    let c = keep.skip(p);
    assert(keep.insert(p, e) =~= a + seq![e] + c);
    lemma_without_player_concat(a + seq![e], c, player);
    lemma_without_player_concat(a, seq![e], player);
    assert(seq![e].drop_first() =~= Seq::<EntryView>::empty());
    assert(without_player(seq![e], player) == without_player(Seq::<EntryView>::empty(), player));
    assert(!has_player(a, player)) by {
        if has_player(a, player) {
            let k = choose|k: int| 0 <= k < a.len() && a[k].player == player;
            assert(a[k] == keep[k]);
        }
    }
    assert(!has_player(c, player)) by {
        if has_player(c, player) {
            let k = choose|k: int| 0 <= k < c.len() && c[k].player == player;
            assert(c[k] == keep[k + p]);
        }
    }
    lemma_without_player(a, player);
    lemma_without_player(c, player);
    assert(a + Seq::<EntryView>::empty() + c =~= keep);
}

/// Law: updating a player twice with the same value and multiplier gives
/// the same board as updating once.
#[verifier::rlimit(30)]
pub proof fn law_update_idempotent(
    board: Seq<EntryView>,
    player: Seq<char>,
    value: u128,
    multiplier: Option<Seq<char>>,
)
    ensures
        updated_leaderboard(updated_leaderboard(board, player, value, multiplier), player, value, multiplier)
            == updated_leaderboard(board, player, value, multiplier),
{
    let max = MAX_LEADERBOARD_SIZE as int;
    lemma_without_player(board, player);
    let rest = without_player(board, player);
    let e = EntryView { player, value, multiplier };
    lemma_insert_position(rest, value);
    let p = insert_position(rest, value) as int;
    let r1 = updated_leaderboard(board, player, value, multiplier);
    assert(!has_player(rest, player)) by {
        if has_player(rest, player) {
            let k = choose|k: int| 0 <= k < rest.len() && rest[k].player == player;
            assert(rest[k].player != player);
        }
    }
    // The rows of `rest` that `r1` kept.
    let kept = if rest.len() + 1 <= max { rest.len() as int } else if p < max { max - 1 } else { max };
    let keep = rest.take(kept);
    assert(!has_player(keep, player)) by {
        if has_player(keep, player) {
            let k = choose|k: int| 0 <= k < keep.len() && keep[k].player == player;
            assert(keep[k] == rest[k]);
        }
    }
    lemma_insert_position_take(rest, value, kept);
    let r2 = updated_leaderboard(r1, player, value, multiplier);
    if p < max || rest.len() + 1 <= max {
        assert(r1 =~= keep.insert(p, e));
        lemma_remove_inserted(keep, p, e, player);
        assert(insert_position(keep, value) == p);
        assert(r2 =~= keep.insert(p, e));
    } else {
        assert(r1 =~= keep);
        lemma_without_player(keep, player);
        assert(insert_position(keep, value) == max);
        assert(r2 =~= keep.insert(max, e).take(max));
        assert(r2 =~= keep);
    }
}

/// The first row of `player` on a board, if any.
pub open spec fn player_row(s: Seq<EntryView>, player: Seq<char>) -> Option<EntryView>
    decreases s.len(),
{
    if s.len() == 0 {
        None
    } else if s[0].player == player {
        Some(s[0])
    } else {
        player_row(s.drop_first(), player)
    }
}

/// The value and multiplier of the first row of `player` on a board, if any.
pub fn find_player_row(board: &Vec<LeaderboardEntry>, player: &String) -> (row: Option<(u128, Option<String>)>)
    ensures
        match row {
            Some((value, multiplier)) => player_row(entries_view(board@), player@) == Some(
                EntryView { player: player@, value, multiplier: opt_string_view(multiplier) },
            ),
            None => player_row(entries_view(board@), player@) is None,
        },
{
    let ghost all = entries_view(board@);
    let mut i: usize = 0;
    assert(all.skip(0) =~= all);
    while i < board.len()
        invariant
            i <= board@.len(),
            all == entries_view(board@),
            player_row(all, player@) == player_row(all.skip(i as int), player@),
        decreases board@.len() - i,
    {
        assert(all.skip(i as int).drop_first() =~= all.skip(i + 1));
        assert(all.skip(i as int)[0] == board@[i as int]@);
        if board[i].player == *player {
            let multiplier = match &board[i].multiplier {
                Some(m) => Some(m.clone()),
                None => None,
            };
            return Some((board[i].value, multiplier));
        }
        i = i + 1;
    }
    None
}

/// Every row of another player stays when that player's rows are removed.
pub proof fn lemma_without_player_keeps_others(s: Seq<EntryView>, player: Seq<char>, x: EntryView)
    requires
        s.contains(x),
        x.player != player,
    ensures
        without_player(s, player).contains(x),
    decreases s.len(),
{
    if s[0] == x {
        assert(without_player(s, player)[0] == x);
    } else {
        let k = choose|k: int| 0 <= k < s.len() && s[k] == x;
        assert(s.drop_first()[k - 1] == x);
        lemma_without_player_keeps_others(s.drop_first(), player, x);
        let r = without_player(s.drop_first(), player);
        let j = choose|j: int| 0 <= j < r.len() && r[j] == x;
        if s[0].player != player {
            assert(without_player(s, player)[j + 1] == x);
        }
    }
}

/// Law: an update keeps every row of every other player that fits: such a
/// row is still on the board unless the board is full; with fewer than
/// `MAX_LEADERBOARD_SIZE` rows before, the new board holds all the other
/// players' rows plus the player's one row.
pub proof fn law_update_keeps_other_rows(
    board: Seq<EntryView>,
    player: Seq<char>,
    value: u128,
    multiplier: Option<Seq<char>>,
    x: EntryView,
)
    ensures
        ({
            let u = updated_leaderboard(board, player, value, multiplier);
            &&& (board.contains(x) && x.player != player ==> u.contains(x) || u.len() == MAX_LEADERBOARD_SIZE)
            &&& (board.len() < MAX_LEADERBOARD_SIZE && board.contains(x) && x.player != player ==> u.contains(x))
            &&& (board.len() < MAX_LEADERBOARD_SIZE && !has_player(board, player) ==> u.len() == board.len() + 1)
        }),
{
    lemma_without_player(board, player);
    let rest = without_player(board, player);
    let e = EntryView { player, value, multiplier };
    lemma_insert_position(rest, value);
    let p = insert_position(rest, value) as int;
    let w = rest.insert(p, e);
    let u = updated_leaderboard(board, player, value, multiplier);
    if board.contains(x) && x.player != player {
        lemma_without_player_keeps_others(board, player, x);
        let j = choose|j: int| 0 <= j < rest.len() && rest[j] == x;
        let jj = if j < p { j } else { j + 1 };
        assert(w[jj] == x);
        if w.len() <= MAX_LEADERBOARD_SIZE {
            assert(u[jj] == x);
        }
    }
}

/// Update leaderboard with new entry, maintaining sorted order: the
/// player's existing rows are removed, the new row is inserted before the
/// first row with a lower value, and the board is cut to
/// `MAX_LEADERBOARD_SIZE` rows.
pub fn update_leaderboard(
    leaderboard: &mut Vec<LeaderboardEntry>,
    player: String,
    value: u128,
    multiplier: Option<String>,
)
    ensures
        entries_view(final(leaderboard)@) == updated_leaderboard(
            entries_view(old(leaderboard)@),
            player@,
            value,
            opt_string_view(multiplier),
        ),
{
    let ghost orig = entries_view(leaderboard@);
    let mut remaining: Vec<LeaderboardEntry> = Vec::new();
    std::mem::swap(&mut remaining, leaderboard);
    let mut kept: Vec<LeaderboardEntry> = Vec::new();
    assert(entries_view(kept@) + without_player(entries_view(remaining@), player@) =~= without_player(orig, player@));
    // Remove existing entry for this player if present
    while remaining.len() > 0
        invariant
            entries_view(kept@) + without_player(entries_view(remaining@), player@)
                == without_player(orig, player@),
        decreases remaining.len(),
    {
        let ghost before = entries_view(remaining@);
        let e = remaining.remove(0);
        assert(entries_view(remaining@) =~= before.drop_first());
        if e.player != player {
            let ghost k0 = entries_view(kept@);
            kept.push(e);
            assert(entries_view(kept@) =~= k0.push(e@));
            assert(entries_view(kept@) + without_player(entries_view(remaining@), player@)
                =~= k0 + without_player(before, player@));
        }
    }
    assert(entries_view(kept@) =~= without_player(orig, player@));

    // Find insertion position (descending order)
    let mut pos: usize = 0;
    while pos < kept.len() && !(kept[pos].value < value)
        invariant
            pos <= kept.len(),
            forall|k: int| 0 <= k < pos ==> entries_view(kept@)[k].value >= value,
        decreases kept.len() - pos,
    {
        pos = pos + 1;
    }
    proof {
        lemma_insert_position_unique(entries_view(kept@), value, pos as int);
    }

    let ghost rest = entries_view(kept@);
    let new_entry = LeaderboardEntry { player, value, multiplier };
    kept.insert(pos, new_entry);
    assert(entries_view(kept@) =~= rest.insert(pos as int, new_entry@));

    // Trim to max size
    if kept.len() > MAX_LEADERBOARD_SIZE {
        let ghost ins = entries_view(kept@);
        kept.truncate(MAX_LEADERBOARD_SIZE);
        assert(entries_view(kept@) =~= ins.take(MAX_LEADERBOARD_SIZE as int));
    }
    *leaderboard = kept;
}

/// Number of seconds in one UTC day.
pub const SECONDS_PER_DAY: u64 = 86400;

/// The UTC day (counted from the epoch) that a timestamp in seconds falls in.
pub open spec fn utc_day(t: u64) -> int {
    t as int / SECONDS_PER_DAY as int
}

/// Check if the daily leaderboard needs a reset (00:00 UTC): true exactly
/// when `current_time` lies in a later UTC day than `last_reset`.
pub fn should_reset_daily(last_reset: u64, current_time: u64) -> (reset: bool)
    ensures
        reset == (utc_day(current_time) > utc_day(last_reset)),
{
    let last_reset_day = last_reset / SECONDS_PER_DAY;
    let current_day = current_time / SECONDS_PER_DAY;
    current_day > last_reset_day
}

} // verus!

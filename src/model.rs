//! The records that the remote statistics service returns, and the win rate
//! derived from them.
use vstd::prelude::*;
use vstd::string::*;

verus! {

/// An account, found by its display name and tag.
pub struct Identity {
    /// Opaque stable account id.
    pub puuid: String,
    pub display_name: Option<String>,
    pub tag: Option<String>,
}

/// The game profile of an account.
pub struct Profile {
    /// The id that ranked lookups take.
    pub internal_id: String,
    pub puuid: String,
    /// Absent levels are shown as 0.
    pub level: Option<i64>,
}

/// One ranked queue placement. Absent tier and division are shown as `Unranked`.
pub struct StandingEntry {
    pub queue_type: Option<String>,
    pub tier: Option<String>,
    pub division: Option<String>,
    pub league_points: i32,
    pub wins: u32,
    pub losses: u32,
    pub hot_streak: Option<bool>,
    pub fresh_blood: Option<bool>,
}

/// Points and level earned with one champion.
pub struct MasteryEntry {
    pub champion_id: i32,
    pub champion_points: i32,
    pub champion_level: i32,
}

/// The text of `o`, or `d` when it is absent.
pub open spec fn text_or(o: Option<String>, d: Seq<char>) -> Seq<char> {
    match o {
        Some(s) => s@,
        None => d,
    }
}

/// Appends the text of `o`, or `d` when it is absent, to `out`.
pub fn push_text_or(out: &mut String, o: &Option<String>, d: &str)
    ensures
        final(out)@ == old(out)@ + text_or(*o, d@),
{
    match o {
        Some(s) => out.append(s.as_str()),
        None => out.append(d),
    }
}

/// Win rate in hundredths of a percent, rounded half up: `wins / (wins +
/// losses) * 100` to two decimals, and exactly 0 when no game was played.
pub open spec fn win_rate_hundredths(wins: nat, losses: nat) -> nat {
    if wins + losses == 0 {
        0
    } else {
        (20000 * wins + (wins + losses)) / (2 * (wins + losses))
    }
}

/// Win rate in whole percent, rounded half up, and 0 when no game was played.
pub open spec fn win_rate_percent(wins: nat, losses: nat) -> nat {
    if wins + losses == 0 {
        0
    } else {
        (200 * wins + (wins + losses)) / (2 * (wins + losses))
    }
}

/// Bound on the game counts that the win rate functions take.
pub open spec fn games_bound() -> nat {
    0x1_0000_0000_0000_0000_0000_0000
}

/// `wins / (wins + losses) * 100` in hundredths of a percent.
pub fn win_rate(wins: u128, losses: u128) -> (r: u128)
    requires
        wins < games_bound(),
        losses < games_bound(),
    ensures
        r == win_rate_hundredths(wins as nat, losses as nat),
        r <= 10000,
{
    let total = wins + losses;
    if total == 0 {
        0
    } else {
        proof {
            assert((20000 * wins + total) / (2 * total) <= 10000) by (nonlinear_arith)
                requires
                    wins <= total,
                    total > 0,
            {
                assert(20000 * wins + total < 10001 * (2 * total));
            }
        }
        (20000 * wins + total) / (2 * total)
    }
}

/// The same rate rounded to a whole percent.
pub fn win_rate_whole(wins: u128, losses: u128) -> (r: u128)
    requires
        wins < games_bound(),
        losses < games_bound(),
    ensures
        r == win_rate_percent(wins as nat, losses as nat),
        r <= 100,
{
    let total = wins + losses;
    if total == 0 {
        0
    } else {
        proof {
            assert((200 * wins + total) / (2 * total) <= 100) by (nonlinear_arith)
                requires
                    wins <= total,
                    total > 0,
            {
                assert(200 * wins + total < 101 * (2 * total));
            }
        }
        (200 * wins + total) / (2 * total)
    }
}

/// The win rate is 0 when no game was played; otherwise it is
/// `wins / (wins + losses) * 100` to within half a hundredth, that is to two
/// decimal places, and the whole-percent rate is within half a percent.
pub proof fn lemma_win_rate_exact(wins: nat, losses: nat)
    ensures
        wins + losses == 0 ==> win_rate_hundredths(wins, losses) == 0,
        wins + losses == 0 ==> win_rate_percent(wins, losses) == 0,
        wins + losses > 0 ==> {
            let t = wins + losses;
            let r = win_rate_hundredths(wins, losses);
            &&& 2 * t * r <= 20000 * wins + t
            &&& 20000 * wins + t < 2 * t * (r + 1)
        },
        wins + losses > 0 ==> {
            let t = wins + losses;
            let p = win_rate_percent(wins, losses);
            &&& 2 * t * p <= 200 * wins + t
            &&& 200 * wins + t < 2 * t * (p + 1)
        },
{
    if wins + losses > 0 {
        let t = wins + losses;
        let r = win_rate_hundredths(wins, losses);
        let p = win_rate_percent(wins, losses);
        assert(2 * t * r <= 20000 * wins + t && 20000 * wins + t < 2 * t * (r + 1))
            by (nonlinear_arith)
            requires
                t > 0,
                r == (20000 * wins + t) / (2 * t),
        {
        }
        assert(2 * t * p <= 200 * wins + t && 200 * wins + t < 2 * t * (p + 1))
            by (nonlinear_arith)
            requires
                t > 0,
                p == (200 * wins + t) / (2 * t),
        {
        }
    }
}

} // verus!

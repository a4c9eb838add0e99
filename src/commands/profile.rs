//! The `profile` command: a player's account, level and ranked totals.
use vstd::prelude::*;
use vstd::string::*;
use crate::commands::region::Region;
use crate::commands::{Command, CommandKind};
use crate::model::{Identity, Profile, StandingEntry, games_bound, text_or, push_text_or, win_rate_whole, win_rate_percent};
use crate::pipeline::{Action, ActionView, Pipeline, QueryKind};
use crate::text::{digits, hundredths_text, int_text, name_part, push_digits, push_hundredths, push_int, tag_part, trimmed};

verus! {

/// The rank part of one entry: tier, division and league points.
pub open spec fn rank_entry_text(e: StandingEntry) -> Seq<char> {
    text_or(e.tier, "Unranked"@) + " "@ + text_or(e.division, "Unranked"@) + ": "@ + int_text(
        e.league_points as int,
    ) + " LP"@
}

/// The rank parts of all entries, one after another.
pub open spec fn rank_text(s: Seq<StandingEntry>) -> Seq<char>
    decreases s.len(),
{
    if s.len() == 0 {
        Seq::empty()
    } else {
        rank_text(s.drop_last()) + rank_entry_text(s.last())
    }
}

/// Wins summed over all entries.
pub open spec fn total_wins(s: Seq<StandingEntry>) -> nat
    decreases s.len(),
{
    if s.len() == 0 {
        0
    } else {
        total_wins(s.drop_last()) + s.last().wins as nat
    }
}

/// Losses summed over all entries.
pub open spec fn total_losses(s: Seq<StandingEntry>) -> nat
    decreases s.len(),
{
    if s.len() == 0 {
        0
    } else {
        total_losses(s.drop_last()) + s.last().losses as nat
    }
}

/// Ranked totals of a player.
pub struct LeagueSummary {
    pub rank_info: String,
    pub total_wins: u128,
    pub total_losses: u128,
}

impl LeagueSummary {
    /// The win rate of the totals, in whole percent.
    pub fn win_rate(&self) -> (r: u128)
        requires
            self.total_wins < games_bound(),
            self.total_losses < games_bound(),
        ensures
            r == win_rate_percent(self.total_wins as nat, self.total_losses as nat),
    {
        win_rate_whole(self.total_wins, self.total_losses)
    }
}

/// The summary shown when the ranked lookup failed.
pub fn unknown_league_summary() -> (r: LeagueSummary)
    ensures
        r.rank_info@ == "Unknown Rank"@,
        r.total_wins == 0,
        r.total_losses == 0,
{
    LeagueSummary { rank_info: String::from_str("Unknown Rank"), total_wins: 0, total_losses: 0 }
}

/// Sums wins and losses over all entries and lists each entry's rank.
pub fn extract_league_info(entries: &Vec<StandingEntry>) -> (r: LeagueSummary)
    ensures
        r.rank_info@ == rank_text(entries@),
        r.total_wins == total_wins(entries@),
        r.total_losses == total_losses(entries@),
        r.total_wins < games_bound(),
        r.total_losses < games_bound(),
{
    let mut rank_info = String::new();
    let mut wins: u128 = 0;
    let mut losses: u128 = 0;
    let mut i: usize = 0;
    while i < entries.len()
        invariant
            i <= entries@.len(),
            rank_info@ == rank_text(entries@.take(i as int)),
            wins == total_wins(entries@.take(i as int)),
            losses == total_losses(entries@.take(i as int)),
            wins <= i * 0xFFFF_FFFFu128,
            losses <= i * 0xFFFF_FFFFu128,
        decreases entries@.len() - i,
    {
        let e = &entries[i];
        wins = wins + e.wins as u128;
        losses = losses + e.losses as u128;
        push_text_or(&mut rank_info, &e.tier, "Unranked");
        rank_info.append(" ");
        push_text_or(&mut rank_info, &e.division, "Unranked");
        rank_info.append(": ");
        push_int(&mut rank_info, e.league_points as i64);
        rank_info.append(" LP");
        assert(entries@.take(i + 1).drop_last() =~= entries@.take(i as int));
        assert(rank_info@ =~= rank_text(entries@.take(i + 1)));
        i = i + 1;
    }
    assert(entries@.take(entries@.len() as int) =~= entries@);
    LeagueSummary { rank_info, total_wins: wins, total_losses: losses }
}

/// The profile reply: Riot id and region, then level, ranks, totals and the
/// whole-percent win rate of the totals.
pub open spec fn profile_text(
    region: Region,
    identity: Identity,
    profile: Profile,
    rank: Seq<char>,
    wins: nat,
    losses: nat,
) -> Seq<char> {
    "\n**Riot ID**: "@ + text_or(identity.display_name, ""@) + "#"@ + text_or(identity.tag, ""@)
        + " ("@ + region.spec_region_name() + ")\n"@
        + "**Summoner Statistics**:\n```"@
        + "Summoner Level      : "@ + int_text(level_or_zero(profile)) + "\n"@
        + "Rank                : "@ + rank + "\n"@
        + "Total Wins          : "@ + digits(wins) + "\n"@
        + "Total Losses        : "@ + digits(losses) + "\n"@
        + "Win Rate            : "@ + hundredths_text(100 * win_rate_percent(wins, losses))
        + "%\n"@ + "```\n"@
}

/// The level of a profile, 0 when it is absent.
pub open spec fn level_or_zero(profile: Profile) -> int {
    match profile.level {
        Some(l) => l as int,
        None => 0,
    }
}

/// Renders the profile reply of `identity` from its profile and ranked totals.
pub fn render_profile(
    region: Region,
    identity: &Identity,
    profile: &Profile,
    summary: &LeagueSummary,
) -> (r: String)
    requires
        summary.total_wins < games_bound(),
        summary.total_losses < games_bound(),
    ensures
        r@ == profile_text(
            region,
            *identity,
            *profile,
            summary.rank_info@,
            summary.total_wins as nat,
            summary.total_losses as nat,
        ),
{
    let mut out = String::from_str("\n**Riot ID**: ");
    push_text_or(&mut out, &identity.display_name, "");
    out.append("#");
    push_text_or(&mut out, &identity.tag, "");
    out.append(" (");
    out.append(region.region_name());
    out.append(")\n");
    out.append("**Summoner Statistics**:\n```");
    out.append("Summoner Level      : ");
    match profile.level {
        Some(l) => push_int(&mut out, l),
        None => push_int(&mut out, 0),
    }
    out.append("\n");
    out.append("Rank                : ");
    out.append(summary.rank_info.as_str());
    out.append("\n");
    out.append("Total Wins          : ");
    push_digits(&mut out, summary.total_wins);
    out.append("\n");
    out.append("Total Losses        : ");
    push_digits(&mut out, summary.total_losses);
    out.append("\n");
    out.append("Win Rate            : ");
    let rate = summary.win_rate();
    push_hundredths(&mut out, 100 * rate);
    out.append("%\n");
    out.append("```\n");
    assert(out@ =~= profile_text(
        region,
        *identity,
        *profile,
        summary.rank_info@,
        summary.total_wins as nat,
        summary.total_losses as nat,
    ));
    out
}

/// Starts profile queries.
pub struct ProfileCommand;

impl ProfileCommand {
    pub fn new() -> (r: ProfileCommand) {
        ProfileCommand
    }

    /// Starts a profile query for `input` (`name#tag`) in `region`.
    pub fn start(&self, region: Region, input: &str) -> (r: (Pipeline, Action))
        ensures
            r.0.kind == QueryKind::Profile,
            r.0.region == region,
            r.0.stage is AwaitIdentity,
            r.1@ == (ActionView::LookupIdentity {
                region,
                game_name: name_part(trimmed(input@)),
                tag_line: tag_part(trimmed(input@)),
            }),
    {
        Pipeline::start(QueryKind::Profile, region, input)
    }
}

impl Command for ProfileCommand {
    open spec fn spec_name(&self) -> Seq<char> {
        CommandKind::Profile.spec_name()
    }

    open spec fn spec_description(&self) -> Seq<char> {
        CommandKind::Profile.spec_description()
    }

    fn name(&self) -> (r: &'static str) {
        CommandKind::Profile.name()
    }

    fn description(&self) -> (r: &'static str) {
        CommandKind::Profile.description()
    }
}

} // verus!

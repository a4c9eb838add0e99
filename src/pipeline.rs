//! The lookup pipeline: account, then profile, then standings or masteries.
//!
//! Each lookup is done by the caller: the pipeline says which lookup comes
//! next (an `Action`), the caller performs it and hands its outcome back (an
//! `Event`). Every stage fails fast: a failed lookup ends the query with a
//! fixed message and no further lookup is asked for.
use vstd::prelude::*;
use vstd::string::*;
use crate::bot::{render_standings, standings_reply};
use crate::commands::mastery::{champion_names, mastery_text, render_masteries};
use crate::commands::profile::{
    extract_league_info, profile_text, rank_text, render_profile, total_losses, total_wins,
    unknown_league_summary,
};
use crate::commands::region::Region;
use crate::model::{Identity, MasteryEntry, Profile, StandingEntry, text_or};
use crate::text::{name_part, split_name_tag, tag_part, trim, trimmed};

verus! {

/// Which reply a query builds.
#[derive(Clone, Copy, Debug, PartialEq, Eq, Structural)]
pub enum QueryKind {
    /// One block per ranked queue.
    Standings,
    /// Level and ranked totals.
    Profile,
    /// The champions with most mastery.
    Mastery,
}

/// What the pipeline waits for, with what it has found so far.
pub enum Stage {
    AwaitIdentity,
    AwaitProfile { identity: Identity },
    AwaitStandings { identity: Identity, profile: Profile },
    AwaitMasteries { identity: Identity },
    Done,
}

/// One query in flight. The region is fixed when the query starts.
pub struct Pipeline {
    pub kind: QueryKind,
    pub region: Region,
    pub stage: Stage,
}

/// The outcome of a lookup.
pub enum Event {
    IdentityFound(Identity),
    IdentityNotFound,
    IdentityFailed,
    ProfileFound(Profile),
    ProfileFailed,
    StandingsFound(Vec<StandingEntry>),
    StandingsFailed,
    MasteriesFound(Vec<MasteryEntry>),
    MasteriesFailed,
}

/// What the caller does next.
pub enum Action {
    LookupIdentity { region: Region, game_name: String, tag_line: String },
    FetchProfile { region: Region, puuid: String },
    FetchStandings { region: Region, summoner_id: String, puuid: String },
    FetchMasteries { region: Region, puuid: String },
    /// Send this text; the query is over.
    Reply(String),
    /// The event was not the one awaited; nothing changes.
    Ignored,
}

/// An action with its texts as character sequences.
pub enum ActionView {
    LookupIdentity { region: Region, game_name: Seq<char>, tag_line: Seq<char> },
    FetchProfile { region: Region, puuid: Seq<char> },
    FetchStandings { region: Region, summoner_id: Seq<char>, puuid: Seq<char> },
    FetchMasteries { region: Region, puuid: Seq<char> },
    Reply(Seq<char>),
    Ignored,
}

impl View for Action {
    type V = ActionView;

    open spec fn view(&self) -> ActionView {
        match self {
            Action::LookupIdentity { region, game_name, tag_line } => ActionView::LookupIdentity {
                region: *region,
                game_name: game_name@,
                tag_line: tag_line@,
            },
            Action::FetchProfile { region, puuid } => ActionView::FetchProfile {
                region: *region,
                puuid: puuid@,
            },
            Action::FetchStandings { region, summoner_id, puuid } => ActionView::FetchStandings {
                region: *region,
                summoner_id: summoner_id@,
                puuid: puuid@,
            },
            Action::FetchMasteries { region, puuid } => ActionView::FetchMasteries {
                region: *region,
                puuid: puuid@,
            },
            Action::Reply(s) => ActionView::Reply(s@),
            Action::Ignored => ActionView::Ignored,
        }
    }
}

/// Reply when the account lookup fails or finds nobody.
pub open spec fn account_failed() -> Seq<char> {
    "Failed to fetch account."@
}

/// Reply when the profile lookup fails.
pub open spec fn profile_failed() -> Seq<char> {
    "Failed to fetch summoner profile."@
}

/// Reply when the standings lookup of a standings query fails.
pub open spec fn standings_failed() -> Seq<char> {
    "Failed to fetch league info."@
}

/// Reply when the mastery lookup fails.
pub open spec fn masteries_failed() -> Seq<char> {
    "Failed to fetch champion masteries."@
}

/// The next stage and action of `p` on event `e`.
pub open spec fn spec_step(p: Pipeline, e: Event) -> (Stage, ActionView) {
    match p.stage {
        Stage::AwaitIdentity => match e {
            Event::IdentityFound(id) => match p.kind {
                QueryKind::Mastery => (
                    Stage::AwaitMasteries { identity: id },
                    ActionView::FetchMasteries { region: p.region, puuid: id.puuid@ },
                ),
                _ => (
                    Stage::AwaitProfile { identity: id },
                    ActionView::FetchProfile { region: p.region, puuid: id.puuid@ },
                ),
            },
            Event::IdentityNotFound => (Stage::Done, ActionView::Reply(account_failed())),
            Event::IdentityFailed => (Stage::Done, ActionView::Reply(account_failed())),
            _ => (p.stage, ActionView::Ignored),
        },
        Stage::AwaitProfile { identity } => match e {
            Event::ProfileFound(pr) => (
                Stage::AwaitStandings { identity, profile: pr },
                ActionView::FetchStandings {
                    region: p.region,
                    summoner_id: pr.internal_id@,
                    puuid: pr.puuid@,
                },
            ),
            Event::ProfileFailed => (Stage::Done, ActionView::Reply(profile_failed())),
            _ => (p.stage, ActionView::Ignored),
        },
        Stage::AwaitStandings { identity, profile } => match e {
            Event::StandingsFound(v) => (
                Stage::Done,
                ActionView::Reply(
                    match p.kind {
                        QueryKind::Standings => standings_reply(identity, v@),
                        _ => profile_text(
                            p.region,
                            identity,
                            profile,
                            rank_text(v@),
                            total_wins(v@),
                            total_losses(v@),
                        ),
                    },
                ),
            ),
            Event::StandingsFailed => (
                Stage::Done,
                ActionView::Reply(
                    match p.kind {
                        QueryKind::Standings => standings_failed(),
                        _ => profile_text(p.region, identity, profile, "Unknown Rank"@, 0, 0),
                    },
                ),
            ),
            _ => (p.stage, ActionView::Ignored),
        },
        Stage::AwaitMasteries { identity } => match e {
            Event::MasteriesFound(v) => (
                Stage::Done,
                ActionView::Reply(mastery_text(identity, v@, champion_names(v@))),
            ),
            Event::MasteriesFailed => (Stage::Done, ActionView::Reply(masteries_failed())),
            _ => (p.stage, ActionView::Ignored),
        },
        Stage::Done => (Stage::Done, ActionView::Ignored),
    }
}

impl Pipeline {
    /// Starts a query for `input`, `name#tag` with outer white space ignored:
    /// the first action looks the account up by the text before the first
    /// `#` and the text after it (empty when there is no `#`).
    pub fn start(kind: QueryKind, region: Region, input: &str) -> (r: (Pipeline, Action))
        ensures
            r.0.kind == kind,
            r.0.region == region,
            r.0.stage is AwaitIdentity,
            r.1@ == (ActionView::LookupIdentity {
                region,
                game_name: name_part(trimmed(input@)),
                tag_line: tag_part(trimmed(input@)),
            }),
    {
        let (name, tag) = split_name_tag(trim(input));
        (
            Pipeline { kind, region, stage: Stage::AwaitIdentity },
            Action::LookupIdentity {
                region,
                game_name: String::from_str(name),
                tag_line: String::from_str(tag),
            },
        )
    }

    /// Takes the outcome of the lookup that the last action asked for and
    /// says what comes next.
    pub fn step(self, event: Event) -> (r: (Pipeline, Action))
        ensures
            r.0.kind == self.kind,
            r.0.region == self.region,
            (r.0.stage, r.1@) == spec_step(self, event),
    {
        let kind = self.kind;
        let region = self.region;
        match self.stage {
            Stage::AwaitIdentity => match event {
                Event::IdentityFound(id) => {
                    let puuid = id.puuid.clone();
                    match kind {
                        QueryKind::Mastery => (
                            Pipeline { kind, region, stage: Stage::AwaitMasteries { identity: id } },
                            Action::FetchMasteries { region, puuid },
                        ),
                        _ => (
                            Pipeline { kind, region, stage: Stage::AwaitProfile { identity: id } },
                            Action::FetchProfile { region, puuid },
                        ),
                    }
                },
                Event::IdentityNotFound | Event::IdentityFailed => (
                    Pipeline { kind, region, stage: Stage::Done },
                    Action::Reply(String::from_str("Failed to fetch account.")),
                ),
                _ => (Pipeline { kind, region, stage: Stage::AwaitIdentity }, Action::Ignored),
            },
            Stage::AwaitProfile { identity } => match event {
                Event::ProfileFound(pr) => {
                    let summoner_id = pr.internal_id.clone();
                    let puuid = pr.puuid.clone();
                    (
                        Pipeline {
                            kind,
                            region,
                            stage: Stage::AwaitStandings { identity, profile: pr },
                        },
                        Action::FetchStandings { region, summoner_id, puuid },
                    )
                },
                Event::ProfileFailed => (
                    Pipeline { kind, region, stage: Stage::Done },
                    Action::Reply(String::from_str("Failed to fetch summoner profile.")),
                ),
                _ => (
                    Pipeline { kind, region, stage: Stage::AwaitProfile { identity } },
                    Action::Ignored,
                ),
            },
            Stage::AwaitStandings { identity, profile } => match event {
                Event::StandingsFound(v) => {
                    let text = match kind {
                        QueryKind::Standings => render_standings(&identity, &v),
                        _ => {
                            let summary = extract_league_info(&v);
                            render_profile(region, &identity, &profile, &summary)
                        },
                    };
                    (Pipeline { kind, region, stage: Stage::Done }, Action::Reply(text))
                },
                Event::StandingsFailed => {
                    let text = match kind {
                        QueryKind::Standings => String::from_str("Failed to fetch league info."),
                        _ => {
                            let summary = unknown_league_summary();
                            render_profile(region, &identity, &profile, &summary)
                        },
                    };
                    (Pipeline { kind, region, stage: Stage::Done }, Action::Reply(text))
                },
                _ => (
                    Pipeline { kind, region, stage: Stage::AwaitStandings { identity, profile } },
                    Action::Ignored,
                ),
            },
            Stage::AwaitMasteries { identity } => match event {
                Event::MasteriesFound(v) => {
                    let text = render_masteries(&identity, &v);
                    (Pipeline { kind, region, stage: Stage::Done }, Action::Reply(text))
                },
                Event::MasteriesFailed => (
                    Pipeline { kind, region, stage: Stage::Done },
                    Action::Reply(String::from_str("Failed to fetch champion masteries.")),
                ),
                _ => (
                    Pipeline { kind, region, stage: Stage::AwaitMasteries { identity } },
                    Action::Ignored,
                ),
            },
            Stage::Done => (Pipeline { kind, region, stage: Stage::Done }, Action::Ignored),
        }
    }

    /// Whether the query is over.
    pub fn is_done(&self) -> (r: bool)
        ensures
            r == (self.stage is Done),
    {
        match self.stage {
            Stage::Done => true,
            _ => false,
        }
    }
}

/// A query whose account lookup finds nobody ends there: the reply is the
/// fixed account message, and whatever events come afterwards, no profile,
/// standings or mastery lookup is ever asked for.
pub proof fn lemma_account_not_found_ends_query(p: Pipeline, later: Seq<Event>)
    requires
        p.stage is AwaitIdentity,
    ensures
        spec_step(p, Event::IdentityNotFound) == (Stage::Done, ActionView::Reply(account_failed())),
        forall|k: int|
            0 <= k < later.len() ==> spec_step(
                Pipeline { kind: p.kind, region: p.region, stage: Stage::Done },
                #[trigger] later[k],
            ) == (Stage::Done, ActionView::Ignored),
{
}

/// A standings query whose account and profile were found, and whose
/// standings lookup returns no entry, replies with exactly the no-data
/// message naming the player.
pub proof fn lemma_empty_standings_reply_in_query(
    p: Pipeline,
    identity: Identity,
    profile: Profile,
    v: Vec<StandingEntry>,
)
    requires
        p.kind == QueryKind::Standings,
        p.stage == (Stage::AwaitStandings { identity, profile }),
        v@.len() == 0,
    ensures
        spec_step(p, Event::StandingsFound(v)) == (
            Stage::Done,
            ActionView::Reply(
                "No ranked info found for "@ + text_or(identity.display_name, "this player"@),
            ),
        ),
{
}

} // verus!

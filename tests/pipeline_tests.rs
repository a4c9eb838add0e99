use kir_bot::bot::render_standings;
use kir_bot::commands::mastery::{render_masteries, render_masteries_named, MasteryCommand};
use kir_bot::commands::profile::{extract_league_info, ProfileCommand};
use kir_bot::commands::region::Region;
use kir_bot::model::{Identity, MasteryEntry, Profile, StandingEntry};
use kir_bot::pipeline::{Action, Event, Pipeline, QueryKind};

fn identity(name: Option<&str>, tag: Option<&str>) -> Identity {
    Identity {
        puuid: "puuid-1".to_string(),
        display_name: name.map(|s| s.to_string()),
        tag: tag.map(|s| s.to_string()),
    }
}

fn profile(level: Option<i64>) -> Profile {
    Profile { internal_id: "sid-1".to_string(), puuid: "puuid-1".to_string(), level }
}

fn entry(tier: Option<&str>, division: Option<&str>, lp: i32, wins: u32, losses: u32) -> StandingEntry {
    StandingEntry {
        queue_type: Some("RANKED_SOLO_5x5".to_string()),
        tier: tier.map(|s| s.to_string()),
        division: division.map(|s| s.to_string()),
        league_points: lp,
        wins,
        losses,
        hot_streak: None,
        fresh_blood: None,
    }
}

fn mastery(id: i32, points: i32, level: i32) -> MasteryEntry {
    MasteryEntry { champion_id: id, champion_points: points, champion_level: level }
}

/// A stand-in for the remote service that counts the lookups made.
struct Fake {
    identity: Box<dyn Fn() -> Event>,
    profile: Box<dyn Fn() -> Event>,
    standings: Box<dyn Fn() -> Event>,
    masteries: Box<dyn Fn() -> Event>,
    identity_calls: usize,
    profile_calls: usize,
    standings_calls: usize,
    mastery_calls: usize,
    seen: Vec<String>,
}

impl Fake {
    fn new(
        identity: Box<dyn Fn() -> Event>,
        profile: Box<dyn Fn() -> Event>,
        standings: Box<dyn Fn() -> Event>,
        masteries: Box<dyn Fn() -> Event>,
    ) -> Fake {
        Fake {
            identity,
            profile,
            standings,
            masteries,
            identity_calls: 0,
            profile_calls: 0,
            standings_calls: 0,
            mastery_calls: 0,
            seen: Vec::new(),
        }
    }

    fn run(&mut self, start: (Pipeline, Action)) -> String {
        let (mut p, mut action) = start;
        loop {
            let event = match action {
                Action::LookupIdentity { region, game_name, tag_line } => {
                    self.identity_calls += 1;
                    self.seen.push(format!("{}:{}#{}", region.code(), game_name, tag_line));
                    (self.identity)()
                }
                Action::FetchProfile { puuid, .. } => {
                    self.profile_calls += 1;
                    self.seen.push(puuid);
                    (self.profile)()
                }
                Action::FetchStandings { summoner_id, .. } => {
                    self.standings_calls += 1;
                    self.seen.push(summoner_id);
                    (self.standings)()
                }
                Action::FetchMasteries { puuid, .. } => {
                    self.mastery_calls += 1;
                    self.seen.push(puuid);
                    (self.masteries)()
                }
                Action::Reply(text) => {
                    assert!(p.is_done());
                    return text;
                }
                Action::Ignored => panic!("an awaited event was ignored"),
            };
            let (next, next_action) = p.step(event);
            p = next;
            action = next_action;
        }
    }
}

fn found_identity() -> Box<dyn Fn() -> Event> {
    Box::new(|| Event::IdentityFound(identity(Some("Faker"), Some("KR1"))))
}

fn found_profile() -> Box<dyn Fn() -> Event> {
    Box::new(|| Event::ProfileFound(profile(Some(30))))
}

fn never() -> Box<dyn Fn() -> Event> {
    Box::new(|| panic!("this lookup must not be made"))
}

#[test]
fn not_found_short_circuits_standings() {
    let mut fake = Fake::new(Box::new(|| Event::IdentityNotFound), never(), never(), never());
    let reply = fake.run(Pipeline::start(QueryKind::Standings, Region::KR, "Nobody#000"));
    assert_eq!(reply, "Failed to fetch account.");
    assert_eq!(fake.identity_calls, 1);
    assert_eq!(fake.profile_calls, 0);
    assert_eq!(fake.standings_calls, 0);
    assert_eq!(fake.mastery_calls, 0);
}

#[test]
fn not_found_short_circuits_mastery_and_profile() {
    for kind in [QueryKind::Mastery, QueryKind::Profile] {
        let mut fake = Fake::new(Box::new(|| Event::IdentityNotFound), never(), never(), never());
        let reply = fake.run(Pipeline::start(kind, Region::RU, "Nobody"));
        assert_eq!(reply, "Failed to fetch account.");
        assert_eq!(fake.profile_calls + fake.standings_calls + fake.mastery_calls, 0);
    }
}

#[test]
fn identity_error_is_reported() {
    let mut fake = Fake::new(Box::new(|| Event::IdentityFailed), never(), never(), never());
    let reply = fake.run(Pipeline::start(QueryKind::Profile, Region::RU, "x#y"));
    assert_eq!(reply, "Failed to fetch account.");
}

#[test]
fn profile_error_is_reported() {
    let mut fake = Fake::new(found_identity(), Box::new(|| Event::ProfileFailed), never(), never());
    let reply = fake.run(Pipeline::start(QueryKind::Profile, Region::RU, "Faker#KR1"));
    assert_eq!(reply, "Failed to fetch summoner profile.");
    assert_eq!(fake.standings_calls, 0);
}

#[test]
fn empty_standings_is_no_ranked_info() {
    let mut fake = Fake::new(
        found_identity(),
        found_profile(),
        Box::new(|| Event::StandingsFound(Vec::new())),
        never(),
    );
    let reply = fake.run(Pipeline::start(QueryKind::Standings, Region::KR, "Faker#KR1"));
    assert_eq!(reply, "No ranked info found for Faker");
    assert_eq!(fake.standings_calls, 1);
}

#[test]
fn empty_standings_without_name() {
    let text = render_standings(&identity(None, None), &Vec::new());
    assert_eq!(text, "No ranked info found for this player");
}

#[test]
fn standings_failure_is_distinct() {
    let mut fake = Fake::new(found_identity(), found_profile(), Box::new(|| Event::StandingsFailed), never());
    let reply = fake.run(Pipeline::start(QueryKind::Standings, Region::KR, "Faker#KR1"));
    assert_eq!(reply, "Failed to fetch league info.");
}

#[test]
fn standings_are_rendered_in_order() {
    let mut fake = Fake::new(
        found_identity(),
        found_profile(),
        Box::new(|| {
            Event::StandingsFound(vec![
                entry(Some("GOLD"), Some("II"), 45, 53, 47),
                entry(None, None, 0, 0, 0),
            ])
        }),
        never(),
    );
    let reply = fake.run(Pipeline::start(QueryKind::Standings, Region::KR, " Faker#KR1 "));
    assert_eq!(
        reply,
        "Rank: GOLD II\nLeague Points: 45\nWins: 53\nLosses: 47\nWinrate: 53.00%\n\n\
         Rank: Unranked Unranked\nLeague Points: 0\nWins: 0\nLosses: 0\nWinrate: 0.00%\n\n"
    );
    assert_eq!(fake.seen, vec!["KR:Faker#KR1", "puuid-1", "sid-1"]);
}

#[test]
fn input_without_tag_is_forwarded() {
    let mut fake = Fake::new(Box::new(|| Event::IdentityNotFound), never(), never(), never());
    fake.run(Pipeline::start(QueryKind::Mastery, Region::EUW1, "NoTag"));
    assert_eq!(fake.seen, vec!["EUW1:NoTag#"]);
}

#[test]
fn profile_summary_totals() {
    let mut fake = Fake::new(
        found_identity(),
        found_profile(),
        Box::new(|| {
            Event::StandingsFound(vec![
                entry(Some("GOLD"), Some("II"), 45, 10, 5),
                entry(Some("SILVER"), Some("I"), 0, 1, 2),
            ])
        }),
        never(),
    );
    let reply = fake.run(ProfileCommand::new().start(Region::RU, "Faker#KR1"));
    assert_eq!(
        reply,
        "\n**Riot ID**: Faker#KR1 (RU)\n**Summoner Statistics**:\n```\
         Summoner Level      : 30\n\
         Rank                : GOLD II: 45 LPSILVER I: 0 LP\n\
         Total Wins          : 11\n\
         Total Losses        : 7\n\
         Win Rate            : 61.00%\n```\n"
    );
}

#[test]
fn profile_with_failed_standings_shows_unknown_rank() {
    let mut fake = Fake::new(found_identity(), found_profile(), Box::new(|| Event::StandingsFailed), never());
    let reply = fake.run(Pipeline::start(QueryKind::Profile, Region::EUW1, "Faker#KR1"));
    assert!(reply.contains("Rank                : Unknown Rank\n"));
    assert!(reply.contains("Win Rate            : 0.00%\n"));
    assert!(reply.contains("**Riot ID**: Faker#KR1 (EUW)\n"));
}

#[test]
fn profile_without_games_has_zero_rate() {
    let summary = extract_league_info(&vec![entry(Some("IRON"), Some("IV"), 0, 0, 0)]);
    assert_eq!(summary.total_wins, 0);
    assert_eq!(summary.total_losses, 0);
    assert_eq!(summary.win_rate(), 0);
    assert_eq!(summary.rank_info, "IRON IV: 0 LP");
}

#[test]
fn extract_sums_all_entries() {
    let summary = extract_league_info(&vec![
        entry(Some("GOLD"), Some("II"), 45, u32::MAX, 1),
        entry(Some("GOLD"), Some("I"), -3, u32::MAX, 1),
    ]);
    assert_eq!(summary.total_wins, 2 * u32::MAX as u128);
    assert_eq!(summary.total_losses, 2);
    assert_eq!(summary.rank_info, "GOLD II: 45 LPGOLD I: -3 LP");
    assert_eq!(summary.win_rate(), 100);
}

fn twelve_entries() -> Vec<MasteryEntry> {
    (0..12).map(|i| mastery(1000 + i, 120000 - 10000 * i, 7 - (i % 3))).collect()
}

#[test]
fn mastery_shows_first_ten_of_twelve() {
    let entries = twelve_entries();
    let names: Vec<Option<&str>> = (0..12).map(|_| Some("Champ")).collect();
    let text = render_masteries_named(&identity(Some("Faker"), Some("KR1")), &entries, &names);
    let lines: Vec<&str> = text.lines().collect();
    assert_eq!(lines[0], "");
    assert_eq!(lines[1], "Faker#KR1 Champion Masteries:");
    assert_eq!(lines[2], "``` 1) Champ         120000 (7)");
    for i in 1..10 {
        let e = &entries[i];
        let expected = format!(
            "{: >2}) {: <9}    {: >7} ({})",
            i + 1,
            "Champ",
            e.champion_points,
            e.champion_level
        );
        assert_eq!(lines[2 + i], expected);
    }
    assert_eq!(lines[12], "```");
    assert_eq!(lines.len(), 13);
    assert!(!text.contains("  20000 ("));
    assert!(!text.contains("  10000 ("));
    assert!(!text.contains("11) "));
}

#[test]
fn mastery_names_come_from_riven() {
    let entries = vec![mastery(103, 123456, 7), mastery(-42, 5, 1)];
    let text = render_masteries(&identity(Some("Faker"), Some("KR1")), &entries);
    assert_eq!(
        text,
        "\nFaker#KR1 Champion Masteries:\n``` 1) Ahri          123456 (7)\n 2) UNKNOWN            5 (1)\n```\n"
    );
}

#[test]
fn mastery_without_entries() {
    let text = render_masteries(&identity(None, Some("EUW")), &Vec::new());
    assert_eq!(text, "\n#EUW Champion Masteries:\n```No champion masteries found.\n```\n");
}

#[test]
fn mastery_query_skips_profile() {
    let mut fake = Fake::new(
        found_identity(),
        never(),
        never(),
        Box::new(|| Event::MasteriesFound(vec![mastery(103, 1000, 5)])),
    );
    let reply = fake.run(MasteryCommand::new().start(Region::KR, "Faker#KR1"));
    assert!(reply.contains(" 1) Ahri     "));
    assert_eq!(fake.profile_calls, 0);
    assert_eq!(fake.mastery_calls, 1);
}

#[test]
fn mastery_failure_is_reported() {
    let mut fake = Fake::new(found_identity(), never(), never(), Box::new(|| Event::MasteriesFailed));
    let reply = fake.run(Pipeline::start(QueryKind::Mastery, Region::KR, "Faker#KR1"));
    assert_eq!(reply, "Failed to fetch champion masteries.");
}

#[test]
fn unexpected_event_changes_nothing() {
    let (p, _) = Pipeline::start(QueryKind::Standings, Region::KR, "a#b");
    let (p, action) = p.step(Event::ProfileFailed);
    assert!(matches!(action, Action::Ignored));
    assert!(!p.is_done());
    let (p, action) = p.step(Event::IdentityNotFound);
    assert!(matches!(action, Action::Reply(_)));
    let (_, action) = p.step(Event::IdentityFound(identity(None, None)));
    assert!(matches!(action, Action::Ignored));
}

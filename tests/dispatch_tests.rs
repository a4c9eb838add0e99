use kir_bot::bot;
use kir_bot::commands::about::AboutCommand;
use kir_bot::commands::help::HelpCommand;
use kir_bot::commands::CommandKind;
use kir_bot::handler::{CommandHandler, Dispatch, Handler};

fn run_of(d: Dispatch) -> (CommandKind, String) {
    match d {
        Dispatch::Run { command, args } => (command, args),
        Dispatch::Unknown(s) => panic!("unknown: {}", s),
        Dispatch::Silent => panic!("silent"),
    }
}

#[test]
fn help_resolves_to_help() {
    let h = Handler::new();
    assert_eq!(run_of(h.message("/kir help")), (CommandKind::Help, String::new()));
}

#[test]
fn unknown_command_gets_fixed_reply() {
    let h = Handler::new();
    match h.message("/kir nosuchcmd") {
        Dispatch::Unknown(s) => assert_eq!(s, "Unknown command."),
        _ => panic!("expected the unknown-command reply"),
    }
    match h.message("/kir Help") {
        Dispatch::Unknown(s) => assert_eq!(s, "Unknown command."),
        _ => panic!("names are case-sensitive"),
    }
}

#[test]
fn empty_command_is_silent() {
    let h = Handler::new();
    assert!(matches!(h.message("/kir "), Dispatch::Silent));
    assert!(matches!(h.message("/kir    "), Dispatch::Silent));
    assert!(matches!(h.message("hello"), Dispatch::Silent));
    assert!(matches!(h.message("/kirhelp"), Dispatch::Silent));
}

#[test]
fn arguments_are_passed_trimmed() {
    let h = Handler::new();
    assert_eq!(
        run_of(h.message("/kir mastery   Faker#KR1  ")),
        (CommandKind::Mastery, "Faker#KR1".to_string())
    );
    assert_eq!(
        run_of(h.message("/kir  profile Hide on bush#KR1")),
        (CommandKind::Profile, "Hide on bush#KR1".to_string())
    );
    assert_eq!(run_of(h.message("/kir region KR")), (CommandKind::Region, "KR".to_string()));
}

#[test]
fn lookup_finds_each_command() {
    let c = CommandHandler::new();
    assert_eq!(c.lookup("mastery"), Some(CommandKind::Mastery));
    assert_eq!(c.lookup("about"), Some(CommandKind::About));
    assert_eq!(c.lookup("profile"), Some(CommandKind::Profile));
    assert_eq!(c.lookup("help"), Some(CommandKind::Help));
    assert_eq!(c.lookup("region"), Some(CommandKind::Region));
    assert_eq!(c.lookup("summoner"), None);
    assert_eq!(c.lookup(""), None);
}

#[test]
fn list_names_every_command_once() {
    let c = CommandHandler::new();
    let list = c.list();
    let names: Vec<&str> = list.iter().map(|(n, _)| n.as_str()).collect();
    assert_eq!(names, vec!["mastery", "about", "profile", "help", "region"]);
    assert_eq!(list[3].1, "Show the list of available commands.");
}

#[test]
fn help_lists_commands() {
    let c = CommandHandler::new();
    let help = HelpCommand::new();
    let text = help.reply(&c);
    assert!(text.starts_with("To use the bot, write `/kir <command>`\nList of available commands:\n"));
    assert!(text.contains("`help` - Show the list of available commands.\n"));
    assert!(text.contains("`mastery` - Fetch champion masteries for the provided game name and tag.\n"));
    assert_eq!(text.lines().count(), 7);
    let short = help.interaction_reply(&c);
    assert!(short.starts_with("List of available commands:\n"));
    assert_eq!(short.lines().count(), 6);
}

#[test]
fn about_text() {
    let text = AboutCommand::new().reply();
    assert!(text.starts_with(":page_with_curl:**Information**\nAuthor: K4444R#RU1\n"));
}

#[test]
fn region_selection_update_text() {
    let mut h = Handler::new();
    h.region_command.handle("EUW1");
    assert_eq!(
        h.interaction_update("region_select"),
        Some("\u{1f4cd} **Current Region:** `EUW (EUW1)`".to_string())
    );
    assert_eq!(h.interaction_update("other"), None);
}

#[test]
fn summoner_trigger_takes_trimmed_input() {
    let h = bot::Handler;
    assert_eq!(h.summoner_input("!summoner  Faker#KR1 "), Some("Faker#KR1"));
    assert_eq!(h.summoner_input("!summoner"), None);
    assert_eq!(h.summoner_input("/kir help"), None);
}

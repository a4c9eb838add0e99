//! The bot's commands, each with its name and description.
pub mod about;
pub mod help;
pub mod mastery;
pub mod profile;
pub mod region;

use vstd::prelude::*;
use vstd::string::*;

verus! {

/// A command that the dispatcher can run.
pub trait Command {
    /// The word that selects the command.
    spec fn spec_name(&self) -> Seq<char>;

    /// One line on what the command does.
    spec fn spec_description(&self) -> Seq<char>;

    fn name(&self) -> (r: &'static str)
        ensures
            r@ == self.spec_name(),
    ;

    fn description(&self) -> (r: &'static str)
        ensures
            r@ == self.spec_description(),
    ;
}

/// The commands there are.
#[derive(Clone, Copy, Debug, PartialEq, Eq, Structural)]
pub enum CommandKind {
    Mastery,
    About,
    Profile,
    Help,
    Region,
}

impl CommandKind {
    pub open spec fn spec_name(self) -> Seq<char> {
        match self {
            CommandKind::Mastery => "mastery"@,
            CommandKind::About => "about"@,
            CommandKind::Profile => "profile"@,
            CommandKind::Help => "help"@,
            CommandKind::Region => "region"@,
        }
    }

    pub open spec fn spec_description(self) -> Seq<char> {
        match self {
            CommandKind::Mastery => "Fetch champion masteries for the provided game name and tag."@,
            CommandKind::About => "Show the information about bot."@,
            CommandKind::Profile => "Show account and general statistics for the Disocrd user."@,
            CommandKind::Help => "Show the list of available commands."@,
            CommandKind::Region => "Show the current region and select a new one."@,
        }
    }

    /// The word that selects the command.
    pub fn name(&self) -> (r: &'static str)
        ensures
            r@ == self.spec_name(),
    {
        match self {
            CommandKind::Mastery => "mastery",
            CommandKind::About => "about",
            CommandKind::Profile => "profile",
            CommandKind::Help => "help",
            CommandKind::Region => "region",
        }
    }

    /// One line on what the command does.
    pub fn description(&self) -> (r: &'static str)
        ensures
            r@ == self.spec_description(),
    {
        match self {
            CommandKind::Mastery => "Fetch champion masteries for the provided game name and tag.",
            CommandKind::About => "Show the information about bot.",
            CommandKind::Profile => "Show account and general statistics for the Disocrd user.",
            CommandKind::Help => "Show the list of available commands.",
            CommandKind::Region => "Show the current region and select a new one.",
        }
    }
}

/// The command that `name` selects, by exact, case-sensitive match.
pub open spec fn command_named(name: Seq<char>) -> Option<CommandKind> {
    if name == "mastery"@ {
        Some(CommandKind::Mastery)
    } else if name == "about"@ {
        Some(CommandKind::About)
    } else if name == "profile"@ {
        Some(CommandKind::Profile)
    } else if name == "help"@ {
        Some(CommandKind::Help)
    } else if name == "region"@ {
        Some(CommandKind::Region)
    } else {
        None
    }
}

/// Each command is selected by its own name, so no two share a name.
pub proof fn lemma_name_selects_command(k: CommandKind)
    ensures
        command_named(k.spec_name()) == Some(k),
{
    reveal_strlit("mastery");
    reveal_strlit("about");
    reveal_strlit("profile");
    reveal_strlit("help");
    reveal_strlit("region");
    let t = k.spec_name();
    match k {
        CommandKind::Mastery => assert(t.len() == 7 && t[0] == 'm'),
        CommandKind::About => assert(t.len() == 5),
        CommandKind::Profile => assert(t.len() == 7 && t[0] == 'p'),
        CommandKind::Help => assert(t.len() == 4),
        CommandKind::Region => assert(t.len() == 6),
    }
}

} // verus!

//! The `about` command: who wrote the bot and where its source is.
use vstd::prelude::*;
use vstd::string::*;
use crate::commands::{Command, CommandKind};

verus! {

/// The text of the about reply.
pub open spec fn about_text() -> Seq<char> {
    ":page_with_curl:**Information**\nAuthor: K4444R#RU1\nSource Code\n[Kir bot on GitHub](https://github.com/K4444R/lol-discord-bot)\n"@
}

pub struct AboutCommand;

impl AboutCommand {
    pub fn new() -> (r: AboutCommand) {
        AboutCommand
    }

    /// The about reply, the same for a message and for an interaction.
    pub fn reply(&self) -> (r: String)
        ensures
            r@ == about_text(),
    {
        String::from_str(
            ":page_with_curl:**Information**\nAuthor: K4444R#RU1\nSource Code\n[Kir bot on GitHub](https://github.com/K4444R/lol-discord-bot)\n",
        )
    }
}

impl Command for AboutCommand {
    open spec fn spec_name(&self) -> Seq<char> {
        CommandKind::About.spec_name()
    }

    open spec fn spec_description(&self) -> Seq<char> {
        CommandKind::About.spec_description()
    }

    fn name(&self) -> (r: &'static str) {
        CommandKind::About.name()
    }

    fn description(&self) -> (r: &'static str) {
        CommandKind::About.description()
    }
}

} // verus!

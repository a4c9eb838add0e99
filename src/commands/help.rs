//! The `help` command: the list of commands with their descriptions.
use vstd::prelude::*;
use vstd::string::*;
use crate::commands::{Command, CommandKind};
use crate::handler::CommandHandler;

verus! {

/// The commands the bot registers, in the order they are listed.
pub open spec fn registered() -> Seq<CommandKind> {
    seq![
        CommandKind::Mastery,
        CommandKind::About,
        CommandKind::Profile,
        CommandKind::Help,
        CommandKind::Region,
    ]
}

/// The commands the bot registers, in the order they are listed.
pub fn get_all_commands() -> (r: Vec<CommandKind>)
    ensures
        r@ == registered(),
{
    let r = vec![
        CommandKind::Mastery,
        CommandKind::About,
        CommandKind::Profile,
        CommandKind::Help,
        CommandKind::Region,
    ];
    assert(r@ =~= registered());
    r
}

/// The help line of a command.
pub open spec fn command_line(name: Seq<char>, description: Seq<char>) -> Seq<char> {
    "`"@ + name + "` - "@ + description + "\n"@
}

/// The help lines of the given commands, in order.
pub open spec fn command_lines(s: Seq<CommandKind>) -> Seq<char>
    decreases s.len(),
{
    if s.len() == 0 {
        Seq::empty()
    } else {
        command_lines(s.drop_last()) + command_line(s.last().spec_name(), s.last().spec_description())
    }
}

/// The first line of the help reply to a message, which says how to call the bot.
pub open spec fn usage_header() -> Seq<char> {
    "To use the bot, write `/kir <command>`\nList of available commands:\n"@
}

/// The first line of the help reply to an interaction.
pub open spec fn list_header() -> Seq<char> {
    "List of available commands:\n"@
}

pub struct HelpCommand;

impl HelpCommand {
    pub fn new() -> (r: HelpCommand) {
        HelpCommand
    }

    /// The help reply to a message: how to call the bot, then every command.
    pub fn reply(&self, commands: &CommandHandler) -> (r: String)
        ensures
            r@ == usage_header() + command_lines(registered()),
    {
        let mut out = String::from_str(
            "To use the bot, write `/kir <command>`\nList of available commands:\n",
        );
        push_command_lines(&mut out, commands);
        out
    }

    /// The help reply to an interaction: every command.
    pub fn interaction_reply(&self, commands: &CommandHandler) -> (r: String)
        ensures
            r@ == list_header() + command_lines(registered()),
    {
        let mut out = String::from_str("List of available commands:\n");
        push_command_lines(&mut out, commands);
        out
    }
}

/// Appends the help line of every registered command.
fn push_command_lines(out: &mut String, commands: &CommandHandler)
    ensures
        final(out)@ == old(out)@ + command_lines(registered()),
{
    let list = commands.list();
    let mut i: usize = 0;
    while i < list.len()
        invariant
            list@.len() == registered().len(),
            forall|k: int|
                0 <= k < list@.len() ==> {
                    &&& (#[trigger] list@[k]).0@ == registered()[k].spec_name()
                    &&& list@[k].1@ == registered()[k].spec_description()
                },
            i <= list@.len(),
            out@ == old(out)@ + command_lines(registered().take(i as int)),
        decreases list@.len() - i,
    {
        out.append("`");
        out.append(list[i].0.as_str());
        out.append("` - ");
        out.append(list[i].1.as_str());
        out.append("\n");
        assert(registered().take(i + 1).drop_last() =~= registered().take(i as int));
        assert(out@ =~= old(out)@ + command_lines(registered().take(i + 1)));
        i = i + 1;
    }
    assert(registered().take(registered().len() as int) =~= registered());
}

impl Command for HelpCommand {
    open spec fn spec_name(&self) -> Seq<char> {
        CommandKind::Help.spec_name()
    }

    open spec fn spec_description(&self) -> Seq<char> {
        CommandKind::Help.spec_description()
    }

    fn name(&self) -> (r: &'static str) {
        CommandKind::Help.name()
    }

    fn description(&self) -> (r: &'static str) {
        CommandKind::Help.description()
    }
}

} // verus!

//! The dispatcher: reads a command line, looks the command up in the
//! registry and says what to run.
use vstd::prelude::*;
use vstd::string::*;
use crate::commands::help::{get_all_commands, registered};
use crate::commands::region::{Region, RegionCommand};
use crate::commands::{CommandKind, command_named, lemma_name_selects_command};
use crate::text::{same_text, strip_prefix, token_len, token_length, trim, trimmed};

verus! {

/// A registered command: its name, its description and what it runs.
pub struct CommandDescriptor {
    pub name: String,
    pub description: String,
    pub kind: CommandKind,
}

/// The reply to a command name that is not registered.
pub open spec fn unknown_command() -> Seq<char> {
    "Unknown command."@
}

/// What a command line asks for.
pub enum Dispatch {
    /// Nothing: the line holds no command name.
    Silent,
    /// Send this text and run nothing: the name is not registered.
    Unknown(String),
    /// Run the command with this argument text.
    Run { command: CommandKind, args: String },
}

/// A dispatch with its texts as character sequences.
pub enum DispatchView {
    Silent,
    Unknown(Seq<char>),
    Run { command: CommandKind, args: Seq<char> },
}

impl View for Dispatch {
    type V = DispatchView;

    open spec fn view(&self) -> DispatchView {
        match self {
            Dispatch::Silent => DispatchView::Silent,
            Dispatch::Unknown(s) => DispatchView::Unknown(s@),
            Dispatch::Run { command, args } => DispatchView::Run { command: *command, args: args@ },
        }
    }
}

/// What the command line `input` asks for: its first word, after outer white
/// space, names the command; the rest, trimmed, is its argument text.
pub open spec fn dispatch_of(input: Seq<char>) -> DispatchView {
    let t = trimmed(input);
    if t.len() == 0 {
        DispatchView::Silent
    } else {
        let n = token_len(t);
        match command_named(t.take(n as int)) {
            Some(k) => DispatchView::Run { command: k, args: trimmed(t.skip(n as int)) },
            None => DispatchView::Unknown(unknown_command()),
        }
    }
}

/// The command registry, built once with every command.
pub struct CommandHandler {
    commands: Vec<CommandDescriptor>,
}

impl CommandHandler {
    #[verifier::type_invariant]
    spec fn inv(&self) -> bool {
        &&& self.commands@.len() == registered().len()
        &&& forall|i: int|
            0 <= i < self.commands@.len() ==> {
                &&& (#[trigger] self.commands@[i]).name@ == registered()[i].spec_name()
                &&& self.commands@[i].description@ == registered()[i].spec_description()
                &&& self.commands@[i].kind == registered()[i]
            }
    }

    /// The registry of every command.
    pub fn new() -> (r: CommandHandler) {
        let kinds = get_all_commands();
        let mut commands: Vec<CommandDescriptor> = Vec::new();
        let mut i: usize = 0;
        while i < kinds.len()
            invariant
                kinds@ == registered(),
                i <= kinds@.len(),
                commands@.len() == i,
                forall|k: int|
                    0 <= k < i ==> {
                        &&& (#[trigger] commands@[k]).name@ == registered()[k].spec_name()
                        &&& commands@[k].description@ == registered()[k].spec_description()
                        &&& commands@[k].kind == registered()[k]
                    },
            decreases kinds@.len() - i,
        {
            let k = kinds[i];
            commands.push(CommandDescriptor {
                name: String::from_str(k.name()),
                description: String::from_str(k.description()),
                kind: k,
            });
            i = i + 1;
        }
        CommandHandler { commands }
    }

    /// The command registered under exactly `name`, if any.
    pub fn lookup(&self, name: &str) -> (r: Option<CommandKind>)
        ensures
            r == command_named(name@),
    {
        proof {
            use_type_invariant(self);
        }
        let mut i: usize = 0;
        while i < self.commands.len()
            invariant
                self.commands@.len() == registered().len(),
                forall|k: int|
                    0 <= k < self.commands@.len() ==> {
                        &&& (#[trigger] self.commands@[k]).name@ == registered()[k].spec_name()
                        &&& self.commands@[k].kind == registered()[k]
                    },
                i <= self.commands@.len(),
                forall|k: int| 0 <= k < i ==> name@ != registered()[k].spec_name(),
            decreases self.commands@.len() - i,
        {
            if same_text(self.commands[i].name.as_str(), name) {
                proof {
                    lemma_name_selects_command(registered()[i as int]);
                }
                return Some(self.commands[i].kind);
            }
            i = i + 1;
        }
        proof {
            assert(name@ != registered()[0].spec_name());
            assert(name@ != registered()[1].spec_name());
            assert(name@ != registered()[2].spec_name());
            assert(name@ != registered()[3].spec_name());
            assert(name@ != registered()[4].spec_name());
        }
        None
    }

    /// Name and description of every command, in registration order.
    pub fn list(&self) -> (r: Vec<(String, String)>)
        ensures
            r@.len() == registered().len(),
            forall|k: int|
                0 <= k < r@.len() ==> {
                    &&& (#[trigger] r@[k]).0@ == registered()[k].spec_name()
                    &&& r@[k].1@ == registered()[k].spec_description()
                },
    {
        proof {
            use_type_invariant(self);
        }
        let mut out: Vec<(String, String)> = Vec::new();
        let mut i: usize = 0;
        while i < self.commands.len()
            invariant
                self.commands@.len() == registered().len(),
                forall|k: int|
                    0 <= k < self.commands@.len() ==> {
                        &&& (#[trigger] self.commands@[k]).name@ == registered()[k].spec_name()
                        &&& self.commands@[k].description@ == registered()[k].spec_description()
                    },
                i <= self.commands@.len(),
                out@.len() == i,
                forall|k: int|
                    0 <= k < i ==> {
                        &&& (#[trigger] out@[k]).0@ == registered()[k].spec_name()
                        &&& out@[k].1@ == registered()[k].spec_description()
                    },
            decreases self.commands@.len() - i,
        {
            let d = &self.commands[i];
            out.push((d.name.clone(), d.description.clone()));
            i = i + 1;
        }
        out
    }

    /// Reads a command line: nothing when it holds no word, the fixed
    /// unknown-command reply when its first word names no command, and
    /// otherwise the command with the rest of the line, trimmed.
    pub fn handle_command(&self, command_input: &str) -> (r: Dispatch)
        ensures
            r@ == dispatch_of(command_input@),
    {
        let t = trim(command_input);
        let len = t.unicode_len();
        if len == 0 {
            return Dispatch::Silent;
        }
        let n = token_length(t);
        let name = t.substring_char(0, n);
        assert(name@ =~= t@.take(n as int));
        match self.lookup(name) {
            Some(k) => {
                let rest = t.substring_char(n, len);
                assert(rest@ =~= t@.skip(n as int));
                Dispatch::Run { command: k, args: String::from_str(trim(rest)) }
            },
            None => Dispatch::Unknown(String::from_str("Unknown command.")),
        }
    }
}

/// The text that starts a command message.
pub open spec fn command_prefix() -> Seq<char> {
    "/kir "@
}

/// The text that reports the active region after a selection.
pub open spec fn selection_text(r: Region) -> Seq<char> {
    "\u{1f4cd} **Current Region:** `"@ + r.spec_label() + "`"@
}

/// The bot's event handler: the registry and the region store.
pub struct Handler {
    pub command_handler: CommandHandler,
    pub region_command: RegionCommand,
}

impl Handler {
    pub fn new() -> (r: Handler)
        ensures
            r.region_command@ == Region::RU,
    {
        Handler { command_handler: CommandHandler::new(), region_command: RegionCommand::new() }
    }

    /// What a chat message asks for: a message that starts with `/kir `
    /// is a command line after that prefix; any other asks for nothing.
    pub fn message(&self, content: &str) -> (r: Dispatch)
        ensures
            r@ == (if command_prefix().len() <= content@.len() && content@.take(
                command_prefix().len() as int,
            ) == command_prefix() {
                dispatch_of(content@.skip(command_prefix().len() as int))
            } else {
                DispatchView::Silent
            }),
    {
        match strip_prefix(content, "/kir ") {
            Some(rest) => self.command_handler.handle_command(rest),
            None => Dispatch::Silent,
        }
    }

    /// The text that replaces a region selection message once it has been
    /// handled; `None` for components other than the region selector.
    pub fn interaction_update(&self, custom_id: &str) -> (r: Option<String>)
        ensures
            r is Some <==> custom_id@ == "region_select"@,
            r is Some ==> r->0@ == selection_text(self.region_command@),
    {
        if same_text(custom_id, "region_select") {
            let mut out = String::from_str("\u{1f4cd} **Current Region:** `");
            out.append(self.region_command.get_region().label());
            out.append("`");
            Some(out)
        } else {
            None
        }
    }
}

} // verus!

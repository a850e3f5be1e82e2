//! The query commands: a table from command name to what the command shows,
//! and the answer to one invocation.

use crate::monitor::sys_observer::{shows, Info, Monitor};
use clap::Command;
use vstd::prelude::*;
use vstd::string::StringExecFns;

verus! {

/// `clap::Command`, the parser's description of a command. Nothing is known
/// of a value of it but what [`label_of`] and [`subcommands_of`] name.
#[verifier::external_type_specification]
#[verifier::external_body]
pub struct ExCommand(clap::Command);

/// The name of a `clap::Command` and its `about` text: the name that
/// `get_name` hands out, and the stored text of what `get_about` hands out,
/// as it was given and before any styling is applied or stripped for display.
/// The text is empty where none was set.
pub uninterp spec fn label_of(c: Command) -> (Seq<char>, Seq<char>);

/// The labels of the subcommands of a `clap::Command`, in the order in which
/// `get_subcommands` walks them, which is the order in which they were added.
pub uninterp spec fn subcommands_of(c: Command) -> Seq<(Seq<char>, Seq<char>)>;

/// Calls `clap::Command::new`. Not proved: that the new command has the given
/// name, no `about` text and no subcommands.
#[verifier::external_body]
fn command_new(name: &str) -> (c: Command)
    ensures
        label_of(c) == (name@, Seq::<char>::empty()),
        subcommands_of(c) == Seq::<(Seq<char>, Seq<char>)>::empty(),
{
    Command::new(name.to_string())
}

/// Calls `clap::Command::about`. Not proved: that it stores the given text as
/// the `about` text and leaves the name and the subcommands as they were.
#[verifier::external_body]
fn command_about(c: Command, about: &str) -> (r: Command)
    ensures
        label_of(r) == (label_of(c).0, about@),
        subcommands_of(r) == subcommands_of(c),
{
    c.about(about.to_string())
}

/// Calls `clap::Command::subcommand`. Not proved: that it adds `sub` after
/// the subcommands already there, with the label that `sub` had, and leaves
/// the command's own label as it was.
#[verifier::external_body]
fn command_subcommand(c: Command, sub: Command) -> (r: Command)
    ensures
        label_of(r) == label_of(c),
        subcommands_of(r) == subcommands_of(c).push(label_of(sub)),
{
    c.subcommand(sub)
}

/// The mathematical content of a command.
pub struct CommandSpec {
    pub name: Seq<char>,
    pub about: Seq<char>,
    pub execute: Info,
}

/// A named command, a line about it, and what it shows when it runs.
pub struct CliComand {
    name: String,
    about: String,
    execute: Info,
}

impl View for CliComand {
    type V = CommandSpec;

    closed spec fn view(&self) -> CommandSpec {
        CommandSpec { name: self.name@, about: self.about@, execute: self.execute }
    }
}

impl CliComand {
    /// A command called `name`, described by `about`, that shows `execute`.
    pub fn new(name: &str, about: &str, execute: Info) -> (c: Self)
        ensures
            c@ == (CommandSpec { name: name@, about: about@, execute }),
    {
        CliComand { name: String::from_str(name), about: String::from_str(about), execute }
    }

    /// The name by which the command is called.
    pub fn name(&self) -> (s: &str)
        ensures
            s@ == self@.name,
    {
        self.name.as_str()
    }

    /// The line about the command.
    pub fn about(&self) -> (s: &str)
        ensures
            s@ == self@.about,
    {
        self.about.as_str()
    }

    /// What the command shows.
    pub fn execute(&self) -> (info: Info)
        ensures
            info == self@.execute,
    {
        self.execute
    }
}

/// The label under which the parser knows a command: its name and the line
/// about it.
pub open spec fn label(c: CommandSpec) -> (Seq<char>, Seq<char>) {
    (c.name, c.about)
}

/// The commands of a sequence, in the same order.
pub open spec fn commands_of(items: Seq<CliComand>) -> Seq<CommandSpec> {
    items.map_values(|c: CliComand| c@)
}

/// Whether `i` is the place of the first command called `name`.
pub open spec fn is_first_named(commands: Seq<CommandSpec>, name: Seq<char>, i: int) -> bool {
    &&& 0 <= i < commands.len()
    &&& commands[i].name == name
    &&& forall|j: int| 0 <= j < i ==> (#[trigger] commands[j]).name != name
}

/// The registered commands, in the order of their registration.
pub struct Cli {
    items: Vec<CliComand>,
}

impl View for Cli {
    type V = Seq<CommandSpec>;

    closed spec fn view(&self) -> Seq<CommandSpec> {
        commands_of(self.items@)
    }
}

impl Cli {
    /// A table with no command.
    pub fn new() -> (cli: Self)
        ensures
            cli@ == Seq::<CommandSpec>::empty(),
    {
        Cli { items: Vec::new() }
    }

    /// Adds a command after those already registered, and hands the table
    /// back for the next registration.
    pub fn register(&mut self, cmd: CliComand) -> (cli: &mut Self)
        ensures
            cli@ == old(self)@.push(cmd@),
            *final(self) == *final(cli),
    {
        self.items.push(cmd);
        self
    }

    /// The parser's description of the command line: a command `main` with one
    /// subcommand for each registered command, in the order of registration.
    pub fn build(&self) -> (main_cmd: Command)
        ensures
            label_of(main_cmd) == ("main"@, "Main command"@),
            subcommands_of(main_cmd) == self@.map_values(|c: CommandSpec| label(c)),
    {
        let mut main_cmd = command_about(command_new("main"), "Main command");
        let n = self.items.len();
        let mut i: usize = 0;
        while i < n
            invariant
                n == self.items.len(),
                0 <= i <= n,
                label_of(main_cmd) == ("main"@, "Main command"@),
                subcommands_of(main_cmd) == self@.take(i as int).map_values(
                    |c: CommandSpec| label(c),
                ),
            decreases n - i,
        {
            let item = &self.items[i];
            let sub = command_about(command_new(item.name.as_str()), item.about.as_str());
            let ghost before = subcommands_of(main_cmd);
            main_cmd = command_subcommand(main_cmd, sub);
            proof {
                assert(self@.take(i + 1).map_values(|c: CommandSpec| label(c)) =~= before.push(
                    label(self@[i as int]),
                ));
            }
            i += 1;
        }
        main_cmd
    }

    /// The first registered command called `name`, if there is one.
    pub fn get_command_by_name(&self, name: &str) -> (found: Option<&CliComand>)
        ensures
            match found {
                None => forall|i: int| 0 <= i < self@.len() ==> (#[trigger] self@[i]).name != name@,
                Some(c) => exists|i: int| #[trigger]
                    is_first_named(self@, name@, i) && self@[i] == c@,
            },
    {
        let wanted = String::from_str(name);
        let n = self.items.len();
        let mut i: usize = 0;
        while i < n
            invariant
                n == self.items.len(),
                0 <= i <= n,
                wanted@ == name@,
                forall|j: int| 0 <= j < i ==> (#[trigger] self@[j]).name != name@,
            decreases n - i,
        {
            let item = &self.items[i];
            if item.name == wanted {
                assert(is_first_named(self@, name@, i as int));
                return Some(item);
            }
            i += 1;
        }
        None
    }
}

/// The two query commands.
pub open spec fn query_commands() -> Seq<CommandSpec> {
    seq![
        CommandSpec {
            name: "ram-usage"@,
            about: "A tool to monitor RAM usage"@,
            execute: Info::RamUsage,
        },
        CommandSpec {
            name: "top-process"@,
            about: "Show most used RAM process"@,
            execute: Info::TopProcess,
        },
    ]
}

/// What the command called `name` shows; nothing for any other name.
pub open spec fn command_for(name: Seq<char>) -> Option<Info> {
    if name == "ram-usage"@ {
        Some(Info::RamUsage)
    } else if name == "top-process"@ {
        Some(Info::TopProcess)
    } else {
        None
    }
}

/// The command table with the two query commands.
pub fn init_cli() -> (cli: Cli)
    ensures
        cli@ == query_commands(),
{
    let mut cli = Cli::new();
    let ram_usage = CliComand::new("ram-usage", "A tool to monitor RAM usage", Info::RamUsage);
    let list_process = CliComand::new(
        "top-process",
        "Show most used RAM process",
        Info::TopProcess,
    );
    cli.register(ram_usage).register(list_process);
    cli
}

/// Answers one invocation: the text of the named command on the given
/// snapshot, or nothing where no command was named or the name is unknown.
pub fn run(monitor: &Monitor, subcommand: Option<&str>) -> (out: Option<String>)
    ensures
        match subcommand {
            None => out is None,
            Some(name) => match command_for(name@) {
                None => out is None,
                Some(info) => out is Some && shows(monitor@, info, out->0@),
            },
        },
{
    let cli = init_cli();
    proof {
        reveal_strlit("ram-usage");
        reveal_strlit("top-process");
    }
    match subcommand {
        None => None,
        Some(name) => match cli.get_command_by_name(name) {
            None => None,
            Some(sub_command) => Some(monitor.display_info(sub_command.execute())),
        },
    }
}

} // verus!

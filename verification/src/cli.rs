//! The commands of the program and how its arguments name them.

use crate::text::same;
use vstd::prelude::*;

verus! {

/// What the program is asked to do.
#[derive(Clone, Copy, Debug, PartialEq, Eq, Structural)]
pub enum Command {
    /// Set the environment up for the first time.
    Setup,
    /// Add services to an environment that was set up before.
    AddServices,
    /// Choose the host name under which the site is reached.
    Hostname,
    /// Say where the site is found.
    Welcome,
    /// Make the site's port public in a Gitpod workspace.
    GitpodPublic,
}

/// Why the arguments name no command.
#[derive(Clone, Copy, Debug, PartialEq, Eq, Structural)]
pub enum CommandError {
    /// No command was given.
    MissingCommand,
    /// What was given is no command.
    UnknownCommand,
}

/// How a set-up runs.
#[derive(Clone, Copy, Debug, PartialEq, Eq, Structural)]
pub struct SetupMode {
    /// Whether this is the first set-up, as opposed to adding services.
    pub first_setup: bool,
    /// Whether nobody is there to answer questions.
    pub noninteractive: bool,
}

/// The command called `name`, if there is one.
pub open spec fn command_named(name: Seq<char>) -> Option<Command> {
    if name == "setup"@ {
        Some(Command::Setup)
    } else if name == "add_services"@ {
        Some(Command::AddServices)
    } else if name == "hostname"@ {
        Some(Command::Hostname)
    } else if name == "welcome"@ {
        Some(Command::Welcome)
    } else if name == "gitpod_public"@ {
        Some(Command::GitpodPublic)
    } else {
        None
    }
}

/// The command that the arguments name. The first argument is the program
/// itself, the second the command; what follows is not looked at.
pub open spec fn parsed(args: Seq<Seq<char>>) -> Result<Command, CommandError> {
    if args.len() <= 1 {
        Err(CommandError::MissingCommand)
    } else {
        match command_named(args[1]) {
            Some(command) => Ok(command),
            None => Err(CommandError::UnknownCommand),
        }
    }
}

impl Command {
    /// The command called `name`, if there is one.
    pub fn named(name: &str) -> (r: Option<Command>)
        ensures
            r == command_named(name@),
    {
        if same(name, "setup") {
            Some(Command::Setup)
        } else if same(name, "add_services") {
            Some(Command::AddServices)
        } else if same(name, "hostname") {
            Some(Command::Hostname)
        } else if same(name, "welcome") {
            Some(Command::Welcome)
        } else if same(name, "gitpod_public") {
            Some(Command::GitpodPublic)
        } else {
            None
        }
    }

    /// The command that the program's arguments name.
    pub fn parse(args: &Vec<String>) -> (r: Result<Command, CommandError>)
        ensures
            r == parsed(args.deep_view()),
    {
        if args.len() <= 1 {
            return Err(CommandError::MissingCommand);
        }
        assert(args.deep_view()[1] == args@[1]@);
        match Command::named(args[1].as_str()) {
            Some(command) => Ok(command),
            None => Err(CommandError::UnknownCommand),
        }
    }

    /// How the set-up runs under this command: `setup` is a first set-up and
    /// asks nothing where `noninteractive` is requested; `add_services` is a
    /// later one and always asks. The other commands set nothing up.
    pub fn setup_mode(self, noninteractive: bool) -> (r: Option<SetupMode>)
        ensures
            r == match self {
                Command::Setup => Some(SetupMode { first_setup: true, noninteractive }),
                Command::AddServices => Some(
                    SetupMode { first_setup: false, noninteractive: false },
                ),
                _ => None::<SetupMode>,
            },
    {
        match self {
            Command::Setup => Some(SetupMode { first_setup: true, noninteractive }),
            Command::AddServices => Some(SetupMode { first_setup: false, noninteractive: false }),
            _ => None,
        }
    }
}

impl CommandError {
    /// The error in words.
    pub open spec fn text(self) -> Seq<char> {
        match self {
            CommandError::MissingCommand => "Missing command"@,
            CommandError::UnknownCommand => "Unknown command"@,
        }
    }

    /// The error in words.
    pub fn message(&self) -> (r: String)
        ensures
            r@ == self.text(),
    {
        match self {
            CommandError::MissingCommand => String::from_str("Missing command"),
            CommandError::UnknownCommand => String::from_str("Unknown command"),
        }
    }
}

} // verus!

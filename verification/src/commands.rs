//! The commands of the two menus, their names and how a name is read.

use crate::text::{same_text, views};
use vstd::prelude::*;
use vstd::string::*;

verus! {

/// What `str::to_lowercase` makes of a text.
pub uninterp spec fn lowercase(s: Seq<char>) -> Seq<char>;

/// The lowercase form of `s`.
///
/// Trusted: the body calls `str::to_lowercase` of the standard library, whose
/// result depends on the characters of `s` alone. The contract only names it.
#[verifier::external_body]
fn to_lowercase(s: &str) -> (lowered: String)
    ensures
        lowered@ == lowercase(s@),
{
    s.to_lowercase()
}

/// What is said of a name that is no command.
pub open spec fn unrecognized(input: Seq<char>) -> Seq<char> {
    "Unrecognized command: {} "@ + input
}

/// Phrases the complaint about a name that is no command.
fn complain(input: &str) -> (message: String)
    ensures
        message@ == unrecognized(input@),
{
    let mut message = "Unrecognized command: {} ".to_owned();
    message.append(input);
    message
}

/// The commands of the short menu.
#[derive(Clone, Copy, Debug, PartialEq, Eq, Structural)]
pub enum BasicCommands {
    Add,
    Reset,
    Commit,
    AdvancedOptions,
    Quit,
}

/// All commands.
#[derive(Clone, Copy, Debug, PartialEq, Eq, Structural)]
pub enum Commands {
    Add,
    Reset,
    Commit,
    UndoCommit,
    Branches,
    Push,
    Pull,
    Remove,
    Quit,
}

/// The characters of a parse result's error.
pub open spec fn parse_view<C>(r: Result<C, String>) -> Result<C, Seq<char>> {
    match r {
        Ok(c) => Ok(c),
        Err(message) => Err(message@),
    }
}

impl BasicCommands {
    /// The name under which the menu shows the command.
    pub open spec fn name(self) -> Seq<char> {
        match self {
            BasicCommands::Add => "Add"@,
            BasicCommands::Reset => "Reset"@,
            BasicCommands::Commit => "Commit"@,
            BasicCommands::AdvancedOptions => "Advanced Options"@,
            BasicCommands::Quit => "Quit"@,
        }
    }

    /// The command that a name in lowercase stands for.
    pub open spec fn named(lowered: Seq<char>) -> Option<BasicCommands> {
        if lowered == "add"@ {
            Some(BasicCommands::Add)
        } else if lowered == "reset"@ {
            Some(BasicCommands::Reset)
        } else if lowered == "commit"@ {
            Some(BasicCommands::Commit)
        } else if lowered == "advanced options"@ {
            Some(BasicCommands::AdvancedOptions)
        } else if lowered == "quit"@ {
            Some(BasicCommands::Quit)
        } else {
            None
        }
    }

    /// What reading `input` as a command gives: case does not count.
    pub open spec fn parsed(input: Seq<char>) -> Result<BasicCommands, Seq<char>> {
        match Self::named(lowercase(input)) {
            Some(command) => Ok(command),
            None => Err(unrecognized(input)),
        }
    }

    /// All commands of the short menu, in the order in which it shows them.
    pub open spec fn all() -> Seq<BasicCommands> {
        seq![
            BasicCommands::Add,
            BasicCommands::Reset,
            BasicCommands::Commit,
            BasicCommands::AdvancedOptions,
            BasicCommands::Quit,
        ]
    }

    /// Reads a name that is already in lowercase.
    pub fn from_lowercase(lowered: &str) -> (r: Option<Self>)
        ensures
            r == Self::named(lowered@),
    {
        if same_text(lowered, "add") {
            Some(BasicCommands::Add)
        } else if same_text(lowered, "reset") {
            Some(BasicCommands::Reset)
        } else if same_text(lowered, "commit") {
            Some(BasicCommands::Commit)
        } else if same_text(lowered, "advanced options") {
            Some(BasicCommands::AdvancedOptions)
        } else if same_text(lowered, "quit") {
            Some(BasicCommands::Quit)
        } else {
            None
        }
    }

    /// Reads a command from its name, in any case.
    pub fn from_string(input: String) -> (r: Result<Self, String>)
        ensures
            parse_view(r) == Self::parsed(input@),
    {
        let lowered = to_lowercase(input.as_str());
        match Self::from_lowercase(lowered.as_str()) {
            Some(command) => Ok(command),
            None => Err(complain(input.as_str())),
        }
    }

    /// The name under which the menu shows the command.
    pub fn to_string(&self) -> (text: String)
        ensures
            text@ == self.name(),
    {
        match self {
            BasicCommands::Add => "Add".to_owned(),
            BasicCommands::Reset => "Reset".to_owned(),
            BasicCommands::Commit => "Commit".to_owned(),
            BasicCommands::AdvancedOptions => "Advanced Options".to_owned(),
            BasicCommands::Quit => "Quit".to_owned(),
        }
    }

    /// The names of all commands of the short menu, in its order.
    pub fn get_commands_vec() -> (names: Vec<String>)
        ensures
            views(names@) == Seq::new(Self::all().len(), |i: int| Self::all()[i].name()),
    {
        let mut names: Vec<String> = Vec::new();
        names.push(BasicCommands::Add.to_string());
        names.push(BasicCommands::Reset.to_string());
        names.push(BasicCommands::Commit.to_string());
        names.push(BasicCommands::AdvancedOptions.to_string());
        names.push(BasicCommands::Quit.to_string());
        assert(views(names@) =~= Seq::new(Self::all().len(), |i: int| Self::all()[i].name()));
        names
    }
}

impl Commands {
    /// The name under which the menu shows the command.
    pub open spec fn name(self) -> Seq<char> {
        match self {
            Commands::Add => "Add"@,
            Commands::Reset => "Reset"@,
            Commands::Commit => "Commit"@,
            Commands::UndoCommit => "Undo_commit"@,
            Commands::Branches => "Branches"@,
            Commands::Push => "Push"@,
            Commands::Pull => "Pull"@,
            Commands::Remove => "Remove"@,
            Commands::Quit => "Quit"@,
        }
    }

    /// The command that a name in lowercase stands for.
    pub open spec fn named(lowered: Seq<char>) -> Option<Commands> {
        if lowered == "add"@ {
            Some(Commands::Add)
        } else if lowered == "reset"@ {
            Some(Commands::Reset)
        } else if lowered == "commit"@ {
            Some(Commands::Commit)
        } else if lowered == "undo_commit"@ {
            Some(Commands::UndoCommit)
        } else if lowered == "branches"@ {
            Some(Commands::Branches)
        } else if lowered == "push"@ {
            Some(Commands::Push)
        } else if lowered == "pull"@ {
            Some(Commands::Pull)
        } else if lowered == "remove"@ {
            Some(Commands::Remove)
        } else if lowered == "quit"@ {
            Some(Commands::Quit)
        } else {
            None
        }
    }

    /// What reading `input` as a command gives: case does not count.
    pub open spec fn parsed(input: Seq<char>) -> Result<Commands, Seq<char>> {
        match Self::named(lowercase(input)) {
            Some(command) => Ok(command),
            None => Err(unrecognized(input)),
        }
    }

    /// All commands, in the order in which the menu shows them.
    pub open spec fn all() -> Seq<Commands> {
        seq![
            Commands::Add,
            Commands::Reset,
            Commands::Commit,
            Commands::UndoCommit,
            Commands::Branches,
            Commands::Push,
            Commands::Pull,
            Commands::Remove,
            Commands::Quit,
        ]
    }

    /// Reads a name that is already in lowercase.
    pub fn from_lowercase(lowered: &str) -> (r: Option<Self>)
        ensures
            r == Self::named(lowered@),
    {
        if same_text(lowered, "add") {
            Some(Commands::Add)
        } else if same_text(lowered, "reset") {
            Some(Commands::Reset)
        } else if same_text(lowered, "commit") {
            Some(Commands::Commit)
        } else if same_text(lowered, "undo_commit") {
            Some(Commands::UndoCommit)
        } else if same_text(lowered, "branches") {
            Some(Commands::Branches)
        } else if same_text(lowered, "push") {
            Some(Commands::Push)
        } else if same_text(lowered, "pull") {
            Some(Commands::Pull)
        } else if same_text(lowered, "remove") {
            Some(Commands::Remove)
        } else if same_text(lowered, "quit") {
            Some(Commands::Quit)
        } else {
            None
        }
    }

    /// Reads a command from its name, in any case.
    pub fn from_string(input: String) -> (r: Result<Self, String>)
        ensures
            parse_view(r) == Self::parsed(input@),
    {
        let lowered = to_lowercase(input.as_str());
        match Self::from_lowercase(lowered.as_str()) {
            Some(command) => Ok(command),
            None => Err(complain(input.as_str())),
        }
    }

    /// The name under which the menu shows the command.
    pub fn to_string(&self) -> (text: String)
        ensures
            text@ == self.name(),
    {
        match self {
            Commands::Add => "Add".to_owned(),
            Commands::Reset => "Reset".to_owned(),
            Commands::Commit => "Commit".to_owned(),
            Commands::UndoCommit => "Undo_commit".to_owned(),
            Commands::Branches => "Branches".to_owned(),
            Commands::Push => "Push".to_owned(),
            Commands::Pull => "Pull".to_owned(),
            Commands::Remove => "Remove".to_owned(),
            Commands::Quit => "Quit".to_owned(),
        }
    }

    /// The names of all commands, in the order of the menu.
    pub fn get_commands_vec() -> (names: Vec<String>)
        ensures
            views(names@) == Seq::new(Self::all().len(), |i: int| Self::all()[i].name()),
    {
        let mut names: Vec<String> = Vec::new();
        names.push(Commands::Add.to_string());
        names.push(Commands::Reset.to_string());
        names.push(Commands::Commit.to_string());
        names.push(Commands::UndoCommit.to_string());
        names.push(Commands::Branches.to_string());
        names.push(Commands::Push.to_string());
        names.push(Commands::Pull.to_string());
        names.push(Commands::Remove.to_string());
        names.push(Commands::Quit.to_string());
        assert(views(names@) =~= Seq::new(Self::all().len(), |i: int| Self::all()[i].name()));
        names
    }
}

} // verus!

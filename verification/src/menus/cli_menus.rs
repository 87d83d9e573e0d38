//! The two menus of commands, and the two commands that need no question:
//! pull and push.

use crate::commands::{parse_view, BasicCommands, Commands};
use crate::git::{GitCommand, GitCommandView};
use crate::menus::{answers, end_of_run, run_ended, run_one, runs, Reply, Request};
use vstd::prelude::*;
use vstd::string::*;

verus! {

/// What a menu of commands answers when nothing was picked.
pub open spec fn no_item() -> Seq<char> {
    "No item was selected!"@
}

/// What the short menu leads to.
#[derive(Clone, Copy, Debug, PartialEq, Eq, Structural)]
pub enum MenuChoice {
    /// The command to carry out.
    Run(Commands),
    /// The full menu is to be shown.
    Advanced,
}

/// Where a command of the short menu leads.
pub open spec fn basic_target(command: BasicCommands) -> MenuChoice {
    match command {
        BasicCommands::Add => MenuChoice::Run(Commands::Add),
        BasicCommands::Reset => MenuChoice::Run(Commands::Reset),
        BasicCommands::Commit => MenuChoice::Run(Commands::Commit),
        BasicCommands::AdvancedOptions => MenuChoice::Advanced,
        BasicCommands::Quit => MenuChoice::Run(Commands::Quit),
    }
}

/// What the full menu makes of the name picked.
pub open spec fn advanced_outcome(choice: Option<String>) -> Result<Commands, Seq<char>> {
    match choice {
        Some(name) => Commands::parsed(name@),
        None => Err(no_item()),
    }
}

/// What the short menu makes of the name picked.
pub open spec fn basic_outcome(choice: Option<String>) -> Result<MenuChoice, Seq<char>> {
    match choice {
        Some(name) => match BasicCommands::parsed(name@) {
            Ok(command) => Ok(basic_target(command)),
            Err(message) => Err(message),
        },
        None => Err(no_item()),
    }
}

/// Reads the answer to the full menu: the name picked, or `None` if the
/// operator picked nothing.
pub fn advanced_menu(choice: Option<String>) -> (r: Result<Commands, String>)
    ensures
        parse_view(r) == advanced_outcome(choice),
{
    match choice {
        Some(name) => Commands::from_string(name),
        None => Err("No item was selected!".to_owned()),
    }
}

/// Reads the answer to the short menu: the name picked, or `None` if the
/// operator picked nothing.
pub fn basic_menu(choice: Option<String>) -> (r: Result<MenuChoice, String>)
    ensures
        parse_view(r) == basic_outcome(choice),
{
    match choice {
        Some(name) => match BasicCommands::from_string(name) {
            Ok(BasicCommands::Add) => Ok(MenuChoice::Run(Commands::Add)),
            Ok(BasicCommands::Reset) => Ok(MenuChoice::Run(Commands::Reset)),
            Ok(BasicCommands::Commit) => Ok(MenuChoice::Run(Commands::Commit)),
            Ok(BasicCommands::AdvancedOptions) => Ok(MenuChoice::Advanced),
            Ok(BasicCommands::Quit) => Ok(MenuChoice::Run(Commands::Quit)),
            Err(message) => Err(message),
        },
        None => Err("No item was selected!".to_owned()),
    }
}

/// Where a flow of one command stands.
#[derive(Clone, Copy, Debug, PartialEq, Eq, Structural)]
pub enum SyncState {
    /// Nothing was asked yet.
    Start,
    /// The command was asked for.
    Running,
    /// The flow is over.
    Done,
}

impl SyncState {
    /// `reply` answers the request that led to this state.
    pub open spec fn awaits(self, reply: Reply) -> bool {
        match self {
            SyncState::Start => reply is Begin,
            SyncState::Running => reply is Ran,
            SyncState::Done => false,
        }
    }

    /// Whether `reply` answers the request that led to this state.
    pub fn expects(&self, reply: &Reply) -> (r: bool)
        ensures
            r == self.awaits(*reply),
    {
        match self {
            SyncState::Start => matches!(reply, Reply::Begin),
            SyncState::Running => matches!(reply, Reply::Ran(_)),
            SyncState::Done => false,
        }
    }
}

/// One step of a flow that runs `command` and ends.
pub open spec fn sync_transition(
    command: GitCommandView,
    state: SyncState,
    reply: Reply,
    next: SyncState,
    request: Request,
) -> bool {
    match state {
        SyncState::Start => next == SyncState::Running && runs(request, seq![command]),
        SyncState::Running => next == SyncState::Done && run_ended(reply, request),
        SyncState::Done => true,
    }
}

/// One step of pulling.
pub fn git_pull_cli(state: SyncState, reply: Reply) -> (r: (SyncState, Request))
    requires
        state.awaits(reply),
    ensures
        sync_transition(GitCommandView::Pull, state, reply, r.0, r.1),
{
    match state {
        SyncState::Start => (SyncState::Running, run_one(GitCommand::Pull)),
        _ => (SyncState::Done, end_of_run(reply)),
    }
}

/// One step of pushing.
pub fn git_push_cli(state: SyncState, reply: Reply) -> (r: (SyncState, Request))
    requires
        state.awaits(reply),
    ensures
        sync_transition(GitCommandView::Push, state, reply, r.0, r.1),
{
    match state {
        SyncState::Start => (SyncState::Running, run_one(GitCommand::Push)),
        _ => (SyncState::Done, end_of_run(reply)),
    }
}

/// A flow of one command keeps to its own rules. It ends exactly when it
/// says so, and whatever answers its request is a reply that its next state
/// awaits.
pub proof fn lemma_sync_protocol(
    command: GitCommandView,
    state: SyncState,
    reply: Reply,
    next: SyncState,
    request: Request,
    answer: Reply,
)
    requires
        state.awaits(reply),
        sync_transition(command, state, reply, next, request),
    ensures
        request is Finish <==> next == SyncState::Done,
        answers(request, answer) ==> next.awaits(answer),
{
}

} // verus!

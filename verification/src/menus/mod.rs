//! The interactive flows, each as a machine that is fed one reply at a time
//! and says what to ask for next.
//!
//! A flow never runs git and never talks to the operator. Its step function
//! takes the state it is in and the reply to its last request, and hands back
//! the next state and the next request. Whoever drives the flow carries the
//! request out and comes back with the reply, until the request is `Finish`.
//! A reply that does not answer the request that was made is a fault of the
//! driver; the step functions rule it out in their `requires`, and each state
//! type offers `expects` to test for it.

pub mod add_cli;
pub mod branches_cli;
pub mod cli_menus;
pub mod commit_cli;
pub mod remove_cli;
pub mod reset_cli;
pub mod undo_commit_cli;

use crate::cli::{menu_size, valid_picks, ErrorKind};
use crate::git::{command_views, GitCommand, GitCommandView};
use crate::status::ParseError;
use crate::text::views;
use vstd::prelude::*;
use vstd::string::*;

verus! {

/// How an entry of a menu is to be painted.
#[derive(Clone, Copy, Debug, PartialEq, Eq, Structural)]
pub enum Style {
    Plain,
    BrightGreen,
    Green,
    Yellow,
    BrightYellow,
    BrightRed,
    /// Dimmed and struck through: the entry cannot be used.
    Struck,
}

/// One entry of a menu. The text is what the entry stands for, free of any
/// styling; the style is advice to whoever shows it.
#[derive(Clone, Debug, PartialEq, Eq)]
pub struct Choice {
    pub text: String,
    pub style: Style,
}

/// What a question is about.
#[derive(Clone, Copy, Debug, PartialEq, Eq, Structural)]
pub enum Topic {
    AddFiles,
    ResetFiles,
    RemoveFiles,
    DeleteFromDisk,
    RevertCommit,
    BranchAction,
    SwitchBranch,
    BaseOnCommit,
    CommitBranch,
    BaseCommit,
    BranchName,
    StageFirst,
    CommitFiles,
    CommitType,
    CommitScope,
    Important,
    Subject,
    Description,
    Settings,
    ShowWelcome,
    ShowAll,
}

/// How a flow ended when nothing went wrong.
#[derive(Clone, Copy, Debug, PartialEq, Eq, Structural)]
pub enum Notice {
    /// There was nothing to choose from.
    Empty,
    /// The operator chose nothing.
    NoneSelected,
    /// The operator said no.
    Declined,
    /// What the flow was started for has been done.
    Completed,
}

/// Why a flow ended early.
#[derive(Clone, Debug, PartialEq, Eq)]
pub enum FlowError {
    Parse(ParseError),
    Kind(ErrorKind),
}

/// What a flow asks for next.
#[derive(Debug, PartialEq, Eq)]
pub enum Request {
    /// Run the commands in order and stop at the first that fails. The reply
    /// is `Ran` with that failure, or with the listing of the last command.
    Run(Vec<GitCommand>),
    /// Show a menu in which one entry is picked. The reply is `Chose`.
    SelectOne { topic: Topic, choices: Vec<Choice>, has_all: bool, has_none: bool },
    /// Show a menu in which any number of entries is picked. The reply is
    /// `ChoseMany`.
    SelectMany { topic: Topic, choices: Vec<Choice>, has_all: bool, has_none: bool },
    /// Ask for a confirmation, showing `items` with it. The reply is
    /// `Confirmed`.
    Confirm { topic: Topic, items: Vec<String> },
    /// Ask a yes-or-no question that is answered by typing. The reply is
    /// `Typed`.
    YesNo { topic: Topic, default_yes: bool },
    /// Ask for a line of text, with `initial` already in the field. The reply
    /// is `Typed`.
    Input { topic: Topic, initial: String },
    /// Ask for a longer text, written in an editor. The reply is `Typed`.
    Edit { topic: Topic },
    /// The flow is over.
    Finish(Result<Notice, FlowError>),
}

/// What came of the last request.
#[derive(Debug, PartialEq, Eq)]
pub enum Reply {
    /// Nothing was requested yet: the flow begins.
    Begin,
    /// The listing that git printed, if any, or its failure.
    Ran(Result<Option<String>, ErrorKind>),
    /// The position picked among the entries shown, or `None` if the operator
    /// aborted.
    Chose(Option<usize>),
    /// The positions picked among the entries shown, or `None` if the
    /// operator aborted.
    ChoseMany(Option<Vec<usize>>),
    /// The answer to a confirmation, or `None` if the operator aborted.
    Confirmed(Option<bool>),
    /// The text typed, or `None` if the operator aborted.
    Typed(Option<String>),
}

/// The request is to run exactly `plan`.
pub open spec fn runs(request: Request, plan: Seq<GitCommandView>) -> bool {
    request matches Request::Run(commands) && command_views(commands@) == plan
}

/// The request ends the flow with a notice.
pub open spec fn ends_with(request: Request, notice: Notice) -> bool {
    request == Request::Finish(Ok(notice))
}

/// The request ends the flow with an error of the given kind.
pub open spec fn fails_with(request: Request, e: ErrorKind) -> bool {
    request == Request::Finish(Err(FlowError::Kind(e)))
}

/// `choices` show `texts` in order, all in one style.
pub open spec fn shows(choices: Seq<Choice>, texts: Seq<Seq<char>>, style: Style) -> bool {
    &&& choices.len() == texts.len()
    &&& forall|i: int|
        0 <= i < choices.len() ==> (#[trigger] choices[i]).text@ == texts[i] && choices[i].style
            == style
}

/// The request is a menu for one pick over `texts`, unstyled, without the
/// entry "All".
pub open spec fn asks_one(
    request: Request,
    about: Topic,
    texts: Seq<Seq<char>>,
    with_none: bool,
) -> bool {
    &&& request matches Request::SelectOne { topic, choices, has_all, has_none }
    &&& topic == about
    &&& shows(choices@, texts, Style::Plain)
    &&& !has_all
    &&& has_none == with_none
}

/// The request is a menu for any number of picks over `texts`, all in one
/// style, with the entry "None" and without the entry "All".
pub open spec fn asks_many(
    request: Request,
    about: Topic,
    texts: Seq<Seq<char>>,
    style: Style,
) -> bool {
    &&& request matches Request::SelectMany { topic, choices, has_all, has_none }
    &&& topic == about
    &&& shows(choices@, texts, style)
    &&& !has_all
    &&& has_none
}

/// `reply` is an answer to `request`: it is of the kind that the request
/// asks for, and what it picks is among the entries that the request shows.
/// Nothing answers the request that ends the flow.
pub open spec fn answers(request: Request, reply: Reply) -> bool {
    match request {
        Request::Run(_) => reply is Ran,
        Request::SelectOne { topic, choices, has_all, has_none } => reply matches Reply::Chose(
            selected,
        ) && (selected matches Some(pick) ==> pick < menu_size(
            choices.len() as int,
            has_all,
            has_none,
        )),
        Request::SelectMany { topic, choices, has_all, has_none } => reply matches Reply::ChoseMany(
            selected,
        ) && (selected matches Some(picks) ==> valid_picks(
            choices.len() as int,
            has_all,
            has_none,
            picks@,
        )),
        Request::Confirm { topic, items } => reply is Confirmed,
        Request::YesNo { topic, default_yes } => reply is Typed,
        Request::Input { topic, initial } => reply is Typed,
        Request::Edit { topic } => reply is Typed,
        Request::Finish(_) => false,
    }
}

/// Whether every pick is the position of an entry shown for `n` items.
pub fn picks_fit(picks: &Vec<usize>, n: usize, has_all: bool, has_none: bool) -> (r: bool)
    ensures
        r == valid_picks(n as int, has_all, has_none, picks@),
{
    let mut k: usize = 0;
    while k < picks.len()
        invariant
            k <= picks.len(),
            forall|j: int|
                0 <= j < k ==> #[trigger] picks@[j] < menu_size(n as int, has_all, has_none),
        decreases picks.len() - k,
    {
        if !pick_fits(picks[k], n, has_all, has_none) {
            return false;
        }
        k += 1;
    }
    true
}

/// Whether `pick` is the position of an entry shown for `n` items.
pub fn pick_fits(pick: usize, n: usize, has_all: bool, has_none: bool) -> (r: bool)
    ensures
        r == (pick < menu_size(n as int, has_all, has_none)),
{
    let mut room = pick;
    if has_all {
        if room == 0 {
            return true;
        }
        room = room - 1;
    }
    if has_none {
        room <= n
    } else {
        room < n
    }
}

/// The first seven characters of a log line, or all of it where it is
/// shorter: the abbreviated hash of the commit.
pub open spec fn short_hash(line: Seq<char>) -> Seq<char> {
    if line.len() <= 7 {
        line
    } else {
        line.subrange(0, 7)
    }
}

/// The abbreviated hash at the start of a log line.
pub fn leading_hash(line: &str) -> (hash: String)
    ensures
        hash@ == short_hash(line@),
{
    let n = line.unicode_len();
    if n <= 7 {
        line.to_owned()
    } else {
        line.substring_char(0, 7).to_owned()
    }
}

/// Makes menu entries of `texts`, all in one style.
pub fn uniform_choices(texts: &Vec<String>, style: Style) -> (choices: Vec<Choice>)
    ensures
        shows(choices@, views(texts@), style),
{
    let mut choices: Vec<Choice> = Vec::new();
    let mut i: usize = 0;
    while i < texts.len()
        invariant
            i <= texts.len(),
            choices.len() == i,
            forall|j: int|
                0 <= j < i ==> (#[trigger] choices@[j]).text@ == texts@[j]@ && choices@[j].style
                    == style,
        decreases texts.len() - i,
    {
        choices.push(Choice { text: texts[i].clone(), style });
        i += 1;
    }
    choices
}

/// A menu for one pick over `texts`, unstyled.
pub(crate) fn ask_one(about: Topic, texts: &Vec<String>, with_none: bool) -> (request: Request)
    ensures
        asks_one(request, about, views(texts@), with_none),
{
    Request::SelectOne {
        topic: about,
        choices: uniform_choices(texts, Style::Plain),
        has_all: false,
        has_none: with_none,
    }
}

/// A menu for any number of picks over `texts`, all in one style, with the
/// entry "None".
pub(crate) fn ask_many(about: Topic, texts: &Vec<String>, style: Style) -> (request: Request)
    ensures
        asks_many(request, about, views(texts@), style),
{
    Request::SelectMany {
        topic: about,
        choices: uniform_choices(texts, style),
        has_all: false,
        has_none: true,
    }
}

/// The request that ends a flow because the operator aborted.
pub(crate) fn aborted() -> (request: Request)
    ensures
        fails_with(request, ErrorKind::NoSelection),
{
    Request::Finish(Err(FlowError::Kind(ErrorKind::NoSelection)))
}

/// A request to run one command.
pub(crate) fn run_one(command: GitCommand) -> (request: Request)
    ensures
        runs(request, seq![command@]),
{
    let mut commands: Vec<GitCommand> = Vec::new();
    commands.push(command);
    assert(command_views(commands@) =~= seq![command@]);
    Request::Run(commands)
}

/// What the end of a run that was made for its effect amounts to.
pub open spec fn run_ended(reply: Reply, request: Request) -> bool {
    match reply {
        Reply::Ran(Err(e)) => fails_with(request, e),
        Reply::Ran(Ok(_)) => ends_with(request, Notice::Completed),
        _ => true,
    }
}

/// Ends a flow after the run that it was started for.
pub(crate) fn end_of_run(reply: Reply) -> (request: Request)
    requires
        reply is Ran,
    ensures
        run_ended(reply, request),
{
    match reply {
        Reply::Ran(Err(e)) => Request::Finish(Err(FlowError::Kind(e))),
        _ => Request::Finish(Ok(Notice::Completed)),
    }
}

} // verus!

//! Switching to a branch and creating one.
//!
//! The flow first asks what to do. To switch, it lists the branches, lets
//! one be picked and checks it out. To create, it asks whether the new branch
//! is to start at a chosen commit; if so a branch and one of its commits are
//! picked first. A branch of a remote is fetched before anything is done
//! with it.

use crate::cli::{choice_single, single_outcome, ErrorKind, UserResponse};
use crate::git::{optional_view, GitCommand, GitCommandView};
use crate::menus::{
    aborted, answers, ask_one, asks_one, end_of_run, ends_with, fails_with, leading_hash, run_ended,
    run_one, runs, short_hash, FlowError, Notice, Reply, Request, Topic,
};
use crate::text::{
    chars_of, contains, has_prefix, has_substring, lines_of, split_lines, starts_with, views,
};
use crate::utils::{strip_colors, stripped};
use vstd::prelude::*;
use vstd::string::*;

verus! {

/// A branch as the listing names it, and whether it belongs to a remote.
#[derive(Clone, Debug, PartialEq, Eq)]
pub struct BranchRef {
    pub name: String,
    pub is_remote: bool,
}

/// A branch of a remote is listed under `remotes/`.
pub open spec fn is_remote_name(name: Seq<char>) -> bool {
    starts_with(name, "remotes/"@)
}

impl BranchRef {
    /// The flag says what the name says.
    pub open spec fn wf(self) -> bool {
        self.is_remote == is_remote_name(self.name@)
    }

    /// The branch of the given name.
    pub fn new(name: String) -> (branch: BranchRef)
        ensures
            branch.name == name,
            branch.wf(),
    {
        let chars = chars_of(name.as_str());
        let marker = chars_of("remotes/");
        let is_remote = has_prefix(&chars, &marker);
        BranchRef { name, is_remote }
    }
}

/// The names of a list of branches.
pub open spec fn names_of(branches: Seq<BranchRef>) -> Seq<Seq<char>> {
    Seq::new(branches.len(), |i: int| branches[i].name@)
}

/// Every branch of the list carries the flag that its name asks for.
pub open spec fn all_wf(branches: Seq<BranchRef>) -> bool {
    forall|i: int| 0 <= i < branches.len() ==> (#[trigger] branches[i]).wf()
}

/// The line of a branch listing without its two columns of decoration, or
/// nothing where the line names no branch: it is too short, or it speaks of
/// `HEAD`.
pub open spec fn listed(line: Seq<char>) -> Option<Seq<char>> {
    if contains(line, "HEAD"@) || line.len() <= 2 {
        None
    } else {
        Some(line.subrange(2, line.len() as int))
    }
}

/// The branch names that the lines of a listing hold, in order, each free of
/// styling.
pub open spec fn branch_names(lines: Seq<Seq<char>>) -> Seq<Seq<char>>
    decreases lines.len(),
{
    if lines.len() == 0 {
        Seq::empty()
    } else {
        let before = branch_names(lines.drop_last());
        match listed(lines.last()) {
            Some(name) => before.push(stripped(name)),
            None => before,
        }
    }
}

/// Reads one line of a branch listing.
pub fn read_branch_line(line: &str) -> (name: Option<String>)
    ensures
        optional_view(name) == listed(line@),
{
    let chars = chars_of(line);
    let head = chars_of("HEAD");
    if has_substring(&chars, &head) || chars.len() <= 2 {
        None
    } else {
        Some(line.substring_char(2, chars.len()).to_owned())
    }
}

/// Reads the listing of all branches.
pub fn parse_branch_listing(text: &str) -> (branches: Vec<BranchRef>)
    ensures
        names_of(branches@) == branch_names(lines_of(text@)),
        all_wf(branches@),
{
    let lines = split_lines(text);
    let ghost all = lines_of(text@);
    let mut branches: Vec<BranchRef> = Vec::new();
    let mut i: usize = 0;
    assert(all.subrange(0, 0) =~= Seq::<Seq<char>>::empty());
    assert(names_of(branches@) =~= Seq::<Seq<char>>::empty());
    while i < lines.len()
        invariant
            i <= lines.len(),
            all == lines_of(text@),
            views(lines@) == all,
            names_of(branches@) == branch_names(all.subrange(0, i as int)),
            all_wf(branches@),
        decreases lines.len() - i,
    {
        let ghost upto = all.subrange(0, i + 1);
        assert(upto.drop_last() =~= all.subrange(0, i as int));
        assert(upto.last() == all[i as int]);
        assert(all[i as int] == lines@[i as int]@);
        match read_branch_line(lines[i].as_str()) {
            Some(name) => {
                let ghost before = branches@;
                let branch = BranchRef::new(strip_colors(name));
                branches.push(branch);
                assert(names_of(branches@) =~= names_of(before).push(stripped(name@)));
                assert forall|j: int| 0 <= j < branches@.len() implies (
                #[trigger] branches@[j]).wf() by {
                    if j < before.len() {
                        assert(before[j].wf());
                    }
                }
            },
            None => {},
        }
        i += 1;
    }
    assert(all.subrange(0, lines.len() as int) =~= all);
    branches
}

/// A fetch from all remotes if the branch belongs to one, else nothing.
pub open spec fn fetch_first(is_remote: bool) -> Seq<GitCommandView> {
    if is_remote {
        seq![GitCommandView::Fetch]
    } else {
        Seq::empty()
    }
}

/// What is run to switch to a branch: the fetch that a branch of a remote
/// needs, then the checkout of that one name.
pub open spec fn switch_plan(name: Seq<char>, is_remote: bool) -> Seq<GitCommandView> {
    fetch_first(is_remote) + seq![GitCommandView::Checkout { targets: seq![name] }]
}

/// What is run to see the commits of a branch: the fetch that a branch of a
/// remote needs, then the log of the branch.
pub open spec fn log_plan(name: Seq<char>, is_remote: bool) -> Seq<GitCommandView> {
    fetch_first(is_remote) + seq![GitCommandView::Log { branch: Some(name) }]
}

/// The two things that the flow can do, as the first menu shows them.
pub open spec fn actions() -> Seq<Seq<char>> {
    seq!["Switch HEAD"@, "Create new branch"@]
}

/// Where the flow stands.
#[derive(Clone, Debug, PartialEq, Eq)]
pub enum BranchState {
    /// Nothing was asked yet.
    Start,
    /// The menu of actions is shown.
    ChooseAction,
    /// To switch: the branch listing was asked for.
    SwitchListing,
    /// To switch: the menu over `branches` is shown.
    SwitchPick { branches: Vec<BranchRef> },
    /// To create: the operator is asked whether to start at a chosen commit.
    CreateAskBase,
    /// To create: the branch listing was asked for.
    CreateListing,
    /// To create: the menu over `branches` is shown.
    CreatePickBranch { branches: Vec<BranchRef> },
    /// To create: the log of the branch picked was asked for.
    CreateLog,
    /// To create: the menu over the log lines `commits` is shown.
    CreatePickCommit { commits: Vec<String> },
    /// To create: the name of the new branch is asked for; the branch will
    /// start at `start` if there is one.
    CreateName { start: Option<String> },
    /// The checkout or the creation was asked for.
    Running,
    /// The flow is over.
    Done,
}

impl BranchState {
    /// `reply` answers the request that led to this state.
    pub open spec fn awaits(self, reply: Reply) -> bool {
        match self {
            BranchState::Start => reply is Begin,
            BranchState::ChooseAction => reply matches Reply::Chose(selected) && (
            selected matches Some(pick) ==> pick < 2),
            BranchState::SwitchListing => reply is Ran,
            BranchState::SwitchPick { branches } => reply matches Reply::Chose(selected) && (
            selected matches Some(pick) ==> pick < branches.len()),
            BranchState::CreateAskBase => reply is Confirmed,
            BranchState::CreateListing => reply is Ran,
            BranchState::CreatePickBranch { branches } => reply matches Reply::Chose(selected)
                && (selected matches Some(pick) ==> pick < branches.len()),
            BranchState::CreateLog => reply is Ran,
            BranchState::CreatePickCommit { commits } => reply matches Reply::Chose(selected) && (
            selected matches Some(pick) ==> pick <= commits.len()),
            BranchState::CreateName { start } => reply is Typed,
            BranchState::Running => reply is Ran,
            BranchState::Done => false,
        }
    }

    /// Whether `reply` answers the request that led to this state.
    pub fn expects(&self, reply: &Reply) -> (r: bool)
        ensures
            r == self.awaits(*reply),
    {
        match self {
            BranchState::Start => matches!(reply, Reply::Begin),
            BranchState::ChooseAction => match reply {
                Reply::Chose(None) => true,
                Reply::Chose(Some(pick)) => *pick < 2,
                _ => false,
            },
            BranchState::SwitchPick { branches } => match reply {
                Reply::Chose(None) => true,
                Reply::Chose(Some(pick)) => *pick < branches.len(),
                _ => false,
            },
            BranchState::CreatePickBranch { branches } => match reply {
                Reply::Chose(None) => true,
                Reply::Chose(Some(pick)) => *pick < branches.len(),
                _ => false,
            },
            BranchState::CreatePickCommit { commits } => match reply {
                Reply::Chose(None) => true,
                Reply::Chose(Some(pick)) => *pick <= commits.len(),
                _ => false,
            },
            BranchState::CreateAskBase => matches!(reply, Reply::Confirmed(_)),
            BranchState::CreateName { start } => matches!(reply, Reply::Typed(_)),
            BranchState::SwitchListing => matches!(reply, Reply::Ran(_)),
            BranchState::CreateListing => matches!(reply, Reply::Ran(_)),
            BranchState::CreateLog => matches!(reply, Reply::Ran(_)),
            BranchState::Running => matches!(reply, Reply::Ran(_)),
            BranchState::Done => false,
        }
    }
}

/// The request asks for the name of the new branch, with an empty field.
pub open spec fn asks_name(request: Request) -> bool {
    &&& request matches Request::Input { topic, initial }
    &&& topic == Topic::BranchName
    &&& initial@.len() == 0
}

/// What follows the branch listing: the listing is read and its branches
/// are offered; a listing without branches ends the flow.
pub open spec fn after_listing(
    reply: Reply,
    about: Topic,
    offered: Option<Seq<BranchRef>>,
    request: Request,
) -> bool {
    match reply {
        Reply::Ran(Err(e)) => offered is None && fails_with(request, e),
        Reply::Ran(Ok(None)) => offered is None && fails_with(request, ErrorKind::NoBranches),
        Reply::Ran(Ok(Some(text))) => {
            let names = branch_names(lines_of(text@));
            if names.len() == 0 {
                offered is None && fails_with(request, ErrorKind::NoBranches)
            } else {
                &&& offered matches Some(branches)
                &&& names_of(branches) == names
                &&& all_wf(branches)
                &&& asks_one(request, about, names, false)
            }
        },
        _ => true,
    }
}

/// One step of the flow: from `state`, on `reply`, to `next` with `request`.
pub open spec fn branch_transition(
    state: BranchState,
    reply: Reply,
    next: BranchState,
    request: Request,
) -> bool {
    match state {
        BranchState::Start => next == BranchState::ChooseAction && asks_one(
            request,
            Topic::BranchAction,
            actions(),
            false,
        ),
        BranchState::ChooseAction => match reply {
            Reply::Chose(None) => next == BranchState::Done && fails_with(
                request,
                ErrorKind::NoSelection,
            ),
            Reply::Chose(Some(pick)) => if pick == 0 {
                next == BranchState::SwitchListing && runs(request, seq![GitCommandView::Branches])
            } else {
                &&& next == BranchState::CreateAskBase
                &&& request matches Request::Confirm { topic, items }
                &&& topic == Topic::BaseOnCommit
                &&& items@.len() == 0
            },
            _ => true,
        },
        BranchState::SwitchListing => {
            &&& after_listing(
                reply,
                Topic::SwitchBranch,
                match next {
                    BranchState::SwitchPick { branches } => Some(branches@),
                    _ => None,
                },
                request,
            )
            &&& next is SwitchPick || next == BranchState::Done
        },
        BranchState::SwitchPick { branches } => match reply {
            Reply::Chose(None) => next == BranchState::Done && fails_with(
                request,
                ErrorKind::NoSelection,
            ),
            Reply::Chose(Some(pick)) => next == BranchState::Running && runs(
                request,
                switch_plan(branches[pick as int].name@, branches[pick as int].is_remote),
            ),
            _ => true,
        },
        BranchState::CreateAskBase => match reply {
            Reply::Confirmed(None) => next == BranchState::Done && fails_with(
                request,
                ErrorKind::NoSelection,
            ),
            Reply::Confirmed(Some(yes)) => if yes {
                next == BranchState::CreateListing && runs(request, seq![GitCommandView::Branches])
            } else {
                next == (BranchState::CreateName { start: None }) && asks_name(request)
            },
            _ => true,
        },
        BranchState::CreateListing => {
            &&& after_listing(
                reply,
                Topic::CommitBranch,
                match next {
                    BranchState::CreatePickBranch { branches } => Some(branches@),
                    _ => None,
                },
                request,
            )
            &&& next is CreatePickBranch || next == BranchState::Done
        },
        BranchState::CreatePickBranch { branches } => match reply {
            Reply::Chose(None) => next == BranchState::Done && fails_with(
                request,
                ErrorKind::NoSelection,
            ),
            Reply::Chose(Some(pick)) => next == BranchState::CreateLog && runs(
                request,
                log_plan(branches[pick as int].name@, branches[pick as int].is_remote),
            ),
            _ => true,
        },
        BranchState::CreateLog => match reply {
            Reply::Ran(Err(e)) => next == BranchState::Done && fails_with(request, e),
            Reply::Ran(Ok(None)) => next == BranchState::Done && ends_with(request, Notice::Empty),
            Reply::Ran(Ok(Some(text))) => {
                &&& next matches BranchState::CreatePickCommit { commits }
                &&& views(commits@) == lines_of(text@)
                &&& asks_one(request, Topic::BaseCommit, lines_of(text@), true)
            },
            _ => true,
        },
        BranchState::CreatePickCommit { commits } => match reply {
            Reply::Chose(selected) => match single_outcome(
                commits.len() as int,
                false,
                true,
                selected,
            ) {
                Err(e) => next == BranchState::Done && fails_with(request, e),
                Ok(UserResponse::Nothing) => next == BranchState::Done && ends_with(
                    request,
                    Notice::NoneSelected,
                ),
                Ok(UserResponse::Picked(i)) => {
                    &&& next matches BranchState::CreateName { start: Some(hash) }
                    &&& hash@ == short_hash(commits[i]@)
                    &&& asks_name(request)
                },
                Ok(UserResponse::All) => false,
            },
            _ => true,
        },
        BranchState::CreateName { start } => match reply {
            Reply::Typed(None) => next == BranchState::Done && fails_with(
                request,
                ErrorKind::NoSelection,
            ),
            Reply::Typed(Some(name)) => next == BranchState::Running && runs(
                request,
                seq![GitCommandView::CreateBranch { name: name@, start: optional_view(start) }],
            ),
            _ => true,
        },
        BranchState::Running => next == BranchState::Done && run_ended(reply, request),
        BranchState::Done => true,
    }
}

/// The question for the name of the new branch.
fn ask_name() -> (request: Request)
    ensures
        asks_name(request),
{
    Request::Input { topic: Topic::BranchName, initial: String::new() }
}

/// The names of `branches`.
fn branch_texts(branches: &Vec<BranchRef>) -> (names: Vec<String>)
    ensures
        views(names@) == names_of(branches@),
{
    let mut names: Vec<String> = Vec::new();
    let mut i: usize = 0;
    while i < branches.len()
        invariant
            i <= branches.len(),
            names.len() == i,
            forall|j: int| 0 <= j < i ==> names@[j]@ == branches@[j].name@,
        decreases branches.len() - i,
    {
        names.push(branches[i].name.clone());
        i += 1;
    }
    assert(views(names@) =~= names_of(branches@));
    names
}

/// Reads the reply to a request for the branch listing.
fn read_listing(reply: Reply, about: Topic) -> (r: (Option<Vec<BranchRef>>, Request))
    requires
        reply is Ran,
    ensures
        after_listing(
            reply,
            about,
            match r.0 {
                Some(branches) => Some(branches@),
                None => None,
            },
            r.1,
        ),
{
    match reply {
        Reply::Ran(Ok(Some(text))) => {
            let branches = parse_branch_listing(text.as_str());
            assert(names_of(branches@).len() == branches.len());
            if branches.len() == 0 {
                (None, Request::Finish(Err(FlowError::Kind(ErrorKind::NoBranches))))
            } else {
                let names = branch_texts(&branches);
                let request = ask_one(about, &names, false);
                (Some(branches), request)
            }
        },
        Reply::Ran(Err(e)) => (None, Request::Finish(Err(FlowError::Kind(e)))),
        _ => (None, Request::Finish(Err(FlowError::Kind(ErrorKind::NoBranches)))),
    }
}

/// The commands that end in `last`, with a fetch before it for a branch of a
/// remote.
fn plan(is_remote: bool, last: GitCommand) -> (request: Request)
    ensures
        runs(request, fetch_first(is_remote) + seq![last@]),
{
    let mut commands: Vec<GitCommand> = Vec::new();
    if is_remote {
        commands.push(GitCommand::Fetch);
    }
    commands.push(last);
    assert(crate::git::command_views(commands@) =~= fetch_first(is_remote) + seq![last@]);
    Request::Run(commands)
}

/// One step of switching to a branch or creating one.
pub fn git_branches_cli(state: BranchState, reply: Reply) -> (r: (BranchState, Request))
    requires
        state.awaits(reply),
    ensures
        branch_transition(state, reply, r.0, r.1),
{
    match state {
        BranchState::Start => {
            let mut texts: Vec<String> = Vec::new();
            texts.push("Switch HEAD".to_owned());
            texts.push("Create new branch".to_owned());
            assert(views(texts@) =~= actions());
            (BranchState::ChooseAction, ask_one(Topic::BranchAction, &texts, false))
        },
        BranchState::ChooseAction => match reply {
            Reply::Chose(Some(pick)) => {
                if pick == 0 {
                    (BranchState::SwitchListing, run_one(GitCommand::Branches))
                } else {
                    (
                        BranchState::CreateAskBase,
                        Request::Confirm { topic: Topic::BaseOnCommit, items: Vec::new() },
                    )
                }
            },
            _ => (BranchState::Done, aborted()),
        },
        BranchState::SwitchListing => {
            let (offered, request) = read_listing(reply, Topic::SwitchBranch);
            match offered {
                Some(branches) => (BranchState::SwitchPick { branches }, request),
                None => (BranchState::Done, request),
            }
        },
        BranchState::SwitchPick { branches } => match reply {
            Reply::Chose(Some(pick)) => {
                let name = branches[pick].name.clone();
                let mut targets: Vec<String> = Vec::new();
                targets.push(name);
                assert(views(targets@) =~= seq![branches@[pick as int].name@]);
                (
                    BranchState::Running,
                    plan(branches[pick].is_remote, GitCommand::Checkout { targets }),
                )
            },
            _ => (BranchState::Done, aborted()),
        },
        BranchState::CreateAskBase => match reply {
            Reply::Confirmed(Some(yes)) => {
                if yes {
                    (BranchState::CreateListing, run_one(GitCommand::Branches))
                } else {
                    (BranchState::CreateName { start: None }, ask_name())
                }
            },
            _ => (BranchState::Done, aborted()),
        },
        BranchState::CreateListing => {
            let (offered, request) = read_listing(reply, Topic::CommitBranch);
            match offered {
                Some(branches) => (BranchState::CreatePickBranch { branches }, request),
                None => (BranchState::Done, request),
            }
        },
        BranchState::CreatePickBranch { branches } => match reply {
            Reply::Chose(Some(pick)) => {
                let name = branches[pick].name.clone();
                (
                    BranchState::CreateLog,
                    plan(branches[pick].is_remote, GitCommand::Log { branch: Some(name) }),
                )
            },
            _ => (BranchState::Done, aborted()),
        },
        BranchState::CreateLog => match reply {
            Reply::Ran(Ok(Some(text))) => {
                let commits = split_lines(text.as_str());
                let request = ask_one(Topic::BaseCommit, &commits, true);
                (BranchState::CreatePickCommit { commits }, request)
            },
            Reply::Ran(Ok(None)) => (BranchState::Done, Request::Finish(Ok(Notice::Empty))),
            Reply::Ran(Err(e)) => (BranchState::Done, Request::Finish(Err(FlowError::Kind(e)))),
            _ => (BranchState::Done, aborted()),
        },
        BranchState::CreatePickCommit { commits } => match reply {
            Reply::Chose(selected) => match choice_single(&commits, false, true, selected) {
                Err(e) => (BranchState::Done, Request::Finish(Err(FlowError::Kind(e)))),
                Ok(UserResponse::Picked(i)) => {
                    let hash = leading_hash(commits[i].as_str());
                    (BranchState::CreateName { start: Some(hash) }, ask_name())
                },
                Ok(_) => (BranchState::Done, Request::Finish(Ok(Notice::NoneSelected))),
            },
            _ => (BranchState::Done, aborted()),
        },
        BranchState::CreateName { start } => match reply {
            Reply::Typed(Some(name)) => (
                BranchState::Running,
                run_one(GitCommand::CreateBranch { name, start }),
            ),
            _ => (BranchState::Done, aborted()),
        },
        BranchState::Running => (BranchState::Done, end_of_run(reply)),
        BranchState::Done => (BranchState::Done, aborted()),
    }
}

/// Switching to a branch of a remote runs exactly one fetch, and runs it
/// before the checkout; switching to any other branch runs the checkout
/// alone. Either way the checkout names the one branch picked and nothing
/// else.
pub proof fn lemma_switch_fetches_remote_first(name: Seq<char>, is_remote: bool)
    ensures
        switch_plan(name, is_remote).last() == (GitCommandView::Checkout { targets: seq![name] }),
        forall|j: int|
            0 <= j < switch_plan(name, is_remote).len() ==> (switch_plan(name, is_remote)[j]
                is Fetch <==> is_remote && j == 0),
        is_remote ==> switch_plan(name, is_remote).len() == 2,
        !is_remote ==> switch_plan(name, is_remote).len() == 1,
{
}

/// Picking a branch to switch to, in any step of the flow: the request that
/// comes back runs a fetch first if the name of the branch begins with
/// `remotes/`, and no fetch at all if it does not; the checkout comes last.
pub proof fn lemma_switch_step_fetches_remote_first(
    branches: Vec<BranchRef>,
    pick: usize,
    next: BranchState,
    request: Request,
)
    requires
        pick < branches.len(),
        branches@[pick as int].wf(),
        branch_transition(
            BranchState::SwitchPick { branches },
            Reply::Chose(Some(pick)),
            next,
            request,
        ),
    ensures
        request matches Request::Run(commands) && ({
            let plan = crate::git::command_views(commands@);
            let name = branches@[pick as int].name@;
            &&& plan.last() == (GitCommandView::Checkout { targets: seq![name] })
            &&& forall|j: int|
                0 <= j < plan.len() ==> (plan[j] is Fetch <==> is_remote_name(name) && j == 0)
            &&& plan.len() == if is_remote_name(name) {
                2int
            } else {
                1int
            }
        }),
{
    lemma_switch_fetches_remote_first(
        branches@[pick as int].name@,
        branches@[pick as int].is_remote,
    );
}

/// The flow keeps to its own rules. It ends exactly when it says so, and
/// whatever answers its request is a reply that its next state awaits.
pub proof fn lemma_branch_protocol(
    state: BranchState,
    reply: Reply,
    next: BranchState,
    request: Request,
    answer: Reply,
)
    requires
        state.awaits(reply),
        branch_transition(state, reply, next, request),
    ensures
        request is Finish <==> next == BranchState::Done,
        answers(request, answer) ==> next.awaits(answer),
{
}

} // verus!

//! Reverting a commit: the log is shown, and the commit picked is handed
//! to `git revert` by its abbreviated hash.

use crate::cli::{choice_single, single_outcome, UserResponse};
use crate::git::{GitCommand, GitCommandView};
use crate::menus::{
    aborted, answers, ask_one, asks_one, end_of_run, ends_with, fails_with, leading_hash, run_ended,
    run_one, runs, short_hash, FlowError, Notice, Reply, Request, Topic,
};
use crate::text::{lines_of, split_lines, views};
use vstd::prelude::*;
use vstd::string::*;

verus! {

/// Where the flow stands.
#[derive(Clone, Debug, PartialEq, Eq)]
pub enum UndoState {
    /// Nothing was asked yet.
    Start,
    /// The log was asked for.
    Log,
    /// The menu over the log lines `commits` is shown.
    Pick { commits: Vec<String> },
    /// `git revert` was asked for.
    Running,
    /// The flow is over.
    Done,
}

impl UndoState {
    /// `reply` answers the request that led to this state.
    pub open spec fn awaits(self, reply: Reply) -> bool {
        match self {
            UndoState::Start => reply is Begin,
            UndoState::Log => reply is Ran,
            UndoState::Pick { commits } => reply matches Reply::Chose(selected) && (
            selected matches Some(pick) ==> pick <= commits.len()),
            UndoState::Running => reply is Ran,
            UndoState::Done => false,
        }
    }

    /// Whether `reply` answers the request that led to this state.
    pub fn expects(&self, reply: &Reply) -> (r: bool)
        ensures
            r == self.awaits(*reply),
    {
        match self {
            UndoState::Start => matches!(reply, Reply::Begin),
            UndoState::Log => matches!(reply, Reply::Ran(_)),
            UndoState::Pick { commits } => match reply {
                Reply::Chose(None) => true,
                Reply::Chose(Some(pick)) => *pick <= commits.len(),
                _ => false,
            },
            UndoState::Running => matches!(reply, Reply::Ran(_)),
            UndoState::Done => false,
        }
    }
}

/// One step of the flow: from `state`, on `reply`, to `next` with `request`.
pub open spec fn undo_transition(
    state: UndoState,
    reply: Reply,
    next: UndoState,
    request: Request,
) -> bool {
    match state {
        UndoState::Start => next == UndoState::Log && runs(
            request,
            seq![GitCommandView::Log { branch: None }],
        ),
        UndoState::Log => match reply {
            Reply::Ran(Err(e)) => next == UndoState::Done && fails_with(request, e),
            Reply::Ran(Ok(None)) => next == UndoState::Done && ends_with(request, Notice::Empty),
            Reply::Ran(Ok(Some(text))) => {
                &&& next matches UndoState::Pick { commits }
                &&& views(commits@) == lines_of(text@)
                &&& asks_one(request, Topic::RevertCommit, lines_of(text@), true)
            },
            _ => true,
        },
        UndoState::Pick { commits } => match reply {
            Reply::Chose(selected) => match single_outcome(
                commits.len() as int,
                false,
                true,
                selected,
            ) {
                Err(e) => next == UndoState::Done && fails_with(request, e),
                Ok(UserResponse::Nothing) => next == UndoState::Done && ends_with(
                    request,
                    Notice::NoneSelected,
                ),
                Ok(UserResponse::Picked(i)) => next == UndoState::Running && runs(
                    request,
                    seq![GitCommandView::Revert { hash: short_hash(commits[i]@) }],
                ),
                Ok(UserResponse::All) => false,
            },
            _ => true,
        },
        UndoState::Running => next == UndoState::Done && run_ended(reply, request),
        UndoState::Done => true,
    }
}

/// One step of reverting a commit.
pub fn git_undo_commit_cli(state: UndoState, reply: Reply) -> (r: (UndoState, Request))
    requires
        state.awaits(reply),
    ensures
        undo_transition(state, reply, r.0, r.1),
{
    match state {
        UndoState::Start => (UndoState::Log, run_one(GitCommand::Log { branch: None })),
        UndoState::Log => match reply {
            Reply::Ran(Ok(Some(text))) => {
                let commits = split_lines(text.as_str());
                let request = ask_one(Topic::RevertCommit, &commits, true);
                (UndoState::Pick { commits }, request)
            },
            Reply::Ran(Ok(None)) => (UndoState::Done, Request::Finish(Ok(Notice::Empty))),
            Reply::Ran(Err(e)) => (UndoState::Done, Request::Finish(Err(FlowError::Kind(e)))),
            _ => (UndoState::Done, aborted()),
        },
        UndoState::Pick { commits } => match reply {
            Reply::Chose(selected) => match choice_single(&commits, false, true, selected) {
                Err(e) => (UndoState::Done, Request::Finish(Err(FlowError::Kind(e)))),
                Ok(UserResponse::Picked(i)) => {
                    let hash = leading_hash(commits[i].as_str());
                    (UndoState::Running, run_one(GitCommand::Revert { hash }))
                },
                Ok(_) => (UndoState::Done, Request::Finish(Ok(Notice::NoneSelected))),
            },
            _ => (UndoState::Done, aborted()),
        },
        UndoState::Running => (UndoState::Done, end_of_run(reply)),
        UndoState::Done => (UndoState::Done, aborted()),
    }
}

/// The flow keeps to its own rules. It ends exactly when it says so, and
/// whatever answers its request is a reply that its next state awaits.
pub proof fn lemma_undo_protocol(
    state: UndoState,
    reply: Reply,
    next: UndoState,
    request: Request,
    answer: Reply,
)
    requires
        state.awaits(reply),
        undo_transition(state, reply, next, request),
    ensures
        request is Finish <==> next == UndoState::Done,
        answers(request, answer) ==> next.awaits(answer),
{
}

} // verus!

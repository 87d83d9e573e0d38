//! Taking files out of tracking: the tracked files are offered, and what
//! was picked is handed to `git rm`, which leaves the files on disk unless
//! the operator asked to delete them.

use crate::cli::{
    ask_yes_no, means_yes, multi_outcome, pick_texts, picks_view, resolve_indices, texts_at,
    valid_picks, ErrorKind, UserResponse,
};
use crate::git::{GitCommand, GitCommandView};
use crate::menus::{
    aborted, answers, ask_many, asks_many, end_of_run, ends_with, fails_with, picks_fit,
    run_ended, run_one, runs, FlowError, Notice, Reply, Request, Style, Topic,
};
use crate::text::{lines_of, split_lines, views};
use vstd::prelude::*;
use vstd::string::*;

verus! {

/// Where the flow stands.
#[derive(Clone, Debug, PartialEq, Eq)]
pub enum RemoveState {
    /// Nothing was asked yet.
    Start,
    /// The listing of tracked files was asked for.
    Tree,
    /// The operator is asked whether to delete the files from disk.
    AskDelete { files: Vec<String> },
    /// The menu over `files` is shown; the files stay on disk if `cached`.
    Pick { files: Vec<String>, cached: bool },
    /// `git rm` was asked for.
    Running,
    /// The flow is over.
    Done,
}

impl RemoveState {
    /// `reply` answers the request that led to this state.
    pub open spec fn awaits(self, reply: Reply) -> bool {
        match self {
            RemoveState::Start => reply is Begin,
            RemoveState::Tree => reply is Ran,
            RemoveState::AskDelete { files } => reply is Typed,
            RemoveState::Pick { files, cached } => reply matches Reply::ChoseMany(selected) && (
            selected matches Some(picks) ==> valid_picks(files.len() as int, false, true, picks@)),
            RemoveState::Running => reply is Ran,
            RemoveState::Done => false,
        }
    }

    /// Whether `reply` answers the request that led to this state.
    pub fn expects(&self, reply: &Reply) -> (r: bool)
        ensures
            r == self.awaits(*reply),
    {
        match self {
            RemoveState::Start => matches!(reply, Reply::Begin),
            RemoveState::Tree => matches!(reply, Reply::Ran(_)),
            RemoveState::AskDelete { files } => matches!(reply, Reply::Typed(_)),
            RemoveState::Pick { files, cached } => match reply {
                Reply::ChoseMany(None) => true,
                Reply::ChoseMany(Some(picks)) => picks_fit(picks, files.len(), false, true),
                _ => false,
            },
            RemoveState::Running => matches!(reply, Reply::Ran(_)),
            RemoveState::Done => false,
        }
    }
}

/// One step of the flow: from `state`, on `reply`, to `next` with `request`.
pub open spec fn remove_transition(
    state: RemoveState,
    reply: Reply,
    next: RemoveState,
    request: Request,
) -> bool {
    match state {
        RemoveState::Start => next == RemoveState::Tree && runs(
            request,
            seq![GitCommandView::LsTree],
        ),
        RemoveState::Tree => match reply {
            Reply::Ran(Err(e)) => next == RemoveState::Done && fails_with(request, e),
            Reply::Ran(Ok(None)) => next == RemoveState::Done && ends_with(request, Notice::Empty),
            Reply::Ran(Ok(Some(text))) => {
                &&& next matches RemoveState::AskDelete { files }
                &&& views(files@) == lines_of(text@)
                &&& request == (Request::YesNo { topic: Topic::DeleteFromDisk, default_yes: false })
            },
            _ => true,
        },
        RemoveState::AskDelete { files } => match reply {
            Reply::Typed(None) => next == RemoveState::Done && fails_with(
                request,
                ErrorKind::NoSelection,
            ),
            Reply::Typed(Some(answer)) => {
                &&& next matches RemoveState::Pick { files: kept, cached }
                &&& views(kept@) == views(files@)
                &&& cached == !means_yes(answer@, false)
                &&& asks_many(request, Topic::RemoveFiles, views(files@), Style::Yellow)
            },
            _ => true,
        },
        RemoveState::Pick { files, cached } => match reply {
            Reply::ChoseMany(selected) => match multi_outcome(
                files.len() as int,
                false,
                true,
                picks_view(selected),
            ) {
                Err(e) => next == RemoveState::Done && fails_with(request, e),
                Ok(UserResponse::Nothing) => next == RemoveState::Done && ends_with(
                    request,
                    Notice::NoneSelected,
                ),
                Ok(UserResponse::Picked(indices)) => next == RemoveState::Running && runs(
                    request,
                    seq![
                        GitCommandView::Rm {
                            paths: texts_at(views(files@), indices),
                            cached,
                        },
                    ],
                ),
                Ok(UserResponse::All) => false,
            },
            _ => true,
        },
        RemoveState::Running => next == RemoveState::Done && run_ended(reply, request),
        RemoveState::Done => true,
    }
}

/// One step of taking files out of tracking.
pub fn git_remove_cli(state: RemoveState, reply: Reply) -> (r: (RemoveState, Request))
    requires
        state.awaits(reply),
    ensures
        remove_transition(state, reply, r.0, r.1),
{
    match state {
        RemoveState::Start => (RemoveState::Tree, run_one(GitCommand::LsTree)),
        RemoveState::Tree => match reply {
            Reply::Ran(Ok(Some(text))) => {
                let files = split_lines(text.as_str());
                (
                    RemoveState::AskDelete { files },
                    Request::YesNo { topic: Topic::DeleteFromDisk, default_yes: false },
                )
            },
            Reply::Ran(Ok(None)) => (RemoveState::Done, Request::Finish(Ok(Notice::Empty))),
            Reply::Ran(Err(e)) => (RemoveState::Done, Request::Finish(Err(FlowError::Kind(e)))),
            _ => (RemoveState::Done, aborted()),
        },
        RemoveState::AskDelete { files } => match reply {
            Reply::Typed(Some(answer)) => {
                let delete = match ask_yes_no(answer.as_str(), false) {
                    Ok(yes) => yes,
                    Err(_) => false,
                };
                let request = ask_many(Topic::RemoveFiles, &files, Style::Yellow);
                (RemoveState::Pick { files, cached: !delete }, request)
            },
            _ => (RemoveState::Done, aborted()),
        },
        RemoveState::Pick { files, cached } => match reply {
            Reply::ChoseMany(selected) => match resolve_indices(
                files.len(),
                false,
                true,
                selected,
            ) {
                Err(e) => (RemoveState::Done, Request::Finish(Err(FlowError::Kind(e)))),
                Ok(response) => match pick_texts(&files, &response) {
                    UserResponse::Picked(paths) => (
                        RemoveState::Running,
                        run_one(GitCommand::Rm { paths, cached }),
                    ),
                    _ => (RemoveState::Done, Request::Finish(Ok(Notice::NoneSelected))),
                },
            },
            _ => (RemoveState::Done, aborted()),
        },
        RemoveState::Running => (RemoveState::Done, end_of_run(reply)),
        RemoveState::Done => (RemoveState::Done, aborted()),
    }
}

/// The flow keeps to its own rules. It ends exactly when it says so, and
/// whatever answers its request is a reply that its next state awaits.
pub proof fn lemma_remove_protocol(
    state: RemoveState,
    reply: Reply,
    next: RemoveState,
    request: Request,
    answer: Reply,
)
    requires
        state.awaits(reply),
        remove_transition(state, reply, next, request),
    ensures
        request is Finish <==> next == RemoveState::Done,
        answers(request, answer) ==> next.awaits(answer),
{
}

} // verus!

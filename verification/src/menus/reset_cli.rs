//! Unstaging files: the files with something staged are offered, and what
//! was picked is handed to `git reset`.

use crate::cli::{
    multi_outcome, pick_texts, picks_view, resolve_indices, texts_at, valid_picks, UserResponse,
};
use crate::git::{GitCommand, GitCommandView};
use crate::menus::{
    aborted, answers, ask_many, asks_many, end_of_run, ends_with, fails_with, picks_fit,
    run_ended, run_one, runs, FlowError, Notice, Reply, Request, Style, Topic,
};
use crate::status::{staged_of, staged_paths};
use crate::text::{lines_of, views};
use vstd::prelude::*;
use vstd::string::*;

verus! {

/// Where the flow stands.
#[derive(Clone, Debug, PartialEq, Eq)]
pub enum ResetState {
    /// Nothing was asked yet.
    Start,
    /// The status listing was asked for.
    Status,
    /// The menu over `paths` is shown.
    Pick { paths: Vec<String> },
    /// `git reset` was asked for.
    Running,
    /// The flow is over.
    Done,
}

impl ResetState {
    /// `reply` answers the request that led to this state.
    pub open spec fn awaits(self, reply: Reply) -> bool {
        match self {
            ResetState::Start => reply is Begin,
            ResetState::Status => reply is Ran,
            ResetState::Pick { paths } => reply matches Reply::ChoseMany(selected) && (
            selected matches Some(picks) ==> valid_picks(paths.len() as int, false, true, picks@)),
            ResetState::Running => reply is Ran,
            ResetState::Done => false,
        }
    }

    /// Whether `reply` answers the request that led to this state.
    pub fn expects(&self, reply: &Reply) -> (r: bool)
        ensures
            r == self.awaits(*reply),
    {
        match self {
            ResetState::Start => matches!(reply, Reply::Begin),
            ResetState::Status => matches!(reply, Reply::Ran(_)),
            ResetState::Pick { paths } => match reply {
                Reply::ChoseMany(None) => true,
                Reply::ChoseMany(Some(picks)) => picks_fit(picks, paths.len(), false, true),
                _ => false,
            },
            ResetState::Running => matches!(reply, Reply::Ran(_)),
            ResetState::Done => false,
        }
    }
}

/// One step of the flow: from `state`, on `reply`, to `next` with `request`.
pub open spec fn reset_transition(
    state: ResetState,
    reply: Reply,
    next: ResetState,
    request: Request,
) -> bool {
    match state {
        ResetState::Start => next == ResetState::Status && runs(
            request,
            seq![GitCommandView::StatusShort],
        ),
        ResetState::Status => match reply {
            Reply::Ran(Err(e)) => next == ResetState::Done && fails_with(request, e),
            Reply::Ran(Ok(None)) => next == ResetState::Done && ends_with(request, Notice::Empty),
            Reply::Ran(Ok(Some(text))) => {
                let staged = staged_of(lines_of(text@));
                if staged.len() == 0 {
                    next == ResetState::Done && ends_with(request, Notice::Empty)
                } else {
                    &&& next matches ResetState::Pick { paths }
                    &&& views(paths@) == staged
                    &&& asks_many(request, Topic::ResetFiles, staged, Style::Yellow)
                }
            },
            _ => true,
        },
        ResetState::Pick { paths } => match reply {
            Reply::ChoseMany(selected) => match multi_outcome(
                paths.len() as int,
                false,
                true,
                picks_view(selected),
            ) {
                Err(e) => next == ResetState::Done && fails_with(request, e),
                Ok(UserResponse::Nothing) => next == ResetState::Done && ends_with(
                    request,
                    Notice::NoneSelected,
                ),
                Ok(UserResponse::Picked(indices)) => next == ResetState::Running && runs(
                    request,
                    seq![GitCommandView::Reset { paths: texts_at(views(paths@), indices) }],
                ),
                Ok(UserResponse::All) => false,
            },
            _ => true,
        },
        ResetState::Running => next == ResetState::Done && run_ended(reply, request),
        ResetState::Done => true,
    }
}

/// One step of unstaging files.
pub fn git_reset_cli(state: ResetState, reply: Reply) -> (r: (ResetState, Request))
    requires
        state.awaits(reply),
    ensures
        reset_transition(state, reply, r.0, r.1),
{
    match state {
        ResetState::Start => (ResetState::Status, run_one(GitCommand::StatusShort)),
        ResetState::Status => match reply {
            Reply::Ran(Ok(Some(text))) => {
                let paths = staged_paths(text.as_str());
                assert(views(paths@).len() == paths.len());
                if paths.len() == 0 {
                    (ResetState::Done, Request::Finish(Ok(Notice::Empty)))
                } else {
                    let request = ask_many(Topic::ResetFiles, &paths, Style::Yellow);
                    (ResetState::Pick { paths }, request)
                }
            },
            Reply::Ran(Ok(None)) => (ResetState::Done, Request::Finish(Ok(Notice::Empty))),
            Reply::Ran(Err(e)) => (ResetState::Done, Request::Finish(Err(FlowError::Kind(e)))),
            _ => (ResetState::Done, aborted()),
        },
        ResetState::Pick { paths } => match reply {
            Reply::ChoseMany(selected) => match resolve_indices(
                paths.len(),
                false,
                true,
                selected,
            ) {
                Err(e) => (ResetState::Done, Request::Finish(Err(FlowError::Kind(e)))),
                Ok(response) => match pick_texts(&paths, &response) {
                    UserResponse::Picked(targets) => (
                        ResetState::Running,
                        run_one(GitCommand::Reset { paths: targets }),
                    ),
                    _ => (ResetState::Done, Request::Finish(Ok(Notice::NoneSelected))),
                },
            },
            _ => (ResetState::Done, aborted()),
        },
        ResetState::Running => (ResetState::Done, end_of_run(reply)),
        ResetState::Done => (ResetState::Done, aborted()),
    }
}

/// The flow keeps to its own rules. It ends exactly when it says so, and
/// whatever answers its request is a reply that its next state awaits.
pub proof fn lemma_reset_protocol(
    state: ResetState,
    reply: Reply,
    next: ResetState,
    request: Request,
    answer: Reply,
)
    requires
        state.awaits(reply),
        reset_transition(state, reply, next, request),
    ensures
        request is Finish <==> next == ResetState::Done,
        answers(request, answer) ==> next.awaits(answer),
{
}

} // verus!

//! Staging files: the status listing is read, the files that have something
//! to stage are offered, and what was picked is handed to `git add`.

use crate::cli::{
    multi_outcome, picks_view, resolve_indices, valid_picks, within, UserResponse,
};
use crate::git::{GitCommand, GitCommandView};
use crate::menus::{
    answers, end_of_run, ends_with, fails_with, run_ended, run_one, runs, Choice, FlowError,
    Notice, Reply, Request, Style, Topic,
};
use crate::settings::Config;
use crate::status::{
    all_accepted, carried, entries_of, first_rejected, is_staged_code, lemma_listing_round_trip,
    parse_status, record_views, staged_of, status_listing, ChangeCategory, FileChangeRecord,
    ParseError, RecordView,
};
use crate::text::{lines_of, views};
use vstd::prelude::*;
use vstd::string::*;

verus! {

/// Where the flow stands.
#[derive(Clone, Debug, PartialEq, Eq)]
pub enum AddState {
    /// Nothing was asked yet.
    Start,
    /// The status listing was asked for.
    Status,
    /// The menu over `records` is shown, with the entry "All" if `has_all`.
    Pick { records: Vec<FileChangeRecord>, has_all: bool },
    /// `git add` was asked for.
    Running,
    /// The flow is over.
    Done,
}

/// The style in which a file of a category is shown.
pub open spec fn category_style(category: ChangeCategory) -> Style {
    match category {
        ChangeCategory::Untracked => Style::BrightGreen,
        ChangeCategory::AddedStaged => Style::Green,
        ChangeCategory::ModifiedUnstaged => Style::Yellow,
        ChangeCategory::ModifiedStaged => Style::Yellow,
        ChangeCategory::DeletedOrRenamed => Style::BrightYellow,
        ChangeCategory::ConflictedOrUnknown => Style::BrightRed,
    }
}

/// `choices` show the paths of `records` in order, each in the style of its
/// category.
pub open spec fn offers(choices: Seq<Choice>, records: Seq<FileChangeRecord>) -> bool {
    &&& choices.len() == records.len()
    &&& forall|i: int|
        0 <= i < choices.len() ==> (#[trigger] choices[i]).text@ == records[i].path@
            && choices[i].style == category_style(records[i].category)
}

/// The paths of all `records`, in order.
pub open spec fn paths_of(records: Seq<RecordView>) -> Seq<Seq<char>> {
    Seq::new(records.len(), |i: int| records[i].path)
}

/// The paths that an answer to the menu over `records` asks to stage: the
/// paths of the records picked, exactly as the status listing gave them.
pub open spec fn add_targets(records: Seq<RecordView>, response: UserResponse<Seq<int>>) -> Seq<
    Seq<char>,
> {
    match response {
        UserResponse::All => paths_of(records),
        UserResponse::Picked(indices) => Seq::new(indices.len(), |k: int| records[indices[k]].path),
        UserResponse::Nothing => Seq::empty(),
    }
}

impl AddState {
    /// `reply` answers the request that led to this state.
    pub open spec fn awaits(self, reply: Reply) -> bool {
        match self {
            AddState::Start => reply is Begin,
            AddState::Status => reply is Ran,
            AddState::Pick { records, has_all } => reply matches Reply::ChoseMany(selected) && (
            selected matches Some(picks) ==> valid_picks(
                records.len() as int,
                has_all,
                true,
                picks@,
            )),
            AddState::Running => reply is Ran,
            AddState::Done => false,
        }
    }

    /// Whether `reply` answers the request that led to this state.
    pub fn expects(&self, reply: &Reply) -> (r: bool)
        ensures
            r == self.awaits(*reply),
    {
        match self {
            AddState::Start => matches!(reply, Reply::Begin),
            AddState::Status => matches!(reply, Reply::Ran(_)),
            AddState::Pick { records, has_all } => match reply {
                Reply::ChoseMany(None) => true,
                Reply::ChoseMany(Some(picks)) => crate::menus::picks_fit(
                    picks,
                    records.len(),
                    *has_all,
                    true,
                ),
                _ => false,
            },
            AddState::Running => matches!(reply, Reply::Ran(_)),
            AddState::Done => false,
        }
    }
}

/// One step of the flow: from `state`, on `reply`, to `next` with `request`.
pub open spec fn add_transition(
    state: AddState,
    reply: Reply,
    config: Config,
    next: AddState,
    request: Request,
) -> bool {
    match state {
        AddState::Start => next == AddState::Status && runs(
            request,
            seq![GitCommandView::StatusShort],
        ),
        AddState::Status => match reply {
            Reply::Ran(Err(e)) => next == AddState::Done && fails_with(request, e),
            Reply::Ran(Ok(None)) => next == AddState::Done && ends_with(request, Notice::Empty),
            Reply::Ran(Ok(Some(text))) => {
                let lines = lines_of(text@);
                if !all_accepted(lines) {
                    &&& next == AddState::Done
                    &&& request matches Request::Finish(
                        Err(FlowError::Parse(ParseError::UnrecognizedStatusCode { line })),
                    )
                    &&& exists|k: int| first_rejected(lines, k) && line@ == lines[k]
                } else if entries_of(lines).len() == 0 {
                    next == AddState::Done && ends_with(request, Notice::Empty)
                } else {
                    &&& next matches AddState::Pick { records, has_all }
                    &&& record_views(records@) == entries_of(lines)
                    &&& has_all == config.show_all_in_add_menu
                    &&& request matches Request::SelectMany {
                        topic,
                        choices,
                        has_all: shows_all,
                        has_none,
                    }
                    &&& topic == Topic::AddFiles
                    &&& offers(choices@, records@)
                    &&& shows_all == has_all
                    &&& has_none
                }
            },
            _ => true,
        },
        AddState::Pick { records, has_all } => match reply {
            Reply::ChoseMany(selected) => match multi_outcome(
                records.len() as int,
                has_all,
                true,
                picks_view(selected),
            ) {
                Err(e) => next == AddState::Done && fails_with(request, e),
                Ok(response) => {
                    let targets = add_targets(record_views(records@), response);
                    if targets.len() == 0 {
                        next == AddState::Done && ends_with(request, Notice::NoneSelected)
                    } else {
                        next == AddState::Running && runs(
                            request,
                            seq![GitCommandView::Add { paths: targets }],
                        )
                    }
                },
            },
            _ => true,
        },
        AddState::Running => next == AddState::Done && run_ended(reply, request),
        AddState::Done => true,
    }
}

/// The style in which a file of a category is shown.
pub fn style_of(category: ChangeCategory) -> (style: Style)
    ensures
        style == category_style(category),
{
    match category {
        ChangeCategory::Untracked => Style::BrightGreen,
        ChangeCategory::AddedStaged => Style::Green,
        ChangeCategory::ModifiedUnstaged => Style::Yellow,
        ChangeCategory::ModifiedStaged => Style::Yellow,
        ChangeCategory::DeletedOrRenamed => Style::BrightYellow,
        ChangeCategory::ConflictedOrUnknown => Style::BrightRed,
    }
}

/// The menu entries for `records`.
pub fn record_choices(records: &Vec<FileChangeRecord>) -> (choices: Vec<Choice>)
    ensures
        offers(choices@, records@),
{
    let mut choices: Vec<Choice> = Vec::new();
    let mut i: usize = 0;
    while i < records.len()
        invariant
            i <= records.len(),
            choices.len() == i,
            forall|j: int|
                0 <= j < i ==> (#[trigger] choices@[j]).text@ == records@[j].path@
                    && choices@[j].style == category_style(records@[j].category),
        decreases records.len() - i,
    {
        choices.push(
            Choice { text: records[i].path.clone(), style: style_of(records[i].category) },
        );
        i += 1;
    }
    choices
}

/// The paths to stage for an answer to the menu over `records`.
pub fn targets_of(records: &Vec<FileChangeRecord>, response: &UserResponse<Vec<usize>>) -> (paths:
    Vec<String>)
    requires
        within(response@, records.len() as int),
    ensures
        views(paths@) == add_targets(record_views(records@), response@),
{
    let mut paths: Vec<String> = Vec::new();
    match response {
        UserResponse::All => {
            let mut i: usize = 0;
            while i < records.len()
                invariant
                    i <= records.len(),
                    paths.len() == i,
                    forall|j: int| 0 <= j < i ==> paths@[j]@ == records@[j].path@,
                decreases records.len() - i,
            {
                paths.push(records[i].path.clone());
                i += 1;
            }
            assert(views(paths@) =~= paths_of(record_views(records@)));
        },
        UserResponse::Picked(indices) => {
            let mut k: usize = 0;
            while k < indices.len()
                invariant
                    k <= indices.len(),
                    paths.len() == k,
                    within(response@, records.len() as int),
                    response@ == UserResponse::Picked(
                        Seq::new(indices.len() as nat, |j: int| indices[j] as int),
                    ),
                    forall|j: int| 0 <= j < k ==> paths@[j]@ == records@[indices@[j] as int].path@,
                decreases indices.len() - k,
            {
                assert(response@->Picked_0[k as int] == indices@[k as int]);
                paths.push(records[indices[k]].path.clone());
                k += 1;
            }
            assert(views(paths@) =~= add_targets(record_views(records@), response@));
        },
        UserResponse::Nothing => {
            assert(views(paths@) =~= Seq::<Seq<char>>::empty());
        },
    }
    paths
}

/// One step of staging files.
pub fn git_add_cli(state: AddState, reply: Reply, config: &Config) -> (r: (AddState, Request))
    requires
        state.awaits(reply),
    ensures
        add_transition(state, reply, *config, r.0, r.1),
{
    match state {
        AddState::Start => (AddState::Status, run_one(GitCommand::StatusShort)),
        AddState::Status => match reply {
            Reply::Ran(Ok(Some(text))) => match parse_status(text.as_str()) {
                Err(e) => (AddState::Done, Request::Finish(Err(FlowError::Parse(e)))),
                Ok(records) => {
                    assert(record_views(records@).len() == records.len());
                    if records.len() == 0 {
                        (AddState::Done, Request::Finish(Ok(Notice::Empty)))
                    } else {
                        let has_all = config.show_all_in_add_menu;
                        let choices = record_choices(&records);
                        (
                            AddState::Pick { records, has_all },
                            Request::SelectMany {
                                topic: Topic::AddFiles,
                                choices,
                                has_all,
                                has_none: true,
                            },
                        )
                    }
                },
            },
            Reply::Ran(Ok(None)) => (AddState::Done, Request::Finish(Ok(Notice::Empty))),
            Reply::Ran(Err(e)) => (AddState::Done, Request::Finish(Err(FlowError::Kind(e)))),
            _ => (AddState::Done, Request::Finish(Ok(Notice::Empty))),
        },
        AddState::Pick { records, has_all } => match reply {
            Reply::ChoseMany(selected) => match resolve_indices(
                records.len(),
                has_all,
                true,
                selected,
            ) {
                Err(e) => (AddState::Done, Request::Finish(Err(FlowError::Kind(e)))),
                Ok(response) => {
                    let paths = targets_of(&records, &response);
                    assert(views(paths@).len() == paths.len());
                    if paths.len() == 0 {
                        (AddState::Done, Request::Finish(Ok(Notice::NoneSelected)))
                    } else {
                        (AddState::Running, run_one(GitCommand::Add { paths }))
                    }
                },
            },
            _ => (AddState::Done, Request::Finish(Ok(Notice::Empty))),
        },
        AddState::Running => (AddState::Done, end_of_run(reply)),
        AddState::Done => (AddState::Done, Request::Finish(Ok(Notice::Empty))),
    }
}

/// What is staged is what the status listing named: every path that goes
/// to `git add` is the path of one of the records read, character for
/// character.
pub proof fn lemma_targets_are_record_paths(
    records: Seq<RecordView>,
    response: UserResponse<Seq<int>>,
    k: int,
)
    requires
        within(response, records.len() as int),
        0 <= k < add_targets(records, response).len(),
    ensures
        exists|j: int|
            0 <= j < records.len() && add_targets(records, response)[k] == records[j].path,
{
    match response {
        UserResponse::All => {
            assert(add_targets(records, response)[k] == records[k].path);
        },
        UserResponse::Picked(indices) => {
            let j = indices[k];
            assert(0 <= j < records.len());
            assert(add_targets(records, response)[k] == records[j].path);
        },
        UserResponse::Nothing => {},
    }
}

/// What was staged comes back unchanged in the next status listing: if
/// git writes the paths that went to `git add` out again, under any code
/// that reports something staged, reading that listing gives these very
/// paths, in the same order, character for character.
///
/// This holds where each path is one that a status line can carry as it is.
pub proof fn lemma_staged_paths_come_back(
    records: Seq<RecordView>,
    response: UserResponse<Seq<int>>,
    first: char,
    second: char,
)
    requires
        is_staged_code(first),
        second != '\n',
        forall|k: int|
            0 <= k < add_targets(records, response).len() ==> carried(
                #[trigger] add_targets(records, response)[k],
            ),
    ensures
        staged_of(lines_of(status_listing(first, second, add_targets(records, response))))
            == add_targets(records, response),
{
    lemma_listing_round_trip(first, second, add_targets(records, response));
}

/// The flow keeps to its own rules. It ends exactly when it says so, and
/// whatever answers its request is a reply that its next state awaits: a
/// driver that answers each request in kind never steps wrongly.
pub proof fn lemma_add_protocol(
    state: AddState,
    reply: Reply,
    config: Config,
    next: AddState,
    request: Request,
    answer: Reply,
)
    requires
        state.awaits(reply),
        add_transition(state, reply, config, next, request),
    ensures
        request is Finish <==> next == AddState::Done,
        answers(request, answer) ==> next.awaits(answer),
{
    if let AddState::Status = state {
        if let Reply::Ran(Ok(Some(text))) = reply {
            let lines = lines_of(text@);
            if all_accepted(lines) && entries_of(lines).len() > 0 {
                let records = next->Pick_records;
                assert(record_views(records@).len() == records.len());
            }
        }
    }
}

} // verus!

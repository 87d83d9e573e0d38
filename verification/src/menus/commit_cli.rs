//! Committing: the staged files are confirmed, the subject is put together
//! from the commit convention and the operator's answers, and subject and
//! description go to `git commit` as two message segments.

use crate::cli::{choice_single, single_outcome, ErrorKind, UserResponse};
use crate::git::{optional_view, GitCommand, GitCommandView};
use crate::menus::add_cli::{add_transition, git_add_cli, lemma_add_protocol, AddState};
use crate::menus::{
    aborted, answers, end_of_run, ends_with, fails_with, run_ended, run_one, runs, shows,
    uniform_choices, FlowError, Notice, Reply, Request, Style, Topic,
};
use crate::settings::{Config, ConventionSettings};
use crate::status::{staged_of, staged_paths};
use crate::text::{join, joined, lines_of, views};
use vstd::prelude::*;
use vstd::string::*;

verus! {

/// The structured beginning of a commit subject, as the fragments that make
/// it up, in order.
pub type CommitDraft = Vec<String>;

/// The commit convention, or where it was looked for in vain.
#[derive(Clone, Debug, PartialEq, Eq)]
pub enum Document {
    Loaded(ConventionSettings),
    Missing { expected: String },
}

/// The scope between its delimiters, if scopes are in use and one was
/// chosen.
pub open spec fn scope_part(
    doc: ConventionSettings,
    use_scope: bool,
    scope: Option<Seq<char>>,
) -> Seq<Seq<char>> {
    match scope {
        Some(s) => if use_scope {
            seq![doc.scope_delimeters.opening@, s, doc.scope_delimeters.closing@]
        } else {
            Seq::empty()
        },
        None => Seq::empty(),
    }
}

/// The mark of an important commit, if such marks are in use and the
/// operator asked for it.
pub open spec fn important_part(
    doc: ConventionSettings,
    use_important: bool,
    important: bool,
) -> Seq<Seq<char>> {
    if use_important && important {
        seq![doc.important_symbol@]
    } else {
        Seq::empty()
    }
}

/// The fragments that make up the structured beginning of a commit subject.
///
/// `kind` and `scope` are the type and the scope chosen, `None` where the
/// operator passed the choice by. Without a type there is no beginning at
/// all. With one, the scope follows between its delimiters, then the mark of
/// an important commit, then the separator and one blank.
pub open spec fn draft_of(
    doc: ConventionSettings,
    use_types: bool,
    kind: Option<Seq<char>>,
    use_scope: bool,
    scope: Option<Seq<char>>,
    use_important: bool,
    important: bool,
) -> Seq<Seq<char>> {
    match kind {
        Some(k) => if use_types {
            seq![k] + scope_part(doc, use_scope, scope) + important_part(
                doc,
                use_important,
                important,
            ) + seq![doc.separator@, " "@]
        } else {
            Seq::empty()
        },
        None => Seq::empty(),
    }
}

/// Puts the fragments of the structured beginning of a commit subject
/// together.
pub fn assemble(
    doc: &ConventionSettings,
    use_types: bool,
    kind: &Option<String>,
    use_scope: bool,
    scope: &Option<String>,
    use_important: bool,
    important: bool,
) -> (draft: CommitDraft)
    ensures
        views(draft@) == draft_of(
            *doc,
            use_types,
            optional_view(*kind),
            use_scope,
            optional_view(*scope),
            use_important,
            important,
        ),
{
    let mut draft: CommitDraft = Vec::new();
    match kind {
        Some(k) => {
            if use_types {
                draft.push(k.clone());
                match scope {
                    Some(s) => {
                        if use_scope {
                            draft.push(doc.scope_delimeters.opening.clone());
                            draft.push(s.clone());
                            draft.push(doc.scope_delimeters.closing.clone());
                        }
                    },
                    None => {},
                }
                if use_important && important {
                    draft.push(doc.important_symbol.clone());
                }
                draft.push(doc.separator.clone());
                draft.push(" ".to_owned());
            }
        },
        None => {},
    }
    assert(views(draft@) =~= draft_of(
        *doc,
        use_types,
        optional_view(*kind),
        use_scope,
        optional_view(*scope),
        use_important,
        important,
    ));
    draft
}

/// Where the flow stands.
#[derive(Clone, Debug, PartialEq, Eq)]
pub enum CommitState {
    /// Nothing was asked yet.
    Start,
    /// The status listing was asked for.
    Status,
    /// Nothing is staged: the operator is asked whether to stage first.
    OfferAdd,
    /// Files are being staged; `inner` is where that flow stands.
    Adding { inner: AddState },
    /// The operator is asked to confirm the staged files.
    ConfirmFiles,
    /// The menu of types is shown.
    AskType,
    /// The menu of scopes is shown; `kind` is the type chosen.
    AskScope { kind: String },
    /// The operator is asked whether the commit is important.
    AskImportant { kind: String, scope: Option<String> },
    /// The subject is asked for.
    AskSubject,
    /// The description is asked for.
    AskDescription { subject: String },
    /// `git commit` was asked for.
    Running,
    /// The flow is over.
    Done,
}

/// The flow can do its work: either git's own message dialog is used, or
/// the convention is at hand.
pub open spec fn equipped(config: Config, document: Document) -> bool {
    config.use_git_commit_message_dialog || document is Loaded
}

impl CommitState {
    /// `reply` answers the request that led to this state.
    pub open spec fn awaits(self, reply: Reply, config: Config, document: Document) -> bool {
        match self {
            CommitState::Start => reply is Begin,
            CommitState::Status => reply is Ran && equipped(config, document),
            CommitState::OfferAdd => reply is Confirmed && equipped(config, document),
            CommitState::Adding { inner } => inner.awaits(reply) && equipped(config, document),
            CommitState::ConfirmFiles => reply is Confirmed && equipped(config, document),
            CommitState::AskType => document matches Document::Loaded(doc) && (
            reply matches Reply::Chose(selected) && (selected matches Some(pick) ==> pick
                <= doc.types.len())),
            CommitState::AskScope { kind } => document matches Document::Loaded(doc) && (
            reply matches Reply::Chose(selected) && (selected matches Some(pick) ==> pick
                <= doc.scopes.len())),
            CommitState::AskImportant { kind, scope } => document is Loaded && reply is Confirmed,
            CommitState::AskSubject => reply is Typed,
            CommitState::AskDescription { subject } => reply is Typed,
            CommitState::Running => reply is Ran,
            CommitState::Done => false,
        }
    }

    /// Whether `reply` answers the request that led to this state.
    pub fn expects(&self, reply: &Reply, config: &Config, document: &Document) -> (r: bool)
        ensures
            r == self.awaits(*reply, *config, *document),
    {
        let ready = config.use_git_commit_message_dialog || matches!(document, Document::Loaded(_));
        match self {
            CommitState::Start => matches!(reply, Reply::Begin),
            CommitState::Status => matches!(reply, Reply::Ran(_)) && ready,
            CommitState::OfferAdd => matches!(reply, Reply::Confirmed(_)) && ready,
            CommitState::Adding { inner } => inner.expects(reply) && ready,
            CommitState::ConfirmFiles => matches!(reply, Reply::Confirmed(_)) && ready,
            CommitState::AskType => match document {
                Document::Loaded(doc) => match reply {
                    Reply::Chose(None) => true,
                    Reply::Chose(Some(pick)) => *pick <= doc.types.len(),
                    _ => false,
                },
                _ => false,
            },
            CommitState::AskScope { kind } => match document {
                Document::Loaded(doc) => match reply {
                    Reply::Chose(None) => true,
                    Reply::Chose(Some(pick)) => *pick <= doc.scopes.len(),
                    _ => false,
                },
                _ => false,
            },
            CommitState::AskImportant { kind, scope } => matches!(document, Document::Loaded(_))
                && matches!(reply, Reply::Confirmed(_)),
            CommitState::AskSubject => matches!(reply, Reply::Typed(_)),
            CommitState::AskDescription { subject } => matches!(reply, Reply::Typed(_)),
            CommitState::Running => matches!(reply, Reply::Ran(_)),
            CommitState::Done => false,
        }
    }
}

/// The request is a menu for one pick over `texts`, unstyled, with the entry
/// "None" after them.
pub open spec fn asks_choice(request: Request, about: Topic, texts: Seq<Seq<char>>) -> bool {
    &&& request matches Request::SelectOne { topic, choices, has_all, has_none }
    &&& topic == about
    &&& shows(choices@, texts, Style::Plain)
    &&& !has_all
    &&& has_none
}

/// The request asks to confirm, showing `texts`.
pub open spec fn asks_confirmation(request: Request, about: Topic, texts: Seq<Seq<char>>) -> bool {
    &&& request matches Request::Confirm { topic, items }
    &&& topic == about
    &&& views(items@) == texts
}

/// The request asks for the subject, with `text` already in the field.
pub open spec fn asks_subject(request: Request, text: Seq<char>) -> bool {
    &&& request matches Request::Input { topic, initial }
    &&& topic == Topic::Subject
    &&& initial@ == text
}

/// The step to the subject, once the answers are in: the field holds the
/// structured beginning that the answers give.
pub open spec fn to_subject(
    config: Config,
    doc: ConventionSettings,
    kind: Option<Seq<char>>,
    scope: Option<Seq<char>>,
    important: bool,
    next: CommitState,
    request: Request,
) -> bool {
    next == CommitState::AskSubject && asks_subject(
        request,
        joined(
            draft_of(
                doc,
                config.use_types,
                kind,
                config.use_scope,
                scope,
                config.use_important,
                important,
            ),
        ),
    )
}

/// The step that follows the choice of a scope, or stands in its place:
/// the question whether the commit is important, if such marks are in use.
pub open spec fn after_scope(
    config: Config,
    doc: ConventionSettings,
    kind: Seq<char>,
    scope: Option<Seq<char>>,
    next: CommitState,
    request: Request,
) -> bool {
    if config.use_important {
        &&& next matches CommitState::AskImportant { kind: k, scope: s }
        &&& k@ == kind
        &&& optional_view(s) == scope
        &&& asks_confirmation(request, Topic::Important, seq![doc.important_symbol@])
    } else {
        to_subject(config, doc, Some(kind), scope, false, next, request)
    }
}

/// The step that follows the decision to commit.
pub open spec fn proceeds(
    config: Config,
    document: Document,
    next: CommitState,
    request: Request,
) -> bool {
    if config.use_git_commit_message_dialog {
        next == CommitState::Running && runs(
            request,
            seq![
                GitCommandView::Commit { segments: Seq::empty(), verbose: config.verbose_commit },
            ],
        )
    } else {
        document matches Document::Loaded(doc) && (if config.use_types {
            next == CommitState::AskType && asks_choice(
                request,
                Topic::CommitType,
                views(doc.types@),
            )
        } else {
            to_subject(config, doc, None, None, false, next, request)
        })
    }
}

/// One step of the flow: from `state`, on `reply`, to `next` with `request`.
pub open spec fn commit_transition(
    state: CommitState,
    reply: Reply,
    config: Config,
    document: Document,
    next: CommitState,
    request: Request,
) -> bool {
    match state {
        CommitState::Start => match document {
            Document::Missing { expected } => if config.use_git_commit_message_dialog {
                next == CommitState::Status && runs(request, seq![GitCommandView::StatusShort])
            } else {
                &&& next == CommitState::Done
                &&& request matches Request::Finish(
                    Err(FlowError::Kind(ErrorKind::ConfigurationMissing(place))),
                )
                &&& place@ == expected@
            },
            Document::Loaded(_) => next == CommitState::Status && runs(
                request,
                seq![GitCommandView::StatusShort],
            ),
        },
        CommitState::Status => match reply {
            Reply::Ran(Err(e)) => next == CommitState::Done && fails_with(request, e),
            Reply::Ran(Ok(None)) => next == CommitState::Done && ends_with(request, Notice::Empty),
            Reply::Ran(Ok(Some(text))) => {
                let staged = staged_of(lines_of(text@));
                if staged.len() == 0 {
                    next == CommitState::OfferAdd && asks_confirmation(
                        request,
                        Topic::StageFirst,
                        Seq::empty(),
                    )
                } else {
                    next == CommitState::ConfirmFiles && asks_confirmation(
                        request,
                        Topic::CommitFiles,
                        staged,
                    )
                }
            },
            _ => true,
        },
        CommitState::OfferAdd => match reply {
            Reply::Confirmed(None) => next == CommitState::Done && fails_with(
                request,
                ErrorKind::NoSelection,
            ),
            Reply::Confirmed(Some(yes)) => if yes {
                next == (CommitState::Adding { inner: AddState::Status }) && runs(
                    request,
                    seq![GitCommandView::StatusShort],
                )
            } else {
                next == CommitState::Done && ends_with(request, Notice::Declined)
            },
            _ => true,
        },
        CommitState::Adding { inner } => exists|after: AddState, asked: Request|
            #![trigger add_transition(inner, reply, config, after, asked)]
            add_transition(inner, reply, config, after, asked) && (match asked {
                Request::Finish(Ok(_)) => proceeds(config, document, next, request),
                Request::Finish(Err(e)) => next == CommitState::Done && request == asked,
                _ => next == (CommitState::Adding { inner: after }) && request == asked,
            }),
        CommitState::ConfirmFiles => match reply {
            Reply::Confirmed(None) => next == CommitState::Done && fails_with(
                request,
                ErrorKind::NoSelection,
            ),
            Reply::Confirmed(Some(yes)) => if yes {
                proceeds(config, document, next, request)
            } else {
                next == CommitState::Done && ends_with(request, Notice::Declined)
            },
            _ => true,
        },
        CommitState::AskType => match (document, reply) {
            (Document::Loaded(doc), Reply::Chose(selected)) => match single_outcome(
                doc.types.len() as int,
                false,
                true,
                selected,
            ) {
                Err(e) => next == CommitState::Done && fails_with(request, e),
                Ok(UserResponse::Nothing) => to_subject(
                    config,
                    doc,
                    None,
                    None,
                    false,
                    next,
                    request,
                ),
                Ok(UserResponse::Picked(i)) => if config.use_scope {
                    &&& next matches CommitState::AskScope { kind }
                    &&& kind@ == doc.types[i]@
                    &&& asks_choice(request, Topic::CommitScope, views(doc.scopes@))
                } else {
                    after_scope(config, doc, doc.types[i]@, None, next, request)
                },
                Ok(UserResponse::All) => false,
            },
            _ => true,
        },
        CommitState::AskScope { kind } => match (document, reply) {
            (Document::Loaded(doc), Reply::Chose(selected)) => match single_outcome(
                doc.scopes.len() as int,
                false,
                true,
                selected,
            ) {
                Err(e) => next == CommitState::Done && fails_with(request, e),
                Ok(UserResponse::Nothing) => after_scope(config, doc, kind@, None, next, request),
                Ok(UserResponse::Picked(j)) => after_scope(
                    config,
                    doc,
                    kind@,
                    Some(doc.scopes[j]@),
                    next,
                    request,
                ),
                Ok(UserResponse::All) => false,
            },
            _ => true,
        },
        CommitState::AskImportant { kind, scope } => match (document, reply) {
            (Document::Loaded(doc), Reply::Confirmed(None)) => next == CommitState::Done
                && fails_with(request, ErrorKind::NoSelection),
            (Document::Loaded(doc), Reply::Confirmed(Some(yes))) => to_subject(
                config,
                doc,
                Some(kind@),
                optional_view(scope),
                yes,
                next,
                request,
            ),
            _ => true,
        },
        CommitState::AskSubject => match reply {
            Reply::Typed(None) => next == CommitState::Done && fails_with(
                request,
                ErrorKind::NoSelection,
            ),
            Reply::Typed(Some(subject)) => {
                &&& next matches CommitState::AskDescription { subject: kept }
                &&& kept@ == subject@
                &&& request == (Request::Edit { topic: Topic::Description })
            },
            _ => true,
        },
        CommitState::AskDescription { subject } => match reply {
            Reply::Typed(None) => next == CommitState::Done && fails_with(
                request,
                ErrorKind::NoSelection,
            ),
            Reply::Typed(Some(description)) => next == CommitState::Running && runs(
                request,
                seq![
                    GitCommandView::Commit {
                        segments: seq![subject@, description@],
                        verbose: config.verbose_commit,
                    },
                ],
            ),
            _ => true,
        },
        CommitState::Running => next == CommitState::Done && run_ended(reply, request),
        CommitState::Done => true,
    }
}

/// A menu for one pick over `texts`, with the entry "None".
fn ask_choice(about: Topic, texts: &Vec<String>) -> (request: Request)
    ensures
        asks_choice(request, about, views(texts@)),
{
    Request::SelectOne {
        topic: about,
        choices: uniform_choices(texts, Style::Plain),
        has_all: false,
        has_none: true,
    }
}

/// The step to the subject.
fn subject_step(
    config: &Config,
    doc: &ConventionSettings,
    kind: &Option<String>,
    scope: &Option<String>,
    important: bool,
) -> (r: (CommitState, Request))
    ensures
        to_subject(
            *config,
            *doc,
            optional_view(*kind),
            optional_view(*scope),
            important,
            r.0,
            r.1,
        ),
{
    let draft = assemble(
        doc,
        config.use_types,
        kind,
        config.use_scope,
        scope,
        config.use_important,
        important,
    );
    (CommitState::AskSubject, Request::Input { topic: Topic::Subject, initial: join(&draft) })
}

/// The step after the scope.
fn scope_step(config: &Config, doc: &ConventionSettings, kind: String, scope: Option<String>) -> (r:
    (CommitState, Request))
    ensures
        after_scope(*config, *doc, kind@, optional_view(scope), r.0, r.1),
{
    if config.use_important {
        let mut items: Vec<String> = Vec::new();
        items.push(doc.important_symbol.clone());
        assert(views(items@) =~= seq![doc.important_symbol@]);
        (
            CommitState::AskImportant { kind, scope },
            Request::Confirm { topic: Topic::Important, items },
        )
    } else {
        let kind = Some(kind);
        subject_step(config, doc, &kind, &scope, false)
    }
}

/// The step after the decision to commit.
fn proceed(config: &Config, document: &Document) -> (r: (CommitState, Request))
    requires
        equipped(*config, *document),
    ensures
        proceeds(*config, *document, r.0, r.1),
{
    if config.use_git_commit_message_dialog {
        let segments: Vec<String> = Vec::new();
        assert(views(segments@) =~= Seq::<Seq<char>>::empty());
        (
            CommitState::Running,
            run_one(GitCommand::Commit { segments, verbose: config.verbose_commit }),
        )
    } else {
        match document {
            Document::Loaded(doc) => {
                if config.use_types {
                    (CommitState::AskType, ask_choice(Topic::CommitType, &doc.types))
                } else {
                    subject_step(config, doc, &None, &None, false)
                }
            },
            Document::Missing { expected } => (CommitState::Done, aborted()),
        }
    }
}

/// One step of committing.
pub fn git_commit_cli(state: CommitState, reply: Reply, config: &Config, document: &Document) -> (r:
    (CommitState, Request))
    requires
        state.awaits(reply, *config, *document),
    ensures
        commit_transition(state, reply, *config, *document, r.0, r.1),
{
    match state {
        CommitState::Start => match document {
            Document::Missing { expected } => {
                if config.use_git_commit_message_dialog {
                    (CommitState::Status, run_one(GitCommand::StatusShort))
                } else {
                    (
                        CommitState::Done,
                        Request::Finish(
                            Err(FlowError::Kind(ErrorKind::ConfigurationMissing(expected.clone()))),
                        ),
                    )
                }
            },
            Document::Loaded(_) => (CommitState::Status, run_one(GitCommand::StatusShort)),
        },
        CommitState::Status => match reply {
            Reply::Ran(Ok(Some(text))) => {
                let staged = staged_paths(text.as_str());
                assert(views(staged@).len() == staged.len());
                if staged.len() == 0 {
                    let items: Vec<String> = Vec::new();
                    assert(views(items@) =~= Seq::<Seq<char>>::empty());
                    (CommitState::OfferAdd, Request::Confirm { topic: Topic::StageFirst, items })
                } else {
                    (
                        CommitState::ConfirmFiles,
                        Request::Confirm { topic: Topic::CommitFiles, items: staged },
                    )
                }
            },
            Reply::Ran(Ok(None)) => (CommitState::Done, Request::Finish(Ok(Notice::Empty))),
            Reply::Ran(Err(e)) => (CommitState::Done, Request::Finish(Err(FlowError::Kind(e)))),
            _ => (CommitState::Done, aborted()),
        },
        CommitState::OfferAdd => match reply {
            Reply::Confirmed(Some(yes)) => {
                if yes {
                    (
                        CommitState::Adding { inner: AddState::Status },
                        run_one(GitCommand::StatusShort),
                    )
                } else {
                    (CommitState::Done, Request::Finish(Ok(Notice::Declined)))
                }
            },
            _ => (CommitState::Done, aborted()),
        },
        CommitState::Adding { inner } => {
            let (after, asked) = git_add_cli(inner, reply, config);
            match asked {
                Request::Finish(Ok(_)) => proceed(config, document),
                Request::Finish(Err(e)) => (CommitState::Done, Request::Finish(Err(e))),
                _ => (CommitState::Adding { inner: after }, asked),
            }
        },
        CommitState::ConfirmFiles => match reply {
            Reply::Confirmed(Some(yes)) => {
                if yes {
                    proceed(config, document)
                } else {
                    (CommitState::Done, Request::Finish(Ok(Notice::Declined)))
                }
            },
            _ => (CommitState::Done, aborted()),
        },
        CommitState::AskType => match (document, reply) {
            (Document::Loaded(doc), Reply::Chose(selected)) => match choice_single(
                &doc.types,
                false,
                true,
                selected,
            ) {
                Err(e) => (CommitState::Done, Request::Finish(Err(FlowError::Kind(e)))),
                Ok(UserResponse::Picked(i)) => {
                    let kind = doc.types[i].clone();
                    if config.use_scope {
                        (
                            CommitState::AskScope { kind },
                            ask_choice(Topic::CommitScope, &doc.scopes),
                        )
                    } else {
                        scope_step(config, doc, kind, None)
                    }
                },
                Ok(_) => subject_step(config, doc, &None, &None, false),
            },
            _ => (CommitState::Done, aborted()),
        },
        CommitState::AskScope { kind } => match (document, reply) {
            (Document::Loaded(doc), Reply::Chose(selected)) => match choice_single(
                &doc.scopes,
                false,
                true,
                selected,
            ) {
                Err(e) => (CommitState::Done, Request::Finish(Err(FlowError::Kind(e)))),
                Ok(UserResponse::Picked(j)) => {
                    let scope = doc.scopes[j].clone();
                    scope_step(config, doc, kind, Some(scope))
                },
                Ok(_) => scope_step(config, doc, kind, None),
            },
            _ => (CommitState::Done, aborted()),
        },
        CommitState::AskImportant { kind, scope } => match (document, reply) {
            (Document::Loaded(doc), Reply::Confirmed(Some(yes))) => {
                let kind = Some(kind);
                subject_step(config, doc, &kind, &scope, yes)
            },
            _ => (CommitState::Done, aborted()),
        },
        CommitState::AskSubject => match reply {
            Reply::Typed(Some(subject)) => (
                CommitState::AskDescription { subject },
                Request::Edit { topic: Topic::Description },
            ),
            _ => (CommitState::Done, aborted()),
        },
        CommitState::AskDescription { subject } => match reply {
            Reply::Typed(Some(description)) => {
                let mut segments: Vec<String> = Vec::new();
                segments.push(subject);
                segments.push(description);
                assert(views(segments@) =~= seq![subject@, description@]);
                (
                    CommitState::Running,
                    run_one(GitCommand::Commit { segments, verbose: config.verbose_commit }),
                )
            },
            _ => (CommitState::Done, aborted()),
        },
        CommitState::Running => (CommitState::Done, end_of_run(reply)),
        CommitState::Done => (CommitState::Done, aborted()),
    }
}

/// Passing the type by leaves nothing of the structured beginning: no
/// scope, no mark and no separator, whatever is in use and whatever else was
/// answered. The subject field then starts out empty.
pub proof fn lemma_bypassed_type_leaves_nothing(
    doc: ConventionSettings,
    use_types: bool,
    use_scope: bool,
    scope: Option<Seq<char>>,
    use_important: bool,
    important: bool,
)
    ensures
        draft_of(doc, use_types, None, use_scope, scope, use_important, important)
            == Seq::<Seq<char>>::empty(),
        joined(draft_of(doc, use_types, None, use_scope, scope, use_important, important))
            == Seq::<char>::empty(),
{
}

/// With a type chosen and types in use, the structured beginning opens with
/// the type and closes with the separator and one blank.
pub proof fn lemma_draft_shape(
    doc: ConventionSettings,
    kind: Seq<char>,
    use_scope: bool,
    scope: Option<Seq<char>>,
    use_important: bool,
    important: bool,
)
    ensures
        ({
            let draft = draft_of(doc, true, Some(kind), use_scope, scope, use_important, important);
            &&& draft.len() >= 3
            &&& draft[0] == kind
            &&& draft[draft.len() - 2] == doc.separator@
            &&& draft.last() == " "@
        }),
{
}

/// In the step that follows the menu of types, picking "None" leads
/// straight to the subject with an empty field.
pub proof fn lemma_bypass_step(
    config: Config,
    doc: ConventionSettings,
    next: CommitState,
    request: Request,
)
    requires
        commit_transition(
            CommitState::AskType,
            Reply::Chose(Some(doc.types.len())),
            config,
            Document::Loaded(doc),
            next,
            request,
        ),
    ensures
        next == CommitState::AskSubject,
        asks_subject(request, Seq::empty()),
{
}

/// The flow keeps to its own rules. It ends exactly when it says so, and
/// whatever answers its request is a reply that its next state awaits,
/// under the same settings and with the same convention.
pub proof fn lemma_commit_protocol(
    state: CommitState,
    reply: Reply,
    config: Config,
    document: Document,
    next: CommitState,
    request: Request,
    answer: Reply,
)
    requires
        state.awaits(reply, config, document),
        commit_transition(state, reply, config, document, next, request),
    ensures
        request is Finish <==> next == CommitState::Done,
        answers(request, answer) ==> next.awaits(answer, config, document),
{
    if let CommitState::Adding { inner } = state {
        let (after, asked) = choose|after: AddState, asked: Request|
            #![trigger add_transition(inner, reply, config, after, asked)]
            add_transition(inner, reply, config, after, asked) && (match asked {
                Request::Finish(Ok(_)) => proceeds(config, document, next, request),
                Request::Finish(Err(e)) => next == CommitState::Done && request == asked,
                _ => next == (CommitState::Adding { inner: after }) && request == asked,
            });
        lemma_add_protocol(inner, reply, config, after, asked, answer);
    }
}

} // verus!

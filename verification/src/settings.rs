//! The operator's settings and the commit convention.

use crate::cli::ErrorKind;
use crate::menus::{
    aborted, answers, ends_with, fails_with, Choice, Notice, Reply, Request, Style, Topic,
};
use crate::text::same_text;
use vstd::prelude::*;
use vstd::string::*;

verus! {

/// The convention that is used where the settings name no other.
pub const DEFAULT_COMMIT_CONV: &'static str = "ConventionalCommits";

/// The operator's settings.
#[derive(Debug, Clone, PartialEq, Eq)]
pub struct Config {
    pub show_welcome: bool,
    pub show_all_in_add_menu: bool,
    pub verbose_commit: bool,
    pub use_git_commit_message_dialog: bool,
    pub use_commit_convention: bool,
    pub convention: String,
    pub use_types: bool,
    pub use_scope: bool,
    pub use_important: bool,
    pub use_footers: bool,
    pub allow_none_convention: bool,
}

impl Default for Config {
    fn default() -> (config: Self)
        ensures
            !config.show_welcome,
            config.show_all_in_add_menu,
            !config.verbose_commit,
            !config.use_git_commit_message_dialog,
            config.use_commit_convention,
            config.convention@ == DEFAULT_COMMIT_CONV@,
            config.use_types,
            config.use_scope,
            config.use_important,
            !config.use_footers,
            config.allow_none_convention,
    {
        Config {
            show_welcome: false,
            show_all_in_add_menu: true,
            verbose_commit: false,
            use_git_commit_message_dialog: false,
            use_commit_convention: true,
            convention: DEFAULT_COMMIT_CONV.to_owned(),
            use_types: true,
            use_scope: true,
            use_important: true,
            use_footers: false,
            allow_none_convention: true,
        }
    }
}

/// What stands before and after the scope in a commit subject.
#[derive(Debug, Clone, PartialEq, Eq)]
pub struct ScopeDelims {
    pub opening: String,
    pub closing: String,
}

/// A commit convention: the vocabulary from which the structured beginning
/// of a commit subject is put together.
#[derive(Debug, Clone, PartialEq, Eq)]
pub struct ConventionSettings {
    pub types: Vec<String>,
    pub scopes: Vec<String>,
    pub scope_delimeters: ScopeDelims,
    pub important_symbol: String,
    pub separator: String,
    pub footers: Vec<String>,
}

/// What is to be done about the file of the default convention.
#[derive(Clone, Copy, Debug, PartialEq, Eq, Structural)]
pub enum ConventionCheck {
    /// The file is where it is expected.
    Present,
    /// The file is missing and the default convention is in use: the
    /// operator may be asked whether to copy the file that came with the
    /// program.
    OfferCopy,
}

/// Where the file of the default convention can be copied from.
#[derive(Clone, Copy, Debug, PartialEq, Eq, Structural)]
pub enum CopySource {
    WorkingDirectory,
    BesideExecutable,
}

/// Decides what is to be done about the file of the default convention.
///
/// `exists` says whether the file is at `expected`. A missing file is an
/// error unless the settings ask for the default convention.
pub fn check_for_convention_file(config: &Config, exists: bool, expected: String) -> (r: Result<
    ConventionCheck,
    ErrorKind,
>)
    ensures
        exists ==> r == Ok::<ConventionCheck, ErrorKind>(ConventionCheck::Present),
        !exists && config.convention@ == DEFAULT_COMMIT_CONV@ ==> r == Ok::<
            ConventionCheck,
            ErrorKind,
        >(ConventionCheck::OfferCopy),
        !exists && config.convention@ != DEFAULT_COMMIT_CONV@ ==> r == Err::<
            ConventionCheck,
            ErrorKind,
        >(ErrorKind::ConfigurationMissing(expected)),
{
    if exists {
        Ok(ConventionCheck::Present)
    } else if same_text(config.convention.as_str(), DEFAULT_COMMIT_CONV) {
        Ok(ConventionCheck::OfferCopy)
    } else {
        Err(ErrorKind::ConfigurationMissing(expected))
    }
}

/// Picks the place to copy the file of the default convention from: the
/// working directory if the file is there, else the directory of the
/// executable. If it is in neither, the configuration is missing.
pub fn copy_source(in_working_directory: bool, beside_executable: bool, expected: String) -> (r:
    Result<CopySource, ErrorKind>)
    ensures
        in_working_directory ==> r == Ok::<CopySource, ErrorKind>(CopySource::WorkingDirectory),
        !in_working_directory && beside_executable ==> r == Ok::<CopySource, ErrorKind>(
            CopySource::BesideExecutable,
        ),
        !in_working_directory && !beside_executable ==> r == Err::<CopySource, ErrorKind>(
            ErrorKind::ConfigurationMissing(expected),
        ),
{
    if in_working_directory {
        Ok(CopySource::WorkingDirectory)
    } else if beside_executable {
        Ok(CopySource::BesideExecutable)
    } else {
        Err(ErrorKind::ConfigurationMissing(expected))
    }
}

/// How a switch is written out.
pub open spec fn switch_text(on: bool) -> Seq<char> {
    if on {
        "true"@
    } else {
        "false"@
    }
}

/// The entries of the settings menu, in order: one for each switch with its
/// present value, and one that leads to the settings of the convention.
pub open spec fn setting_labels(config: Config) -> Seq<Seq<char>> {
    seq![
        "Show Welcome: "@ + switch_text(config.show_welcome),
        "Show 'All' in Add menus: "@ + switch_text(config.show_all_in_add_menu),
        "Show output of `git commit`: "@ + switch_text(config.verbose_commit),
        "Use default `git commit` message editor: "@ + switch_text(
            config.use_git_commit_message_dialog,
        ),
        "Utilize a commit message convention: "@ + switch_text(config.use_commit_convention),
        "Menu: git convention settings"@,
    ]
}

/// The style of an entry of the settings menu: the last entry is green
/// where a convention is in use and struck through where none is; the
/// others are plain.
pub open spec fn setting_style(config: Config, i: int) -> Style {
    if i != 5 {
        Style::Plain
    } else if config.use_commit_convention {
        Style::Green
    } else {
        Style::Struck
    }
}

/// `choices` are the entries of the settings menu.
pub open spec fn offers_settings(choices: Seq<Choice>, config: Config) -> bool {
    &&& choices.len() == setting_labels(config).len()
    &&& forall|i: int|
        0 <= i < choices.len() ==> (#[trigger] choices[i]).text@ == setting_labels(config)[i]
            && choices[i].style == setting_style(config, i)
}

/// One entry of the settings menu for a switch.
fn switch_choice(label: &str, on: bool) -> (choice: Choice)
    ensures
        choice.text@ == label@ + switch_text(on),
        choice.style == Style::Plain,
{
    let mut text = label.to_owned();
    if on {
        text.append("true");
    } else {
        text.append("false");
    }
    Choice { text, style: Style::Plain }
}

/// The entries of the settings menu.
pub fn setting_choices(config: &Config) -> (choices: Vec<Choice>)
    ensures
        offers_settings(choices@, *config),
{
    let mut choices: Vec<Choice> = Vec::new();
    choices.push(switch_choice("Show Welcome: ", config.show_welcome));
    choices.push(switch_choice("Show 'All' in Add menus: ", config.show_all_in_add_menu));
    choices.push(switch_choice("Show output of `git commit`: ", config.verbose_commit));
    choices.push(
        switch_choice(
            "Use default `git commit` message editor: ",
            config.use_git_commit_message_dialog,
        ),
    );
    choices.push(
        switch_choice("Utilize a commit message convention: ", config.use_commit_convention),
    );
    let style = if config.use_commit_convention {
        Style::Green
    } else {
        Style::Struck
    };
    choices.push(Choice { text: "Menu: git convention settings".to_owned(), style });
    choices
}

/// Where the settings flow stands.
#[derive(Clone, Copy, Debug, PartialEq, Eq, Structural)]
pub enum SettingsState {
    /// Nothing was asked yet.
    Start,
    /// The settings menu is shown.
    Menu,
    /// The operator is asked whether to show the welcome message.
    AskWelcome,
    /// The operator is asked whether add menus show the entry "All".
    AskShowAll,
    /// The flow is over.
    Done,
}

impl SettingsState {
    /// `reply` answers the request that led to this state.
    pub open spec fn awaits(self, reply: Reply) -> bool {
        match self {
            SettingsState::Start => reply is Begin,
            SettingsState::Menu => reply matches Reply::Chose(selected) && (
            selected matches Some(pick) ==> pick < 6),
            SettingsState::AskWelcome => reply is Confirmed,
            SettingsState::AskShowAll => reply is Confirmed,
            SettingsState::Done => false,
        }
    }

    /// Whether `reply` answers the request that led to this state.
    pub fn expects(&self, reply: &Reply) -> (r: bool)
        ensures
            r == self.awaits(*reply),
    {
        match self {
            SettingsState::Start => matches!(reply, Reply::Begin),
            SettingsState::Menu => match reply {
                Reply::Chose(None) => true,
                Reply::Chose(Some(pick)) => *pick < 6,
                _ => false,
            },
            SettingsState::AskWelcome => matches!(reply, Reply::Confirmed(_)),
            SettingsState::AskShowAll => matches!(reply, Reply::Confirmed(_)),
            SettingsState::Done => false,
        }
    }
}

/// The request asks to confirm a switch.
pub open spec fn asks_switch(request: Request, about: Topic) -> bool {
    &&& request matches Request::Confirm { topic, items }
    &&& topic == about
    &&& items@.len() == 0
}

/// One step of the settings flow: from `state` with the settings `before`,
/// on `reply`, to `next` with the settings `after` and with `request`.
///
/// Only the two first switches can be set; the answer to the confirmation
/// becomes the value of the switch.
pub open spec fn settings_transition(
    state: SettingsState,
    reply: Reply,
    before: Config,
    after: Config,
    next: SettingsState,
    request: Request,
) -> bool {
    match state {
        SettingsState::Start => {
            &&& after == before
            &&& next == SettingsState::Menu
            &&& request matches Request::SelectOne { topic, choices, has_all, has_none }
            &&& topic == Topic::Settings
            &&& offers_settings(choices@, before)
            &&& !has_all
            &&& !has_none
        },
        SettingsState::Menu => after == before && (match reply {
            Reply::Chose(None) => next == SettingsState::Done && fails_with(
                request,
                ErrorKind::NoSelection,
            ),
            Reply::Chose(Some(pick)) => if pick == 0 {
                next == SettingsState::AskWelcome && asks_switch(request, Topic::ShowWelcome)
            } else if pick == 1 {
                next == SettingsState::AskShowAll && asks_switch(request, Topic::ShowAll)
            } else {
                next == SettingsState::Done && ends_with(request, Notice::Empty)
            },
            _ => true,
        }),
        SettingsState::AskWelcome => next == SettingsState::Done && (match reply {
            Reply::Confirmed(None) => after == before && fails_with(
                request,
                ErrorKind::NoSelection,
            ),
            Reply::Confirmed(Some(on)) => after == (Config { show_welcome: on, ..before })
                && ends_with(request, Notice::Completed),
            _ => true,
        }),
        SettingsState::AskShowAll => next == SettingsState::Done && (match reply {
            Reply::Confirmed(None) => after == before && fails_with(
                request,
                ErrorKind::NoSelection,
            ),
            Reply::Confirmed(Some(on)) => after == (Config { show_all_in_add_menu: on, ..before })
                && ends_with(request, Notice::Completed),
            _ => true,
        }),
        SettingsState::Done => true,
    }
}

/// One step of changing the settings.
pub fn settings_cli(state: SettingsState, reply: Reply, config: &mut Config) -> (r: (
    SettingsState,
    Request,
))
    requires
        state.awaits(reply),
    ensures
        settings_transition(state, reply, *old(config), *final(config), r.0, r.1),
{
    match state {
        SettingsState::Start => (
            SettingsState::Menu,
            Request::SelectOne {
                topic: Topic::Settings,
                choices: setting_choices(config),
                has_all: false,
                has_none: false,
            },
        ),
        SettingsState::Menu => match reply {
            Reply::Chose(Some(pick)) => {
                if pick == 0 {
                    (
                        SettingsState::AskWelcome,
                        Request::Confirm { topic: Topic::ShowWelcome, items: Vec::new() },
                    )
                } else if pick == 1 {
                    (
                        SettingsState::AskShowAll,
                        Request::Confirm { topic: Topic::ShowAll, items: Vec::new() },
                    )
                } else {
                    (SettingsState::Done, Request::Finish(Ok(Notice::Empty)))
                }
            },
            _ => (SettingsState::Done, aborted()),
        },
        SettingsState::AskWelcome => match reply {
            Reply::Confirmed(Some(on)) => {
                config.show_welcome = on;
                (SettingsState::Done, Request::Finish(Ok(Notice::Completed)))
            },
            _ => (SettingsState::Done, aborted()),
        },
        SettingsState::AskShowAll => match reply {
            Reply::Confirmed(Some(on)) => {
                config.show_all_in_add_menu = on;
                (SettingsState::Done, Request::Finish(Ok(Notice::Completed)))
            },
            _ => (SettingsState::Done, aborted()),
        },
        SettingsState::Done => (SettingsState::Done, aborted()),
    }
}

/// The settings flow keeps to its own rules. It ends exactly when it says
/// so, and whatever answers its request is a reply that its next state
/// awaits.
pub proof fn lemma_settings_protocol(
    state: SettingsState,
    reply: Reply,
    before: Config,
    after: Config,
    next: SettingsState,
    request: Request,
    answer: Reply,
)
    requires
        state.awaits(reply),
        settings_transition(state, reply, before, after, next, request),
    ensures
        request is Finish <==> next == SettingsState::Done,
        answers(request, answer) ==> next.awaits(answer),
{
}

} // verus!

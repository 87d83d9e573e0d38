use gust::cli::ErrorKind;
use gust::git::GitCommand;
use gust::menus::branches_cli::{
    git_branches_cli, parse_branch_listing, read_branch_line, BranchRef, BranchState,
};
use gust::menus::{leading_hash, Choice, FlowError, Notice, Reply, Request, Style, Topic};

fn plain(items: &[&str]) -> Vec<Choice> {
    items.iter().map(|s| Choice { text: s.to_string(), style: Style::Plain }).collect()
}

fn branch(name: &str, is_remote: bool) -> BranchRef {
    BranchRef { name: name.to_string(), is_remote }
}

const LISTING: &str =
    "* main\n  topic\n  remotes/origin/HEAD -> origin/main\n  remotes/origin/main\n";

fn listed() -> Vec<BranchRef> {
    vec![branch("main", false), branch("topic", false), branch("remotes/origin/main", true)]
}

#[test]
fn branch_is_remote_if_its_name_begins_with_remotes() {
    assert_eq!(
        BranchRef::new("remotes/origin/main".to_string()),
        branch("remotes/origin/main", true),
    );
    assert_eq!(BranchRef::new("main".to_string()), branch("main", false));
    assert_eq!(BranchRef::new("my/remotes/x".to_string()), branch("my/remotes/x", false));
    assert_eq!(BranchRef::new("remotes".to_string()), branch("remotes", false));
    assert_eq!(BranchRef::new("remotes/".to_string()), branch("remotes/", true));
}

#[test]
fn branch_line_loses_two_columns_of_decoration() {
    assert_eq!(read_branch_line("* main"), Some("main".to_string()));
    assert_eq!(read_branch_line("  topic"), Some("topic".to_string()));
    assert_eq!(read_branch_line("  remotes/origin/HEAD -> origin/main"), None);
    assert_eq!(read_branch_line("  "), None);
    assert_eq!(read_branch_line(""), None);
    assert_eq!(read_branch_line("  x"), Some("x".to_string()));
}

#[test]
fn branch_listing_is_read_in_order() {
    assert_eq!(parse_branch_listing(LISTING), listed());
    assert_eq!(parse_branch_listing(""), Vec::<BranchRef>::new());
    assert_eq!(
        parse_branch_listing("* \u{1b}[32mmain\u{1b}[m\n  \u{1b}[31mremotes/origin/dev\u{1b}[m\n"),
        vec![branch("main", false), branch("remotes/origin/dev", true)]
    );
}

#[test]
fn leading_hash_is_seven_characters() {
    assert_eq!(leading_hash("abc1234 Fix the parser"), "abc1234");
    assert_eq!(leading_hash("abc1234"), "abc1234");
    assert_eq!(leading_hash("abc"), "abc");
    assert_eq!(leading_hash(""), "");
    assert_eq!(leading_hash("abc12345"), "abc1234");
}

#[test]
fn branch_flow_begins_with_the_menu_of_actions() {
    assert_eq!(
        git_branches_cli(BranchState::Start, Reply::Begin),
        (
            BranchState::ChooseAction,
            Request::SelectOne {
                topic: Topic::BranchAction,
                choices: plain(&["Switch HEAD", "Create new branch"]),
                has_all: false,
                has_none: false,
            }
        )
    );
}

#[test]
fn choosing_to_switch_asks_for_the_listing() {
    assert_eq!(
        git_branches_cli(BranchState::ChooseAction, Reply::Chose(Some(0))),
        (BranchState::SwitchListing, Request::Run(vec![GitCommand::Branches]))
    );
    assert_eq!(
        git_branches_cli(BranchState::ChooseAction, Reply::Chose(None)),
        (BranchState::Done, Request::Finish(Err(FlowError::Kind(ErrorKind::NoSelection))))
    );
}

#[test]
fn listing_leads_to_the_menu_of_branches() {
    assert_eq!(
        git_branches_cli(BranchState::SwitchListing, Reply::Ran(Ok(Some(LISTING.to_string())))),
        (
            BranchState::SwitchPick { branches: listed() },
            Request::SelectOne {
                topic: Topic::SwitchBranch,
                choices: plain(&["main", "topic", "remotes/origin/main"]),
                has_all: false,
                has_none: false,
            }
        )
    );
}

#[test]
fn empty_listing_is_no_branches() {
    let no_branches =
        (BranchState::Done, Request::Finish(Err(FlowError::Kind(ErrorKind::NoBranches))));
    assert_eq!(git_branches_cli(BranchState::SwitchListing, Reply::Ran(Ok(None))), no_branches);
    assert_eq!(
        git_branches_cli(
            BranchState::SwitchListing,
            Reply::Ran(Ok(Some("  remotes/origin/HEAD -> origin/main\n".to_string())))
        ),
        no_branches
    );
    assert_eq!(git_branches_cli(BranchState::CreateListing, Reply::Ran(Ok(None))), no_branches);
}

#[test]
fn failed_listing_ends_the_flow_with_the_failure() {
    let failure = ErrorKind::ExternalToolFailure("fatal: not a git repository".to_string());
    assert_eq!(
        git_branches_cli(BranchState::SwitchListing, Reply::Ran(Err(failure.clone()))),
        (BranchState::Done, Request::Finish(Err(FlowError::Kind(failure))))
    );
}

#[test]
fn switching_to_a_remote_branch_fetches_once_and_first() {
    let (next, request) =
        git_branches_cli(BranchState::SwitchPick { branches: listed() }, Reply::Chose(Some(2)));
    assert_eq!(next, BranchState::Running);
    assert_eq!(
        request,
        Request::Run(vec![
            GitCommand::Fetch,
            GitCommand::Checkout { targets: vec!["remotes/origin/main".to_string()] },
        ])
    );
}

#[test]
fn switching_to_a_local_branch_does_not_fetch() {
    let (next, request) =
        git_branches_cli(BranchState::SwitchPick { branches: listed() }, Reply::Chose(Some(1)));
    assert_eq!(next, BranchState::Running);
    assert_eq!(
        request,
        Request::Run(vec![GitCommand::Checkout { targets: vec!["topic".to_string()] }])
    );
}

#[test]
fn switch_flow_runs_from_start_to_end() {
    let (state, _) = git_branches_cli(BranchState::Start, Reply::Begin);
    let (state, _) = git_branches_cli(state, Reply::Chose(Some(0)));
    let (state, _) = git_branches_cli(state, Reply::Ran(Ok(Some(LISTING.to_string()))));
    let (state, request) = git_branches_cli(state, Reply::Chose(Some(2)));
    let fetches = match &request {
        Request::Run(commands) => {
            assert_eq!(
                commands.last(),
                Some(&GitCommand::Checkout { targets: vec!["remotes/origin/main".to_string()] }),
            );
            commands.iter().filter(|c| **c == GitCommand::Fetch).count()
        }
        other => panic!("unexpected request {:?}", other),
    };
    assert_eq!(fetches, 1);
    assert_eq!(
        git_branches_cli(state, Reply::Ran(Ok(None))),
        (BranchState::Done, Request::Finish(Ok(Notice::Completed)))
    );
}

#[test]
fn aborted_branch_menu_is_no_selection() {
    assert_eq!(
        git_branches_cli(BranchState::SwitchPick { branches: listed() }, Reply::Chose(None)),
        (BranchState::Done, Request::Finish(Err(FlowError::Kind(ErrorKind::NoSelection))))
    );
}

#[test]
fn creating_without_a_base_asks_for_the_name() {
    assert_eq!(
        git_branches_cli(BranchState::ChooseAction, Reply::Chose(Some(1))),
        (
            BranchState::CreateAskBase,
            Request::Confirm { topic: Topic::BaseOnCommit, items: vec![] }
        )
    );
    assert_eq!(
        git_branches_cli(BranchState::CreateAskBase, Reply::Confirmed(Some(false))),
        (
            BranchState::CreateName { start: None },
            Request::Input { topic: Topic::BranchName, initial: String::new() }
        )
    );
    assert_eq!(
        git_branches_cli(
            BranchState::CreateName { start: None },
            Reply::Typed(Some("topic".to_string()))
        ),
        (
            BranchState::Running,
            Request::Run(vec![GitCommand::CreateBranch { name: "topic".to_string(), start: None }])
        )
    );
}

#[test]
fn creating_on_a_commit_picks_branch_then_commit() {
    let (state, request) = git_branches_cli(
        BranchState::CreateAskBase,
        Reply::Confirmed(Some(true)),
    );
    assert_eq!(request, Request::Run(vec![GitCommand::Branches]));
    let (state, request) = git_branches_cli(state, Reply::Ran(Ok(Some(LISTING.to_string()))));
    assert_eq!(
        request,
        Request::SelectOne {
            topic: Topic::CommitBranch,
            choices: plain(&["main", "topic", "remotes/origin/main"]),
            has_all: false,
            has_none: false,
        }
    );
    let (state, request) = git_branches_cli(state, Reply::Chose(Some(2)));
    assert_eq!(
        request,
        Request::Run(vec![
            GitCommand::Fetch,
            GitCommand::Log { branch: Some("remotes/origin/main".to_string()) },
        ])
    );
    let log = "abc1234 Fix the parser\ndef5678 Initial commit\n";
    let (state, request) = git_branches_cli(state, Reply::Ran(Ok(Some(log.to_string()))));
    assert_eq!(
        request,
        Request::SelectOne {
            topic: Topic::BaseCommit,
            choices: plain(&["abc1234 Fix the parser", "def5678 Initial commit"]),
            has_all: false,
            has_none: true,
        }
    );
    let (state, request) = git_branches_cli(state, Reply::Chose(Some(1)));
    assert_eq!(state, BranchState::CreateName { start: Some("def5678".to_string()) });
    assert_eq!(request, Request::Input { topic: Topic::BranchName, initial: String::new() });
    let (state, request) = git_branches_cli(state, Reply::Typed(Some("hotfix".to_string())));
    assert_eq!(
        request,
        Request::Run(vec![GitCommand::CreateBranch {
            name: "hotfix".to_string(),
            start: Some("def5678".to_string()),
        }])
    );
    assert_eq!(
        git_branches_cli(state, Reply::Ran(Ok(None))),
        (BranchState::Done, Request::Finish(Ok(Notice::Completed)))
    );
}

#[test]
fn log_of_a_local_branch_is_asked_without_fetch() {
    assert_eq!(
        git_branches_cli(
            BranchState::CreatePickBranch { branches: listed() },
            Reply::Chose(Some(0)),
        ),
        (
            BranchState::CreateLog,
            Request::Run(vec![GitCommand::Log { branch: Some("main".to_string()) }])
        )
    );
}

#[test]
fn picking_none_among_the_commits_ends_the_creation() {
    let commits = vec!["abc1234 Fix".to_string(), "def5678 Init".to_string()];
    assert_eq!(
        git_branches_cli(
            BranchState::CreatePickCommit { commits: commits.clone() },
            Reply::Chose(Some(2)),
        ),
        (BranchState::Done, Request::Finish(Ok(Notice::NoneSelected)))
    );
    assert_eq!(
        git_branches_cli(BranchState::CreatePickCommit { commits }, Reply::Chose(None)),
        (BranchState::Done, Request::Finish(Err(FlowError::Kind(ErrorKind::NoSelection))))
    );
}

#[test]
fn branch_without_commits_ends_the_creation() {
    assert_eq!(
        git_branches_cli(BranchState::CreateLog, Reply::Ran(Ok(None))),
        (BranchState::Done, Request::Finish(Ok(Notice::Empty)))
    );
}

#[test]
fn failed_checkout_ends_the_flow_with_the_failure() {
    let failure = ErrorKind::ExternalToolFailure("error: pathspec 'x' did not match".to_string());
    assert_eq!(
        git_branches_cli(BranchState::Running, Reply::Ran(Err(failure.clone()))),
        (BranchState::Done, Request::Finish(Err(FlowError::Kind(failure))))
    );
}

#[test]
fn branch_states_expect_the_reply_to_their_request() {
    assert!(BranchState::Start.expects(&Reply::Begin));
    assert!(!BranchState::Start.expects(&Reply::Chose(Some(0))));
    assert!(BranchState::ChooseAction.expects(&Reply::Chose(Some(1))));
    assert!(!BranchState::ChooseAction.expects(&Reply::Chose(Some(2))));
    assert!(BranchState::SwitchPick { branches: listed() }.expects(&Reply::Chose(Some(2))));
    assert!(!BranchState::SwitchPick { branches: listed() }.expects(&Reply::Chose(Some(3))));
    let commits = BranchState::CreatePickCommit { commits: vec!["a".to_string()] };
    assert!(commits.expects(&Reply::Chose(Some(1))));
    assert!(!commits.expects(&Reply::Chose(Some(2))));
    assert!(!BranchState::Done.expects(&Reply::Begin));
    assert!(!BranchState::Running.expects(&Reply::Typed(None)));
}

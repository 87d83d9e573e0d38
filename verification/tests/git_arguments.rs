use gust::cli::ErrorKind;
use gust::git::{tool_done, tool_text, GitCommand};

fn strings(items: &[&str]) -> Vec<String> {
    items.iter().map(|s| s.to_string()).collect()
}

#[test]
fn listings_are_asked_for_with_fixed_arguments() {
    assert_eq!(GitCommand::StatusShort.arguments(), strings(&["status", "--short"]));
    assert_eq!(GitCommand::Branches.arguments(), strings(&["branch", "-a"]));
    assert_eq!(GitCommand::Fetch.arguments(), strings(&["fetch", "--all"]));
    assert_eq!(GitCommand::Pull.arguments(), strings(&["pull"]));
    assert_eq!(GitCommand::Push.arguments(), strings(&["push"]));
    assert_eq!(
        GitCommand::LsTree.arguments(),
        strings(&["ls-tree", "--full-tree", "-r", "--name-only", "HEAD"])
    );
}

#[test]
fn log_names_the_branch_if_there_is_one() {
    assert_eq!(GitCommand::Log { branch: None }.arguments(), strings(&["log", "--oneline"]));
    assert_eq!(
        GitCommand::Log { branch: Some("remotes/origin/main".to_string()) }.arguments(),
        strings(&["log", "--oneline", "remotes/origin/main"])
    );
}

#[test]
fn create_branch_names_the_branch_and_its_start() {
    assert_eq!(
        GitCommand::CreateBranch { name: "topic".to_string(), start: None }.arguments(),
        strings(&["branch", "topic"])
    );
    assert_eq!(
        GitCommand::CreateBranch { name: "topic".to_string(), start: Some("abc1234".to_string()) }
            .arguments(),
        strings(&["branch", "topic", "abc1234"])
    );
}

#[test]
fn paths_follow_the_command_word() {
    let paths = strings(&["a.rs", "b c.rs"]);
    assert_eq!(
        GitCommand::Checkout { targets: strings(&["main"]) }.arguments(),
        strings(&["checkout", "main"])
    );
    assert_eq!(
        GitCommand::Add { paths: paths.clone() }.arguments(),
        strings(&["add", "a.rs", "b c.rs"]),
    );
    assert_eq!(
        GitCommand::Reset { paths: paths.clone() }.arguments(),
        strings(&["reset", "a.rs", "b c.rs"])
    );
    assert_eq!(
        GitCommand::Rm { paths: paths.clone(), cached: true }.arguments(),
        strings(&["rm", "--cached", "a.rs", "b c.rs"])
    );
    assert_eq!(
        GitCommand::Rm { paths, cached: false }.arguments(),
        strings(&["rm", "a.rs", "b c.rs"])
    );
    assert_eq!(
        GitCommand::Revert { hash: "abc1234".to_string() }.arguments(),
        strings(&["revert", "abc1234"]),
    );
}

#[test]
fn commit_gives_each_segment_its_own_flag() {
    assert_eq!(
        GitCommand::Commit {
            segments: strings(&["feat: subject", "long description"]),
            verbose: false,
        }
            .arguments(),
        strings(&["commit", "-m", "feat: subject", "-m", "long description"])
    );
    assert_eq!(
        GitCommand::Commit { segments: strings(&["s", "d"]), verbose: true }.arguments(),
        strings(&["commit", "-m", "s", "-m", "d", "-v"])
    );
    assert_eq!(
        GitCommand::Commit { segments: Vec::new(), verbose: false }.arguments(),
        strings(&["commit"])
    );
    assert_eq!(
        GitCommand::Commit { segments: Vec::new(), verbose: true }.arguments(),
        strings(&["commit", "-v"])
    );
}

#[test]
fn listing_of_at_most_one_character_is_nothing() {
    assert_eq!(tool_text(true, "".to_string(), "".to_string()), Ok(None));
    assert_eq!(tool_text(true, "\n".to_string(), "ignored".to_string()), Ok(None));
    assert_eq!(
        tool_text(true, " M a\n".to_string(), "".to_string()),
        Ok(Some(" M a\n".to_string())),
    );
    assert_eq!(tool_text(true, "ab".to_string(), "".to_string()), Ok(Some("ab".to_string())));
}

#[test]
fn failure_carries_the_error_stream_unchanged() {
    assert_eq!(
        tool_text(false, "partial".to_string(), "fatal: not a git repository\n".to_string()),
        Err(ErrorKind::ExternalToolFailure("fatal: not a git repository\n".to_string()))
    );
    assert_eq!(
        tool_done(false, "error: pathspec".to_string()),
        Err(ErrorKind::ExternalToolFailure("error: pathspec".to_string()))
    );
    assert_eq!(tool_done(true, "warning".to_string()), Ok(()));
}

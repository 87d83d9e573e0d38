use gust::cli::ErrorKind;
use gust::menus::{Choice, FlowError, Notice, Reply, Request, Style, Topic};
use gust::settings::{
    check_for_convention_file, copy_source, setting_choices, settings_cli, Config,
    ConventionCheck, CopySource, SettingsState, DEFAULT_COMMIT_CONV,
};

fn plain(text: &str) -> Choice {
    Choice { text: text.to_string(), style: Style::Plain }
}

#[test]
fn default_settings() {
    let config = Config::default();
    assert!(!config.show_welcome);
    assert!(config.show_all_in_add_menu);
    assert!(!config.verbose_commit);
    assert!(!config.use_git_commit_message_dialog);
    assert!(config.use_commit_convention);
    assert_eq!(config.convention, "ConventionalCommits");
    assert_eq!(config.convention, DEFAULT_COMMIT_CONV);
    assert!(config.use_types);
    assert!(config.use_scope);
    assert!(config.use_important);
    assert!(!config.use_footers);
    assert!(config.allow_none_convention);
}

#[test]
fn convention_file_in_place_needs_nothing() {
    assert_eq!(
        check_for_convention_file(
            &Config::default(),
            true,
            "/x/ConventionalCommits.json".to_string(),
        ),
        Ok(ConventionCheck::Present)
    );
}

#[test]
fn missing_default_convention_can_be_copied() {
    assert_eq!(
        check_for_convention_file(
            &Config::default(),
            false,
            "/x/ConventionalCommits.json".to_string(),
        ),
        Ok(ConventionCheck::OfferCopy)
    );
}

#[test]
fn missing_convention_of_another_name_is_an_error() {
    let mut config = Config::default();
    config.convention = "House".to_string();
    assert_eq!(
        check_for_convention_file(&config, false, "/x/ConventionalCommits.json".to_string()),
        Err(ErrorKind::ConfigurationMissing("/x/ConventionalCommits.json".to_string()))
    );
    assert_eq!(
        check_for_convention_file(&config, true, "/x/ConventionalCommits.json".to_string()),
        Ok(ConventionCheck::Present)
    );
}

#[test]
fn convention_file_is_copied_from_the_working_directory_first() {
    assert_eq!(copy_source(true, true, "/x".to_string()), Ok(CopySource::WorkingDirectory));
    assert_eq!(copy_source(true, false, "/x".to_string()), Ok(CopySource::WorkingDirectory));
    assert_eq!(copy_source(false, true, "/x".to_string()), Ok(CopySource::BesideExecutable));
    assert_eq!(
        copy_source(false, false, "/x".to_string()),
        Err(ErrorKind::ConfigurationMissing("/x".to_string()))
    );
}

#[test]
fn settings_menu_shows_each_switch_with_its_value() {
    let mut config = Config::default();
    assert_eq!(
        setting_choices(&config),
        vec![
            plain("Show Welcome: false"),
            plain("Show 'All' in Add menus: true"),
            plain("Show output of `git commit`: false"),
            plain("Use default `git commit` message editor: false"),
            plain("Utilize a commit message convention: true"),
            Choice { text: "Menu: git convention settings".to_string(), style: Style::Green },
        ]
    );
    config.show_welcome = true;
    config.use_commit_convention = false;
    let choices = setting_choices(&config);
    assert_eq!(choices[0], plain("Show Welcome: true"));
    assert_eq!(choices[4], plain("Utilize a commit message convention: false"));
    assert_eq!(
        choices[5],
        Choice { text: "Menu: git convention settings".to_string(), style: Style::Struck }
    );
}

#[test]
fn settings_flow_sets_the_switch_picked() {
    let mut config = Config::default();
    let (state, request) = settings_cli(SettingsState::Start, Reply::Begin, &mut config);
    assert_eq!(state, SettingsState::Menu);
    assert_eq!(
        request,
        Request::SelectOne {
            topic: Topic::Settings,
            choices: setting_choices(&Config::default()),
            has_all: false,
            has_none: false,
        }
    );
    let (state, request) = settings_cli(state, Reply::Chose(Some(0)), &mut config);
    assert_eq!(state, SettingsState::AskWelcome);
    assert_eq!(request, Request::Confirm { topic: Topic::ShowWelcome, items: vec![] });
    assert_eq!(config, Config::default());
    let (state, request) = settings_cli(state, Reply::Confirmed(Some(true)), &mut config);
    assert_eq!(state, SettingsState::Done);
    assert_eq!(request, Request::Finish(Ok(Notice::Completed)));
    let mut expected = Config::default();
    expected.show_welcome = true;
    assert_eq!(config, expected);
}

#[test]
fn settings_flow_sets_the_all_entry_switch() {
    let mut config = Config::default();
    let (state, request) = settings_cli(SettingsState::Menu, Reply::Chose(Some(1)), &mut config);
    assert_eq!(state, SettingsState::AskShowAll);
    assert_eq!(request, Request::Confirm { topic: Topic::ShowAll, items: vec![] });
    let (_, request) = settings_cli(state, Reply::Confirmed(Some(false)), &mut config);
    assert_eq!(request, Request::Finish(Ok(Notice::Completed)));
    let mut expected = Config::default();
    expected.show_all_in_add_menu = false;
    assert_eq!(config, expected);
}

#[test]
fn settings_flow_leaves_settings_alone_otherwise() {
    let mut config = Config::default();
    for pick in 2..6 {
        assert_eq!(
            settings_cli(SettingsState::Menu, Reply::Chose(Some(pick)), &mut config),
            (SettingsState::Done, Request::Finish(Ok(Notice::Empty)))
        );
    }
    let aborted =
        (SettingsState::Done, Request::Finish(Err(FlowError::Kind(ErrorKind::NoSelection))));
    assert_eq!(settings_cli(SettingsState::Menu, Reply::Chose(None), &mut config), aborted);
    assert_eq!(
        settings_cli(SettingsState::AskWelcome, Reply::Confirmed(None), &mut config),
        aborted,
    );
    assert_eq!(
        settings_cli(SettingsState::AskShowAll, Reply::Confirmed(None), &mut config),
        aborted,
    );
    assert_eq!(config, Config::default());
    assert!(SettingsState::Menu.expects(&Reply::Chose(Some(5))));
    assert!(!SettingsState::Menu.expects(&Reply::Chose(Some(6))));
}

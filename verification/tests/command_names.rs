use gust::commands::{BasicCommands, Commands};
use gust::menus::cli_menus::{advanced_menu, basic_menu, MenuChoice};

#[test]
fn commands_are_read_in_any_case() {
    assert_eq!(Commands::from_string("add".to_string()), Ok(Commands::Add));
    assert_eq!(Commands::from_string("ADD".to_string()), Ok(Commands::Add));
    assert_eq!(Commands::from_string("Reset".to_string()), Ok(Commands::Reset));
    assert_eq!(Commands::from_string("cOmMiT".to_string()), Ok(Commands::Commit));
    assert_eq!(Commands::from_string("Undo_Commit".to_string()), Ok(Commands::UndoCommit));
    assert_eq!(Commands::from_string("BRANCHES".to_string()), Ok(Commands::Branches));
    assert_eq!(Commands::from_string("push".to_string()), Ok(Commands::Push));
    assert_eq!(Commands::from_string("Pull".to_string()), Ok(Commands::Pull));
    assert_eq!(Commands::from_string("remove".to_string()), Ok(Commands::Remove));
    assert_eq!(Commands::from_string("QUIT".to_string()), Ok(Commands::Quit));
}

#[test]
fn unknown_command_is_named_in_the_complaint() {
    assert_eq!(
        Commands::from_string("Stash".to_string()),
        Err("Unrecognized command: {} Stash".to_string())
    );
    assert_eq!(
        Commands::from_string("".to_string()),
        Err("Unrecognized command: {} ".to_string())
    );
    assert_eq!(
        Commands::from_string("undo commit".to_string()),
        Err("Unrecognized command: {} undo commit".to_string())
    );
    assert_eq!(
        BasicCommands::from_string("Branches".to_string()),
        Err("Unrecognized command: {} Branches".to_string())
    );
}

#[test]
fn basic_commands_are_read_in_any_case() {
    assert_eq!(BasicCommands::from_string("Add".to_string()), Ok(BasicCommands::Add));
    assert_eq!(BasicCommands::from_string("RESET".to_string()), Ok(BasicCommands::Reset));
    assert_eq!(BasicCommands::from_string("commit".to_string()), Ok(BasicCommands::Commit));
    assert_eq!(
        BasicCommands::from_string("Advanced Options".to_string()),
        Ok(BasicCommands::AdvancedOptions)
    );
    assert_eq!(BasicCommands::from_string("quit".to_string()), Ok(BasicCommands::Quit));
}

#[test]
fn command_names_are_as_the_menu_shows_them() {
    assert_eq!(
        Commands::get_commands_vec(),
        vec![
            "Add",
            "Reset",
            "Commit",
            "Undo_commit",
            "Branches",
            "Push",
            "Pull",
            "Remove",
            "Quit"
        ]
    );
    assert_eq!(
        BasicCommands::get_commands_vec(),
        vec!["Add", "Reset", "Commit", "Advanced Options", "Quit"]
    );
    assert_eq!(Commands::UndoCommit.to_string(), "Undo_commit");
    assert_eq!(BasicCommands::AdvancedOptions.to_string(), "Advanced Options");
}

#[test]
fn every_name_reads_back_as_its_command() {
    let all = [
        Commands::Add,
        Commands::Reset,
        Commands::Commit,
        Commands::UndoCommit,
        Commands::Branches,
        Commands::Push,
        Commands::Pull,
        Commands::Remove,
        Commands::Quit,
    ];
    for command in all {
        assert_eq!(Commands::from_string(command.to_string()), Ok(command));
    }
    let basic = [
        BasicCommands::Add,
        BasicCommands::Reset,
        BasicCommands::Commit,
        BasicCommands::AdvancedOptions,
        BasicCommands::Quit,
    ];
    for command in basic {
        assert_eq!(BasicCommands::from_string(command.to_string()), Ok(command));
    }
    for name in Commands::get_commands_vec() {
        assert_eq!(Commands::from_string(name.clone()).unwrap().to_string(), name);
    }
}

#[test]
fn full_menu_reads_the_name_picked() {
    assert_eq!(advanced_menu(Some("Branches".to_string())), Ok(Commands::Branches));
    assert_eq!(advanced_menu(Some("Undo_commit".to_string())), Ok(Commands::UndoCommit));
    assert_eq!(advanced_menu(None), Err("No item was selected!".to_string()));
    assert_eq!(
        advanced_menu(Some("Nope".to_string())),
        Err("Unrecognized command: {} Nope".to_string())
    );
}

#[test]
fn short_menu_leads_to_a_command_or_to_the_full_menu() {
    assert_eq!(basic_menu(Some("Add".to_string())), Ok(MenuChoice::Run(Commands::Add)));
    assert_eq!(basic_menu(Some("Reset".to_string())), Ok(MenuChoice::Run(Commands::Reset)));
    assert_eq!(basic_menu(Some("Commit".to_string())), Ok(MenuChoice::Run(Commands::Commit)));
    assert_eq!(basic_menu(Some("Advanced Options".to_string())), Ok(MenuChoice::Advanced));
    assert_eq!(basic_menu(Some("Quit".to_string())), Ok(MenuChoice::Run(Commands::Quit)));
    assert_eq!(basic_menu(None), Err("No item was selected!".to_string()));
    assert_eq!(
        basic_menu(Some("Push".to_string())),
        Err("Unrecognized command: {} Push".to_string())
    );
}

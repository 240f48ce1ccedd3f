use doom_cli::cli::{reset_follow_up, run_cli_action, Action, Args, CliOperation, CliRunMode, ListData, ResetFollowUp};
use doom_cli::data::{CompLevel, ListType};
use doom_cli::tui::{MenuCommand, MenuMode};

fn plan(action: Option<Action>) -> doom_cli::cli::CliPlan {
    run_cli_action(Args { action }, true, Some("/Users/me"))
}

#[test]
fn no_action_goes_to_the_menus() {
    let p = plan(None);
    assert_eq!(p.run_mode, CliRunMode::Tui);
    assert!(p.check_app_can_run.is_none());
    assert!(matches!(p.operation, CliOperation::Message(ref m) if m == "No arguments specified, continue to UI"));
}

#[test]
fn play_and_editor_actions_run_menu_commands() {
    let p = plan(Some(Action::Play));
    assert_eq!(p.check_app_can_run, Some(false));
    assert_eq!(p.run_mode, CliRunMode::Quit);
    assert!(matches!(p.operation, CliOperation::RunMenuCommand(MenuCommand::PlayDefaultProfile)));
    assert!(matches!(plan(Some(Action::EditorLast)).operation, CliOperation::RunMenuCommand(MenuCommand::OpenFromLastProfile)));
}

#[test]
fn init_resolves_paths_and_forwards_force() {
    let p = plan(Some(Action::Init {
        engine_path: "~/engines".to_string(),
        iwad_path: "/iwads".to_string(),
        map_path: Some("~/maps".to_string()),
        force: true,
    }));
    assert_eq!(p.check_app_can_run, Some(true));
    match p.operation {
        CliOperation::Init { engine_path, iwad_path, map_path, force } => {
            assert_eq!(engine_path, "/Users/me/engines");
            assert_eq!(iwad_path, "/iwads");
            assert_eq!(map_path.as_deref(), Some("/Users/me/maps"));
            assert!(force);
        }
        other => panic!("unexpected {:?}", other),
    }
}

#[test]
fn reset_skips_the_start_up_check() {
    let p = plan(Some(Action::Reset { force: false }));
    assert!(p.check_app_can_run.is_none());
    assert!(matches!(p.operation, CliOperation::Reset { force: false }));
    assert!(matches!(reset_follow_up(true, "x"), ResetFollowUp::Quit));
    assert!(matches!(reset_follow_up(false, "Successfully reset database"), ResetFollowUp::InitThenMenus));
    assert!(matches!(reset_follow_up(false, "Database reset not confirmed"), ResetFollowUp::Menus));
}

#[test]
fn list_and_settings_actions() {
    assert!(matches!(plan(Some(Action::List { list_data: ListData::Maps, full: true })).operation, CliOperation::List { list_data: ListData::Maps, list_type: ListType::Full }));
    assert!(matches!(plan(Some(Action::SetAppSettings { menu_mode: Some(MenuMode::Full), use_doomworld_api: Some(true) })).operation, CliOperation::UpdateMenuMode(MenuMode::Full)));
    assert!(matches!(plan(Some(Action::SetAppSettings { menu_mode: None, use_doomworld_api: None })).operation, CliOperation::Message(ref m) if m == "No arguments specified"));
    let p = plan(Some(Action::SetDefault { engine: None, iwad: None, profile: Some("p".to_string()), editor: Some("~/e".to_string()) }));
    assert!(matches!(p.operation, CliOperation::SetDefaultProfile(ref n) if n == "p"));
}

#[test]
fn play_settings_take_the_first_option_given() {
    let p = plan(Some(Action::SetPlaySettings {
        reset: None,
        comp_level: None,
        config_file: None,
        fast_monsters: None,
        no_monsters: None,
        respawn_monsters: None,
        warp_to_level: None,
        skill: Some(3),
        turbo: Some(100),
        timer: None,
        screen_width: None,
        screen_height: None,
        full_screen: None,
        windowed: None,
        additional_args: None,
    }));
    assert!(matches!(p.operation, CliOperation::SetSkill(3)));
    let p = plan(Some(Action::SetPlaySettings {
        reset: None,
        comp_level: Some(CompLevel::Boom),
        config_file: Some("~/c.cfg".to_string()),
        fast_monsters: None,
        no_monsters: None,
        respawn_monsters: None,
        warp_to_level: None,
        skill: None,
        turbo: None,
        timer: None,
        screen_width: None,
        screen_height: None,
        full_screen: None,
        windowed: None,
        additional_args: None,
    }));
    assert!(matches!(p.operation, CliOperation::SetCompLevel(CompLevel::Boom)));
}

use doom_cli::data::{AppSettings, CompLevel, PlaySettings};
use doom_cli::tui::{
    colour_result, command_from_text, command_name, menu_answer_command, menu_choice_command, menu_mode_name, menu_page,
    run_menu_command, run_menu_command_with_force, MenuAction, MenuCommand, MenuLevel, MenuMode,
};

#[test]
fn colour_result_by_opening_words() {
    assert_eq!(colour_result("Successfully did it"), "\x1b[32mSuccessfully did it\x1b[39m");
    assert_eq!(colour_result("Cannot do it"), "\x1b[33mCannot do it\x1b[39m");
    assert_eq!(colour_result("Canceled"), "\x1b[33mCanceled\x1b[39m");
    assert_eq!(colour_result("No changes"), "\x1b[33mNo changes\x1b[39m");
    assert_eq!(colour_result("There are no Maps"), "\x1b[31mThere are no Maps\x1b[39m");
    assert_eq!(colour_result("Nothing"), "Nothing");
}

#[test]
fn command_names_parse_back() {
    assert_eq!(command_name(MenuCommand::PickAndPlayMap), "Pick & Play Map");
    assert_eq!(command_from_text("Pick & Play Map"), Some(MenuCommand::PickAndPlayMap));
    assert_eq!(command_from_text("Skill"), Some(MenuCommand::Skill));
    assert_eq!(command_from_text("Quit <ESC>"), Some(MenuCommand::Quit));
    assert_eq!(command_from_text("skill"), None);
    assert_eq!(menu_mode_name(MenuMode::Full), "Full");
}

#[test]
fn chosen_entry_with_value_gives_its_command() {
    assert_eq!(menu_choice_command("Skill (4)"), Some(MenuCommand::Skill));
    assert_eq!(menu_choice_command("Compatibility Level (Not set)"), Some(MenuCommand::CompLevel));
    assert_eq!(menu_choice_command("Editor >>"), Some(MenuCommand::Editor));
    assert_eq!(menu_choice_command("Unknown (x)"), None);
}

#[test]
fn main_page_in_simple_and_full_mode() {
    let play = PlaySettings::default();
    let app = AppSettings::default();
    let simple = menu_page(MenuMode::Simple, MenuLevel::Main, &play, &app);
    assert_eq!(
        simple.entries,
        vec![
            "Play Default Profile",
            "Pick & Play Map",
            "Pick & Play Profile",
            "Play Settings >>",
            "Profiles >>",
            "Maps >>",
            "App Settings >>",
            "Quit <ESC>"
        ]
    );
    assert_eq!(simple.name, "Main Menu");
    assert_eq!(simple.help, "\x1b[38;5;47mLet's play Doom!\x1b[39m");
    let full = menu_page(MenuMode::Full, MenuLevel::Main, &play, &app);
    assert_eq!(full.entries.len(), 10);
    assert_eq!(full.entries[1], "Play Last Profile");
}

#[test]
fn settings_pages_show_current_values() {
    let mut play = PlaySettings::default();
    play.skill = Some(4);
    play.comp_level = Some(CompLevel::Mbf);
    play.fast_monsters = true;
    let app = AppSettings::default();
    let page = menu_page(MenuMode::Simple, MenuLevel::GameSettings, &play, &app);
    assert_eq!(page.entries[0], "Compatibility Level (MBF (11))");
    assert_eq!(page.entries[2], "Fast Monsters (true)");
    assert_eq!(page.entries[6], "Skill (4)");
    assert_eq!(page.entries[7], "Turbo (Not set)");
    assert_eq!(page.entries[15], "Back <ESC>");
    let page = menu_page(MenuMode::Simple, MenuLevel::AppSettings, &play, &app);
    assert_eq!(page.entries[0], "Menu Mode (Simple)");
    let editor = menu_page(MenuMode::Simple, MenuLevel::MapEditor, &play, &app);
    assert_eq!(editor.entries, vec!["Back <ESC>"]);
}

#[test]
fn commands_come_to_pages_tasks_and_messages() {
    assert!(matches!(run_menu_command(MenuCommand::Maps), MenuAction::OpenMenu(MenuLevel::Maps)));
    assert!(matches!(run_menu_command(MenuCommand::Back), MenuAction::Finish(ref m) if m.is_empty()));
    assert!(matches!(run_menu_command(MenuCommand::Quit), MenuAction::Finish(ref m) if m == "Quitting"));
    assert!(matches!(
        run_menu_command_with_force(MenuCommand::Reset, true),
        MenuAction::RunTask { command: MenuCommand::Reset, force: true }
    ));
    assert!(matches!(
        run_menu_command_with_force(MenuCommand::Skill, true),
        MenuAction::RunTask { command: MenuCommand::Skill, force: false }
    ));
}

#[test]
fn every_command_text_parses_back() {
    let all = [
        MenuCommand::PlayDefaultProfile,
        MenuCommand::PlayLastProfile,
        MenuCommand::PickAndPlayProfile,
        MenuCommand::PickAndPlayMap,
        MenuCommand::Editor,
        MenuCommand::Profiles,
        MenuCommand::PlaySettings,
        MenuCommand::Maps,
        MenuCommand::AppSettings,
        MenuCommand::NewProfile,
        MenuCommand::EditProfile,
        MenuCommand::ChangeEngineOnProfile,
        MenuCommand::DeleteProfile,
        MenuCommand::SetDefaultProfile,
        MenuCommand::ListProfile,
        MenuCommand::MenuMode,
        MenuCommand::UseDoomworldApi,
        MenuCommand::SetDefaults,
        MenuCommand::SetDefaultEngine,
        MenuCommand::SetDefaultIwad,
        MenuCommand::ListStoredData,
        MenuCommand::ListEngines,
        MenuCommand::ListIwads,
        MenuCommand::ListMaps,
        MenuCommand::ListAppSettings,
        MenuCommand::ListPlaySettings,
        MenuCommand::UpdateStoredData,
        MenuCommand::UpdateEngines,
        MenuCommand::UpdateIwads,
        MenuCommand::UpdateMaps,
        MenuCommand::UpdateMapInfo,
        MenuCommand::DeleteStoredData,
        MenuCommand::DeleteEngines,
        MenuCommand::DeleteIwads,
        MenuCommand::DeleteMaps,
        MenuCommand::AppVersion,
        MenuCommand::Init,
        MenuCommand::Reset,
        MenuCommand::CompLevel,
        MenuCommand::ConfigFile,
        MenuCommand::FastMonsters,
        MenuCommand::NoMonsters,
        MenuCommand::RespawnMonsters,
        MenuCommand::WarpToLevel,
        MenuCommand::Skill,
        MenuCommand::Turbo,
        MenuCommand::Timer,
        MenuCommand::Width,
        MenuCommand::Height,
        MenuCommand::FullScreen,
        MenuCommand::Windowed,
        MenuCommand::AdditionalArguments,
        MenuCommand::ResetPlaySettings,
        MenuCommand::OpenFromDefaultProfile,
        MenuCommand::OpenFromLastProfile,
        MenuCommand::OpenFromPickProfile,
        MenuCommand::OpenFromPickMap,
        MenuCommand::SetDefaultEditor,
        MenuCommand::ListEditors,
        MenuCommand::AddEditor,
        MenuCommand::DeleteEditor,
        MenuCommand::ViewOnDoomworld,
        MenuCommand::SearchAndDownloadOnDoomworld,
        MenuCommand::SearchDoomworldByAuthor,
        MenuCommand::SearchDoomworldByFileName,
        MenuCommand::SearchDoomworldByMapTitle,
        MenuCommand::ViewReadme,
        MenuCommand::ReadmeFromDefaultProfile,
        MenuCommand::ReadmeFromLastProfile,
        MenuCommand::ReadmeFromPickProfile,
        MenuCommand::ReadmeFromPickMap,
        MenuCommand::Back,
        MenuCommand::Quit,
        MenuCommand::Ignore,
    ];
    for c in all {
        let name = command_name(c);
        assert_eq!(command_from_text(&name), Some(c));
        assert_eq!(menu_choice_command(&name), Some(c));
        assert_eq!(menu_choice_command(&format!("{} (some value)", name)), Some(c));
    }
}

#[test]
fn every_page_entry_gives_a_command() {
    let play = PlaySettings::default();
    let app = AppSettings::default();
    let levels = [
        MenuLevel::Main,
        MenuLevel::Profiles,
        MenuLevel::GameSettings,
        MenuLevel::MapEditor,
        MenuLevel::Maps,
        MenuLevel::MapsSearchDoomworld,
        MenuLevel::MapsReadme,
        MenuLevel::AppSettings,
        MenuLevel::AppSettingsDefaults,
        MenuLevel::AppSettingsList,
        MenuLevel::AppSettingsUpdate,
        MenuLevel::AppSettingsDelete,
    ];
    for level in levels {
        let page = menu_page(MenuMode::Full, level, &play, &app);
        assert!(!page.entries.is_empty());
        for entry in &page.entries {
            let c = menu_choice_command(entry).expect("entry without a command");
            assert!(entry.starts_with(&command_name(c)));
        }
    }
}

#[test]
fn skipped_prompt_goes_back() {
    assert_eq!(menu_answer_command(None), Some(MenuCommand::Back));
    assert_eq!(menu_answer_command(Some("Quit <ESC>")), Some(MenuCommand::Quit));
    assert_eq!(menu_answer_command(Some("Profiles >>")), Some(MenuCommand::Profiles));
    assert_eq!(menu_answer_command(Some("no such entry")), None);
}

#[test]
fn prompt_question_and_help() {
    let page = menu_page(MenuMode::Simple, MenuLevel::Maps, &PlaySettings::default(), &AppSettings::default());
    assert_eq!(page.prompt, "Select a Maps option:");
    assert_eq!(page.prompt_help, "\u{2191}\u{2193} to move, enter to select, type to filter]\n[Manage Map related data and options");
}

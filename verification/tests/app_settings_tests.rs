use doom_cli::data::{AppSettings, Editor, Engine, Iwad, MapRecord, Profile};
use doom_cli::doom_data::{get_internal_wad_list, GameEngineType, InternalWadType};
use doom_cli::menu_app_settings::{
    check_app_can_run, cli_init, cli_set_default_engine, cli_set_default_iwad, cli_update_menu_mode, default_engine_message, default_indexes,
    eq_ignore_ascii_case, init_default_folder, no_engines_message, plan_editor_sync,
    plan_engine_sync, plan_iwad_sync, plan_map_sync, remove_editor_from_app_settings,
    remove_engine_from_app_settings, remove_iwad_from_app_settings,
    remove_profile_from_app_settings, set_search_folders, starting_cursor, update_menu_mode,
    MapDecision,
};
use doom_cli::tui::MenuMode;

fn engine(id: i32, path: &str, version: &str) -> Engine {
    Engine {
        id,
        app_name: "E".to_string(),
        path: path.to_string(),
        internal_path: None,
        version: version.to_string(),
        game_engine_type: GameEngineType::GzDoom,
    }
}

fn profile(id: i32, engine_id: Option<i32>, iwad_id: Option<i32>, map_id: Option<i32>) -> Profile {
    Profile {
        id,
        name: format!("p{}", id),
        engine_id,
        iwad_id,
        map_id,
        map_id2: None,
        map_id3: None,
        map_id4: None,
        map_id5: None,
        date_created: 0,
        date_edited: 0,
        date_last_run: None,
        run_count: 0,
        additional_arguments: None,
    }
}

#[test]
fn set_up_runs_when_settings_are_empty() {
    assert!(check_app_can_run(false, true));
    assert!(!check_app_can_run(true, true));
    assert!(!check_app_can_run(false, false));
}

#[test]
fn menu_mode_toggles_back() {
    let mut s = AppSettings::default();
    assert_eq!(update_menu_mode(&mut s), "Menu mode set to: Full");
    assert_eq!(update_menu_mode(&mut s), "Menu mode set to: Simple");
    assert_eq!(s.menu_mode, MenuMode::Simple);
    assert_eq!(cli_update_menu_mode(&mut s, MenuMode::Simple), "Menu mode is already set to: Simple");
    assert_eq!(cli_update_menu_mode(&mut s, MenuMode::Full), "Menu mode set to: Full");
    assert_eq!(s.menu_mode, MenuMode::Full);
}

#[test]
fn cli_init_checks_folders_in_order() {
    assert_eq!(cli_init("/e", "/i", None, false, false, false).err().unwrap(), "Engine path does not exist: /e");
    assert_eq!(cli_init("/e", "/i", None, true, false, false).err().unwrap(), "IWAD path does not exist: /i");
    assert_eq!(cli_init("/e", "/i", Some("/m".to_string()), true, true, false).err().unwrap(), "Map path does not exist: /m");
    assert_eq!(cli_init("/e", "/i", None, true, true, false).unwrap(), ("/e".to_string(), "/i".to_string(), "/i".to_string()));
    assert_eq!(cli_init("/e", "/i", Some("/m".to_string()), true, true, true).unwrap().2, "/m");
}

#[test]
fn search_folders_recorded() {
    let mut s = AppSettings::default();
    let m = set_search_folders(&mut s, "/e".to_string(), "/i".to_string(), "/m".to_string());
    assert_eq!(m, "\x1b[32mSuccesfully configured!\x1b[39m");
    assert_eq!(s.iwad_search_folder.as_deref(), Some("/i"));
    assert_eq!(init_default_folder(&None, "/e"), "/e");
    assert_eq!(init_default_folder(&Some("/x".to_string()), "/e"), "/x");
}

#[test]
fn removed_records_stop_being_defaults() {
    let mut s = AppSettings::default();
    s.default_profile_id = Some(1);
    s.last_profile_id = Some(1);
    s.default_engine_id = Some(2);
    s.default_iwad_id = Some(3);
    s.default_editor_id = Some(4);
    assert_eq!(remove_profile_from_app_settings(&mut s, 9), "");
    assert_eq!(remove_profile_from_app_settings(&mut s, 1), "\x1b[32mSuccessfully removed Profile from App Settings\x1b[39m");
    assert!(s.default_profile_id.is_none() && s.last_profile_id.is_none());
    assert_eq!(remove_engine_from_app_settings(&mut s, 3), "");
    assert_eq!(remove_engine_from_app_settings(&mut s, 2), "\x1b[32mSuccessfully removed Engine from App Settings\x1b[39m");
    assert_eq!(remove_iwad_from_app_settings(&mut s, 3), "\x1b[32mSuccessfully removed IWAD from App Settings\x1b[39m");
    assert_eq!(remove_editor_from_app_settings(&mut s, 4), "\x1b[32mSuccessfully removed Editor from App Settings\x1b[39m");
    assert!(s.default_engine_id.is_none() && s.default_iwad_id.is_none() && s.default_editor_id.is_none());
}

#[test]
fn picker_starts_at_default() {
    assert_eq!(starting_cursor(&vec![5, 7, 9], Some(9)), 2);
    assert_eq!(starting_cursor(&vec![5, 7, 9], None), 0);
    let e = engine(1, "/a", "1");
    assert_eq!(default_engine_message(Some(&e)), "Marked Engine 'E (/a [1], GZDoom)' as Default");
    assert_eq!(default_engine_message(None), "No changes made to setting Engine as Default");
    assert_eq!(no_engines_message(), "\x1b[31mCannot set Default Engine. There are no Engines found. Please add one\x1b[39m");
}

#[test]
fn ascii_case_comparison() {
    assert!(eq_ignore_ascii_case("/Doom/DOOM2.WAD", "/doom/doom2.wad"));
    assert!(!eq_ignore_ascii_case("/doom/doom2.wad", "/doom/doom.wad"));
}

#[test]
fn found_files_already_stored_are_preselected() {
    let found = vec!["/a".to_string(), "/B".to_string(), "/c".to_string()];
    let stored = vec!["/b".to_string(), "/c".to_string()];
    assert_eq!(default_indexes(&found, &stored, false), vec![2]);
    assert_eq!(default_indexes(&found, &stored, true), vec![1, 2]);
}

#[test]
fn engine_sync_keeps_linked_deletes_rest_and_adds_new() {
    let stored = vec![engine(1, "/e/a.exe", "1"), engine(2, "/e/b.exe", "1"), engine(3, "/e/c.exe", "1")];
    let chosen = vec![engine(0, "/E/A.EXE", "2"), engine(0, "/e/c.exe", "2"), engine(0, "/e/d.exe", "1")];
    let profiles = vec![profile(1, Some(2), None, None)];
    let plan = plan_engine_sync(&stored, &chosen, &profiles);
    assert_eq!(plan.kept_linked.iter().map(|e| e.id).collect::<Vec<_>>(), vec![2]);
    assert!(plan.deleted.is_empty());
    assert_eq!(plan.version_updates, vec![(3, "2".to_string())]);
    assert_eq!(plan.added.iter().map(|e| e.path.clone()).collect::<Vec<_>>(), vec!["/E/A.EXE".to_string(), "/e/d.exe".to_string()]);
    let plan2 = plan_engine_sync(&stored, &vec![], &vec![]);
    assert_eq!(plan2.deleted.len(), 3);
}

#[test]
fn iwad_sync_adds_known_iwads_and_stops_at_unknown() {
    let stored = vec![Iwad { id: 1, path: "/i/doom.wad".to_string(), internal_wad_type: InternalWadType::Doom }];
    let known = get_internal_wad_list();
    let chosen = vec!["/i/DOOM.WAD".to_string(), "/i/doom2.wad".to_string()];
    let plan = plan_iwad_sync(&stored, &chosen, &vec![], &known);
    assert!(plan.deleted.is_empty());
    assert!(plan.error.is_none());
    assert_eq!(plan.added.len(), 2);
    assert_eq!(plan.added[1].internal_wad_type, InternalWadType::Doom2);
    let bad = vec!["/i/doom2.wad".to_string(), "/i/mine.wad".to_string(), "/i/tnt.wad".to_string()];
    let plan = plan_iwad_sync(&stored, &bad, &vec![profile(1, None, Some(1), None)], &known);
    assert_eq!(plan.kept_linked.len(), 1);
    assert_eq!(plan.added.len(), 1);
    assert_eq!(plan.error.as_deref(), Some("Unable to find internal wad type for file name 'mine.wad'"));
}

#[test]
fn map_sync_decides_each_found_file() {
    let stored = vec![
        MapRecord { id: 1, title: "A".to_string(), author: "x".to_string(), path: "/m/a.wad".to_string() },
        MapRecord { id: 2, title: "B".to_string(), author: "x".to_string(), path: "/m/gone.wad".to_string() },
    ];
    let found = vec!["/m/a.wad".to_string(), "/m/doom.wad".to_string(), "/m/x.txt".to_string(), "/m/new.pk3".to_string()];
    let plan = plan_map_sync(&stored, &found, &vec![false, true, false, false], &vec![true, false, false, true], &vec![]);
    assert_eq!(plan.deleted.iter().map(|m| m.id).collect::<Vec<_>>(), vec![2]);
    assert_eq!(plan.decisions, vec![MapDecision::Stored, MapDecision::SkipIwad, MapDecision::SkipInvalid, MapDecision::Add]);
}

#[test]
fn editor_sync_updates_versions_case_insensitively() {
    let ed = |id: i32, path: &str, version: &str| Editor {
        id,
        app_name: "UDB".to_string(),
        path: path.to_string(),
        load_file_argument: None,
        additional_arguments: None,
        version: version.to_string(),
    };
    let stored = vec![ed(4, "/udb/Builder.exe", "3.0")];
    let chosen = vec![ed(0, "/udb/builder.exe", "3.1"), ed(0, "/slade/slade.exe", "1.0")];
    let plan = plan_editor_sync(&stored, &chosen);
    assert_eq!(plan.version_updates, vec![(4, "3.1".to_string())]);
    assert_eq!(plan.added.len(), 1);
    assert_eq!(plan.added[0].path, "/slade/slade.exe");
}

#[test]
fn default_engine_and_iwad_set_by_path() {
    let engines = vec![engine(3, "/e/gzdoom", "4.1"), engine(4, "/e/woof", "1.0")];
    let iwads = vec![Iwad { id: 9, path: "/w/doom2.wad".to_string(), internal_wad_type: InternalWadType::Doom2 }];
    let mut s = AppSettings::default();
    assert_eq!(
        cli_set_default_engine(&engines, &mut s, "/e/woof"),
        Ok("Marked Engine 'E (/e/woof [1.0], GZDoom)' as Default".to_string())
    );
    assert_eq!(s.default_engine_id, Some(4));
    assert_eq!(
        cli_set_default_engine(&engines, &mut s, "/e/none"),
        Err("Failed to get engine with path '/e/none'".to_string())
    );
    assert_eq!(s.default_engine_id, Some(4));
    let shown = iwads[0].display_text();
    assert_eq!(cli_set_default_iwad(&iwads, &mut s, "/w/doom2.wad"), Ok(format!("Marked IWAD '{}' as Default", shown)));
    assert_eq!(s.default_iwad_id, Some(9));
    assert_eq!(
        cli_set_default_iwad(&iwads, &mut s, "/w/tnt.wad"),
        Err("Failed to get iwad with path '/w/tnt.wad'".to_string())
    );
}

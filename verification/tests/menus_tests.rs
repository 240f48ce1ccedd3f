use doom_cli::data::{AppSettings, Editor, Engine, FileVersion, Iwad, MapRecord, Profile};
use doom_cli::doom_data::{GameEngineType, InternalWadType};
use doom_cli::doomworld_api::{ApiResult, DoomworldFile};
use doom_cli::menu_common::{get_map_id_from_from_default_profile, get_map_id_from_from_last_profile, pick_from_map_from_profile_map_ids, MapPick};
use doom_cli::menu_editor::{
    cli_add_editor, cli_delete_editor, cli_set_default_editor, open_editor_from_map_id,
    open_from_default_profile, open_from_pick_map, EditorStep, OpenStep,
};
use doom_cli::menu_main::{autosave_profile_name, get_default_profile_text, get_last_profile_text};
use doom_cli::menu_maps::{check_search_results, search_doomworld_by_author, view_map_readme_from_map_id};
use doom_cli::menu_profiles::{change_engine_on_profile_check, change_engine_on_profiles, profiles_using_engine, validate_edited_profile_name, cli_add_profile, cli_delete_profile, cli_set_default_profile, validate_profile_name};
use doom_cli::menu_view_readme;

fn map(id: i32, path: &str) -> MapRecord {
    MapRecord { id, title: format!("M{}", id), author: "a".to_string(), path: path.to_string() }
}

fn profile(id: i32, name: &str, maps: [Option<i32>; 5]) -> Profile {
    Profile {
        id,
        name: name.to_string(),
        engine_id: Some(1),
        iwad_id: Some(1),
        map_id: maps[0],
        map_id2: maps[1],
        map_id3: maps[2],
        map_id4: maps[3],
        map_id5: maps[4],
        date_created: 0,
        date_edited: 0,
        date_last_run: None,
        run_count: 0,
        additional_arguments: None,
    }
}

fn editor(id: i32, path: &str) -> Editor {
    Editor {
        id,
        app_name: "UDB".to_string(),
        path: path.to_string(),
        load_file_argument: None,
        additional_arguments: None,
        version: "3".to_string(),
    }
}

#[test]
fn picking_a_map_of_a_profile() {
    let maps = vec![map(1, "/m/a.wad"), map(2, "/m/b.wad")];
    assert!(matches!(pick_from_map_from_profile_map_ids(&maps, (0, 2, 0, 0, 0)), Ok(MapPick::Chosen(2))));
    assert!(matches!(pick_from_map_from_profile_map_ids(&maps, (1, 2, 0, 0, 0)), Ok(MapPick::Choose(ref v)) if v.len() == 2));
    assert_eq!(pick_from_map_from_profile_map_ids(&maps, (0, 0, 0, 0, 0)).err().unwrap(), "There are no Maps to select from");
    let mut s = AppSettings::default();
    let profiles = vec![profile(1, "p", [None, None, Some(1), Some(2), None])];
    assert_eq!(get_map_id_from_from_default_profile(&s, &profiles, &maps, "Cannot open Editor").err().unwrap(), "No Default Profile found. Cannot open Editor");
    s.default_profile_id = Some(1);
    // the fourth slot is not read; the third is read twice
    assert!(matches!(get_map_id_from_from_default_profile(&s, &profiles, &maps, "x"), Ok(MapPick::Choose(ref v)) if v.len() == 2 && v[0].id == 1 && v[1].id == 1));
    s.last_profile_id = Some(9);
    assert_eq!(get_map_id_from_from_last_profile(&s, &profiles, &maps, "x").err().unwrap(), "Unable to get Profile");
}

#[test]
fn opening_a_map_in_an_editor() {
    let maps = vec![map(1, "/m/a.wad")];
    let mut s = AppSettings::default();
    assert!(matches!(open_editor_from_map_id(&maps, vec![], &s, 1), Ok(EditorStep::Message(ref m)) if m == "There are no Editors to select from"));
    assert!(matches!(open_editor_from_map_id(&maps, vec![editor(1, "/e")], &s, 1), Ok(EditorStep::ChooseEditor { ref map_path, ref editors }) if map_path == "/m/a.wad" && editors.len() == 1));
    s.default_editor_id = Some(1);
    assert!(matches!(open_editor_from_map_id(&maps, vec![editor(1, "/e")], &s, 1), Ok(EditorStep::Launch(ref c)) if c.program == "/e" && c.args == vec!["/m/a.wad".to_string()]));
    s.default_editor_id = Some(5);
    assert_eq!(open_editor_from_map_id(&maps, vec![editor(1, "/e")], &s, 1).err().unwrap(), "Unable to get Default Editor");
    assert_eq!(open_editor_from_map_id(&maps, vec![], &s, 3).err().unwrap(), "Unable to get Map for id '3'");
    assert!(matches!(open_from_default_profile(0, &s, &vec![], &maps), Ok(OpenStep::Message(_))));
    assert_eq!(open_from_default_profile(1, &AppSettings::default(), &vec![], &maps).err().unwrap(), "No Default Profile found. Cannot open Editor");
    assert_eq!(open_from_pick_map(0).err().unwrap(), "There are no Editors to select from");
    assert_eq!(open_from_pick_map(2).ok().unwrap().prompt, "Pick the Map to open in Editor:");
}

#[test]
fn adding_deleting_and_choosing_editors() {
    let stored = vec![editor(3, "/udb/builder")];
    let version = || FileVersion { app_name: "Slade".to_string(), path: "/s".to_string(), major: 3, minor: 2, build: 1, revision: 0 };
    assert_eq!(cli_add_editor(&stored, "/s", false, Ok(version()), None, &None).message, "Cannot add Editor '/s'. Does not exist");
    assert_eq!(cli_add_editor(&stored, "/udb/builder", true, Ok(version()), None, &None).message, "Cannot add Editor '/udb/builder'. Editor already exists");
    let added = cli_add_editor(&stored, "/s", true, Ok(version()), Some("-map".to_string()), &Some(vec!["-a".to_string(), "-b".to_string()]));
    assert_eq!(added.message, "Successfully added Editor - 'Slade (/s [3.2.1.0])'");
    let e = added.added.unwrap();
    assert_eq!(e.additional_arguments.as_deref(), Some("-a -b"));
    assert_eq!(cli_add_editor(&stored, "/s", true, Err("no info".to_string()), None, &None).message, "Cannot add Editor, unable to get version information: 'no info'");
    let mut s = AppSettings::default();
    s.default_editor_id = Some(3);
    let d = cli_delete_editor(&stored, &mut s, "/x", true);
    assert_eq!((d.message.as_str(), d.deleted), ("Editor not found - '/x'", None));
    let d = cli_delete_editor(&stored, &mut s, "/udb/builder", false);
    assert_eq!((d.message.as_str(), d.deleted), ("Canceled Editor deletion", None));
    let d = cli_delete_editor(&stored, &mut s, "/udb/builder", true);
    assert_eq!((d.message.as_str(), d.deleted), ("Successfully deleted Editor 'UDB'", Some(3)));
    assert!(s.default_editor_id.is_none());
    assert_eq!(cli_set_default_editor(&stored, &mut s, "/udb/builder").unwrap(), "Successfully set Editor 'UDB (/udb/builder [3])' as Default");
    assert_eq!(s.default_editor_id, Some(3));
    assert_eq!(cli_set_default_editor(&stored, &mut s, "/nope").err().unwrap(), "Failed to get editor with path '/nope'");
}

#[test]
fn viewing_readmes_and_searching() {
    let maps = vec![map(1, "/m/a.wad")];
    assert_eq!(view_map_readme_from_map_id(&maps, 1).unwrap(), "/m/a.wad");
    assert_eq!(menu_view_readme::view_map_readme_from_map_id(&maps, 2).err().unwrap(), "Unable to get Map for id '2'");
    assert_eq!(menu_view_readme::view_from_pick_map().cancel_error, "Cancelled viewing Map Readme.");
    assert_eq!(menu_view_readme::view_from_default_profile(&AppSettings::default(), &vec![], &maps).err().unwrap(), "No Default Profile found. Cannot view Map Readme.");
    let s = search_doomworld_by_author();
    assert_eq!((s.nice_name.as_str(), s.search_type.as_str()), ("author", "author"));
    let none = ApiResult { message: "nothing".to_string(), files: vec![] };
    assert_eq!(check_search_results("author", "romero", &none).err().unwrap(), "No maps found for 'author' search with 'romero'. Message from API 'nothing'");
    let f = DoomworldFile { id: 1, title: "t".to_string(), author: "a".to_string(), filename: "f.zip".to_string(), url: "u".to_string(), dir: "d".to_string() };
    let partial = ApiResult { message: "Too many".to_string(), files: vec![f] };
    assert_eq!(check_search_results("author", "r", &partial).unwrap(), Some("\x1b[33mPartial search results because\x1b[39m '\x1b[33mToo many\x1b[39m'".to_string()));
}

#[test]
fn profiles_from_the_command_line() {
    let engines = vec![Engine { id: 1, app_name: "G".to_string(), path: "/E/gzdoom.exe".to_string(), internal_path: None, version: "4".to_string(), game_engine_type: GameEngineType::GzDoom }];
    let iwads = vec![Iwad { id: 2, path: "/i/doom2.wad".to_string(), internal_wad_type: InternalWadType::Doom2 }];
    let maps = vec![map(5, "/m/SUNLUST.WAD"), map(6, "/m/b.wad")];
    let profiles = vec![profile(1, "taken", [None; 5])];
    let add = |name: &str, maps_in: Option<Vec<String>>| cli_add_profile(&engines, &iwads, &maps, &profiles, name, "/e/GZDOOM.exe", "/i/doom2.wad", &maps_in, &None, &Some(vec!["-fast".to_string()]), 42);
    assert_eq!(add("taken", None).message, "Cannot add Profile 'taken'. Profile name already exists");
    assert_eq!(add("ab", None).message, "Cannot add Profile 'ab'. Profile name must be at least 3 characters");
    let six = Some(vec!["a".to_string(); 6]);
    assert_eq!(add("many", six).message, "Cannot add Profile 'many'. A max of 5 maps can be specified per Profile");
    let ok = add("new one", Some(vec!["sunlust.wad".to_string(), "missing.wad".to_string(), "b.wad".to_string()]));
    assert_eq!(ok.message, "Successfully created a new Profile - 'new one'");
    let p = ok.added.unwrap();
    assert_eq!((p.engine_id, p.iwad_id), (Some(1), Some(2)));
    assert_eq!((p.map_id, p.map_id2, p.map_id3, p.map_id4, p.map_id5), (Some(5), None, Some(6), None, None));
    assert_eq!(p.additional_arguments.as_deref(), Some("-fast"));
    assert_eq!(p.date_created, 42);
    let no_engine = cli_add_profile(&engines, &iwads, &maps, &profiles, "abc", "/x", "/i/doom2.wad", &None, &None, &None, 0);
    assert_eq!(no_engine.message, "Cannot add Profile 'abc'. Engine not found - '/x'");
    let empty: Vec<Engine> = vec![];
    assert_eq!(cli_add_profile(&empty, &iwads, &maps, &profiles, "abc", "/x", "/y", &None, &None, &None, 0).message, "Cannot add Profile 'abc', There are no Engines to select. Please run 'init'");
    assert_eq!(validate_profile_name(&profiles, "taken"), Some("Profile name already exists".to_string()));
    assert_eq!(validate_profile_name(&profiles, "xy"), Some("Profile name must be at least 3 characters".to_string()));
    assert_eq!(validate_profile_name(&profiles, "xyz"), None);
}

#[test]
fn default_and_deleted_profiles() {
    let profiles = vec![profile(1, "alpha", [None; 5])];
    let mut s = AppSettings::default();
    assert_eq!(cli_set_default_profile(&profiles, &mut s, "beta"), "Cannot set Default Profile. Profile not found - 'beta'");
    assert_eq!(cli_set_default_profile(&profiles, &mut s, "alpha"), "Successfully set Default Profile as 'alpha'");
    assert_eq!(s.default_profile_id, Some(1));
    s.last_profile_id = Some(1);
    let d = cli_delete_profile(&profiles, &mut s, "alpha", true);
    assert_eq!((d.message.as_str(), d.deleted), ("Successfully deleted Profile 'alpha'", Some(1)));
    assert!(s.default_profile_id.is_none() && s.last_profile_id.is_none());
    let d = cli_delete_profile(&profiles, &mut s, "zzz", true);
    assert_eq!(d.message, "Cannot delete Profile. Profile not found - 'zzz'");
}

#[test]
fn main_menu_profile_lines() {
    let engines = vec![Engine {
        id: 1,
        app_name: "GZDoom".to_string(),
        path: "/e/gzdoom".to_string(),
        internal_path: None,
        version: "4.11.1".to_string(),
        game_engine_type: GameEngineType::GzDoom,
    }];
    let iwads = vec![Iwad { id: 1, path: "/w/DOOM2.WAD".to_string(), internal_wad_type: InternalWadType::Doom2 }];
    let maps = vec![map(5, "/m/sunlust.wad")];
    let profiles = vec![profile(2, "Sunlust", [Some(5), None, None, None, None])];
    let mut app = AppSettings::default();
    assert_eq!(
        get_default_profile_text(false, false, &app, &profiles, &engines, &iwads, &maps),
        Ok("No database found. Please run 'init'".to_string())
    );
    assert_eq!(
        get_default_profile_text(true, true, &app, &profiles, &engines, &iwads, &maps),
        Ok("No settings configured. Please run 'init'".to_string())
    );
    assert_eq!(
        get_default_profile_text(true, false, &app, &profiles, &engines, &iwads, &maps),
        Ok("Default - \x1b[33mPlease set one\x1b[39m".to_string())
    );
    assert_eq!(
        get_last_profile_text(false, &app, &profiles, &engines, &iwads, &maps),
        Ok("Last    - \x1b[33mRun a profile to set as last run\x1b[39m".to_string())
    );
    app.default_profile_id = Some(2);
    app.last_profile_id = Some(2);
    assert_eq!(
        get_default_profile_text(true, false, &app, &profiles, &engines, &iwads, &maps),
        Ok("Default - \x1b[38;5;32mSunlust (sunlust.wad) / gzdoom [4.11.1] / DOOM2.WAD\x1b[39m".to_string())
    );
    assert_eq!(
        get_last_profile_text(false, &app, &profiles, &engines, &iwads, &maps),
        Ok("Last    - \x1b[38;5;166mSunlust (sunlust.wad) / gzdoom [4.11.1] / DOOM2.WAD\x1b[39m".to_string())
    );
    app.last_profile_id = Some(7);
    assert_eq!(
        get_last_profile_text(false, &app, &profiles, &engines, &iwads, &maps),
        Err("Failed to get profile with id '7'".to_string())
    );
}

#[test]
fn autosaved_profiles_are_named_after_map_or_iwad() {
    assert_eq!(
        autosave_profile_name("1a2b3c4d", &Some("Sunlust".to_string()), "/w/DOOM2.WAD"),
        "Autosave-1a2b3c4d 'Sunlust'"
    );
    assert_eq!(autosave_profile_name("1a2b3c4d", &None, "/w/DOOM2.WAD"), "Autosave-1a2b3c4d 'DOOM2.WAD'");
}

#[test]
fn edited_profile_may_keep_its_name() {
    let profiles = vec![profile(1, "Sunlust", [None; 5]), profile(2, "Eviternity", [None; 5])];
    assert_eq!(validate_edited_profile_name(&profiles, "Sunlust", 1), None);
    assert_eq!(validate_edited_profile_name(&profiles, "Eviternity", 1), Some("Profile name already exists".to_string()));
    assert_eq!(validate_edited_profile_name(&profiles, "ab", 1), Some("Profile name must be at least 3 characters".to_string()));
    assert_eq!(validate_edited_profile_name(&profiles, "Valiant", 1), None);
}

#[test]
fn changing_the_engine_of_profiles() {
    let gz = Engine {
        id: 1,
        app_name: "GZDoom".to_string(),
        path: "/e/gzdoom".to_string(),
        internal_path: None,
        version: "4".to_string(),
        game_engine_type: GameEngineType::GzDoom,
    };
    let woof = Engine { id: 2, app_name: "Woof".to_string(), path: "/e/woof".to_string(), ..gz.clone() };
    assert_eq!(
        change_engine_on_profile_check(0, 3),
        Some("Cannot change Engine on Profiles because there are no Engines to select".to_string())
    );
    assert_eq!(change_engine_on_profile_check(2, 0), Some("There are no Profiles to change the Engine on".to_string()));
    assert_eq!(change_engine_on_profile_check(2, 3), None);
    let mut other = profile(3, "Other", [None; 5]);
    other.engine_id = Some(2);
    let profiles = vec![profile(1, "Sunlust", [None; 5]), other, profile(2, "Eviternity", [None; 5])];
    let using = profiles_using_engine(&profiles, &gz).unwrap();
    assert_eq!(using.iter().map(|p| p.id).collect::<Vec<_>>(), vec![1, 2]);
    assert_eq!(
        profiles_using_engine(&vec![profile(1, "Sunlust", [None; 5])], &woof).err().unwrap(),
        "No changes made to changing Engine on Profiles. No Profiles are using the Engine - 'Woof (/e/woof [4], GZDoom)'"
    );
    let (changed, message) = change_engine_on_profiles(&using, &gz, &woof);
    assert!(changed.iter().all(|p| p.engine_id == Some(2)));
    assert_eq!(changed[1].name, "Eviternity");
    assert_eq!(
        message,
        "Successfully changed Engine from 'GZDoom (/e/gzdoom [4], GZDoom)' to 'Woof (/e/woof [4], GZDoom)' on 2 Profiles"
    );
    let (none, message) = change_engine_on_profiles(&vec![], &gz, &woof);
    assert!(none.is_empty());
    assert_eq!(message, "No changes made to changing Engine on Profiles. No Profiles selected");
}

#[test]
fn deleting_keeps_unrelated_settings() {
    let profiles = vec![profile(1, "alpha", [None; 5]), profile(2, "beta", [None; 5])];
    let mut s = AppSettings::default();
    s.default_profile_id = Some(1);
    s.last_profile_id = Some(2);
    s.default_engine_id = Some(5);
    s.default_editor_id = Some(3);
    let d = cli_delete_profile(&profiles, &mut s, "alpha", true);
    assert_eq!(d.deleted, Some(1));
    assert_eq!((s.default_profile_id, s.last_profile_id), (None, Some(2)));
    assert_eq!((s.default_engine_id, s.default_editor_id), (Some(5), Some(3)));

    let editors = vec![editor(3, "/udb/builder"), editor(4, "/slade")];
    let d = cli_delete_editor(&editors, &mut s, "/slade", true);
    assert_eq!(d.deleted, Some(4));
    assert_eq!(s.default_editor_id, Some(3));
    assert_eq!((s.last_profile_id, s.default_engine_id), (Some(2), Some(5)));
}

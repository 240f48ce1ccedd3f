use doom_cli::data::{AppSettings, Editor, Engine, Iwad, MapRecord, Profile};
use doom_cli::db::{
    find_engine_by_id, find_profile_by_name, get_app_settings_display, get_editor_by_path,
    get_engine_by_id, get_map_by_id, get_maps_by_ids, get_profile_by_id, get_profile_display_by_id,
    get_profile_display_list, is_engine_linked_to_profiles, is_iwad_linked_to_profiles,
    is_map_linked_to_profiles,
};
use doom_cli::doom_data::{GameEngineType, InternalWadType};
use doom_cli::tui::MenuMode;

fn engine(id: i32, path: &str) -> Engine {
    Engine {
        id,
        app_name: format!("Engine{}", id),
        path: path.to_string(),
        internal_path: None,
        version: "1.0".to_string(),
        game_engine_type: GameEngineType::GzDoom,
    }
}

fn iwad(id: i32, path: &str) -> Iwad {
    Iwad { id, path: path.to_string(), internal_wad_type: InternalWadType::Doom2 }
}

fn map(id: i32, path: &str) -> MapRecord {
    MapRecord { id, title: format!("Map{}", id), author: "Someone".to_string(), path: path.to_string() }
}

fn profile(id: i32, name: &str, engine_id: Option<i32>, iwad_id: Option<i32>, maps: [Option<i32>; 5]) -> Profile {
    Profile {
        id,
        name: name.to_string(),
        engine_id,
        iwad_id,
        map_id: maps[0],
        map_id2: maps[1],
        map_id3: maps[2],
        map_id4: maps[3],
        map_id5: maps[4],
        date_created: 100,
        date_edited: 200,
        date_last_run: Some(300),
        run_count: 7,
        additional_arguments: Some("-fast".to_string()),
    }
}

#[test]
fn lookups_by_id_and_their_messages() {
    let engines = vec![engine(1, "/e/one.exe"), engine(2, "/e/two.exe")];
    assert_eq!(find_engine_by_id(&engines, 2).unwrap().path, "/e/two.exe");
    assert!(find_engine_by_id(&engines, 3).is_none());
    assert_eq!(get_engine_by_id(&engines, -4).err().unwrap(), "Failed to get engine with id '-4'");
    let maps = vec![map(5, "/m/a.wad")];
    assert_eq!(get_map_by_id(&maps, 9).err().unwrap(), "Failed to get map with id '9'");
    let profiles = vec![profile(1, "p1", Some(1), Some(1), [None; 5])];
    assert_eq!(get_profile_by_id(&profiles, 2).err().unwrap(), "Failed to get profile with id '2'");
    assert_eq!(find_profile_by_name(&profiles, "p1").unwrap().id, 1);
    let editors: Vec<Editor> = vec![];
    assert_eq!(get_editor_by_path(&editors, "/x").err().unwrap(), "Failed to get editor with path '/x'");
}

#[test]
fn maps_by_ids_skip_zero_and_keep_slot_order() {
    let maps = vec![map(1, "/m/a.wad"), map(2, "/m/b.wad"), map(3, "/m/c.wad")];
    let found = get_maps_by_ids(&maps, (3, 0, 1, 0, 2)).unwrap();
    let ids: Vec<i32> = found.iter().map(|m| m.id).collect();
    assert_eq!(ids, vec![3, 1, 2]);
    assert!(get_maps_by_ids(&maps, (0, 0, 0, 0, 0)).unwrap().is_empty());
    assert_eq!(get_maps_by_ids(&maps, (1, 8, 9, 0, 0)).err().unwrap(), "Failed to get map with id '8'");
}

#[test]
fn profile_display_list_uses_defaults_for_missing_links() {
    let engines = vec![engine(1, "/doom/gzdoom.exe")];
    let iwads = vec![iwad(1, "/doom/doom2.wad")];
    let maps = vec![map(1, "/maps/a.wad")];
    let profiles = vec![
        profile(1, "full", Some(1), Some(1), [Some(1), None, None, None, None]),
        profile(2, "empty", None, Some(9), [None; 5]),
    ];
    let list = get_profile_display_list(&profiles, &engines, &iwads, &maps);
    assert_eq!(list.len(), 2);
    assert_eq!(list[0].engine_file, "gzdoom.exe");
    assert_eq!(list[0].engine_path, "/doom");
    assert_eq!(list[0].iwad_file, "doom2.wad");
    assert_eq!(list[0].map_files.0, "a.wad");
    assert_eq!(list[0].map_files.1, "Not set");
    assert_eq!(list[0].map_paths.1, "");
    assert_eq!(list[0].additional_arguments, "-fast");
    assert_eq!(list[0].run_count, 7);
    assert_eq!(list[1].engine_app_name, "Not set");
    assert_eq!(list[1].engine_version, "-");
    assert_eq!(list[1].iwad_file, "Not set");
    assert_eq!(list[1].engine_id, 0);
    assert_eq!(list[1].iwad_id, 9);
}

#[test]
fn profile_display_by_id_reports_first_missing_link() {
    let engines = vec![engine(1, "/doom/gzdoom.exe")];
    let iwads = vec![iwad(1, "/doom/doom2.wad")];
    let maps = vec![map(1, "/maps/a.wad")];
    let profiles = vec![
        profile(1, "ok", Some(1), Some(1), [Some(1), None, None, None, None]),
        profile(2, "bad engine", Some(5), Some(6), [None; 5]),
        profile(3, "bad map", Some(1), Some(1), [Some(1), Some(4), None, None, None]),
    ];
    let d = get_profile_display_by_id(&profiles, &engines, &iwads, &maps, 1).unwrap();
    assert_eq!(d.display_text(), "ok (a.wad) / gzdoom.exe [1.0] / doom2.wad");
    assert_eq!(get_profile_display_by_id(&profiles, &engines, &iwads, &maps, 2).err().unwrap(), "Failed to get engine with id '5'");
    assert_eq!(get_profile_display_by_id(&profiles, &engines, &iwads, &maps, 3).err().unwrap(), "Failed to get map with id '4'");
    assert_eq!(get_profile_display_by_id(&profiles, &engines, &iwads, &maps, 4).err().unwrap(), "Failed to get profile with id '4'");
}

#[test]
fn app_settings_display_shows_linked_records() {
    let engines = vec![engine(1, "/doom/gzdoom.exe")];
    let iwads = vec![iwad(1, "/doom/doom2.wad")];
    let maps = vec![map(1, "/maps/a.wad")];
    let profiles = vec![profile(1, "ok", Some(1), Some(1), [None; 5])];
    let editors: Vec<Editor> = vec![];
    let mut s = AppSettings::default();
    s.default_profile_id = Some(1);
    s.default_engine_id = Some(1);
    s.map_search_folder = Some("/maps".to_string());
    s.menu_mode = MenuMode::Full;
    let d = get_app_settings_display(&s, &profiles, &engines, &iwads, &maps, &editors).unwrap();
    assert_eq!(d.menu_mode, "Full");
    assert_eq!(d.default_profile, "ok / gzdoom.exe [1.0] / doom2.wad");
    assert_eq!(d.last_profile, "Not set");
    assert_eq!(d.default_engine, "Engine1 (/doom/gzdoom.exe [1.0], GZDoom)");
    assert_eq!(d.default_iwad, "Not set");
    assert_eq!(d.map_search_folder, "/maps");
    assert_eq!(d.engine_search_folder, "Not set");
    s.default_editor_id = Some(3);
    assert_eq!(get_app_settings_display(&s, &profiles, &engines, &iwads, &maps, &editors).err().unwrap(), "Failed to get editor with id '3'");
}

#[test]
fn links_to_profiles() {
    let profiles = vec![profile(1, "p", Some(2), Some(3), [None, None, None, None, Some(9)])];
    assert!(is_engine_linked_to_profiles(&profiles, 2));
    assert!(!is_engine_linked_to_profiles(&profiles, 3));
    assert!(is_iwad_linked_to_profiles(&profiles, 3));
    assert!(is_map_linked_to_profiles(&profiles, 9));
    assert!(!is_map_linked_to_profiles(&profiles, 2));
}

#[test]
fn profile_display_by_id_matches_list_entry() {
    let engines = vec![engine(1, "/doom/gzdoom.exe"), engine(2, "/doom/dsda.exe")];
    let iwads = vec![iwad(1, "/doom/doom2.wad")];
    let maps = vec![map(1, "/maps/a.wad"), map(2, "/maps/b.wad")];
    let profiles = vec![
        profile(1, "first", Some(1), Some(1), [Some(1), None, None, None, None]),
        profile(2, "second", Some(2), None, [Some(2), Some(1), None, None, None]),
    ];
    let list = get_profile_display_list(&profiles, &engines, &iwads, &maps);
    for (i, id) in [(0usize, 1), (1usize, 2)] {
        let d = get_profile_display_by_id(&profiles, &engines, &iwads, &maps, id).unwrap();
        let l = &list[i];
        assert_eq!((d.id, &d.name, d.engine_id, &d.engine_app_name), (l.id, &l.name, l.engine_id, &l.engine_app_name));
        assert_eq!((&d.engine_path, &d.engine_file, &d.engine_version), (&l.engine_path, &l.engine_file, &l.engine_version));
        assert_eq!((d.iwad_id, &d.iwad_path, &d.iwad_file), (l.iwad_id, &l.iwad_path, &l.iwad_file));
        assert_eq!((d.map_ids, &d.map_paths, &d.map_files), (l.map_ids, &l.map_paths, &l.map_files));
        assert_eq!((&d.additional_arguments, d.date_created, d.date_edited, d.date_last_run, d.run_count),
            (&l.additional_arguments, l.date_created, l.date_edited, l.date_last_run, l.run_count));
    }
    assert_eq!(list[1].iwad_file, "Not set");
    assert_eq!(list[1].map_files.1, "a.wad");
}

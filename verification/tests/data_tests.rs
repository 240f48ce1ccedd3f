use doom_cli::constants::DEFAULT_NOT_SET;
use doom_cli::data::{
    comp_level_from_number, comp_level_from_text, comp_level_name, comp_level_number,
    display_combined_map_strings, display_combined_tabled_map_strings, display_option_comp_level,
    display_option_string, display_option_u32, display_option_u8, map_ids_from_options,
    AppSettings, CompLevel, Editor, Engine, FileVersion, Iwad, MapRecord, PlaySettings,
    ProfileDisplay,
};
use doom_cli::doom_data::{GameEngineType, InternalWadType};
use doom_cli::tui::MenuMode;

fn strings(v: [&str; 5]) -> (String, String, String, String, String) {
    (v[0].to_string(), v[1].to_string(), v[2].to_string(), v[3].to_string(), v[4].to_string())
}

#[test]
fn file_version_display() {
    let v = FileVersion {
        app_name: "GZDoom".to_string(),
        path: "/x".to_string(),
        major: 4,
        minor: 11,
        build: 3,
        revision: 0,
    };
    assert_eq!(v.display_version(), "4.11.3.0");
}

#[test]
fn record_display_texts() {
    let e = Engine {
        id: 1,
        app_name: "GZDoom".to_string(),
        path: "/doom/gzdoom.exe".to_string(),
        internal_path: None,
        version: "4.11.3.0".to_string(),
        game_engine_type: GameEngineType::GzDoom,
    };
    assert_eq!(e.display_text(), "GZDoom (/doom/gzdoom.exe [4.11.3.0], GZDoom)");
    let w = Iwad { id: 2, path: "/doom/doom2.wad".to_string(), internal_wad_type: InternalWadType::Doom2 };
    assert_eq!(w.display_text(), "Doom II (/doom/doom2.wad)");
    let m = MapRecord {
        id: 3,
        title: "Sunlust".to_string(),
        author: "Ribbiks".to_string(),
        path: "/maps/sunlust.wad".to_string(),
    };
    assert_eq!(m.display_text(), "Sunlust by 'Ribbiks' (/maps/sunlust.wad)");
    let ed = Editor {
        id: 4,
        app_name: "Ultimate Doom Builder".to_string(),
        path: "/udb/builder.exe".to_string(),
        load_file_argument: None,
        additional_arguments: None,
        version: "3.0".to_string(),
    };
    assert_eq!(ed.display_text(), "Ultimate Doom Builder (/udb/builder.exe [3.0])");
}

#[test]
fn defaults_are_not_set() {
    let e = Engine::default();
    assert_eq!((e.id, e.app_name.as_str(), e.path.as_str(), e.version.as_str()), (0, DEFAULT_NOT_SET, DEFAULT_NOT_SET, "-"));
    assert_eq!(e.game_engine_type, GameEngineType::Unknown);
    let w = Iwad::default();
    assert_eq!(w.path, DEFAULT_NOT_SET);
    let m = MapRecord::default();
    assert_eq!((m.title.as_str(), m.author.as_str(), m.path.as_str()), (DEFAULT_NOT_SET, DEFAULT_NOT_SET, DEFAULT_NOT_SET));
    let s = AppSettings::default();
    assert_eq!(s.menu_mode, MenuMode::Simple);
    assert!(s.default_profile_id.is_none() && s.engine_search_folder.is_none());
    let p = PlaySettings::default();
    assert!(p.comp_level.is_none() && !p.fast_monsters && p.additional_arguments.is_none());
}

#[test]
fn optional_values_display_not_set() {
    assert_eq!(display_option_u8(&Some(4)), "4");
    assert_eq!(display_option_u8(&None), "Not set");
    assert_eq!(display_option_u32(&Some(43800)), "43800");
    assert_eq!(display_option_u32(&None), "Not set");
    assert_eq!(display_option_string(&Some("x.cfg".to_string())), "x.cfg");
    assert_eq!(display_option_string(&None), "Not set");
    assert_eq!(display_option_comp_level(&Some(CompLevel::Mbf21)), "MBF 21 (21)");
    assert_eq!(display_option_comp_level(&None), "Not set");
}

#[test]
fn comp_levels_name_number_and_parse() {
    assert_eq!(comp_level_name(CompLevel::Boom), "Boom (6)");
    assert_eq!(comp_level_number(CompLevel::Boom), 7);
    assert_eq!(comp_level_number(CompLevel::PrBoomPlus), 17);
    assert_eq!(comp_level_from_number(21), Some(CompLevel::Mbf21));
    assert_eq!(comp_level_from_number(12), None);
    assert_eq!(comp_level_from_text("TASDoom (6)"), Some(CompLevel::TasDoom));
    assert_eq!(comp_level_from_text("Boom (6)"), Some(CompLevel::Boom));
    assert_eq!(comp_level_from_text("Boom"), None);
}

#[test]
fn map_ids_default_to_zero() {
    assert_eq!(map_ids_from_options(Some(1), None, Some(3), None, Some(5)), (1, 0, 3, 0, 5));
}

#[test]
fn combined_map_strings_skip_empty_and_not_set() {
    let data = strings(["a.wad", "", "Not set", "b.wad", "c.wad"]);
    assert_eq!(display_combined_map_strings(&data), "a.wad, b.wad, c.wad");
    assert_eq!(display_combined_tabled_map_strings(&data), "a.wad\nb.wad\nc.wad");
    let none = strings(["", "Not set", "", "", "Not set"]);
    assert_eq!(display_combined_map_strings(&none), "");
}

#[test]
fn profile_display_text_with_and_without_maps() {
    let mut p = ProfileDisplay {
        id: 1,
        name: "UV run".to_string(),
        engine_id: 1,
        engine_app_name: "GZDoom".to_string(),
        engine_path: "/doom".to_string(),
        engine_file: "gzdoom.exe".to_string(),
        engine_version: "4.11".to_string(),
        iwad_id: 2,
        iwad_path: "/doom".to_string(),
        iwad_file: "doom2.wad".to_string(),
        map_ids: (3, 0, 0, 0, 0),
        map_paths: strings(["/maps", "", "", "", ""]),
        map_files: strings(["sunlust.wad", "Not set", "Not set", "Not set", "Not set"]),
        additional_arguments: String::new(),
        date_created: 0,
        date_edited: 0,
        date_last_run: None,
        run_count: 0,
    };
    assert_eq!(p.display_text(), "UV run (sunlust.wad) / gzdoom.exe [4.11] / doom2.wad");
    p.map_files = strings(["Not set", "Not set", "Not set", "Not set", "Not set"]);
    assert_eq!(p.display_text(), "UV run / gzdoom.exe [4.11] / doom2.wad");
}


#[test]
fn comma_map_text_is_line_text_with_commas() {
    let data = strings(["a.wad", "", DEFAULT_NOT_SET, "d.wad", "e.wad"]);
    let lines = display_combined_tabled_map_strings(&data);
    assert_eq!(lines, "a.wad\nd.wad\ne.wad");
    assert_eq!(display_combined_map_strings(&data), lines.replace("\n", ", "));
    let unset = strings(["", DEFAULT_NOT_SET, "", "", DEFAULT_NOT_SET]);
    assert_eq!(display_combined_map_strings(&unset), "");
    assert_eq!(display_combined_tabled_map_strings(&unset), "");
}

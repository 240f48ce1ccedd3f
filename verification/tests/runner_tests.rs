use doom_cli::data::{AppSettings, CompLevel, Editor, Engine, Iwad, MapRecord, PlaySettings, Profile};
use doom_cli::doom_data::{GameEngineType, InternalWadType};
use doom_cli::runner::{
    add_arguments_to_command, editor, engine_launch_path, open_map_readme_message,
    play_from_engine_iwad_and_map, play_from_profile, record_last_profile, run_message,
    LaunchCommand,
};

fn tables() -> (Vec<Engine>, Vec<Iwad>, Vec<MapRecord>) {
    let engines = vec![
        Engine {
            id: 1,
            app_name: "GZDoom".to_string(),
            path: "/doom/gzdoom".to_string(),
            internal_path: None,
            version: "4".to_string(),
            game_engine_type: GameEngineType::GzDoom,
        },
        Engine {
            id: 2,
            app_name: "GZDoom".to_string(),
            path: "/Apps/gzdoom.app".to_string(),
            internal_path: Some("Contents/MacOS/gzdoom".to_string()),
            version: "4".to_string(),
            game_engine_type: GameEngineType::GzDoom,
        },
    ];
    let iwads = vec![Iwad { id: 1, path: "/doom/doom2.wad".to_string(), internal_wad_type: InternalWadType::Doom2 }];
    let maps = vec![
        MapRecord { id: 1, title: "A".to_string(), author: "x".to_string(), path: "/maps/a.wad".to_string() },
        MapRecord { id: 2, title: "B".to_string(), author: "x".to_string(), path: "/maps/b.wad".to_string() },
    ];
    (engines, iwads, maps)
}

fn existing() -> Vec<String> {
    vec!["/doom/gzdoom", "/doom/doom2.wad", "/maps/a.wad", "/Apps/gzdoom.app/Contents/MacOS/gzdoom"]
        .into_iter()
        .map(|s| s.to_string())
        .collect()
}

#[test]
fn engine_inside_a_bundle_is_joined() {
    let (engines, _, _) = tables();
    assert_eq!(engine_launch_path(&engines[1]), "/Apps/gzdoom.app/Contents/MacOS/gzdoom");
    assert_eq!(engine_launch_path(&engines[0]), "/doom/gzdoom");
}

#[test]
fn play_builds_arguments_in_order() {
    let (engines, iwads, maps) = tables();
    let mut ps = PlaySettings::default();
    ps.comp_level = Some(CompLevel::Mbf21);
    ps.fast_monsters = true;
    ps.warp = Some(" 1  3 ".to_string());
    ps.skill = Some(4);
    ps.windowed = true;
    ps.additional_arguments = Some("-nomusic".to_string());
    let c = play_from_engine_iwad_and_map(&engines, &iwads, &maps, 1, 1, (1, 0, 0, 0, 0), &Some("-x 'a b'".to_string()), &ps, &existing()).ok().unwrap();
    assert_eq!(c.program, "/doom/gzdoom");
    assert_eq!(
        c.args,
        vec!["-iwad", "/doom/doom2.wad", "-file", "/maps/a.wad", "-x", "a b", "-complevel", "MBF 21 (21)", "-fast", "-warp", "1", "3", "-skill", "4", "-window", "-nomusic"]
    );
}

#[test]
fn play_without_maps_and_settings() {
    let (engines, iwads, maps) = tables();
    let c = play_from_engine_iwad_and_map(&engines, &iwads, &maps, 2, 1, (0, 1, 0, 0, 0), &None, &PlaySettings::default(), &existing()).ok().unwrap();
    assert_eq!(c.program, "/Apps/gzdoom.app/Contents/MacOS/gzdoom");
    assert_eq!(c.args, vec!["-iwad", "/doom/doom2.wad"]);
}

#[test]
fn play_aborts_on_missing_records_and_files() {
    let (engines, iwads, maps) = tables();
    let ps = PlaySettings::default();
    let err = |r: Result<LaunchCommand, String>| r.err().unwrap();
    assert_eq!(err(play_from_engine_iwad_and_map(&engines, &iwads, &maps, 9, 1, (0, 0, 0, 0, 0), &None, &ps, &existing())), "Failed to get engine with id '9'");
    assert_eq!(err(play_from_engine_iwad_and_map(&engines, &iwads, &maps, 1, 9, (0, 0, 0, 0, 0), &None, &ps, &existing())), "Failed to get internal wad with id '9'");
    assert_eq!(err(play_from_engine_iwad_and_map(&engines, &iwads, &maps, 1, 1, (0, 0, 0, 0, 0), &None, &ps, &vec![])), "Play aborted, Engine not found - '/doom/gzdoom'");
    assert_eq!(err(play_from_engine_iwad_and_map(&engines, &iwads, &maps, 1, 1, (0, 0, 0, 0, 0), &None, &ps, &vec!["/doom/gzdoom".to_string()])), "Play aborted, IWAD not found - '/doom/doom2.wad'");
    assert_eq!(err(play_from_engine_iwad_and_map(&engines, &iwads, &maps, 1, 1, (1, 2, 0, 0, 0), &None, &ps, &existing())), "Play aborted, Map not found - '/maps/b.wad'");
    assert_eq!(err(play_from_engine_iwad_and_map(&engines, &iwads, &maps, 1, 1, (1, 7, 0, 0, 0), &None, &ps, &existing())), "Failed to get map with id '7'");
}

#[test]
fn play_profile_and_remember_it() {
    let (engines, iwads, maps) = tables();
    let profiles = vec![Profile {
        id: 4,
        name: "p".to_string(),
        engine_id: Some(1),
        iwad_id: Some(1),
        map_id: Some(1),
        map_id2: None,
        map_id3: None,
        map_id4: None,
        map_id5: None,
        date_created: 0,
        date_edited: 0,
        date_last_run: None,
        run_count: 0,
        additional_arguments: Some("-nosound".to_string()),
    }];
    let c = play_from_profile(&profiles, &engines, &iwads, &maps, 4, &PlaySettings::default(), &existing()).ok().unwrap();
    assert_eq!(c.args, vec!["-iwad", "/doom/doom2.wad", "-file", "/maps/a.wad", "-nosound"]);
    assert_eq!(play_from_profile(&profiles, &engines, &iwads, &maps, 5, &PlaySettings::default(), &existing()).err().unwrap(), "Failed to get profile with id '5'");
    let mut s = AppSettings::default();
    record_last_profile(&mut s, 4, false);
    assert!(s.last_profile_id.is_none());
    record_last_profile(&mut s, 4, true);
    assert_eq!(s.last_profile_id, Some(4));
}

#[test]
fn additional_arguments_split_like_a_shell() {
    let mut args: Vec<String> = vec!["-iwad".to_string()];
    add_arguments_to_command(&mut args, &Some("-file \"my map.wad\" -skill 3".to_string()));
    assert_eq!(args, vec!["-iwad", "-file", "my map.wad", "-skill", "3"]);
    let mut args2: Vec<String> = vec![];
    add_arguments_to_command(&mut args2, &Some("C:\\doom\\x.wad".to_string()));
    assert_eq!(args2, vec!["C:\\doom\\x.wad"]);
    let mut args3: Vec<String> = vec![];
    add_arguments_to_command(&mut args3, &Some("'unclosed".to_string()));
    assert!(args3.is_empty());
}

#[test]
fn editor_command_and_messages() {
    let e = Editor {
        id: 1,
        app_name: "UDB".to_string(),
        path: "/udb/builder".to_string(),
        load_file_argument: Some("-map".to_string()),
        additional_arguments: Some("-a 'b c'".to_string()),
        version: "3".to_string(),
    };
    let c = editor("/maps/a.wad", &e);
    assert_eq!(c.program, "/udb/builder");
    assert_eq!(c.args, vec!["-map", "/maps/a.wad", "-a", "b c"]);
    assert_eq!(run_message("Editor", &c), "Editor '\x1b[35m/udb/builder\x1b[39m', Args '\x1b[34m-map /maps/a.wad -a b c\x1b[39m'");
    assert_eq!(open_map_readme_message("/maps/a.wad", &None), "No Map Readme found for Map - '/maps/a.wad'");
    assert_eq!(
        open_map_readme_message("/maps/a.wad", &Some("/maps/a.txt".to_string())),
        "Opened Map Readme for Map - '\x1b[35m/maps/a.txt\x1b[39m' / '\x1b[34m/maps/a.wad\x1b[39m'"
    );
}

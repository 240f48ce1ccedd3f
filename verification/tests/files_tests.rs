use doom_cli::doom_data::{get_engine_list, get_internal_wad_list, GameEngineType, InternalWadType, OperatingSystem};
use doom_cli::files::{
    check_readme_line, closest_readme, get_details_from_readme, get_game_engine_from_exe_name,
    get_internal_wad_type_from_file_name, get_map_readme_file_name,
    get_map_readme_using_levenshtein, get_version_from_exe_name, is_iwad, is_pwad,
    map_file_extension, readme_candidate, replace_str, similarity_threshold, strip_versioning,
    VersionSource,
};

#[test]
fn readme_candidate_for_map_files_only() {
    assert_eq!(readme_candidate("/Maps/Sunlust.WAD"), Some("/maps/sunlust.txt".to_string()));
    assert_eq!(readme_candidate("/maps/x.pk3"), Some("/maps/x.txt".to_string()));
    assert_eq!(readme_candidate("/maps/x.zip"), None);
    assert_eq!(readme_candidate("/maps/noext"), None);
}

#[test]
fn replace_every_occurrence() {
    assert_eq!(replace_str("a.wad.wad", ".wad", ".txt"), "a.txt.txt");
    assert_eq!(replace_str("aaa", "aa", "b"), "ba");
    assert_eq!(replace_str("abc", "", "x"), "xaxbxcx");
    assert_eq!(replace_str("", "", "x"), "x");
    assert_eq!(replace_str("", "a", "x"), "");
}

#[test]
fn threshold_is_half_the_length_rounded_up() {
    assert_eq!(similarity_threshold("abcd"), 2);
    assert_eq!(similarity_threshold("abcde"), 3);
    assert_eq!(similarity_threshold(""), 0);
    assert_eq!(similarity_threshold("é"), 1);
}

#[test]
fn versioning_is_stripped() {
    assert_eq!(strip_versioning("eviternity-2.29"), "eviternity");
    assert_eq!(strip_versioning("sunlust-RC1"), "sunlust");
    assert_eq!(strip_versioning("eviternity-2.29-RC1"), "eviternity1");
    assert_eq!(strip_versioning("sunlust"), "sunlust");
    assert_eq!(strip_versioning("map_v2"), "map");
}

#[test]
fn closest_readme_by_levenshtein() {
    let files = vec!["/m/readme.txt".to_string(), "/m/sunlst.txt".to_string(), "/m/sunlust2.txt".to_string()];
    assert_eq!(get_map_readme_using_levenshtein("/m/sunlust-1.2.wad", &files), Some("/m/sunlst.txt".to_string()));
    assert_eq!(get_map_readme_using_levenshtein("/m/zzz.wad", &files), None);
    assert_eq!(get_map_readme_using_levenshtein("/m/a.wad", &vec![]), None);
}

#[test]
fn readme_file_name_steps() {
    let files = Some(vec!["/m/sunlst.txt".to_string()]);
    assert_eq!(get_map_readme_file_name("/m/Sunlust.wad", true, &files), Some("/m/sunlust.txt".to_string()));
    assert_eq!(get_map_readme_file_name("/m/sunlust.wad", false, &files), Some("/m/sunlst.txt".to_string()));
    assert_eq!(get_map_readme_file_name("/m/sunlust.wad", false, &None), None);
    assert_eq!(get_map_readme_file_name("/m/sunlust.zip", true, &files), None);
}

#[test]
fn readme_lines_give_title_and_author() {
    assert_eq!(check_readme_line("Title     : Sunlust", "title"), Some("Sunlust".to_string()));
    assert_eq!(check_readme_line("TITLE: a: b", "title"), Some("a".to_string()));
    assert_eq!(check_readme_line("Title", "title"), None);
    assert_eq!(check_readme_line("Author: x", "title"), None);
    let lines = vec!["Title : First".to_string(), "Author : Me".to_string(), "Title : Later".to_string()];
    assert_eq!(get_details_from_readme("/m/a.wad", &Some(lines)), ("First".to_string(), "Me".to_string()));
    let only_title = vec!["Title : One".to_string(), "Title : Two".to_string()];
    assert_eq!(get_details_from_readme("/m/a.wad", &Some(only_title)), ("Two".to_string(), "Unknown".to_string()));
    assert_eq!(get_details_from_readme("/m/a.wad", &None), ("a.wad".to_string(), "Unknown".to_string()));
}

#[test]
fn engines_and_iwads_by_file_name() {
    let engines = get_engine_list(OperatingSystem::Windows);
    let e = get_game_engine_from_exe_name(&engines, "C:/Games/GZDoom.EXE").ok().unwrap();
    assert_eq!(e.game_engine_type, GameEngineType::GzDoom);
    assert_eq!(get_game_engine_from_exe_name(&engines, "/x/zdoom.exe").err().unwrap(), "Unable to find engine type for exe name 'zdoom.exe'");
    let iwads = get_internal_wad_list();
    assert_eq!(get_internal_wad_type_from_file_name(&iwads, "/doom/doom2.wad"), Ok(InternalWadType::Doom2));
    assert_eq!(get_internal_wad_type_from_file_name(&iwads, "/doom/mine.wad").err().unwrap(), "Unable to find internal wad type for file name 'mine.wad'");
}

#[test]
fn version_source_by_engine_type() {
    assert_eq!(get_version_from_exe_name(GameEngineType::PrBoomPlus), Ok(VersionSource::PrBoomOutput));
    assert_eq!(get_version_from_exe_name(GameEngineType::Woof), Ok(VersionSource::FileVersion));
    assert_eq!(get_version_from_exe_name(GameEngineType::Unknown).err().unwrap(), "Unknown game engine type");
}

#[test]
fn wad_headers() {
    assert!(is_iwad("/d/DOOM2.WAD", &Some(*b"IWAD")));
    assert!(!is_iwad("/d/doom2.wad", &Some(*b"PWAD")));
    assert!(!is_iwad("/d/doom2.pk3", &Some(*b"IWAD")));
    assert!(!is_iwad("/d/doom2.wad", &None));
    assert!(is_pwad("/d/map.wad", &Some(*b"PWAD")));
    assert!(map_file_extension("/d/map.WAD", &Some(*b"PWAD")));
    assert!(!map_file_extension("/d/map.wad", &Some(*b"IWAD")));
    assert!(map_file_extension("/d/map.pk3", &None));
    assert!(!map_file_extension("/d/map.zip", &None));
}

#[test]
fn every_known_iwad_is_recognised_whatever_its_case() {
    let iwads = get_internal_wad_list();
    for w in &iwads {
        let upper = format!("/games/{}", w.file_name);
        let lower = format!("/games/{}", w.file_name.to_lowercase());
        assert_eq!(get_internal_wad_type_from_file_name(&iwads, &upper), Ok(w.internal_wad_type));
        assert_eq!(get_internal_wad_type_from_file_name(&iwads, &lower), Ok(w.internal_wad_type));
    }
    assert_eq!(get_internal_wad_type_from_file_name(&iwads, "C:\\Doom\\Heretic1.Wad"), Ok(InternalWadType::HereticShareware));
}

#[test]
fn every_known_engine_is_recognised_whatever_its_case() {
    for os in [OperatingSystem::Windows, OperatingSystem::Linux, OperatingSystem::MacOs] {
        let engines = get_engine_list(os);
        for e in &engines {
            let upper = format!("/games/{}", e.exe_name.to_uppercase());
            let found = get_game_engine_from_exe_name(&engines, &upper).unwrap();
            assert_eq!(found.exe_name, e.exe_name);
            assert_eq!(found.game_engine_type, e.game_engine_type);
        }
    }
}

#[test]
fn closest_readme_takes_first_of_equal_distance() {
    let files = vec!["/m/abd.txt".to_string(), "/m/abe.txt".to_string(), "/m/zzzzzz.txt".to_string()];
    assert_eq!(closest_readme("abc", &files), Some("/m/abd.txt".to_string()));
    assert_eq!(closest_readme("abc", &vec!["/m/abc.txt".to_string(), "/m/abd.txt".to_string()]), Some("/m/abc.txt".to_string()));
    assert_eq!(closest_readme("abcdef", &vec!["/m/zzzzzz.txt".to_string()]), None);
    assert_eq!(closest_readme("abc", &vec![]), None);
}

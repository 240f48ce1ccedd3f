use doom_cli::paths::{get_matches_count, truncate_middle, 
    extract_file_name, extract_file_name_no_extension, extract_path, get_base_name, get_full_path,
    resolve_path, resolve_path_opt,
};
use doom_cli::settings::get_config_filename;

#[test]
fn extract_parts_of_a_path() {
    assert_eq!(extract_path("/doom/maps/e1m1.wad"), "/doom/maps");
    assert_eq!(extract_file_name("/doom/maps/e1m1.wad"), "e1m1.wad");
    assert_eq!(extract_file_name_no_extension("/doom/maps/e1m1.wad"), "e1m1");
    assert_eq!(get_base_name("/doom/maps/archive.tar.gz"), "archive.tar");
    assert_eq!(get_base_name(".hidden"), ".hidden");
}

#[test]
fn extract_parts_of_edge_paths() {
    assert_eq!(extract_path("e1m1.wad"), "");
    assert_eq!(extract_path("/"), "");
    assert_eq!(extract_file_name("/"), "");
    assert_eq!(extract_file_name("/doom/maps/"), "maps");
    assert_eq!(extract_file_name("/doom/.."), "");
    assert_eq!(extract_path("./a"), ".");
    assert_eq!(extract_path("a//b"), "a");
    assert_eq!(extract_file_name_no_extension(""), "");
}

#[test]
fn full_path_joins_with_one_separator() {
    assert_eq!(get_full_path("/doom", "gzdoom"), "/doom/gzdoom");
    assert_eq!(get_full_path("/doom/", "gzdoom"), "/doom/gzdoom");
    assert_eq!(get_full_path("", "gzdoom"), "gzdoom");
    assert_eq!(get_full_path("/doom", "/abs"), "/abs");
    assert_eq!(get_config_filename("/opt/doom", "App.toml"), "/opt/doom/App.toml");
}

#[test]
fn resolve_home_on_macos_only() {
    assert_eq!(resolve_path("~/doom", true, Some("/Users/me")), "/Users/me/doom");
    assert_eq!(resolve_path("~/doom", false, Some("/Users/me")), "~/doom");
    assert_eq!(resolve_path("~/doom", true, None), "~/doom");
    assert_eq!(resolve_path("/x/~/y", true, Some("/h")), "/x/~/y");
    assert_eq!(resolve_path_opt(None, true, Some("/h")), None);
    assert_eq!(resolve_path_opt(Some("~/a".to_string()), true, Some("/h")), Some("/h/a".to_string()));
}

#[test]
fn long_paths_lose_their_middle() {
    assert_eq!(truncate_middle("abcdefghij", 10), "abcdefghij");
    assert_eq!(truncate_middle("abcdefghij", 4), "abcd..ghij");
    assert_eq!(truncate_middle("abcdefghij", 0), "abcde..fghij");
    assert_eq!(truncate_middle("/home/user/doom/wads/level.wad", 12), "/home/user../level.wad");
    assert_eq!(truncate_middle("ab", 1), "a..b");
}

#[test]
fn cuts_move_to_character_boundaries() {
    assert_eq!(truncate_middle("aéébcdéfgh", 6), "aéé..éfgh");
    assert_eq!(truncate_middle("日本語のパス名", 5), "日本語..のパス名");
}

#[test]
fn match_counts() {
    assert_eq!(get_matches_count(0), "0 matches");
    assert_eq!(get_matches_count(3), "\x1b[32m3 matches\x1b[39m");
}

#[test]
fn joined_file_name_comes_back() {
    for base in ["/doom", "/doom/", "", "C:\\Games\\Doom", "relative/dir"] {
        for name in ["gzdoom.exe", "a", "doom2.wad"] {
            assert_eq!(extract_file_name(&get_full_path(base, name)), name);
        }
    }
}

#[test]
fn joined_path_splits_back() {
    let joined = get_full_path("/maps", "e1m4b.wad");
    assert_eq!(joined, "/maps/e1m4b.wad");
    assert_eq!(extract_path(&joined), "/maps");
    assert_eq!(extract_file_name(&joined), "e1m4b.wad");
    let rooted = get_full_path("/", "doom.wad");
    assert_eq!(rooted, "/doom.wad");
    assert_eq!((extract_path(&rooted).as_str(), extract_file_name(&rooted).as_str()), ("/", "doom.wad"));
    let bare = get_full_path("", "doom.wad");
    assert_eq!((extract_path(&bare).as_str(), extract_file_name(&bare).as_str()), ("", "doom.wad"));
}

use doom_cli::finder::{parse_file_version_to_u32, version_splits_cleanly};

#[test]
fn test_parse_file_version_to_u32_happy_path_simple_number() {
    let version = "5.0.4.1";
    let expected = ("".to_string(), 5, 0, 4, Some(1), "".to_string());
    let actual = parse_file_version_to_u32(version);
    assert!(actual.is_some());
    let actual_unwrapped = actual.unwrap();
    assert_eq!(actual_unwrapped, expected);
}

#[test]
fn test_parse_file_version_to_u32_happy_path_gzdoom_number() {
    let version = "g4.11.1a";
    let expected = ("g".to_string(), 4, 11, 1, None, "a".to_string());
    let actual = parse_file_version_to_u32(version);
    assert!(actual.is_some());
    let actual_unwrapped = actual.unwrap();
    assert_eq!(actual_unwrapped, expected);
}

#[test]
fn test_parse_file_version_to_u32_happy_path_prboom_number() {
    let version = "0.26.2";
    let expected = ("".to_string(), 0, 26, 2, None, "".to_string());
    let actual = parse_file_version_to_u32(version);
    assert!(actual.is_some());
    let actual_unwrapped = actual.unwrap();
    assert_eq!(actual_unwrapped, expected);
}

#[test]
fn test_parse_file_version_to_u32_happy_path_full_number() {
    let version = "a5.4.3.2z";
    let expected = ("a".to_string(), 5, 4, 3, Some(2), "z".to_string());
    let actual = parse_file_version_to_u32(version);
    assert!(actual.is_some());
    let actual_unwrapped = actual.unwrap();
    assert_eq!(actual_unwrapped, expected);
}

#[test]
fn parse_file_version_too_few_parts() {
    assert_eq!(parse_file_version_to_u32("4.11"), None);
    assert_eq!(parse_file_version_to_u32(""), None);
}

#[test]
fn parse_file_version_non_numbers_read_as_zero() {
    assert_eq!(
        parse_file_version_to_u32("1.x.99999999999"),
        Some(("".to_string(), 1, 0, 0, None, "".to_string()))
    );
    assert_eq!(
        parse_file_version_to_u32("+7.0.1.2.3"),
        Some(("+".to_string(), 7, 0, 1, None, "".to_string()))
    );
}

use doom_cli::finder::{
    get_prboom_file_version, get_property_from_stdout, prboom_version_from_groups, get_windows_file_description_information,
    get_windows_file_version_information, macos_file_version, windows_file_version,
};

fn lines(v: &[&str]) -> Vec<String> {
    v.iter().map(|s| s.to_string()).collect()
}

#[test]
fn property_from_stdout_takes_first_matching_line_trimmed() {
    let out = lines(&["", "Major    : 4 ", "Minor    : 11", "Major    : 9"]);
    assert_eq!(get_property_from_stdout(&out, "Major    : "), "4");
    assert_eq!(get_property_from_stdout(&out, "Build    : "), "");
    assert_eq!(get_property_from_stdout(&out, ""), "");
    assert_eq!(get_property_from_stdout(&lines(&[" x "]), ""), "x");
}

#[test]
fn windows_version_fields_and_file_version() {
    let out = lines(&["Major    : 4", "Minor    : 11", "Build    : 3", "Revision : 0"]);
    let fields = get_windows_file_version_information(&out);
    assert_eq!(fields, ("4".to_string(), "11".to_string(), "3".to_string(), "0".to_string()));
    let v = windows_file_version("C:\\gz\\gzdoom.exe", &fields, "GZDoom");
    assert_eq!((v.major, v.minor, v.build, v.revision), (4, 11, 3, 0));
    assert_eq!(v.display_version(), "4.11.3.0");
    let bad = ("x".to_string(), "".to_string(), "7".to_string(), "-1".to_string());
    let v2 = windows_file_version("p", &bad, "n");
    assert_eq!((v2.major, v2.minor, v2.build, v2.revision), (0, 0, 7, 0));
}

#[test]
fn windows_app_name_falls_back() {
    let both = lines(&["FileDescription : GZDoom", "ProductName     : Prod"]);
    assert_eq!(get_windows_file_description_information(&both, "C:/x/gzdoom.exe"), "GZDoom");
    let product = lines(&["FileDescription :", "ProductName     : Prod"]);
    assert_eq!(get_windows_file_description_information(&product, "C:/x/gzdoom.exe"), "Prod");
    let none = lines(&["nothing"]);
    assert_eq!(get_windows_file_description_information(&none, "/x/gzdoom.exe"), "gzdoom.exe");
}

#[test]
fn macos_file_version_reads_version_string() {
    let v = macos_file_version("/Apps/GZDoom.app", "g4.11.1a", "GZDoom").unwrap();
    assert_eq!((v.major, v.minor, v.build, v.revision), (4, 11, 1, 0));
    assert_eq!(v.app_name, "GZDoom");
    let e = macos_file_version("/Apps/X.app", "4.11", "X").err().unwrap();
    assert_eq!(e, "Failed to parse the version string - '4.11");
}

#[test]
fn prboom_version_from_output() {
    let v = get_prboom_file_version("dsda-doom.exe", "dsda-doom v0.26.2 (abc)").unwrap();
    assert_eq!(v.app_name, "dsda-doom");
    assert_eq!((v.major, v.minor, v.build, v.revision), (0, 26, 2, 0));
    let e = get_prboom_file_version("x", "no version here").err().unwrap();
    assert_eq!(e, "Unable find version in output from 'no version here");
}

#[test]
fn shown_version_reads_back() {
    for (major, minor, build, revision) in [(4u32, 11u32, 3u32, 0u32), (0, 26, 2, 7), (4294967295, 1, 0, 12)] {
        let fields = (major.to_string(), minor.to_string(), build.to_string(), revision.to_string());
        let v = windows_file_version("p", &fields, "n");
        assert_eq!(
            parse_file_version_to_u32(&v.display_version()),
            Some(("".to_string(), major, minor, build, Some(revision), "".to_string()))
        );
    }
}

#[test]
fn version_strings_beyond_ascii() {
    assert!(version_splits_cleanly("g4.11.1a"));
    assert!(version_splits_cleanly("éab4.1.2"));
    assert_eq!(
        parse_file_version_to_u32("éab4.1.2"),
        Some(("éa".to_string(), 0, 1, 2, None, "".to_string()))
    );
    assert_eq!(
        parse_file_version_to_u32("1.2.3ü"),
        Some(("".to_string(), 1, 2, 3, None, "ü".to_string()))
    );
    assert_eq!(
        parse_file_version_to_u32("1.2.é3x"),
        Some(("".to_string(), 1, 2, 0, None, "é3x".to_string()))
    );
    assert!(!version_splits_cleanly("é4.1.2"));
    assert!(!version_splits_cleanly("1.2.€€a"));
}

#[test]
fn prboom_version_from_given_groups() {
    let groups = vec![Some("v2.6.66".to_string()), Some("2".to_string()), Some("6".to_string()), Some("66".to_string())];
    let v = prboom_version_from_groups("/bin/prboom-plus", "PrBoom-Plus v2.6.66 (x)", Some(groups)).unwrap();
    assert_eq!((v.app_name.as_str(), v.path.as_str()), ("PrBoom-Plus", "/bin/prboom-plus"));
    assert_eq!((v.major, v.minor, v.build, v.revision), (2, 6, 66, 0));
    let partial = vec![Some("v1".to_string()), None];
    let v = prboom_version_from_groups("p", "nothing", Some(partial)).unwrap();
    assert_eq!((v.app_name.as_str(), v.major, v.minor, v.build), ("nothing", 0, 0, 0));
    let e = prboom_version_from_groups("p", "no version", None).err().unwrap();
    assert_eq!(e, "Unable find version in output from 'no version");
}

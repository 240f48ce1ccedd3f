use doom_cli::doomworld_api::{
    doomworld_lookup_filename, lookup_map_from_doomworld_api, parse_doomworld_api_response,
    ApiResponse, ApiResult, Content, DoomworldFile, Error, FileField, Meta, Warning,
};

fn file(id: i32, title: &str) -> DoomworldFile {
    DoomworldFile {
        id,
        title: title.to_string(),
        author: "John Romero".to_string(),
        filename: "e1m4b.zip".to_string(),
        url: "https://www.doomworld.com/idgames/levels/doom/Ports/d-f/e1m4b".to_string(),
        dir: "levels/doom/Ports/d-f/".to_string(),
    }
}

#[test]
fn one_file_answer() {
    let response = ApiResponse {
        error: None,
        warning: None,
        content: Some(Content { file: Some(FileField::One(file(18412, "Phobos Mission Control"))) }),
        meta: Meta { version: 3 },
    };
    let r = parse_doomworld_api_response(response).unwrap();
    assert!(r.message.is_empty());
    assert_eq!(r.files.len(), 1);
    assert_eq!(r.files[0].id, 18412);
    assert_eq!(r.files[0].short_display(), "Phobos Mission Control by John Romero (e1m4b.zip)");
}

#[test]
fn many_files_and_warnings() {
    let response = ApiResponse {
        error: Some(Error { error_type: "e".to_string(), message: "bad".to_string() }),
        warning: Some(Warning { warning_type: "w".to_string(), message: "No files returned for query \"x\".".to_string() }),
        content: Some(Content { file: Some(FileField::Many(vec![file(1, "a"), file(2, "b")])) }),
        meta: Meta { version: 3 },
    };
    let r = parse_doomworld_api_response(response).unwrap();
    assert_eq!(r.message, "Warning - No files returned for query \"x\".");
    assert_eq!(r.files.len(), 2);
    let only_error = ApiResponse {
        error: Some(Error { error_type: "e".to_string(), message: "bad".to_string() }),
        warning: None,
        content: Some(Content { file: Some(FileField::Other) }),
        meta: Meta { version: 3 },
    };
    let r = parse_doomworld_api_response(only_error).unwrap();
    assert_eq!(r.message, "Error - bad");
    assert!(r.files.is_empty());
}

#[test]
fn other_api_version_is_refused() {
    let response = ApiResponse { error: None, warning: None, content: None, meta: Meta { version: 2 } };
    assert_eq!(parse_doomworld_api_response(response).err().unwrap(), "Error, unexpected Doomworld API version: 2 (expected 3)");
}

#[test]
fn lookup_takes_the_first_file() {
    assert_eq!(doomworld_lookup_filename("/maps/e1m4b.wad"), "e1m4b.zip");
    let found = ApiResult { message: String::new(), files: vec![file(7, "T"), file(8, "U")] };
    let (title, author, id, url) = lookup_map_from_doomworld_api(&found);
    assert_eq!((title.as_str(), author.as_str(), id), ("T", "John Romero", Some(7)));
    assert!(url.unwrap().ends_with("e1m4b"));
    let empty = ApiResult { message: String::new(), files: vec![] };
    assert_eq!(lookup_map_from_doomworld_api(&empty), ("Unknown".to_string(), "Unknown".to_string(), None, None));
}

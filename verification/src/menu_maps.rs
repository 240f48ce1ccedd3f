//! The maps menu: viewing a map's readme and searching the Doomworld archive.

use vstd::prelude::*;
use crate::data::{AppSettings, MapRecord, Profile};
use crate::db::{first_match, get_map_by_id, map_has_id};
use crate::doomworld_api::{ApiResult, SEARCH_AUTHOR, SEARCH_FILENAME, SEARCH_TITLE};
use crate::menu_common::{
    get_map_id_from_from_default_profile, get_map_id_from_from_last_profile, pick_from_profile_is,
    MapPick,
};
use crate::menu_editor::PickPrompt;
use crate::text::{concat3, copy_str, signed_decimal};
use crate::tui::{fg_text, yellow};

verus! {

/// The path of the map whose readme is viewed, or the message that it is not found.
pub fn view_map_readme_from_map_id(maps: &Vec<MapRecord>, map_id: i32) -> (r: Result<String, String>)
    ensures
        match first_match(maps@, map_has_id(map_id)) {
            Some(m) => r matches Ok(p) && p@ == m.path@,
            None => r matches Err(e) && e@ == "Unable to get Map for id '"@ + signed_decimal(
                map_id as int,
            ) + "'"@,
        },
{
    match get_map_by_id(maps, map_id) {
        Ok(m) => Ok(m.path),
        Err(_) => {
            let n = crate::text::i32_to_string(map_id);
            Err(concat3("Unable to get Map for id '", n.as_str(), "'"))
        },
    }
}

/// Viewing the readme of a map of the default profile.
pub fn view_from_default_profile(
    app_settings: &AppSettings,
    profiles: &Vec<Profile>,
    maps: &Vec<MapRecord>,
) -> (r: Result<MapPick, String>)
    ensures
        pick_from_profile_is(
            app_settings.default_profile_id,
            "No Default Profile found. "@,
            "Cannot view Map Readme"@,
            profiles@,
            maps@,
            r,
        ),
{
    get_map_id_from_from_default_profile(app_settings, profiles, maps, "Cannot view Map Readme")
}

/// Viewing the readme of a map of the last profile played.
pub fn view_from_last_profile(
    app_settings: &AppSettings,
    profiles: &Vec<Profile>,
    maps: &Vec<MapRecord>,
) -> (r: Result<MapPick, String>)
    ensures
        pick_from_profile_is(
            app_settings.last_profile_id,
            "No Last Profile found. "@,
            "Cannot view Map Readme"@,
            profiles@,
            maps@,
            r,
        ),
{
    get_map_id_from_from_last_profile(app_settings, profiles, maps, "Cannot view Map Readme")
}

/// The prompt for viewing the readme of a map of a profile the user picks.
pub fn view_from_pick_profile() -> (r: PickPrompt)
    ensures
        r.prompt@ == "Pick the Profile to view Map Readme from:"@,
        r.cancel_error@ == "Canceled viewing Map Readme"@,
{
    PickPrompt {
        prompt: copy_str("Pick the Profile to view Map Readme from:"),
        cancel_error: copy_str("Canceled viewing Map Readme"),
    }
}

/// The prompt for viewing the readme of a map the user picks.
pub fn view_from_pick_map() -> (r: PickPrompt)
    ensures
        r.prompt@ == "Pick the Map to view Map Readme from:"@,
        r.cancel_error@ == "Canceled viewing Map Readme"@,
{
    PickPrompt {
        prompt: copy_str("Pick the Map to view Map Readme from:"),
        cancel_error: copy_str("Canceled viewing Map Readme"),
    }
}

/// A search of the archive: what it is called in prompts and the search type the API
/// takes.
pub struct DoomworldSearch {
    pub nice_name: String,
    pub search_type: String,
}

/// A search by author.
pub fn search_doomworld_by_author() -> (r: DoomworldSearch)
    ensures
        r.nice_name@ == "author"@,
        r.search_type@ == SEARCH_AUTHOR@,
{
    DoomworldSearch { nice_name: copy_str("author"), search_type: copy_str(SEARCH_AUTHOR) }
}

/// A search by file name.
pub fn search_doomworld_by_filename() -> (r: DoomworldSearch)
    ensures
        r.nice_name@ == "filename"@,
        r.search_type@ == SEARCH_FILENAME@,
{
    DoomworldSearch { nice_name: copy_str("filename"), search_type: copy_str(SEARCH_FILENAME) }
}

/// A search by map title.
pub fn search_doomworld_by_map_title() -> (r: DoomworldSearch)
    ensures
        r.nice_name@ == "map title"@,
        r.search_type@ == SEARCH_TITLE@,
{
    DoomworldSearch { nice_name: copy_str("map title"), search_type: copy_str(SEARCH_TITLE) }
}

/// What a search's answer comes to: no files is a failure that quotes the search and
/// the API's message; otherwise the files can be chosen from, with a warning (in
/// yellow) when the API sent a message.
pub fn check_search_results(nice_name: &str, search: &str, api_result: &ApiResult) -> (r: Result<
    Option<String>,
    String,
>)
    ensures
        api_result.files@.len() == 0 ==> (r matches Err(m) && m@ == "No maps found for '"@
            + nice_name@ + "' search with '"@ + search@ + "'. Message from API '"@
            + api_result.message@ + "'"@),
        api_result.files@.len() > 0 && api_result.message@.len() == 0 ==> r matches Ok(None),
        api_result.files@.len() > 0 && api_result.message@.len() > 0 ==> (r matches Ok(Some(w))
            && w@ == fg_text(seq!['3', '3'], "Partial search results because"@) + " '"@ + fg_text(
            seq!['3', '3'],
            api_result.message@,
        ) + "'"@),
{
    if api_result.files.len() == 0 {
        let mut m = concat3("No maps found for '", nice_name, "' search with '");
        m.append(search);
        m.append("'. Message from API '");
        m.append(api_result.message.as_str());
        m.append("'");
        return Err(m);
    }
    if api_result.message.as_str().is_empty() {
        return Ok(None);
    }
    let a = yellow("Partial search results because");
    let b = yellow(api_result.message.as_str());
    let mut w = concat3(a.as_str(), " '", b.as_str());
    w.append("'");
    Ok(Some(w))
}

} // verus!

//! Viewing a map's readme, from a profile or from a picked map.

use vstd::prelude::*;
use crate::data::{AppSettings, MapRecord, Profile};
use crate::db::{first_match, map_has_id};
use crate::menu_common::{
    get_map_id_from_from_default_profile, get_map_id_from_from_last_profile, pick_from_profile_is,
    MapPick,
};
use crate::menu_editor::PickPrompt;
use crate::text::{copy_str, signed_decimal};

verus! {

/// The path of the map whose readme is viewed, or the message that it is not found.
pub fn view_map_readme_from_map_id(maps: &Vec<MapRecord>, map_id: i32) -> (r: Result<String, String>)
    ensures
        match first_match(maps@, map_has_id(map_id)) {
            Some(m) => r matches Ok(p) && p@ == m.path@,
            None => r matches Err(e) && e@ == "Unable to get Map for id '"@ + signed_decimal(
                map_id as int,
            ) + "'"@,
        },
{
    crate::menu_maps::view_map_readme_from_map_id(maps, map_id)
}

/// Viewing the readme of a map of the default profile.
pub fn view_from_default_profile(
    app_settings: &AppSettings,
    profiles: &Vec<Profile>,
    maps: &Vec<MapRecord>,
) -> (r: Result<MapPick, String>)
    ensures
        pick_from_profile_is(
            app_settings.default_profile_id,
            "No Default Profile found. "@,
            "Cannot view Map Readme."@,
            profiles@,
            maps@,
            r,
        ),
{
    get_map_id_from_from_default_profile(app_settings, profiles, maps, "Cannot view Map Readme.")
}

/// Viewing the readme of a map of the last profile played.
pub fn view_from_last_profile(
    app_settings: &AppSettings,
    profiles: &Vec<Profile>,
    maps: &Vec<MapRecord>,
) -> (r: Result<MapPick, String>)
    ensures
        pick_from_profile_is(
            app_settings.last_profile_id,
            "No Last Profile found. "@,
            "Cannot view Map Readme."@,
            profiles@,
            maps@,
            r,
        ),
{
    get_map_id_from_from_last_profile(app_settings, profiles, maps, "Cannot view Map Readme.")
}

/// The prompt for viewing the readme of a map of a profile the user picks.
pub fn view_from_pick_profile() -> (r: PickPrompt)
    ensures
        r.prompt@ == "Pick the Profile to view Map Readme from:"@,
        r.cancel_error@ == "Cancelled viewing Map Readme."@,
{
    PickPrompt {
        prompt: copy_str("Pick the Profile to view Map Readme from:"),
        cancel_error: copy_str("Cancelled viewing Map Readme."),
    }
}

/// The prompt for viewing the readme of a map the user picks.
pub fn view_from_pick_map() -> (r: PickPrompt)
    ensures
        r.prompt@ == "Pick the Map to view Map Readme from:"@,
        r.cancel_error@ == "Cancelled viewing Map Readme."@,
{
    PickPrompt {
        prompt: copy_str("Pick the Map to view Map Readme from:"),
        cancel_error: copy_str("Cancelled viewing Map Readme."),
    }
}

} // verus!

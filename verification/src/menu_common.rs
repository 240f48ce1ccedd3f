//! Picking the map a menu action works on: from the default or the last profile.

use vstd::prelude::*;
use crate::data::{id_or_zero, AppSettings, MapRecord, Profile};
use crate::db::{
    first_match, get_maps_by_ids, get_profile_by_id, id_error, map_ids_seq, maps_for_ids,
    profile_has_id, set_map_ids,
};
use crate::text::{concat2, copy_str};

verus! {

/// Where picking a map stands: one map is the only choice, or the user has to choose
/// among several.
pub enum MapPick {
    Chosen(i32),
    Choose(Vec<MapRecord>),
}

/// The outcome of picking among the maps with the given ids: the lookup's failure, no
/// map, one map, or a choice among several (in slot order).
pub open spec fn map_pick_is(
    maps: Seq<MapRecord>,
    ids: (i32, i32, i32, i32, i32),
    r: Result<MapPick, String>,
) -> bool {
    match maps_for_ids(maps, set_map_ids(map_ids_seq(ids))) {
        Err(i) => r matches Err(m) && m@ == id_error("Failed to get map with id '"@, i),
        Ok(found) => if found.len() == 0 {
            r matches Err(m) && m@ == "There are no Maps to select from"@
        } else if found.len() == 1 {
            r matches Ok(MapPick::Chosen(id)) && id == found[0].id
        } else {
            r matches Ok(MapPick::Choose(v)) && v@ == found
        },
    }
}

/// Picks among the maps of a profile's slots.
pub fn pick_from_map_from_profile_map_ids(maps: &Vec<MapRecord>, map_ids: (i32, i32, i32, i32, i32)) -> (r: Result<MapPick, String>)
    ensures
        map_pick_is(maps@, map_ids, r),
{
    let list = match get_maps_by_ids(maps, map_ids) {
        Ok(l) => l,
        Err(e) => return Err(e),
    };
    if list.len() == 0 {
        return Err(copy_str("There are no Maps to select from"));
    }
    if list.len() == 1 {
        return Ok(MapPick::Chosen(list[0].id));
    }
    Ok(MapPick::Choose(list))
}

/// The map slots a profile's map is picked from. The third slot is read twice and the
/// fourth not at all, as the launcher has always done.
pub open spec fn profile_pick_ids(p: Profile) -> (i32, i32, i32, i32, i32) {
    (
        id_or_zero(p.map_id),
        id_or_zero(p.map_id2),
        id_or_zero(p.map_id3),
        id_or_zero(p.map_id3),
        id_or_zero(p.map_id5),
    )
}

/// Picking a map from the profile a setting names: fails with `missing` and the error
/// text when none is set, with "Unable to get Profile" when the profile is not found.
pub open spec fn pick_from_profile_is(
    slot: Option<i32>,
    missing: Seq<char>,
    error_str: Seq<char>,
    profiles: Seq<Profile>,
    maps: Seq<MapRecord>,
    r: Result<MapPick, String>,
) -> bool {
    match slot {
        None => r matches Err(m) && m@ == missing + error_str,
        Some(id) => match first_match(profiles, profile_has_id(id)) {
            None => r matches Err(m) && m@ == "Unable to get Profile"@,
            Some(p) => map_pick_is(maps, profile_pick_ids(p), r),
        },
    }
}

fn pick_from_profile(
    slot: Option<i32>,
    missing: &str,
    error_str: &str,
    profiles: &Vec<Profile>,
    maps: &Vec<MapRecord>,
) -> (r: Result<MapPick, String>)
    ensures
        pick_from_profile_is(slot, missing@, error_str@, profiles@, maps@, r),
{
    let id = match slot {
        None => return Err(concat2(missing, error_str)),
        Some(id) => id,
    };
    let profile = match get_profile_by_id(profiles, id) {
        Ok(p) => p,
        Err(_) => return Err(copy_str("Unable to get Profile")),
    };
    pick_from_map_from_profile_map_ids(
        maps,
        (
            profile.map_id.unwrap_or(0),
            profile.map_id2.unwrap_or(0),
            profile.map_id3.unwrap_or(0),
            profile.map_id3.unwrap_or(0),
            profile.map_id5.unwrap_or(0),
        ),
    )
}

/// Picks a map of the default profile.
pub fn get_map_id_from_from_default_profile(
    app_settings: &AppSettings,
    profiles: &Vec<Profile>,
    maps: &Vec<MapRecord>,
    error_str: &str,
) -> (r: Result<MapPick, String>)
    ensures
        pick_from_profile_is(
            app_settings.default_profile_id,
            "No Default Profile found. "@,
            error_str@,
            profiles@,
            maps@,
            r,
        ),
{
    pick_from_profile(
        app_settings.default_profile_id,
        "No Default Profile found. ",
        error_str,
        profiles,
        maps,
    )
}

/// Picks a map of the last profile played.
pub fn get_map_id_from_from_last_profile(
    app_settings: &AppSettings,
    profiles: &Vec<Profile>,
    maps: &Vec<MapRecord>,
    error_str: &str,
) -> (r: Result<MapPick, String>)
    ensures
        pick_from_profile_is(
            app_settings.last_profile_id,
            "No Last Profile found. "@,
            error_str@,
            profiles@,
            maps@,
            r,
        ),
{
    pick_from_profile(app_settings.last_profile_id, "No Last Profile found. ", error_str, profiles, maps)
}

/// Whether there is anything to pick from: the message when the list is empty.
pub fn check_not_empty(count: usize, empty_message: &str) -> (r: Result<(), String>)
    ensures
        count == 0 ==> (r matches Err(m) && m@ == empty_message@),
        count > 0 ==> r is Ok,
{
    if count == 0 {
        Err(copy_str(empty_message))
    } else {
        Ok(())
    }
}

} // verus!

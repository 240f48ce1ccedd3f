//! The main menu's play commands: which profile is played, and when there is nothing
//! to play.

use vstd::prelude::*;
use crate::data::{profile_display_text, AppSettings, Engine, Iwad, MapRecord, Profile};
use crate::db::{
    first_match, get_profile_by_name, get_profile_display_by_id, profile_display_by_id_error,
    profile_display_by_id_ok, profile_has_name, text_error,
};
use crate::paths::{extract_file_name, extract_file_name_spec};
use crate::text::{concat2, copy_str};
use crate::tui::{fg_text, lochmara_blue, tenn_orange, yellow};

verus! {

/// What a play command comes to: playing a profile (and whether it becomes the last
/// one played), or a message when there is nothing to play.
pub enum PlayStep {
    Play { profile_id: i32, update_last_profile: bool },
    Message(String),
}

/// Playing the default profile; it does not become the last one played.
pub fn play_default_profile(app_settings: &AppSettings) -> (r: PlayStep)
    ensures
        app_settings.default_profile_id matches Some(id) ==> r == (PlayStep::Play {
            profile_id: id,
            update_last_profile: false,
        }),
        app_settings.default_profile_id is None ==> (r matches PlayStep::Message(m) && m@
            == "No Default Profile found. Please set one"@),
{
    match app_settings.default_profile_id {
        Some(id) => PlayStep::Play { profile_id: id, update_last_profile: false },
        None => PlayStep::Message(copy_str("No Default Profile found. Please set one")),
    }
}

/// Playing the last profile played again.
pub fn play_last_profile(app_settings: &AppSettings) -> (r: PlayStep)
    ensures
        app_settings.last_profile_id matches Some(id) ==> r == (PlayStep::Play {
            profile_id: id,
            update_last_profile: true,
        }),
        app_settings.last_profile_id is None ==> (r matches PlayStep::Message(m) && m@
            == "No Last Run Profile found. Run a profile to make it the last run"@),
{
    match app_settings.last_profile_id {
        Some(id) => PlayStep::Play { profile_id: id, update_last_profile: true },
        None => PlayStep::Message(
            copy_str("No Last Run Profile found. Run a profile to make it the last run"),
        ),
    }
}

/// Playing the profile with the given name from the command line; it becomes the last
/// one played.
pub fn cli_play_selected_profile(profiles: &Vec<Profile>, profile_name: &str) -> (r: Result<PlayStep, String>)
    ensures
        first_match(profiles@, profile_has_name(profile_name@)) matches Some(p) ==> r == Ok::<
            PlayStep,
            String,
        >((PlayStep::Play { profile_id: p.id, update_last_profile: true })),
        first_match(profiles@, profile_has_name(profile_name@)) is None ==> (r matches Err(m) && m@
            == text_error("Failed to get profile with name '"@, profile_name@)),
{
    match get_profile_by_name(profiles, profile_name) {
        Ok(p) => Ok(PlayStep::Play { profile_id: p.id, update_last_profile: true }),
        Err(e) => Err(e),
    }
}

/// Whether there is anything to pick from to play a profile.
pub fn pick_and_play_profile_check(profile_count: usize) -> (r: Option<String>)
    ensures
        profile_count == 0 ==> (r matches Some(m) && m@
            == "Cannot Play Profile, there are no profiles found. Please create one"@),
        profile_count > 0 ==> r is None,
{
    if profile_count == 0 {
        Some(copy_str("Cannot Play Profile, there are no profiles found. Please create one"))
    } else {
        None
    }
}

/// Whether there is anything to pick from to play a map: engines, IWADs and maps, in
/// that order.
pub fn pick_and_play_map_check(engine_count: usize, iwad_count: usize, map_count: usize) -> (r: Option<String>)
    ensures
        engine_count == 0 ==> (r matches Some(m) && m@
            == "There are no Engines to select. Please run 'init'"@),
        engine_count > 0 && iwad_count == 0 ==> (r matches Some(m) && m@
            == "There are no IWADs to select. Please run 'init"@),
        engine_count > 0 && iwad_count > 0 && map_count == 0 ==> (r matches Some(m) && m@
            == "There are no Maps to select. Please run 'init'"@),
        engine_count > 0 && iwad_count > 0 && map_count > 0 ==> r is None,
{
    if engine_count == 0 {
        Some(copy_str("There are no Engines to select. Please run 'init'"))
    } else if iwad_count == 0 {
        Some(copy_str("There are no IWADs to select. Please run 'init"))
    } else if map_count == 0 {
        Some(copy_str("There are no Maps to select. Please run 'init'"))
    } else {
        None
    }
}

/// The line of the main menu about a profile kept in the settings: `label`, then the
/// profile in `colour`, or `unset` in yellow when there is none. A profile that cannot
/// be shown gives the message of the failed lookup.
pub open spec fn profile_line(
    label: Seq<char>,
    colour: Seq<char>,
    unset: Seq<char>,
    id: Option<i32>,
    profiles: Seq<Profile>,
    engines: Seq<Engine>,
    iwads: Seq<Iwad>,
    maps: Seq<MapRecord>,
    r: Result<String, String>,
) -> bool {
    match id {
        None => r matches Ok(m) && m@ == label + fg_text(seq!['3', '3'], unset),
        Some(id) => match profile_display_by_id_error(profiles, engines, iwads, maps, id) {
            Some(e) => r matches Err(m) && m@ == e,
            None => r matches Ok(m) && exists|d|
                #![trigger profile_display_by_id_ok(profiles, engines, iwads, maps, id, d)]
                profile_display_by_id_ok(profiles, engines, iwads, maps, id, d) && m@ == label
                    + fg_text(colour, profile_display_text(d)),
        },
    }
}

/// The answer when the settings table is empty.
pub open spec fn no_settings() -> Seq<char> {
    "No settings configured. Please run 'init'"@
}

/// The main menu's line about the default profile.
pub fn get_default_profile_text(
    database_exists: bool,
    app_settings_empty: bool,
    app_settings: &AppSettings,
    profiles: &Vec<Profile>,
    engines: &Vec<Engine>,
    iwads: &Vec<Iwad>,
    maps: &Vec<MapRecord>,
) -> (r: Result<String, String>)
    ensures
        !database_exists ==> (r matches Ok(m) && m@ == "No database found. Please run 'init'"@),
        database_exists && app_settings_empty ==> (r matches Ok(m) && m@ == no_settings()),
        database_exists && !app_settings_empty ==> profile_line(
            "Default - "@,
            seq!['3', '8', ';', '5', ';', '3', '2'],
            "Please set one"@,
            app_settings.default_profile_id,
            profiles@,
            engines@,
            iwads@,
            maps@,
            r,
        ),
{
    if !database_exists {
        return Ok(copy_str("No database found. Please run 'init'"));
    }
    if app_settings_empty {
        return Ok(copy_str("No settings configured. Please run 'init'"));
    }
    match app_settings.default_profile_id {
        None => {
            let y = yellow("Please set one");
            Ok(concat2("Default - ", y.as_str()))
        },
        Some(id) => match get_profile_display_by_id(profiles, engines, iwads, maps, id) {
            Err(e) => Err(e),
            Ok(d) => {
                let shown = d.display_text();
                let c = lochmara_blue(shown.as_str());
                Ok(concat2("Default - ", c.as_str()))
            },
        },
    }
}

/// The main menu's line about the last profile played.
pub fn get_last_profile_text(
    app_settings_empty: bool,
    app_settings: &AppSettings,
    profiles: &Vec<Profile>,
    engines: &Vec<Engine>,
    iwads: &Vec<Iwad>,
    maps: &Vec<MapRecord>,
) -> (r: Result<String, String>)
    ensures
        app_settings_empty ==> (r matches Ok(m) && m@ == no_settings()),
        !app_settings_empty ==> profile_line(
            "Last    - "@,
            seq!['3', '8', ';', '5', ';', '1', '6', '6'],
            "Run a profile to set as last run"@,
            app_settings.last_profile_id,
            profiles@,
            engines@,
            iwads@,
            maps@,
            r,
        ),
{
    if app_settings_empty {
        return Ok(copy_str("No settings configured. Please run 'init'"));
    }
    match app_settings.last_profile_id {
        None => {
            let y = yellow("Run a profile to set as last run");
            Ok(concat2("Last    - ", y.as_str()))
        },
        Some(id) => match get_profile_display_by_id(profiles, engines, iwads, maps, id) {
            Err(e) => Err(e),
            Ok(d) => {
                let shown = d.display_text();
                let c = tenn_orange(shown.as_str());
                Ok(concat2("Last    - ", c.as_str()))
            },
        },
    }
}

/// The name of a profile saved from "Pick & Play Map": `Autosave-`, a short unique
/// token, and in quotes the chosen map's title, or the IWAD's file name when no map was
/// chosen.
pub fn autosave_profile_name(token: &str, map_title: &Option<String>, iwad_path: &str) -> (r: String)
    ensures
        r@ == "Autosave-"@ + token@ + " '"@ + match map_title {
            Some(t) => t@,
            None => extract_file_name_spec(iwad_path@),
        } + "'"@,
{
    let wad_name = match map_title {
        Some(t) => t.clone(),
        None => extract_file_name(iwad_path),
    };
    let mut r = concat2("Autosave-", token);
    r.append(" '");
    r.append(wad_name.as_str());
    r.append("'");
    r
}

} // verus!

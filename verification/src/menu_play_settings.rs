//! Changes to the play settings asked for on the command line, each checked and
//! answered with the message the user sees.

use vstd::prelude::*;
use crate::data::{
    comp_level_text, display_option_comp_level, display_option_string, display_option_u32,
    display_option_u8, opt_number_text, opt_string_view, opt_text, play_settings_cleared,
    CompLevel, PlaySettings,
};
use crate::text::{concat3, copy_str, joined, join_strings, string_seq, to_lowercase, unicode_lowercase};
use crate::tui::{bool_text, MENU_CLR};

verus! {

/// `prefix'value'`: a success message that quotes the new value.
pub open spec fn updated_message(prefix: Seq<char>, value: Seq<char>) -> Seq<char> {
    prefix + "'"@ + value + "'"@
}

fn updated(prefix: &str, value: &str) -> (r: String)
    ensures
        r@ == updated_message(prefix@, value@),
{
    let mut r = concat3(prefix, "'", value);
    r.append("'");
    r
}

fn bool_string(b: bool) -> (s: String)
    ensures
        s@ == bool_text(b),
{
    if b {
        copy_str("true")
    } else {
        copy_str("false")
    }
}

/// A text that asks to clear a setting: `clr` in any case.
pub open spec fn is_clear_request(s: Seq<char>) -> bool {
    unicode_lowercase(s) == MENU_CLR@
}

fn clear_requested(s: &str) -> (r: bool)
    ensures
        r == is_clear_request(s@),
{
    let lower = to_lowercase(s);
    crate::text::str_eq(lower.as_str(), MENU_CLR)
}

/// The text of an optional compatibility level, `DEFAULT_NOT_SET` when there is none.
pub open spec fn comp_level_setting_text(c: Option<CompLevel>) -> Seq<char> {
    opt_text(
        match c {
            Some(l) => Some(comp_level_text(l)),
            None => None,
        },
    )
}

/// Sets the compatibility level; `None` clears it.
pub fn cli_set_comp_level(play_settings: &mut PlaySettings, comp_level: Option<CompLevel>) -> (r:
    String)
    ensures
        *final(play_settings) == (PlaySettings { comp_level, ..*old(play_settings) }),
        r@ == updated_message(
            "Successfully updated Compatibility Level to "@,
            comp_level_setting_text(comp_level),
        ),
{
    play_settings.comp_level = comp_level;
    let shown = display_option_comp_level(&play_settings.comp_level);
    updated("Successfully updated Compatibility Level to ", shown.as_str())
}

/// The message for a config file that does not exist.
pub open spec fn missing_config_message(config_file: Seq<char>) -> Seq<char> {
    "Cannot update Config File because it does not exist - '"@ + config_file + "'"@
}

/// Sets the config file, or clears it when given `clr`. A file that does not exist
/// (`config_file_exists` is false) is refused and nothing changes.
pub fn cli_set_config_file(
    play_settings: &mut PlaySettings,
    config_file: &str,
    config_file_exists: bool,
) -> (r: String)
    ensures
        is_clear_request(config_file@) ==> final(play_settings).config_file is None
            && *final(play_settings) == (PlaySettings {
            config_file: final(play_settings).config_file,
            ..*old(play_settings)
        }) && r@ == updated_message("Successfully updated Config File to "@, opt_text(None)),
        !is_clear_request(config_file@) && !config_file_exists ==> *final(play_settings) == *old(
            play_settings,
        ) && r@ == missing_config_message(config_file@),
        !is_clear_request(config_file@) && config_file_exists ==> opt_string_view(
            final(play_settings).config_file,
        ) == Some(config_file@) && *final(play_settings) == (PlaySettings {
            config_file: final(play_settings).config_file,
            ..*old(play_settings)
        }) && r@ == updated_message("Successfully updated Config File to "@, config_file@),
{
    if clear_requested(config_file) {
        play_settings.config_file = None;
    } else {
        if !config_file_exists {
            return concat3(
                "Cannot update Config File because it does not exist - '",
                config_file,
                "'",
            );
        }
        play_settings.config_file = Some(copy_str(config_file));
    }
    let shown = display_option_string(&play_settings.config_file);
    updated("Successfully updated Config File to ", shown.as_str())
}

/// Turns fast monsters on or off.
pub fn cli_set_fast_monsters(play_settings: &mut PlaySettings, fast_monsters: bool) -> (r: String)
    ensures
        *final(play_settings) == (PlaySettings { fast_monsters, ..*old(play_settings) }),
        r@ == updated_message("Successfully updated Fast Monsters to "@, bool_text(fast_monsters)),
{
    play_settings.fast_monsters = fast_monsters;
    let shown = bool_string(fast_monsters);
    updated("Successfully updated Fast Monsters to ", shown.as_str())
}

/// Turns "no monsters" on or off.
pub fn cli_set_no_monsters(play_settings: &mut PlaySettings, no_monsters: bool) -> (r: String)
    ensures
        *final(play_settings) == (PlaySettings { no_monsters, ..*old(play_settings) }),
        r@ == updated_message("Successfully updated No Monsters to "@, bool_text(no_monsters)),
{
    play_settings.no_monsters = no_monsters;
    let shown = bool_string(no_monsters);
    updated("Successfully updated No Monsters to ", shown.as_str())
}

/// Turns respawning monsters on or off.
pub fn cli_set_respawn_monsters(play_settings: &mut PlaySettings, respawn_monsters: bool) -> (r:
    String)
    ensures
        *final(play_settings) == (PlaySettings { respawn_monsters, ..*old(play_settings) }),
        r@ == updated_message(
            "Successfully updated Respawn Monsters to "@,
            bool_text(respawn_monsters),
        ),
{
    play_settings.respawn_monsters = respawn_monsters;
    let shown = bool_string(respawn_monsters);
    updated("Successfully updated Respawn Monsters to ", shown.as_str())
}

/// Sets the level to warp to, or clears it when given `clr`.
pub fn cli_set_warp_to_level(play_settings: &mut PlaySettings, warp: &str) -> (r: String)
    ensures
        *final(play_settings) == (PlaySettings { warp: final(play_settings).warp, ..*old(play_settings) }),
        is_clear_request(warp@) ==> final(play_settings).warp is None && r@ == updated_message(
            "Successfully updated Warp to "@,
            opt_text(None),
        ),
        !is_clear_request(warp@) ==> opt_string_view(final(play_settings).warp) == Some(warp@)
            && r@ == updated_message("Successfully updated Warp to "@, warp@),
{
    if clear_requested(warp) {
        play_settings.warp = None;
    } else {
        play_settings.warp = Some(copy_str(warp));
    }
    let shown = display_option_string(&play_settings.warp);
    updated("Successfully updated Warp to ", shown.as_str())
}

/// Sets the skill, which must lie in [1, 5]; another value is refused and nothing
/// changes.
pub fn cli_set_skill(play_settings: &mut PlaySettings, skill: u8) -> (r: String)
    ensures
        1 <= skill <= 5 ==> *final(play_settings) == (PlaySettings {
            skill: Some(skill),
            ..*old(play_settings)
        }) && r@ == updated_message(
            "Successfully updated Skill to "@,
            opt_number_text(Some(skill as nat)),
        ),
        !(1 <= skill <= 5) ==> *final(play_settings) == *old(play_settings) && r@
            == "Cannot update Skill because value is not within the range [1-5]"@,
{
    if 1 <= skill && skill <= 5 {
        play_settings.skill = Some(skill);
    } else {
        return copy_str("Cannot update Skill because value is not within the range [1-5]");
    }
    let shown = display_option_u8(&play_settings.skill);
    updated("Successfully updated Skill to ", shown.as_str())
}

/// Sets the turbo, which must lie in [50, 255]; another value is refused and nothing
/// changes.
pub fn cli_set_turbo(play_settings: &mut PlaySettings, turbo: u8) -> (r: String)
    ensures
        50 <= turbo ==> *final(play_settings) == (PlaySettings {
            turbo: Some(turbo),
            ..*old(play_settings)
        }) && r@ == updated_message(
            "Successfully updated Turbo to "@,
            opt_number_text(Some(turbo as nat)),
        ),
        turbo < 50 ==> *final(play_settings) == *old(play_settings) && r@
            == "Cannot update Turbo because value is not within the range [50-255]"@,
{
    if 50 <= turbo {
        play_settings.turbo = Some(turbo);
    } else {
        return copy_str("Cannot update Turbo because value is not within the range [50-255]");
    }
    let shown = display_option_u8(&play_settings.turbo);
    updated("Successfully updated Turbo to ", shown.as_str())
}

/// Sets the timer in minutes, which must lie in [1, 43800]; another value is refused
/// and nothing changes.
pub fn cli_set_timer(play_settings: &mut PlaySettings, timer: u32) -> (r: String)
    ensures
        1 <= timer <= 43800 ==> *final(play_settings) == (PlaySettings {
            timer: Some(timer),
            ..*old(play_settings)
        }) && r@ == updated_message(
            "Successfully updated Timer to "@,
            opt_number_text(Some(timer as nat)),
        ),
        !(1 <= timer <= 43800) ==> *final(play_settings) == *old(play_settings) && r@
            == "Cannot update Timer because value is not within the range [1-43800]"@,
{
    if 1 <= timer && timer <= 43800 {
        play_settings.timer = Some(timer);
    } else {
        return copy_str("Cannot update Timer because value is not within the range [1-43800]");
    }
    let shown = display_option_u32(&play_settings.timer);
    updated("Successfully updated Timer to ", shown.as_str())
}

/// Sets the screen height, which must lie in [1, 10240]; another value is refused and
/// nothing changes.
pub fn cli_set_screen_height(play_settings: &mut PlaySettings, height: u32) -> (r: String)
    ensures
        1 <= height <= 10240 ==> *final(play_settings) == (PlaySettings {
            height: Some(height),
            ..*old(play_settings)
        }) && r@ == updated_message(
            "Successfully updated Screen Height to "@,
            opt_number_text(Some(height as nat)),
        ),
        !(1 <= height <= 10240) ==> *final(play_settings) == *old(play_settings) && r@
            == "Cannot update Screen Height because value is not within the range [1-10240]"@,
{
    if 1 <= height && height <= 10240 {
        play_settings.height = Some(height);
    } else {
        return copy_str(
            "Cannot update Screen Height because value is not within the range [1-10240]",
        );
    }
    let shown = display_option_u32(&play_settings.height);
    updated("Successfully updated Screen Height to ", shown.as_str())
}

/// Sets the screen width, which must lie in [1, 2880]; another value is refused and
/// nothing changes.
pub fn cli_set_screen_width(play_settings: &mut PlaySettings, width: u32) -> (r: String)
    ensures
        1 <= width <= 2880 ==> *final(play_settings) == (PlaySettings {
            width: Some(width),
            ..*old(play_settings)
        }) && r@ == updated_message(
            "Successfully updated Screen Width to "@,
            opt_number_text(Some(width as nat)),
        ),
        !(1 <= width <= 2880) ==> *final(play_settings) == *old(play_settings) && r@
            == "Cannot update Screen Width because value is not within the range [1-2880]"@,
{
    if 1 <= width && width <= 2880 {
        play_settings.width = Some(width);
    } else {
        return copy_str(
            "Cannot update Screen Width because value is not within the range [1-2880]",
        );
    }
    let shown = display_option_u32(&play_settings.width);
    updated("Successfully updated Screen Width to ", shown.as_str())
}

/// Turns full screen on or off.
pub fn cli_set_full_screen(play_settings: &mut PlaySettings, full_screen: bool) -> (r: String)
    ensures
        *final(play_settings) == (PlaySettings { full_screen, ..*old(play_settings) }),
        r@ == updated_message("Successfully updated Full Screen as "@, bool_text(full_screen)),
{
    play_settings.full_screen = full_screen;
    let shown = bool_string(full_screen);
    updated("Successfully updated Full Screen as ", shown.as_str())
}

/// Turns windowed mode on or off.
pub fn cli_set_windowed(play_settings: &mut PlaySettings, windowed: bool) -> (r: String)
    ensures
        *final(play_settings) == (PlaySettings { windowed, ..*old(play_settings) }),
        r@ == updated_message("Successfully updated Windowed Mode as "@, bool_text(windowed)),
{
    play_settings.windowed = windowed;
    let shown = bool_string(windowed);
    updated("Successfully updated Windowed Mode as ", shown.as_str())
}

/// Sets the additional arguments: the given ones joined with spaces.
pub fn cli_set_additional_args(
    play_settings: &mut PlaySettings,
    additional_arguments: &Vec<String>,
) -> (r: String)
    ensures
        *final(play_settings) == (PlaySettings {
            additional_arguments: final(play_settings).additional_arguments,
            ..*old(play_settings)
        }),
        opt_string_view(final(play_settings).additional_arguments) == Some(
            joined(string_seq(additional_arguments@), " "@),
        ),
        r@ == updated_message(
            "Successfully updated Additional Arguments to "@,
            joined(string_seq(additional_arguments@), " "@),
        ),
{
    let args = join_strings(additional_arguments, " ");
    play_settings.additional_arguments = Some(args);
    let shown = display_option_string(&play_settings.additional_arguments);
    updated("Successfully updated Additional Arguments to ", shown.as_str())
}

/// Clears every play setting, keeping the record's id, when the reset is confirmed
/// (`confirmed` is the forced flag or the user's answer); otherwise nothing changes.
pub fn reset_play_settings(play_settings: &mut PlaySettings, confirmed: bool) -> (r: String)
    ensures
        confirmed ==> play_settings_cleared(*final(play_settings)) && final(play_settings).id
            == old(play_settings).id && r@ == "Successfully Reset Play Settings"@,
        !confirmed ==> *final(play_settings) == *old(play_settings) && r@
            == "Reset Play Settings not confirmed"@,
{
    if confirmed {
        let id = play_settings.id;
        *play_settings = PlaySettings { id, ..PlaySettings::default() };
        copy_str("Successfully Reset Play Settings")
    } else {
        copy_str("Reset Play Settings not confirmed")
    }
}

} // verus!

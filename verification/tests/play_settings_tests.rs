use doom_cli::data::{CompLevel, PlaySettings};
use doom_cli::menu_play_settings::{
    cli_set_additional_args, cli_set_comp_level, cli_set_config_file, cli_set_fast_monsters,
    cli_set_full_screen, cli_set_no_monsters, cli_set_respawn_monsters, cli_set_screen_height,
    cli_set_screen_width, cli_set_skill, cli_set_timer, cli_set_turbo, cli_set_warp_to_level,
    cli_set_windowed, reset_play_settings,
};

#[test]
fn comp_level_set_and_cleared() {
    let mut p = PlaySettings::default();
    assert_eq!(cli_set_comp_level(&mut p, Some(CompLevel::Boom)), "Successfully updated Compatibility Level to 'Boom (6)'");
    assert_eq!(p.comp_level, Some(CompLevel::Boom));
    assert_eq!(cli_set_comp_level(&mut p, None), "Successfully updated Compatibility Level to 'Not set'");
    assert!(p.comp_level.is_none());
}

#[test]
fn config_file_needs_to_exist_or_be_cleared() {
    let mut p = PlaySettings::default();
    assert_eq!(cli_set_config_file(&mut p, "/x.cfg", false), "Cannot update Config File because it does not exist - '/x.cfg'");
    assert!(p.config_file.is_none());
    assert_eq!(cli_set_config_file(&mut p, "/x.cfg", true), "Successfully updated Config File to '/x.cfg'");
    assert_eq!(p.config_file.as_deref(), Some("/x.cfg"));
    assert_eq!(cli_set_config_file(&mut p, "CLR", false), "Successfully updated Config File to 'Not set'");
    assert!(p.config_file.is_none());
}

#[test]
fn flags_are_set() {
    let mut p = PlaySettings::default();
    assert_eq!(cli_set_fast_monsters(&mut p, true), "Successfully updated Fast Monsters to 'true'");
    assert_eq!(cli_set_no_monsters(&mut p, false), "Successfully updated No Monsters to 'false'");
    assert_eq!(cli_set_respawn_monsters(&mut p, true), "Successfully updated Respawn Monsters to 'true'");
    assert_eq!(cli_set_full_screen(&mut p, true), "Successfully updated Full Screen as 'true'");
    assert_eq!(cli_set_windowed(&mut p, false), "Successfully updated Windowed Mode as 'false'");
    assert!(p.fast_monsters && !p.no_monsters && p.respawn_monsters && p.full_screen && !p.windowed);
}

#[test]
fn warp_set_and_cleared() {
    let mut p = PlaySettings::default();
    assert_eq!(cli_set_warp_to_level(&mut p, "1 3"), "Successfully updated Warp to '1 3'");
    assert_eq!(p.warp.as_deref(), Some("1 3"));
    assert_eq!(cli_set_warp_to_level(&mut p, "clr"), "Successfully updated Warp to 'Not set'");
    assert!(p.warp.is_none());
}

#[test]
fn numbers_checked_against_their_ranges() {
    let mut p = PlaySettings::default();
    assert_eq!(cli_set_skill(&mut p, 0), "Cannot update Skill because value is not within the range [1-5]");
    assert_eq!(cli_set_skill(&mut p, 6), "Cannot update Skill because value is not within the range [1-5]");
    assert!(p.skill.is_none());
    assert_eq!(cli_set_skill(&mut p, 5), "Successfully updated Skill to '5'");
    assert_eq!(cli_set_turbo(&mut p, 49), "Cannot update Turbo because value is not within the range [50-255]");
    assert_eq!(cli_set_turbo(&mut p, 255), "Successfully updated Turbo to '255'");
    assert_eq!(cli_set_timer(&mut p, 0), "Cannot update Timer because value is not within the range [1-43800]");
    assert_eq!(cli_set_timer(&mut p, 43801), "Cannot update Timer because value is not within the range [1-43800]");
    assert_eq!(cli_set_timer(&mut p, 20), "Successfully updated Timer to '20'");
    assert_eq!(cli_set_screen_height(&mut p, 10241), "Cannot update Screen Height because value is not within the range [1-10240]");
    assert_eq!(cli_set_screen_height(&mut p, 1080), "Successfully updated Screen Height to '1080'");
    assert_eq!(cli_set_screen_width(&mut p, 2881), "Cannot update Screen Width because value is not within the range [1-2880]");
    assert_eq!(cli_set_screen_width(&mut p, 1920), "Successfully updated Screen Width to '1920'");
    assert_eq!((p.skill, p.turbo, p.timer, p.height, p.width), (Some(5), Some(255), Some(20), Some(1080), Some(1920)));
}

#[test]
fn additional_args_joined_with_spaces() {
    let mut p = PlaySettings::default();
    let args = vec!["-nomusic".to_string(), "-nosound".to_string()];
    assert_eq!(cli_set_additional_args(&mut p, &args), "Successfully updated Additional Arguments to '-nomusic -nosound'");
    assert_eq!(p.additional_arguments.as_deref(), Some("-nomusic -nosound"));
}

#[test]
fn reset_clears_everything_but_the_id() {
    let mut p = PlaySettings::default();
    p.id = 3;
    p.skill = Some(2);
    p.windowed = true;
    assert_eq!(reset_play_settings(&mut p, false), "Reset Play Settings not confirmed");
    assert_eq!(p.skill, Some(2));
    assert_eq!(reset_play_settings(&mut p, true), "Successfully Reset Play Settings");
    assert_eq!(p.id, 3);
    assert!(p.skill.is_none() && !p.windowed);
}

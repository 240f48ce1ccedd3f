//! The command line: the actions it takes, and what each comes to.

use vstd::prelude::*;
use crate::data::{CompLevel, ListType};
use crate::paths::{resolve_path, resolve_path_opt, resolve_path_spec};
use crate::text::copy_str;
use crate::tui::{MenuCommand, MenuMode};

verus! {

/// Whether the menus are shown after the command line's action.
#[derive(Debug, PartialEq, Eq, Structural, Clone, Copy)]
pub enum CliRunMode {
    Tui,
    Quit,
}

/// What can be listed.
#[derive(Debug, PartialEq, Eq, Structural, Clone, Copy)]
pub enum ListData {
    Engines,
    Iwads,
    Maps,
    Profiles,
    Queues,
    Editors,
    AppSettings,
    PlaySettings,
}

/// The actions of the command line.
#[derive(Debug)]
pub enum Action {
    /// Play Doom with the Default Profile.
    Play,
    /// Play Doom with the Last Run Profile.
    PlayLast,
    /// Play Doom with the specified Profile.
    PlayProfile { profile_name: String },
    /// Open the Editor with the Default Profile. Takes the first Map in Profile.
    Editor,
    /// Open the Editor with the Last Run Profile. Takes the first Map in Profile.
    EditorLast,
    /// Initializes the app for use; with `force`, every prompt is skipped and all that is
    /// found is selected.
    Init { engine_path: String, iwad_path: String, map_path: Option<String>, force: bool },
    /// Resets the database, nuking all settings; `force` skips the confirmation.
    Reset { force: bool },
    /// Lists the chosen data; `full` shows full details where they apply.
    List { list_data: ListData, full: bool },
    /// Adds a new Profile combining an Engine, an IWAD and up to five Maps.
    AddProfile {
        name: String,
        engine: String,
        iwad: String,
        maps: Option<Vec<String>>,
        save_game: Option<String>,
        args: Option<Vec<String>>,
    },
    /// Deletes a Profile; `force` skips the confirmation.
    DeleteProfile { name: String, force: bool },
    /// Adds a new Editor to view and edit maps.
    AddEditor { path: String, load_file_arg: Option<String>, additional_args: Option<Vec<String>> },
    /// Deletes an Editor; `force` skips the confirmation.
    DeleteEditor { path: String, force: bool },
    /// Sets the App Settings.
    SetAppSettings { menu_mode: Option<MenuMode>, use_doomworld_api: Option<bool> },
    /// Sets the defaults for Engine, IWAD, Profile and Editor.
    SetDefault {
        engine: Option<String>,
        iwad: Option<String>,
        profile: Option<String>,
        editor: Option<String>,
    },
    /// Sets the Play Settings that control how Doom is played. `clr` blanks the config
    /// file or the warp.
    SetPlaySettings {
        reset: Option<bool>,
        comp_level: Option<CompLevel>,
        config_file: Option<String>,
        fast_monsters: Option<bool>,
        no_monsters: Option<bool>,
        respawn_monsters: Option<bool>,
        warp_to_level: Option<String>,
        skill: Option<u8>,
        turbo: Option<u8>,
        timer: Option<u32>,
        screen_width: Option<u32>,
        screen_height: Option<u32>,
        full_screen: Option<bool>,
        windowed: Option<bool>,
        additional_args: Option<Vec<String>>,
    },
}

/// The command line's arguments: an action, or none to go straight to the menus.
#[derive(Debug)]
pub struct Args {
    pub action: Option<Action>,
}

/// The work an action comes to. Paths are already resolved.
#[derive(Debug)]
pub enum CliOperation {
    RunMenuCommand(MenuCommand),
    PlaySelectedProfile(String),
    Init { engine_path: String, iwad_path: String, map_path: Option<String>, force: bool },
    Reset { force: bool },
    List { list_data: ListData, list_type: ListType },
    AddProfile {
        name: String,
        engine: String,
        iwad: String,
        maps: Option<Vec<String>>,
        save_game: Option<String>,
        args: Option<Vec<String>>,
    },
    DeleteProfile { name: String, force: bool },
    AddEditor { path: String, load_file_arg: Option<String>, additional_args: Option<Vec<String>> },
    DeleteEditor { path: String, force: bool },
    UpdateMenuMode(MenuMode),
    UpdateUseDoomworldApi(bool),
    SetDefaultEngine(String),
    SetDefaultIwad(String),
    SetDefaultProfile(String),
    SetDefaultEditor(String),
    ResetPlaySettings(bool),
    SetCompLevel(CompLevel),
    SetConfigFile(String),
    SetFastMonsters(bool),
    SetNoMonsters(bool),
    SetRespawnMonsters(bool),
    SetWarpToLevel(String),
    SetSkill(u8),
    SetTurbo(u8),
    SetTimer(u32),
    SetScreenWidth(u32),
    SetScreenHeight(u32),
    SetFullScreen(bool),
    SetWindowed(bool),
    SetAdditionalArgs(Vec<String>),
    /// Nothing to do: the result is this message.
    Message(String),
}

/// What the command line does: the start-up check to run first (with its force flag),
/// the work, and whether the menus follow. What follows a reset depends on how the
/// reset went, so for a reset `run_mode` is left open and `reset_follow_up` decides.
#[derive(Debug)]
pub struct CliPlan {
    pub check_app_can_run: Option<bool>,
    pub operation: CliOperation,
    pub run_mode: CliRunMode,
}

/// A path resolved for the platform (see `resolve_path`).
pub open spec fn resolved(p: Seq<char>, is_macos: bool, home: Option<Seq<char>>) -> Seq<char> {
    resolve_path_spec(p, is_macos, home)
}

/// The operation a `SetPlaySettings` action comes to: the first option given, in the
/// order the options are declared.
pub open spec fn play_setting_op_is(
    a: Action,
    is_macos: bool,
    home: Option<Seq<char>>,
    op: CliOperation,
) -> bool {
    match a {
        Action::SetPlaySettings {
            reset,
            comp_level,
            config_file,
            fast_monsters,
            no_monsters,
            respawn_monsters,
            warp_to_level,
            skill,
            turbo,
            timer,
            screen_width,
            screen_height,
            full_screen,
            windowed,
            additional_args,
        } => if reset is Some {
            op == CliOperation::ResetPlaySettings(reset->0)
        } else if comp_level is Some {
            op == CliOperation::SetCompLevel(comp_level->0)
        } else if config_file is Some {
            op matches CliOperation::SetConfigFile(p) && p@ == resolved(
                config_file->0@,
                is_macos,
                home,
            )
        } else if fast_monsters is Some {
            op == CliOperation::SetFastMonsters(fast_monsters->0)
        } else if no_monsters is Some {
            op == CliOperation::SetNoMonsters(no_monsters->0)
        } else if respawn_monsters is Some {
            op == CliOperation::SetRespawnMonsters(respawn_monsters->0)
        } else if warp_to_level is Some {
            op matches CliOperation::SetWarpToLevel(w) && w@ == warp_to_level->0@
        } else if skill is Some {
            op == CliOperation::SetSkill(skill->0)
        } else if turbo is Some {
            op == CliOperation::SetTurbo(turbo->0)
        } else if timer is Some {
            op == CliOperation::SetTimer(timer->0)
        } else if screen_width is Some {
            op == CliOperation::SetScreenWidth(screen_width->0)
        } else if screen_height is Some {
            op == CliOperation::SetScreenHeight(screen_height->0)
        } else if full_screen is Some {
            op == CliOperation::SetFullScreen(full_screen->0)
        } else if windowed is Some {
            op == CliOperation::SetWindowed(windowed->0)
        } else if additional_args is Some {
            op == CliOperation::SetAdditionalArgs(additional_args->0)
        } else {
            op matches CliOperation::Message(m) && m@ == "No arguments specified"@
        },
        _ => false,
    }
}

/// What each action comes to.
pub open spec fn cli_plan_is(args: Args, is_macos: bool, home: Option<Seq<char>>, plan: CliPlan) -> bool {
    match args.action {
        None => plan.check_app_can_run is None && plan.run_mode == CliRunMode::Tui
            && (plan.operation matches CliOperation::Message(m) && m@
            == "No arguments specified, continue to UI"@),
        Some(a) => {
            &&& plan.check_app_can_run == match a {
                Action::Reset { .. } => None,
                Action::Init { force, .. } => Some(force),
                _ => Some(false),
            }
            &&& (a !is Reset ==> plan.run_mode == CliRunMode::Quit)
            &&& match a {
                Action::Play => plan.operation == CliOperation::RunMenuCommand(
                    MenuCommand::PlayDefaultProfile,
                ),
                Action::PlayLast => plan.operation == CliOperation::RunMenuCommand(
                    MenuCommand::PlayLastProfile,
                ),
                Action::PlayProfile { profile_name } => plan.operation
                    == CliOperation::PlaySelectedProfile(profile_name),
                Action::Editor => plan.operation == CliOperation::RunMenuCommand(
                    MenuCommand::OpenFromDefaultProfile,
                ),
                Action::EditorLast => plan.operation == CliOperation::RunMenuCommand(
                    MenuCommand::OpenFromLastProfile,
                ),
                Action::Init { engine_path, iwad_path, map_path, force } => plan.operation matches CliOperation::Init {
                    engine_path: e,
                    iwad_path: i,
                    map_path: m,
                    force: f,
                } && e@ == resolved(engine_path@, is_macos, home) && i@ == resolved(
                    iwad_path@,
                    is_macos,
                    home,
                ) && f == force && match map_path {
                    Some(p) => m matches Some(q) && q@ == resolved(p@, is_macos, home),
                    None => m is None,
                },
                Action::Reset { force } => plan.operation == CliOperation::Reset { force },
                Action::List { list_data, full } => plan.operation == CliOperation::List {
                    list_data,
                    list_type: if full {
                        ListType::Full
                    } else {
                        ListType::Summary
                    },
                },
                Action::AddProfile { name, engine, iwad, maps, save_game, args } => plan.operation matches CliOperation::AddProfile {
                    name: n,
                    engine: e,
                    iwad: i,
                    maps: m,
                    save_game: s,
                    args: x,
                } && n == name && e@ == resolved(engine@, is_macos, home) && i@ == resolved(
                    iwad@,
                    is_macos,
                    home,
                ) && m == maps && s == save_game && x == args,
                Action::DeleteProfile { name, force } => plan.operation
                    == CliOperation::DeleteProfile { name, force },
                Action::AddEditor { path, load_file_arg, additional_args } => plan.operation matches CliOperation::AddEditor {
                    path: p,
                    load_file_arg: l,
                    additional_args: x,
                } && p@ == resolved(path@, is_macos, home) && l == load_file_arg && x
                    == additional_args,
                Action::DeleteEditor { path, force } => plan.operation matches CliOperation::DeleteEditor {
                    path: p,
                    force: f,
                } && p@ == resolved(path@, is_macos, home) && f == force,
                Action::SetAppSettings { menu_mode, use_doomworld_api } => match menu_mode {
                    Some(m) => plan.operation == CliOperation::UpdateMenuMode(m),
                    None => match use_doomworld_api {
                        Some(u) => plan.operation == CliOperation::UpdateUseDoomworldApi(u),
                        None => plan.operation matches CliOperation::Message(m) && m@
                            == "No arguments specified"@,
                    },
                },
                Action::SetDefault { engine, iwad, profile, editor } => match engine {
                    Some(e) => plan.operation matches CliOperation::SetDefaultEngine(p) && p@
                        == resolved(e@, is_macos, home),
                    None => match iwad {
                        Some(w) => plan.operation matches CliOperation::SetDefaultIwad(p) && p@
                            == resolved(w@, is_macos, home),
                        None => match profile {
                            Some(n) => plan.operation == CliOperation::SetDefaultProfile(n),
                            None => match editor {
                                Some(e) => plan.operation matches CliOperation::SetDefaultEditor(
                                    p,
                                ) && p@ == resolved(e@, is_macos, home),
                                None => plan.operation matches CliOperation::Message(m) && m@
                                    == "No arguments specified"@,
                            },
                        },
                    },
                },
                Action::SetPlaySettings { .. } => play_setting_op_is(
                    a,
                    is_macos,
                    home,
                    plan.operation,
                ),
            }
        },
    }
}

fn no_arguments() -> (r: CliOperation)
    ensures
        r matches CliOperation::Message(m) && m@ == "No arguments specified"@,
{
    CliOperation::Message(copy_str("No arguments specified"))
}

/// What the command line's arguments come to. `is_macos` and `home_dir` say how paths
/// that start with `~/` are resolved.
pub fn run_cli_action(args: Args, is_macos: bool, home_dir: Option<&str>) -> (r: CliPlan)
    ensures
        cli_plan_is(
            args,
            is_macos,
            match home_dir {
                Some(h) => Some(h@),
                None => None,
            },
            r,
        ),
{
    let ghost whole = args;
    let action = match args.action {
        None => {
            return CliPlan {
                check_app_can_run: None,
                operation: CliOperation::Message(copy_str("No arguments specified, continue to UI")),
                run_mode: CliRunMode::Tui,
            };
        },
        Some(a) => a,
    };
    let check = match &action {
        Action::Reset { .. } => None,
        Action::Init { force, .. } => Some(*force),
        _ => Some(false),
    };
    let operation = match action {
        Action::Play => CliOperation::RunMenuCommand(MenuCommand::PlayDefaultProfile),
        Action::PlayLast => CliOperation::RunMenuCommand(MenuCommand::PlayLastProfile),
        Action::PlayProfile { profile_name } => CliOperation::PlaySelectedProfile(profile_name),
        Action::Editor => CliOperation::RunMenuCommand(MenuCommand::OpenFromDefaultProfile),
        Action::EditorLast => CliOperation::RunMenuCommand(MenuCommand::OpenFromLastProfile),
        Action::Init { engine_path, iwad_path, map_path, force } => CliOperation::Init {
            engine_path: resolve_path(engine_path.as_str(), is_macos, home_dir),
            iwad_path: resolve_path(iwad_path.as_str(), is_macos, home_dir),
            map_path: resolve_path_opt(map_path, is_macos, home_dir),
            force,
        },
        Action::Reset { force } => CliOperation::Reset { force },
        Action::List { list_data, full } => CliOperation::List {
            list_data,
            list_type: if full {
                ListType::Full
            } else {
                ListType::Summary
            },
        },
        Action::AddProfile { name, engine, iwad, maps, save_game, args } => CliOperation::AddProfile {
            name,
            engine: resolve_path(engine.as_str(), is_macos, home_dir),
            iwad: resolve_path(iwad.as_str(), is_macos, home_dir),
            maps,
            save_game,
            args,
        },
        Action::DeleteProfile { name, force } => CliOperation::DeleteProfile { name, force },
        Action::AddEditor { path, load_file_arg, additional_args } => CliOperation::AddEditor {
            path: resolve_path(path.as_str(), is_macos, home_dir),
            load_file_arg,
            additional_args,
        },
        Action::DeleteEditor { path, force } => CliOperation::DeleteEditor {
            path: resolve_path(path.as_str(), is_macos, home_dir),
            force,
        },
        Action::SetAppSettings { menu_mode, use_doomworld_api } => {
            if let Some(m) = menu_mode {
                CliOperation::UpdateMenuMode(m)
            } else if let Some(u) = use_doomworld_api {
                CliOperation::UpdateUseDoomworldApi(u)
            } else {
                no_arguments()
            }
        },
        Action::SetDefault { engine, iwad, profile, editor } => {
            if let Some(e) = engine {
                CliOperation::SetDefaultEngine(resolve_path(e.as_str(), is_macos, home_dir))
            } else if let Some(w) = iwad {
                CliOperation::SetDefaultIwad(resolve_path(w.as_str(), is_macos, home_dir))
            } else if let Some(p) = profile {
                CliOperation::SetDefaultProfile(p)
            } else if let Some(e) = editor {
                CliOperation::SetDefaultEditor(resolve_path(e.as_str(), is_macos, home_dir))
            } else {
                no_arguments()
            }
        },
        Action::SetPlaySettings {
            reset,
            comp_level,
            config_file,
            fast_monsters,
            no_monsters,
            respawn_monsters,
            warp_to_level,
            skill,
            turbo,
            timer,
            screen_width,
            screen_height,
            full_screen,
            windowed,
            additional_args,
        } => {
            if let Some(v) = reset {
                CliOperation::ResetPlaySettings(v)
            } else if let Some(v) = comp_level {
                CliOperation::SetCompLevel(v)
            } else if let Some(v) = config_file {
                CliOperation::SetConfigFile(resolve_path(v.as_str(), is_macos, home_dir))
            } else if let Some(v) = fast_monsters {
                CliOperation::SetFastMonsters(v)
            } else if let Some(v) = no_monsters {
                CliOperation::SetNoMonsters(v)
            } else if let Some(v) = respawn_monsters {
                CliOperation::SetRespawnMonsters(v)
            } else if let Some(v) = warp_to_level {
                CliOperation::SetWarpToLevel(v)
            } else if let Some(v) = skill {
                CliOperation::SetSkill(v)
            } else if let Some(v) = turbo {
                CliOperation::SetTurbo(v)
            } else if let Some(v) = timer {
                CliOperation::SetTimer(v)
            } else if let Some(v) = screen_width {
                CliOperation::SetScreenWidth(v)
            } else if let Some(v) = screen_height {
                CliOperation::SetScreenHeight(v)
            } else if let Some(v) = full_screen {
                CliOperation::SetFullScreen(v)
            } else if let Some(v) = windowed {
                CliOperation::SetWindowed(v)
            } else if let Some(v) = additional_args {
                CliOperation::SetAdditionalArgs(v)
            } else {
                no_arguments()
            }
        },
    };
    CliPlan { check_app_can_run: check, operation, run_mode: CliRunMode::Quit }
}

/// What follows a reset from the command line: with `force` the app quits; otherwise,
/// unless the reset was not confirmed, set-up runs and the menus follow.
pub enum ResetFollowUp {
    Quit,
    InitThenMenus,
    Menus,
}

/// What follows a reset, given its result message.
pub fn reset_follow_up(force: bool, result: &str) -> (r: ResetFollowUp)
    ensures
        force ==> r == ResetFollowUp::Quit,
        !force && result@ != "Database reset not confirmed"@ ==> r == ResetFollowUp::InitThenMenus,
        !force && result@ == "Database reset not confirmed"@ ==> r == ResetFollowUp::Menus,
{
    if force {
        ResetFollowUp::Quit
    } else if !crate::text::str_eq(result, "Database reset not confirmed") {
        ResetFollowUp::InitThenMenus
    } else {
        ResetFollowUp::Menus
    }
}


/// 1 when an option is given, 0 otherwise.
pub open spec fn given<T>(o: Option<T>) -> int {
    if o is Some {
        1
    } else {
        0
    }
}

/// How many options a play-settings action gives.
pub open spec fn play_options_given(a: Action) -> int {
    match a {
        Action::SetPlaySettings {
            reset,
            comp_level,
            config_file,
            fast_monsters,
            no_monsters,
            respawn_monsters,
            warp_to_level,
            skill,
            turbo,
            timer,
            screen_width,
            screen_height,
            full_screen,
            windowed,
            additional_args,
        } => given(reset) + given(comp_level) + given(config_file) + given(fast_monsters) + given(
            no_monsters,
        ) + given(respawn_monsters) + given(warp_to_level) + given(skill) + given(turbo) + given(
            timer,
        ) + given(screen_width) + given(screen_height) + given(full_screen) + given(windowed)
            + given(additional_args),
        _ => 0,
    }
}

/// A play-settings action that gives one option comes to setting that very option to
/// the given value: a screen width sets the width, a screen height the height, a skill
/// the skill, and so on.
pub proof fn law_play_option_sets_that_option(
    a: Action,
    is_macos: bool,
    home: Option<Seq<char>>,
    plan: CliPlan,
)
    requires
        a is SetPlaySettings,
        play_options_given(a) == 1,
        cli_plan_is(Args { action: Some(a) }, is_macos, home, plan),
    ensures
        a->SetPlaySettings_reset matches Some(v) ==> plan.operation == CliOperation::ResetPlaySettings(v),
        a->SetPlaySettings_comp_level matches Some(v) ==> plan.operation == CliOperation::SetCompLevel(v),
        a->SetPlaySettings_config_file matches Some(v) ==> plan.operation matches CliOperation::SetConfigFile(f)
            && f@ == resolved(v@, is_macos, home),
        a->SetPlaySettings_fast_monsters matches Some(v) ==> plan.operation == CliOperation::SetFastMonsters(v),
        a->SetPlaySettings_no_monsters matches Some(v) ==> plan.operation == CliOperation::SetNoMonsters(v),
        a->SetPlaySettings_respawn_monsters matches Some(v) ==> plan.operation
            == CliOperation::SetRespawnMonsters(v),
        a->SetPlaySettings_warp_to_level matches Some(v) ==> plan.operation matches CliOperation::SetWarpToLevel(w)
            && w@ == v@,
        a->SetPlaySettings_skill matches Some(v) ==> plan.operation == CliOperation::SetSkill(v),
        a->SetPlaySettings_turbo matches Some(v) ==> plan.operation == CliOperation::SetTurbo(v),
        a->SetPlaySettings_timer matches Some(v) ==> plan.operation == CliOperation::SetTimer(v),
        a->SetPlaySettings_screen_width matches Some(v) ==> plan.operation == CliOperation::SetScreenWidth(v),
        a->SetPlaySettings_screen_height matches Some(v) ==> plan.operation == CliOperation::SetScreenHeight(v),
        a->SetPlaySettings_full_screen matches Some(v) ==> plan.operation == CliOperation::SetFullScreen(v),
        a->SetPlaySettings_windowed matches Some(v) ==> plan.operation == CliOperation::SetWindowed(v),
        a->SetPlaySettings_additional_args matches Some(v) ==> plan.operation
            == CliOperation::SetAdditionalArgs(v),
{
}

} // verus!

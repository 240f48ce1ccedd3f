//! Names, command-line arguments and placeholder texts shared by the whole library.

use vstd::prelude::*;
use crate::text::str_eq;

verus! {

/// The application's display name.
pub const APP_NAME: &'static str = "Doom CLI";

/// Operating system names, as `std::env::consts::OS` reports them.
pub const OS_WINDOWS: &'static str = "windows";
pub const OS_LINUX: &'static str = "linux";
pub const OS_MACOS: &'static str = "macos";

/// Command-line arguments of the menu commands.
pub const ARG_PLAY: &'static str = "--play";
pub const ARG_PROFILES: &'static str = "--profiles";
pub const ARG_CONFIG: &'static str = "--config";
pub const ARG_INIT: &'static str = "--init";
pub const ARG_RESET: &'static str = "--reset";

/// Shown wherever an optional value has not been set.
pub const DEFAULT_NOT_SET: &'static str = "Not set";

/// Shown wherever a value could not be found out.
pub const DEFAULT_UNKNOWN: &'static str = "Unknown";

/// The menu entry that clears an optional setting.
pub const MENU_NOT_SET: &'static str = "Not set";

/// The shortest Profile name accepted.
pub const MIN_NAME_LENGTH: usize = 3;

/// Commands of the main menu.
#[derive(Debug, PartialEq, Eq, Structural, Clone, Copy)]
pub enum MainCommand {
    Play,
    Profiles,
    Config,
    Quit,
    Unknown,
}

/// Commands of the Profile menu.
#[derive(Debug, PartialEq, Eq, Structural, Clone, Copy)]
pub enum ProfileCommand {
    New,
    Edit,
    Delete,
    Active,
    List,
    Back,
}

/// Commands of the configuration menu.
#[derive(Debug, PartialEq, Eq, Structural, Clone, Copy)]
pub enum ConfigCommand {
    List,
    Init,
    UpdateEngines,
    UpdateIwads,
    UpdatePwads,
    Reset,
    Back,
    Unknown,
}

/// The main-menu command a command-line argument selects.
pub open spec fn main_command_of(arg: Seq<char>) -> MainCommand {
    if arg == ARG_PLAY@ {
        MainCommand::Play
    } else if arg == ARG_PROFILES@ {
        MainCommand::Profiles
    } else if arg == ARG_CONFIG@ {
        MainCommand::Config
    } else {
        MainCommand::Unknown
    }
}

/// The configuration command a command-line argument selects.
pub open spec fn config_command_of(arg: Seq<char>) -> ConfigCommand {
    if arg == ARG_INIT@ {
        ConfigCommand::Init
    } else if arg == ARG_RESET@ {
        ConfigCommand::Reset
    } else {
        ConfigCommand::Unknown
    }
}

/// Maps `--play`, `--profiles` and `--config` to their main-menu commands; anything
/// else is `Unknown`.
pub fn convert_arg_to_maincommand(arg: &str) -> (r: MainCommand)
    ensures
        r == main_command_of(arg@),
{
    if str_eq(arg, ARG_PLAY) {
        MainCommand::Play
    } else if str_eq(arg, ARG_PROFILES) {
        MainCommand::Profiles
    } else if str_eq(arg, ARG_CONFIG) {
        MainCommand::Config
    } else {
        MainCommand::Unknown
    }
}

/// Maps `--init` and `--reset` to their configuration commands; anything else is
/// `Unknown`.
pub fn convert_arg_to_configcommand(arg: &str) -> (r: ConfigCommand)
    ensures
        r == config_command_of(arg@),
{
    if str_eq(arg, ARG_INIT) {
        ConfigCommand::Init
    } else if str_eq(arg, ARG_RESET) {
        ConfigCommand::Reset
    } else {
        ConfigCommand::Unknown
    }
}

} // verus!

pub mod text;
pub mod constants;
pub mod doom_data;
pub mod finder;
pub mod paths;
pub mod tui;
pub mod data;
pub mod db;
pub mod menu_play_settings;
pub mod menu_app_settings;
pub mod runner;
pub mod files;
pub mod doomworld_api;
pub mod menu_common;
pub mod menu_editor;
pub mod menu_maps;
pub mod menu_view_readme;
pub mod menu_profiles;
pub mod cli;
pub mod settings;
pub mod menu_main;

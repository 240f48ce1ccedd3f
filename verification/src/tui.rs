//! The menu's vocabulary: its levels, its modes, the commands it offers, what each
//! page lists, and how a chosen command is carried out.

use vstd::prelude::*;
use owo_colors::OwoColorize;
use crate::data::{
    display_option_comp_level, display_option_string, display_option_u32, display_option_u8,
    opt_number_text, opt_string_view, opt_text, comp_level_text, AppSettings, PlaySettings,
};
use crate::text::{concat3, decimal, chars_before_first, chars_of, copy_str, str_eq, str_starts_with, string_from, trim, trim_chars, before_first, is_whitespace, trim_end, trim_start};

verus! {

/// How many entries a menu page shows.
pub const MENU_PAGE_SIZE: usize = 15;

/// What a user types to clear an optional setting.
pub const MENU_CLR: &'static str = "clr";

/// The hint shown beside prompts that accept `clr`.
pub const MENU_CLR_MESSAGE: &'static str = "clr to clear";

// ---------------------------------------------------------------------------
// Colours
// ---------------------------------------------------------------------------

/// Text wrapped in the ANSI codes that set the foreground colour `code` and then
/// restore the default foreground.
pub open spec fn fg_text(code: Seq<char>, s: Seq<char>) -> Seq<char> {
    seq!['\u{1b}', '['] + code + seq!['m'] + s + seq!['\u{1b}', '[', '3', '9', 'm']
}

/// `OwoColorize::green`, displayed: `s` between the codes for a green foreground
/// (`ESC[32m`) and for the default foreground (`ESC[39m`).
#[verifier::external_body]
pub(crate) fn green(s: &str) -> (r: String)
    ensures
        r@ == fg_text(seq!['3', '2'], s@),
{
    s.green().to_string()
}

/// `OwoColorize::yellow`, displayed: `s` between `ESC[33m` and `ESC[39m`.
#[verifier::external_body]
pub(crate) fn yellow(s: &str) -> (r: String)
    ensures
        r@ == fg_text(seq!['3', '3'], s@),
{
    s.yellow().to_string()
}

/// `OwoColorize::red`, displayed: `s` between `ESC[31m` and `ESC[39m`.
#[verifier::external_body]
pub(crate) fn red(s: &str) -> (r: String)
    ensures
        r@ == fg_text(seq!['3', '1'], s@),
{
    s.red().to_string()
}

/// `OwoColorize::blue`, displayed: `s` between `ESC[34m` and `ESC[39m`.
#[verifier::external_body]
pub(crate) fn blue(s: &str) -> (r: String)
    ensures
        r@ == fg_text(seq!['3', '4'], s@),
{
    s.blue().to_string()
}

/// `OwoColorize::magenta`, displayed: `s` between `ESC[35m` and `ESC[39m`.
#[verifier::external_body]
pub(crate) fn magenta(s: &str) -> (r: String)
    ensures
        r@ == fg_text(seq!['3', '5'], s@),
{
    s.magenta().to_string()
}

/// `OwoColorize::color` with the xterm colour numbered `code` (`XtermColors::from`),
/// displayed: `s` between the code of that colour (`ESC[38;5;<code>m`) and `ESC[39m`.
#[verifier::external_body]
pub(crate) fn xterm_colour(s: &str, code: u8) -> (r: String)
    ensures
        r@ == fg_text(seq!['3', '8', ';', '5', ';'] + decimal(code as nat), s@),
{
    s.color(owo_colors::XtermColors::from(code)).to_string()
}

/// `s` in xterm colour 47, dark spring green: between `ESC[38;5;47m` and `ESC[39m`.
pub(crate) fn dark_spring_green(s: &str) -> (r: String)
    ensures
        r@ == fg_text(seq!['3', '8', ';', '5', ';', '4', '7'], s@),
{
    let r = xterm_colour(s, 47);
    assert(decimal(4) == seq!['4']);
    assert(decimal(47) =~= seq!['4', '7']);
    assert(seq!['3', '8', ';', '5', ';'] + decimal(47) =~= seq!['3', '8', ';', '5', ';', '4', '7']);
    r
}

/// `s` in xterm colour 32, Lochmara blue: between `ESC[38;5;32m` and `ESC[39m`.
pub(crate) fn lochmara_blue(s: &str) -> (r: String)
    ensures
        r@ == fg_text(seq!['3', '8', ';', '5', ';', '3', '2'], s@),
{
    let r = xterm_colour(s, 32);
    assert(decimal(3) == seq!['3']);
    assert(decimal(32) =~= seq!['3', '2']);
    assert(seq!['3', '8', ';', '5', ';'] + decimal(32) =~= seq!['3', '8', ';', '5', ';', '3', '2']);
    r
}

/// `s` in xterm colour 166, Tenn orange: between `ESC[38;5;166m` and `ESC[39m`.
pub(crate) fn tenn_orange(s: &str) -> (r: String)
    ensures
        r@ == fg_text(seq!['3', '8', ';', '5', ';', '1', '6', '6'], s@),
{
    let r = xterm_colour(s, 166);
    assert(decimal(1) == seq!['1']);
    assert(decimal(16) =~= seq!['1', '6']);
    assert(decimal(166) =~= seq!['1', '6', '6']);
    assert(seq!['3', '8', ';', '5', ';'] + decimal(166) =~= seq![
        '3',
        '8',
        ';',
        '5',
        ';',
        '1',
        '6',
        '6',
    ]);
    r
}

/// The colour a result message is shown in: green for a success, yellow for a
/// cancellation, a refusal or a "No ..." answer, red for "There are no ...", and no
/// colour otherwise.
pub open spec fn coloured_result(result: Seq<char>) -> Seq<char> {
    if "Successfully"@.is_prefix_of(result) {
        fg_text(seq!['3', '2'], result)
    } else if "Canceled"@.is_prefix_of(result) || "Cannot"@.is_prefix_of(result)
        || "No "@.is_prefix_of(result) {
        fg_text(seq!['3', '3'], result)
    } else if "There are no"@.is_prefix_of(result) {
        fg_text(seq!['3', '1'], result)
    } else {
        result
    }
}

/// A result message in the colour its opening words call for.
pub fn colour_result(result: &str) -> (r: String)
    ensures
        r@ == coloured_result(result@),
{
    if str_starts_with(result, "Successfully") {
        green(result)
    } else if str_starts_with(result, "Canceled") || str_starts_with(result, "Cannot")
        || str_starts_with(result, "No ") {
        yellow(result)
    } else if str_starts_with(result, "There are no") {
        red(result)
    } else {
        copy_str(result)
    }
}

// ---------------------------------------------------------------------------
// Menu levels and modes
// ---------------------------------------------------------------------------

/// The pages of the menu.
#[derive(Debug, PartialEq, Eq, Structural, Clone, Copy)]
pub enum MenuLevel {
    Main,
    Profiles,
    GameSettings,
    MapEditor,
    Maps,
    MapsSearchDoomworld,
    MapsReadme,
    AppSettings,
    AppSettingsDefaults,
    AppSettingsList,
    AppSettingsUpdate,
    AppSettingsDelete,
}

/// How much the menus offer.
#[derive(Debug, PartialEq, Eq, Structural, Clone, Copy)]
pub enum MenuMode {
    Full,
    Simple,
}

/// The display name of a menu mode.
pub open spec fn menu_mode_text(m: MenuMode) -> Seq<char> {
    match m {
        MenuMode::Full => "Full"@,
        MenuMode::Simple => "Simple"@,
    }
}

/// The display name of a menu mode.
pub fn menu_mode_name(m: MenuMode) -> (s: String)
    ensures
        s@ == menu_mode_text(m),
{
    match m {
        MenuMode::Full => copy_str("Full"),
        MenuMode::Simple => copy_str("Simple"),
    }
}

/// The other menu mode.
pub open spec fn toggled(m: MenuMode) -> MenuMode {
    match m {
        MenuMode::Full => MenuMode::Simple,
        MenuMode::Simple => MenuMode::Full,
    }
}

/// The commands the menus offer.
#[derive(Debug, PartialEq, Eq, Structural, Clone, Copy)]
pub enum MenuCommand {
    PlayDefaultProfile,
    PlayLastProfile,
    PickAndPlayProfile,
    PickAndPlayMap,
    Editor,
    Profiles,
    PlaySettings,
    Maps,
    AppSettings,
    NewProfile,
    EditProfile,
    ChangeEngineOnProfile,
    DeleteProfile,
    SetDefaultProfile,
    ListProfile,
    MenuMode,
    UseDoomworldApi,
    SetDefaults,
    SetDefaultEngine,
    SetDefaultIwad,
    ListStoredData,
    ListEngines,
    ListIwads,
    ListMaps,
    ListAppSettings,
    ListPlaySettings,
    UpdateStoredData,
    UpdateEngines,
    UpdateIwads,
    UpdateMaps,
    UpdateMapInfo,
    DeleteStoredData,
    DeleteEngines,
    DeleteIwads,
    DeleteMaps,
    AppVersion,
    Init,
    Reset,
    CompLevel,
    ConfigFile,
    FastMonsters,
    NoMonsters,
    RespawnMonsters,
    WarpToLevel,
    Skill,
    Turbo,
    Timer,
    Width,
    Height,
    FullScreen,
    Windowed,
    AdditionalArguments,
    ResetPlaySettings,
    OpenFromDefaultProfile,
    OpenFromLastProfile,
    OpenFromPickProfile,
    OpenFromPickMap,
    SetDefaultEditor,
    ListEditors,
    AddEditor,
    DeleteEditor,
    ViewOnDoomworld,
    SearchAndDownloadOnDoomworld,
    SearchDoomworldByAuthor,
    SearchDoomworldByFileName,
    SearchDoomworldByMapTitle,
    ViewReadme,
    ReadmeFromDefaultProfile,
    ReadmeFromLastProfile,
    ReadmeFromPickProfile,
    ReadmeFromPickMap,
    Back,
    Quit,
    Ignore,
}

/// The text a menu shows for a command.
pub open spec fn command_text(c: MenuCommand) -> Seq<char> {
    match c {
        MenuCommand::PlayDefaultProfile => "Play Default Profile"@,
        MenuCommand::PlayLastProfile => "Play Last Profile"@,
        MenuCommand::PickAndPlayProfile => "Pick & Play Profile"@,
        MenuCommand::PickAndPlayMap => "Pick & Play Map"@,
        MenuCommand::Editor => "Editor >>"@,
        MenuCommand::Profiles => "Profiles >>"@,
        MenuCommand::PlaySettings => "Play Settings >>"@,
        MenuCommand::Maps => "Maps >>"@,
        MenuCommand::AppSettings => "App Settings >>"@,
        MenuCommand::NewProfile => "New Profile"@,
        MenuCommand::EditProfile => "Edit Profile"@,
        MenuCommand::ChangeEngineOnProfile => "Change Engine on Profile"@,
        MenuCommand::DeleteProfile => "Delete Profile"@,
        MenuCommand::SetDefaultProfile => "Set Default Profile"@,
        MenuCommand::ListProfile => "List Profiles"@,
        MenuCommand::MenuMode => "Menu Mode"@,
        MenuCommand::UseDoomworldApi => "Use Doomworld API"@,
        MenuCommand::SetDefaults => "Set Defaults >>"@,
        MenuCommand::SetDefaultEngine => "Set Default Engine"@,
        MenuCommand::SetDefaultIwad => "Set Default Internal WAD"@,
        MenuCommand::ListStoredData => "List Stored Data >>"@,
        MenuCommand::ListEngines => "List Engines"@,
        MenuCommand::ListIwads => "List Internal WADs"@,
        MenuCommand::ListMaps => "List Maps"@,
        MenuCommand::ListAppSettings => "List App Settings"@,
        MenuCommand::ListPlaySettings => "List Play Settings"@,
        MenuCommand::UpdateStoredData => "Update Stored Data >>"@,
        MenuCommand::UpdateEngines => "Update Engines"@,
        MenuCommand::UpdateIwads => "Update Internal WADs"@,
        MenuCommand::UpdateMaps => "Update Maps"@,
        MenuCommand::UpdateMapInfo => "Update Map Info"@,
        MenuCommand::DeleteStoredData => "Delete Stored Data >>"@,
        MenuCommand::DeleteEngines => "Delete Engines"@,
        MenuCommand::DeleteIwads => "Delete Internal WADs"@,
        MenuCommand::DeleteMaps => "Delete Maps"@,
        MenuCommand::AppVersion => "View App Version"@,
        MenuCommand::Init => "Init"@,
        MenuCommand::Reset => "Reset"@,
        MenuCommand::CompLevel => "Compatibility Level"@,
        MenuCommand::ConfigFile => "Config File"@,
        MenuCommand::FastMonsters => "Fast Monsters"@,
        MenuCommand::NoMonsters => "No Monsters"@,
        MenuCommand::RespawnMonsters => "Respawn Monsters"@,
        MenuCommand::WarpToLevel => "Warp to Level"@,
        MenuCommand::Skill => "Skill"@,
        MenuCommand::Turbo => "Turbo"@,
        MenuCommand::Timer => "Timer"@,
        MenuCommand::Width => "Screen Width"@,
        MenuCommand::Height => "Screen Height"@,
        MenuCommand::FullScreen => "Full Screen"@,
        MenuCommand::Windowed => "Windowed"@,
        MenuCommand::AdditionalArguments => "Additional Arguments"@,
        MenuCommand::ResetPlaySettings => "Reset Play Settings"@,
        MenuCommand::OpenFromDefaultProfile => "Open from Default Profile Map"@,
        MenuCommand::OpenFromLastProfile => "Open from Last Profile Map"@,
        MenuCommand::OpenFromPickProfile => "Open from Pick Profile"@,
        MenuCommand::OpenFromPickMap => "Open from Pick Map"@,
        MenuCommand::SetDefaultEditor => "Set Default Editor"@,
        MenuCommand::ListEditors => "List Editors"@,
        MenuCommand::AddEditor => "Add Editor"@,
        MenuCommand::DeleteEditor => "Delete Editor"@,
        MenuCommand::ViewOnDoomworld => "View on Doomworld"@,
        MenuCommand::SearchAndDownloadOnDoomworld => "Search & Download on Doomworld >>"@,
        MenuCommand::SearchDoomworldByAuthor => "Search Doomworld by Author"@,
        MenuCommand::SearchDoomworldByFileName => "Search Doomworld by FileName"@,
        MenuCommand::SearchDoomworldByMapTitle => "Search Doomworld by Map Title"@,
        MenuCommand::ViewReadme => "View Readme >>"@,
        MenuCommand::ReadmeFromDefaultProfile => "Readme from Default Profile"@,
        MenuCommand::ReadmeFromLastProfile => "Readme from Last Profile"@,
        MenuCommand::ReadmeFromPickProfile => "Readme from Pick Profile"@,
        MenuCommand::ReadmeFromPickMap => "Readme from Pick Map"@,
        MenuCommand::Back => "Back <ESC>"@,
        MenuCommand::Quit => "Quit <ESC>"@,
        MenuCommand::Ignore => "Ignore"@,
    }
}

/// The text a menu shows for a command.
pub fn command_name(c: MenuCommand) -> (s: String)
    ensures
        s@ == command_text(c),
{
    match c {
        MenuCommand::PlayDefaultProfile => copy_str("Play Default Profile"),
        MenuCommand::PlayLastProfile => copy_str("Play Last Profile"),
        MenuCommand::PickAndPlayProfile => copy_str("Pick & Play Profile"),
        MenuCommand::PickAndPlayMap => copy_str("Pick & Play Map"),
        MenuCommand::Editor => copy_str("Editor >>"),
        MenuCommand::Profiles => copy_str("Profiles >>"),
        MenuCommand::PlaySettings => copy_str("Play Settings >>"),
        MenuCommand::Maps => copy_str("Maps >>"),
        MenuCommand::AppSettings => copy_str("App Settings >>"),
        MenuCommand::NewProfile => copy_str("New Profile"),
        MenuCommand::EditProfile => copy_str("Edit Profile"),
        MenuCommand::ChangeEngineOnProfile => copy_str("Change Engine on Profile"),
        MenuCommand::DeleteProfile => copy_str("Delete Profile"),
        MenuCommand::SetDefaultProfile => copy_str("Set Default Profile"),
        MenuCommand::ListProfile => copy_str("List Profiles"),
        MenuCommand::MenuMode => copy_str("Menu Mode"),
        MenuCommand::UseDoomworldApi => copy_str("Use Doomworld API"),
        MenuCommand::SetDefaults => copy_str("Set Defaults >>"),
        MenuCommand::SetDefaultEngine => copy_str("Set Default Engine"),
        MenuCommand::SetDefaultIwad => copy_str("Set Default Internal WAD"),
        MenuCommand::ListStoredData => copy_str("List Stored Data >>"),
        MenuCommand::ListEngines => copy_str("List Engines"),
        MenuCommand::ListIwads => copy_str("List Internal WADs"),
        MenuCommand::ListMaps => copy_str("List Maps"),
        MenuCommand::ListAppSettings => copy_str("List App Settings"),
        MenuCommand::ListPlaySettings => copy_str("List Play Settings"),
        MenuCommand::UpdateStoredData => copy_str("Update Stored Data >>"),
        MenuCommand::UpdateEngines => copy_str("Update Engines"),
        MenuCommand::UpdateIwads => copy_str("Update Internal WADs"),
        MenuCommand::UpdateMaps => copy_str("Update Maps"),
        MenuCommand::UpdateMapInfo => copy_str("Update Map Info"),
        MenuCommand::DeleteStoredData => copy_str("Delete Stored Data >>"),
        MenuCommand::DeleteEngines => copy_str("Delete Engines"),
        MenuCommand::DeleteIwads => copy_str("Delete Internal WADs"),
        MenuCommand::DeleteMaps => copy_str("Delete Maps"),
        MenuCommand::AppVersion => copy_str("View App Version"),
        MenuCommand::Init => copy_str("Init"),
        MenuCommand::Reset => copy_str("Reset"),
        MenuCommand::CompLevel => copy_str("Compatibility Level"),
        MenuCommand::ConfigFile => copy_str("Config File"),
        MenuCommand::FastMonsters => copy_str("Fast Monsters"),
        MenuCommand::NoMonsters => copy_str("No Monsters"),
        MenuCommand::RespawnMonsters => copy_str("Respawn Monsters"),
        MenuCommand::WarpToLevel => copy_str("Warp to Level"),
        MenuCommand::Skill => copy_str("Skill"),
        MenuCommand::Turbo => copy_str("Turbo"),
        MenuCommand::Timer => copy_str("Timer"),
        MenuCommand::Width => copy_str("Screen Width"),
        MenuCommand::Height => copy_str("Screen Height"),
        MenuCommand::FullScreen => copy_str("Full Screen"),
        MenuCommand::Windowed => copy_str("Windowed"),
        MenuCommand::AdditionalArguments => copy_str("Additional Arguments"),
        MenuCommand::ResetPlaySettings => copy_str("Reset Play Settings"),
        MenuCommand::OpenFromDefaultProfile => copy_str("Open from Default Profile Map"),
        MenuCommand::OpenFromLastProfile => copy_str("Open from Last Profile Map"),
        MenuCommand::OpenFromPickProfile => copy_str("Open from Pick Profile"),
        MenuCommand::OpenFromPickMap => copy_str("Open from Pick Map"),
        MenuCommand::SetDefaultEditor => copy_str("Set Default Editor"),
        MenuCommand::ListEditors => copy_str("List Editors"),
        MenuCommand::AddEditor => copy_str("Add Editor"),
        MenuCommand::DeleteEditor => copy_str("Delete Editor"),
        MenuCommand::ViewOnDoomworld => copy_str("View on Doomworld"),
        MenuCommand::SearchAndDownloadOnDoomworld => copy_str("Search & Download on Doomworld >>"),
        MenuCommand::SearchDoomworldByAuthor => copy_str("Search Doomworld by Author"),
        MenuCommand::SearchDoomworldByFileName => copy_str("Search Doomworld by FileName"),
        MenuCommand::SearchDoomworldByMapTitle => copy_str("Search Doomworld by Map Title"),
        MenuCommand::ViewReadme => copy_str("View Readme >>"),
        MenuCommand::ReadmeFromDefaultProfile => copy_str("Readme from Default Profile"),
        MenuCommand::ReadmeFromLastProfile => copy_str("Readme from Last Profile"),
        MenuCommand::ReadmeFromPickProfile => copy_str("Readme from Pick Profile"),
        MenuCommand::ReadmeFromPickMap => copy_str("Readme from Pick Map"),
        MenuCommand::Back => copy_str("Back <ESC>"),
        MenuCommand::Quit => copy_str("Quit <ESC>"),
        MenuCommand::Ignore => copy_str("Ignore"),
    }
}

/// Every command, in declaration order.
pub open spec fn all_commands() -> Seq<MenuCommand> {
    seq![
        MenuCommand::PlayDefaultProfile,
        MenuCommand::PlayLastProfile,
        MenuCommand::PickAndPlayProfile,
        MenuCommand::PickAndPlayMap,
        MenuCommand::Editor,
        MenuCommand::Profiles,
        MenuCommand::PlaySettings,
        MenuCommand::Maps,
        MenuCommand::AppSettings,
        MenuCommand::NewProfile,
        MenuCommand::EditProfile,
        MenuCommand::ChangeEngineOnProfile,
        MenuCommand::DeleteProfile,
        MenuCommand::SetDefaultProfile,
        MenuCommand::ListProfile,
        MenuCommand::MenuMode,
        MenuCommand::UseDoomworldApi,
        MenuCommand::SetDefaults,
        MenuCommand::SetDefaultEngine,
        MenuCommand::SetDefaultIwad,
        MenuCommand::ListStoredData,
        MenuCommand::ListEngines,
        MenuCommand::ListIwads,
        MenuCommand::ListMaps,
        MenuCommand::ListAppSettings,
        MenuCommand::ListPlaySettings,
        MenuCommand::UpdateStoredData,
        MenuCommand::UpdateEngines,
        MenuCommand::UpdateIwads,
        MenuCommand::UpdateMaps,
        MenuCommand::UpdateMapInfo,
        MenuCommand::DeleteStoredData,
        MenuCommand::DeleteEngines,
        MenuCommand::DeleteIwads,
        MenuCommand::DeleteMaps,
        MenuCommand::AppVersion,
        MenuCommand::Init,
        MenuCommand::Reset,
        MenuCommand::CompLevel,
        MenuCommand::ConfigFile,
        MenuCommand::FastMonsters,
        MenuCommand::NoMonsters,
        MenuCommand::RespawnMonsters,
        MenuCommand::WarpToLevel,
        MenuCommand::Skill,
        MenuCommand::Turbo,
        MenuCommand::Timer,
        MenuCommand::Width,
        MenuCommand::Height,
        MenuCommand::FullScreen,
        MenuCommand::Windowed,
        MenuCommand::AdditionalArguments,
        MenuCommand::ResetPlaySettings,
        MenuCommand::OpenFromDefaultProfile,
        MenuCommand::OpenFromLastProfile,
        MenuCommand::OpenFromPickProfile,
        MenuCommand::OpenFromPickMap,
        MenuCommand::SetDefaultEditor,
        MenuCommand::ListEditors,
        MenuCommand::AddEditor,
        MenuCommand::DeleteEditor,
        MenuCommand::ViewOnDoomworld,
        MenuCommand::SearchAndDownloadOnDoomworld,
        MenuCommand::SearchDoomworldByAuthor,
        MenuCommand::SearchDoomworldByFileName,
        MenuCommand::SearchDoomworldByMapTitle,
        MenuCommand::ViewReadme,
        MenuCommand::ReadmeFromDefaultProfile,
        MenuCommand::ReadmeFromLastProfile,
        MenuCommand::ReadmeFromPickProfile,
        MenuCommand::ReadmeFromPickMap,
        MenuCommand::Back,
        MenuCommand::Quit,
        MenuCommand::Ignore,
    ]
}

/// Every command, in declaration order.
fn command_list() -> (v: Vec<MenuCommand>)
    ensures
        v@ == all_commands(),
{
    let v: Vec<MenuCommand> = vec![
        MenuCommand::PlayDefaultProfile,
        MenuCommand::PlayLastProfile,
        MenuCommand::PickAndPlayProfile,
        MenuCommand::PickAndPlayMap,
        MenuCommand::Editor,
        MenuCommand::Profiles,
        MenuCommand::PlaySettings,
        MenuCommand::Maps,
        MenuCommand::AppSettings,
        MenuCommand::NewProfile,
        MenuCommand::EditProfile,
        MenuCommand::ChangeEngineOnProfile,
        MenuCommand::DeleteProfile,
        MenuCommand::SetDefaultProfile,
        MenuCommand::ListProfile,
        MenuCommand::MenuMode,
        MenuCommand::UseDoomworldApi,
        MenuCommand::SetDefaults,
        MenuCommand::SetDefaultEngine,
        MenuCommand::SetDefaultIwad,
        MenuCommand::ListStoredData,
        MenuCommand::ListEngines,
        MenuCommand::ListIwads,
        MenuCommand::ListMaps,
        MenuCommand::ListAppSettings,
        MenuCommand::ListPlaySettings,
        MenuCommand::UpdateStoredData,
        MenuCommand::UpdateEngines,
        MenuCommand::UpdateIwads,
        MenuCommand::UpdateMaps,
        MenuCommand::UpdateMapInfo,
        MenuCommand::DeleteStoredData,
        MenuCommand::DeleteEngines,
        MenuCommand::DeleteIwads,
        MenuCommand::DeleteMaps,
        MenuCommand::AppVersion,
        MenuCommand::Init,
        MenuCommand::Reset,
        MenuCommand::CompLevel,
        MenuCommand::ConfigFile,
        MenuCommand::FastMonsters,
        MenuCommand::NoMonsters,
        MenuCommand::RespawnMonsters,
        MenuCommand::WarpToLevel,
        MenuCommand::Skill,
        MenuCommand::Turbo,
        MenuCommand::Timer,
        MenuCommand::Width,
        MenuCommand::Height,
        MenuCommand::FullScreen,
        MenuCommand::Windowed,
        MenuCommand::AdditionalArguments,
        MenuCommand::ResetPlaySettings,
        MenuCommand::OpenFromDefaultProfile,
        MenuCommand::OpenFromLastProfile,
        MenuCommand::OpenFromPickProfile,
        MenuCommand::OpenFromPickMap,
        MenuCommand::SetDefaultEditor,
        MenuCommand::ListEditors,
        MenuCommand::AddEditor,
        MenuCommand::DeleteEditor,
        MenuCommand::ViewOnDoomworld,
        MenuCommand::SearchAndDownloadOnDoomworld,
        MenuCommand::SearchDoomworldByAuthor,
        MenuCommand::SearchDoomworldByFileName,
        MenuCommand::SearchDoomworldByMapTitle,
        MenuCommand::ViewReadme,
        MenuCommand::ReadmeFromDefaultProfile,
        MenuCommand::ReadmeFromLastProfile,
        MenuCommand::ReadmeFromPickProfile,
        MenuCommand::ReadmeFromPickMap,
        MenuCommand::Back,
        MenuCommand::Quit,
        MenuCommand::Ignore,
    ];
    assert(v@ =~= all_commands());
    v
}

/// The first command whose text is `t`.
pub open spec fn command_of_text(t: Seq<char>) -> Option<MenuCommand> {
    command_of_text_in(all_commands(), t)
}

/// The first command of `cs` whose text is `t`.
pub open spec fn command_of_text_in(cs: Seq<MenuCommand>, t: Seq<char>) -> Option<MenuCommand>
    decreases cs.len(),
{
    if cs.len() == 0 {
        None
    } else if command_text(cs[0]) == t {
        Some(cs[0])
    } else {
        command_of_text_in(cs.drop_first(), t)
    }
}

/// The command whose text is `t` (`MenuCommand::from_str`), if any.
pub fn command_from_text(t: &str) -> (r: Option<MenuCommand>)
    ensures
        r == command_of_text(t@),
{
    let cs = command_list();
    let mut i: usize = 0;
    assert(cs@.skip(0) =~= cs@);
    while i < cs.len()
        invariant
            i <= cs@.len(),
            command_of_text(t@) == command_of_text_in(cs@.skip(i as int), t@),
        decreases cs.len() - i,
    {
        assert(cs@.skip(i as int).drop_first() =~= cs@.skip(i + 1));
        let c = cs[i];
        let name = command_name(c);
        if str_eq(name.as_str(), t) {
            return Some(c);
        }
        i = i + 1;
    }
    None
}

/// The command a chosen menu entry stands for: the entry's text before any `(`,
/// trimmed.
pub open spec fn choice_command(choice: Seq<char>) -> Option<MenuCommand> {
    command_of_text(trim(before_first(choice, '(')))
}

/// The command a chosen menu entry stands for. Entries that show a value, such as
/// "Skill (4)", stand for the command before the bracket.
pub fn menu_choice_command(choice: &str) -> (r: Option<MenuCommand>)
    ensures
        r == choice_command(choice@),
{
    let v = chars_of(choice);
    let first = chars_before_first(&v, '(');
    let t = trim_chars(&first);
    let s = string_from(&t);
    command_from_text(s.as_str())
}

// ---------------------------------------------------------------------------
// Menu pages
// ---------------------------------------------------------------------------

/// The entries of a page: each command with the least menu mode that shows it.
pub open spec fn page_commands(level: MenuLevel) -> Seq<(MenuCommand, MenuMode)> {
    match level {
        MenuLevel::Main => seq![
            (MenuCommand::PlayDefaultProfile, MenuMode::Simple),
            (MenuCommand::PlayLastProfile, MenuMode::Full),
            (MenuCommand::PickAndPlayMap, MenuMode::Simple),
            (MenuCommand::PickAndPlayProfile, MenuMode::Simple),
            (MenuCommand::PlaySettings, MenuMode::Simple),
            (MenuCommand::Profiles, MenuMode::Simple),
            (MenuCommand::Maps, MenuMode::Simple),
            (MenuCommand::Editor, MenuMode::Full),
            (MenuCommand::AppSettings, MenuMode::Simple),
            (MenuCommand::Quit, MenuMode::Simple),
        ],
        MenuLevel::Profiles => seq![
            (MenuCommand::NewProfile, MenuMode::Simple),
            (MenuCommand::EditProfile, MenuMode::Simple),
            (MenuCommand::ChangeEngineOnProfile, MenuMode::Simple),
            (MenuCommand::SetDefaultProfile, MenuMode::Simple),
            (MenuCommand::ListProfile, MenuMode::Simple),
            (MenuCommand::DeleteProfile, MenuMode::Simple),
            (MenuCommand::Back, MenuMode::Simple),
        ],
        MenuLevel::GameSettings => seq![
            (MenuCommand::CompLevel, MenuMode::Simple),
            (MenuCommand::ConfigFile, MenuMode::Simple),
            (MenuCommand::FastMonsters, MenuMode::Simple),
            (MenuCommand::NoMonsters, MenuMode::Simple),
            (MenuCommand::RespawnMonsters, MenuMode::Simple),
            (MenuCommand::WarpToLevel, MenuMode::Simple),
            (MenuCommand::Skill, MenuMode::Simple),
            (MenuCommand::Turbo, MenuMode::Simple),
            (MenuCommand::Timer, MenuMode::Simple),
            (MenuCommand::Width, MenuMode::Simple),
            (MenuCommand::Height, MenuMode::Simple),
            (MenuCommand::FullScreen, MenuMode::Simple),
            (MenuCommand::Windowed, MenuMode::Simple),
            (MenuCommand::AdditionalArguments, MenuMode::Simple),
            (MenuCommand::ResetPlaySettings, MenuMode::Simple),
            (MenuCommand::Back, MenuMode::Simple),
        ],
        MenuLevel::MapEditor => seq![
            (MenuCommand::OpenFromDefaultProfile, MenuMode::Full),
            (MenuCommand::OpenFromLastProfile, MenuMode::Full),
            (MenuCommand::OpenFromPickProfile, MenuMode::Full),
            (MenuCommand::OpenFromPickMap, MenuMode::Full),
            (MenuCommand::SetDefaultEditor, MenuMode::Full),
            (MenuCommand::AddEditor, MenuMode::Full),
            (MenuCommand::DeleteEditor, MenuMode::Full),
            (MenuCommand::ListEditors, MenuMode::Full),
            (MenuCommand::Back, MenuMode::Simple),
        ],
        MenuLevel::Maps => seq![
            (MenuCommand::ViewOnDoomworld, MenuMode::Simple),
            (MenuCommand::SearchAndDownloadOnDoomworld, MenuMode::Simple),
            (MenuCommand::ViewReadme, MenuMode::Simple),
            (MenuCommand::UpdateMapInfo, MenuMode::Simple),
            (MenuCommand::ListMaps, MenuMode::Simple),
            (MenuCommand::UpdateMaps, MenuMode::Simple),
            (MenuCommand::Back, MenuMode::Simple),
        ],
        MenuLevel::MapsSearchDoomworld => seq![
            (MenuCommand::SearchDoomworldByAuthor, MenuMode::Simple),
            (MenuCommand::SearchDoomworldByFileName, MenuMode::Simple),
            (MenuCommand::SearchDoomworldByMapTitle, MenuMode::Simple),
            (MenuCommand::Back, MenuMode::Simple),
        ],
        MenuLevel::MapsReadme => seq![
            (MenuCommand::ReadmeFromDefaultProfile, MenuMode::Simple),
            (MenuCommand::ReadmeFromLastProfile, MenuMode::Full),
            (MenuCommand::ReadmeFromPickProfile, MenuMode::Simple),
            (MenuCommand::ReadmeFromPickMap, MenuMode::Simple),
            (MenuCommand::Back, MenuMode::Simple),
        ],
        MenuLevel::AppSettings => seq![
            (MenuCommand::MenuMode, MenuMode::Simple),
            (MenuCommand::SetDefaults, MenuMode::Simple),
            (MenuCommand::UpdateStoredData, MenuMode::Simple),
            (MenuCommand::ListStoredData, MenuMode::Simple),
            (MenuCommand::DeleteStoredData, MenuMode::Simple),
            (MenuCommand::Init, MenuMode::Simple),
            (MenuCommand::Reset, MenuMode::Simple),
            (MenuCommand::AppVersion, MenuMode::Simple),
            (MenuCommand::Back, MenuMode::Simple),
        ],
        MenuLevel::AppSettingsDefaults => seq![
            (MenuCommand::SetDefaultProfile, MenuMode::Simple),
            (MenuCommand::SetDefaultEngine, MenuMode::Simple),
            (MenuCommand::SetDefaultIwad, MenuMode::Simple),
            (MenuCommand::SetDefaultEditor, MenuMode::Full),
            (MenuCommand::Back, MenuMode::Simple),
        ],
        MenuLevel::AppSettingsList => seq![
            (MenuCommand::ListEngines, MenuMode::Simple),
            (MenuCommand::ListIwads, MenuMode::Simple),
            (MenuCommand::ListMaps, MenuMode::Simple),
            (MenuCommand::ListProfile, MenuMode::Simple),
            (MenuCommand::ListEditors, MenuMode::Full),
            (MenuCommand::ListAppSettings, MenuMode::Simple),
            (MenuCommand::ListPlaySettings, MenuMode::Simple),
            (MenuCommand::Back, MenuMode::Simple),
        ],
        MenuLevel::AppSettingsUpdate => seq![
            (MenuCommand::UpdateEngines, MenuMode::Simple),
            (MenuCommand::UpdateIwads, MenuMode::Simple),
            (MenuCommand::UpdateMaps, MenuMode::Simple),
            (MenuCommand::UpdateMapInfo, MenuMode::Simple),
            (MenuCommand::AddEditor, MenuMode::Full),
            (MenuCommand::Back, MenuMode::Simple),
        ],
        MenuLevel::AppSettingsDelete => seq![
            (MenuCommand::DeleteEngines, MenuMode::Simple),
            (MenuCommand::DeleteIwads, MenuMode::Simple),
            (MenuCommand::DeleteMaps, MenuMode::Simple),
            (MenuCommand::DeleteEditor, MenuMode::Full),
            (MenuCommand::Back, MenuMode::Simple),
        ],
    }
}

fn page_command_list(level: MenuLevel) -> (v: Vec<(MenuCommand, MenuMode)>)
    ensures
        v@ == page_commands(level),
{
    let v: Vec<(MenuCommand, MenuMode)> = match level {
        MenuLevel::Main => vec![
            (MenuCommand::PlayDefaultProfile, MenuMode::Simple),
            (MenuCommand::PlayLastProfile, MenuMode::Full),
            (MenuCommand::PickAndPlayMap, MenuMode::Simple),
            (MenuCommand::PickAndPlayProfile, MenuMode::Simple),
            (MenuCommand::PlaySettings, MenuMode::Simple),
            (MenuCommand::Profiles, MenuMode::Simple),
            (MenuCommand::Maps, MenuMode::Simple),
            (MenuCommand::Editor, MenuMode::Full),
            (MenuCommand::AppSettings, MenuMode::Simple),
            (MenuCommand::Quit, MenuMode::Simple),
        ],
        MenuLevel::Profiles => vec![
            (MenuCommand::NewProfile, MenuMode::Simple),
            (MenuCommand::EditProfile, MenuMode::Simple),
            (MenuCommand::ChangeEngineOnProfile, MenuMode::Simple),
            (MenuCommand::SetDefaultProfile, MenuMode::Simple),
            (MenuCommand::ListProfile, MenuMode::Simple),
            (MenuCommand::DeleteProfile, MenuMode::Simple),
            (MenuCommand::Back, MenuMode::Simple),
        ],
        MenuLevel::GameSettings => vec![
            (MenuCommand::CompLevel, MenuMode::Simple),
            (MenuCommand::ConfigFile, MenuMode::Simple),
            (MenuCommand::FastMonsters, MenuMode::Simple),
            (MenuCommand::NoMonsters, MenuMode::Simple),
            (MenuCommand::RespawnMonsters, MenuMode::Simple),
            (MenuCommand::WarpToLevel, MenuMode::Simple),
            (MenuCommand::Skill, MenuMode::Simple),
            (MenuCommand::Turbo, MenuMode::Simple),
            (MenuCommand::Timer, MenuMode::Simple),
            (MenuCommand::Width, MenuMode::Simple),
            (MenuCommand::Height, MenuMode::Simple),
            (MenuCommand::FullScreen, MenuMode::Simple),
            (MenuCommand::Windowed, MenuMode::Simple),
            (MenuCommand::AdditionalArguments, MenuMode::Simple),
            (MenuCommand::ResetPlaySettings, MenuMode::Simple),
            (MenuCommand::Back, MenuMode::Simple),
        ],
        MenuLevel::MapEditor => vec![
            (MenuCommand::OpenFromDefaultProfile, MenuMode::Full),
            (MenuCommand::OpenFromLastProfile, MenuMode::Full),
            (MenuCommand::OpenFromPickProfile, MenuMode::Full),
            (MenuCommand::OpenFromPickMap, MenuMode::Full),
            (MenuCommand::SetDefaultEditor, MenuMode::Full),
            (MenuCommand::AddEditor, MenuMode::Full),
            (MenuCommand::DeleteEditor, MenuMode::Full),
            (MenuCommand::ListEditors, MenuMode::Full),
            (MenuCommand::Back, MenuMode::Simple),
        ],
        MenuLevel::Maps => vec![
            (MenuCommand::ViewOnDoomworld, MenuMode::Simple),
            (MenuCommand::SearchAndDownloadOnDoomworld, MenuMode::Simple),
            (MenuCommand::ViewReadme, MenuMode::Simple),
            (MenuCommand::UpdateMapInfo, MenuMode::Simple),
            (MenuCommand::ListMaps, MenuMode::Simple),
            (MenuCommand::UpdateMaps, MenuMode::Simple),
            (MenuCommand::Back, MenuMode::Simple),
        ],
        MenuLevel::MapsSearchDoomworld => vec![
            (MenuCommand::SearchDoomworldByAuthor, MenuMode::Simple),
            (MenuCommand::SearchDoomworldByFileName, MenuMode::Simple),
            (MenuCommand::SearchDoomworldByMapTitle, MenuMode::Simple),
            (MenuCommand::Back, MenuMode::Simple),
        ],
        MenuLevel::MapsReadme => vec![
            (MenuCommand::ReadmeFromDefaultProfile, MenuMode::Simple),
            (MenuCommand::ReadmeFromLastProfile, MenuMode::Full),
            (MenuCommand::ReadmeFromPickProfile, MenuMode::Simple),
            (MenuCommand::ReadmeFromPickMap, MenuMode::Simple),
            (MenuCommand::Back, MenuMode::Simple),
        ],
        MenuLevel::AppSettings => vec![
            (MenuCommand::MenuMode, MenuMode::Simple),
            (MenuCommand::SetDefaults, MenuMode::Simple),
            (MenuCommand::UpdateStoredData, MenuMode::Simple),
            (MenuCommand::ListStoredData, MenuMode::Simple),
            (MenuCommand::DeleteStoredData, MenuMode::Simple),
            (MenuCommand::Init, MenuMode::Simple),
            (MenuCommand::Reset, MenuMode::Simple),
            (MenuCommand::AppVersion, MenuMode::Simple),
            (MenuCommand::Back, MenuMode::Simple),
        ],
        MenuLevel::AppSettingsDefaults => vec![
            (MenuCommand::SetDefaultProfile, MenuMode::Simple),
            (MenuCommand::SetDefaultEngine, MenuMode::Simple),
            (MenuCommand::SetDefaultIwad, MenuMode::Simple),
            (MenuCommand::SetDefaultEditor, MenuMode::Full),
            (MenuCommand::Back, MenuMode::Simple),
        ],
        MenuLevel::AppSettingsList => vec![
            (MenuCommand::ListEngines, MenuMode::Simple),
            (MenuCommand::ListIwads, MenuMode::Simple),
            (MenuCommand::ListMaps, MenuMode::Simple),
            (MenuCommand::ListProfile, MenuMode::Simple),
            (MenuCommand::ListEditors, MenuMode::Full),
            (MenuCommand::ListAppSettings, MenuMode::Simple),
            (MenuCommand::ListPlaySettings, MenuMode::Simple),
            (MenuCommand::Back, MenuMode::Simple),
        ],
        MenuLevel::AppSettingsUpdate => vec![
            (MenuCommand::UpdateEngines, MenuMode::Simple),
            (MenuCommand::UpdateIwads, MenuMode::Simple),
            (MenuCommand::UpdateMaps, MenuMode::Simple),
            (MenuCommand::UpdateMapInfo, MenuMode::Simple),
            (MenuCommand::AddEditor, MenuMode::Full),
            (MenuCommand::Back, MenuMode::Simple),
        ],
        MenuLevel::AppSettingsDelete => vec![
            (MenuCommand::DeleteEngines, MenuMode::Simple),
            (MenuCommand::DeleteIwads, MenuMode::Simple),
            (MenuCommand::DeleteMaps, MenuMode::Simple),
            (MenuCommand::DeleteEditor, MenuMode::Full),
            (MenuCommand::Back, MenuMode::Simple),
        ],
    };
    assert(v@ =~= page_commands(level));
    v
}

/// `true` or `false`, as Rust shows a `bool`.
pub open spec fn bool_text(b: bool) -> Seq<char> {
    if b {
        "true"@
    } else {
        "false"@
    }
}

fn bool_name(b: bool) -> (s: String)
    ensures
        s@ == bool_text(b),
{
    if b {
        copy_str("true")
    } else {
        copy_str("false")
    }
}

/// The current value an entry shows in brackets, if it shows one: the play settings
/// on their page and the menu mode on the settings page.
pub open spec fn entry_value(
    level: MenuLevel,
    c: MenuCommand,
    play: PlaySettings,
    app: AppSettings,
) -> Option<Seq<char>> {
    match level {
        MenuLevel::GameSettings => match c {
            MenuCommand::CompLevel => Some(
                opt_text(
                    match play.comp_level {
                        Some(l) => Some(comp_level_text(l)),
                        None => None,
                    },
                ),
            ),
            MenuCommand::ConfigFile => Some(opt_text(opt_string_view(play.config_file))),
            MenuCommand::FastMonsters => Some(bool_text(play.fast_monsters)),
            MenuCommand::NoMonsters => Some(bool_text(play.no_monsters)),
            MenuCommand::RespawnMonsters => Some(bool_text(play.respawn_monsters)),
            MenuCommand::WarpToLevel => Some(opt_text(opt_string_view(play.warp))),
            MenuCommand::Skill => Some(
                opt_number_text(
                    match play.skill {
                        Some(v) => Some(v as nat),
                        None => None,
                    },
                ),
            ),
            MenuCommand::Turbo => Some(
                opt_number_text(
                    match play.turbo {
                        Some(v) => Some(v as nat),
                        None => None,
                    },
                ),
            ),
            MenuCommand::Timer => Some(
                opt_number_text(
                    match play.timer {
                        Some(v) => Some(v as nat),
                        None => None,
                    },
                ),
            ),
            MenuCommand::Width => Some(
                opt_number_text(
                    match play.width {
                        Some(v) => Some(v as nat),
                        None => None,
                    },
                ),
            ),
            MenuCommand::Height => Some(
                opt_number_text(
                    match play.height {
                        Some(v) => Some(v as nat),
                        None => None,
                    },
                ),
            ),
            MenuCommand::FullScreen => Some(bool_text(play.full_screen)),
            MenuCommand::Windowed => Some(bool_text(play.windowed)),
            MenuCommand::AdditionalArguments => Some(
                opt_text(opt_string_view(play.additional_arguments)),
            ),
            _ => None,
        },
        MenuLevel::AppSettings => match c {
            MenuCommand::MenuMode => Some(menu_mode_text(app.menu_mode)),
            _ => None,
        },
        _ => None,
    }
}

/// An entry's text: the command, followed by its value in brackets when it shows one.
pub open spec fn entry_text(c: MenuCommand, value: Option<Seq<char>>) -> Seq<char> {
    match value {
        Some(v) => command_text(c) + " ("@ + v + ")"@,
        None => command_text(c),
    }
}

fn entry_label(level: MenuLevel, c: MenuCommand, play: &PlaySettings, app: &AppSettings) -> (r:
    String)
    ensures
        r@ == entry_text(c, entry_value(level, c, *play, *app)),
{
    let value: Option<String> = match level {
        MenuLevel::GameSettings => match c {
            MenuCommand::CompLevel => Some(display_option_comp_level(&play.comp_level)),
            MenuCommand::ConfigFile => Some(display_option_string(&play.config_file)),
            MenuCommand::FastMonsters => Some(bool_name(play.fast_monsters)),
            MenuCommand::NoMonsters => Some(bool_name(play.no_monsters)),
            MenuCommand::RespawnMonsters => Some(bool_name(play.respawn_monsters)),
            MenuCommand::WarpToLevel => Some(display_option_string(&play.warp)),
            MenuCommand::Skill => Some(display_option_u8(&play.skill)),
            MenuCommand::Turbo => Some(display_option_u8(&play.turbo)),
            MenuCommand::Timer => Some(display_option_u32(&play.timer)),
            MenuCommand::Width => Some(display_option_u32(&play.width)),
            MenuCommand::Height => Some(display_option_u32(&play.height)),
            MenuCommand::FullScreen => Some(bool_name(play.full_screen)),
            MenuCommand::Windowed => Some(bool_name(play.windowed)),
            MenuCommand::AdditionalArguments => Some(
                display_option_string(&play.additional_arguments),
            ),
            _ => None,
        },
        MenuLevel::AppSettings => match c {
            MenuCommand::MenuMode => Some(menu_mode_name(app.menu_mode)),
            _ => None,
        },
        _ => None,
    };
    let mut s = command_name(c);
    match value {
        Some(v) => {
            s.append(" (");
            s.append(v.as_str());
            s.append(")");
        },
        None => {},
    }
    s
}

/// Whether an entry is shown in a menu mode: every entry in full mode, and in simple
/// mode those whose least mode is simple.
pub open spec fn shown_in(entry_mode: MenuMode, menu_mode: MenuMode) -> bool {
    entry_mode == menu_mode || menu_mode == MenuMode::Full
}

/// The texts of the entries of `cs` that `menu_mode` shows, in order.
pub open spec fn visible_entries(
    cs: Seq<(MenuCommand, MenuMode)>,
    menu_mode: MenuMode,
    level: MenuLevel,
    play: PlaySettings,
    app: AppSettings,
) -> Seq<Seq<char>>
    decreases cs.len(),
{
    if cs.len() == 0 {
        Seq::empty()
    } else {
        let rest = visible_entries(cs.drop_first(), menu_mode, level, play, app);
        if shown_in(cs[0].1, menu_mode) {
            seq![entry_text(cs[0].0, entry_value(level, cs[0].0, play, app))] + rest
        } else {
            rest
        }
    }
}

/// The title of a page.
pub open spec fn page_name(level: MenuLevel) -> Seq<char> {
    match level {
        MenuLevel::Main => "Main Menu"@,
        MenuLevel::Profiles => "Profile"@,
        MenuLevel::GameSettings => "Play Settings"@,
        MenuLevel::MapEditor => "Editor"@,
        MenuLevel::Maps => "Maps"@,
        MenuLevel::MapsSearchDoomworld => "Maps / Search & Download"@,
        MenuLevel::MapsReadme => "Maps / View Readme"@,
        MenuLevel::AppSettings => "App Settings"@,
        MenuLevel::AppSettingsDefaults => "App Settings / Defaults"@,
        MenuLevel::AppSettingsList => "App Settings / List"@,
        MenuLevel::AppSettingsUpdate => "App Settings / Update"@,
        MenuLevel::AppSettingsDelete => "App Settings / Delete"@,
    }
}

/// The help line of a page; the main menu's is coloured.
pub open spec fn page_help(level: MenuLevel) -> Seq<char> {
    match level {
        MenuLevel::Main => fg_text(seq!['3', '8', ';', '5', ';', '4', '7'], "Let's play Doom!"@),
        MenuLevel::Profiles => "Profiles group together Engines, IWADs and Maps for quick play"@,
        MenuLevel::GameSettings => "These Settings apply when you Play"@,
        MenuLevel::MapEditor => "Quickly view/edit a Map in a Editor"@,
        MenuLevel::Maps => "Manage Map related data and options"@,
        MenuLevel::MapsSearchDoomworld => "Search for Maps, Download 'em!"@,
        MenuLevel::MapsReadme => "View local Map Readmes"@,
        MenuLevel::AppSettings => "Tinker with the settings behind the app"@,
        MenuLevel::AppSettingsDefaults => "Defaults to use for Profiles, Pick and Play, Editor, etc"@,
        MenuLevel::AppSettingsList => "List the data stored in the local Sqlite database"@,
        MenuLevel::AppSettingsUpdate => "Have fun! Don't break anything"@,
        MenuLevel::AppSettingsDelete => "If you really want to delete everything, use Reset"@,
    }
}

fn page_name_text(level: MenuLevel) -> (r: String)
    ensures
        r@ == page_name(level),
{
    match level {
        MenuLevel::Main => copy_str("Main Menu"),
        MenuLevel::Profiles => copy_str("Profile"),
        MenuLevel::GameSettings => copy_str("Play Settings"),
        MenuLevel::MapEditor => copy_str("Editor"),
        MenuLevel::Maps => copy_str("Maps"),
        MenuLevel::MapsSearchDoomworld => copy_str("Maps / Search & Download"),
        MenuLevel::MapsReadme => copy_str("Maps / View Readme"),
        MenuLevel::AppSettings => copy_str("App Settings"),
        MenuLevel::AppSettingsDefaults => copy_str("App Settings / Defaults"),
        MenuLevel::AppSettingsList => copy_str("App Settings / List"),
        MenuLevel::AppSettingsUpdate => copy_str("App Settings / Update"),
        MenuLevel::AppSettingsDelete => copy_str("App Settings / Delete"),
    }
}

fn page_help_text(level: MenuLevel) -> (r: String)
    ensures
        r@ == page_help(level),
{
    match level {
        MenuLevel::Main => dark_spring_green("Let's play Doom!"),
        MenuLevel::Profiles => copy_str(
            "Profiles group together Engines, IWADs and Maps for quick play",
        ),
        MenuLevel::GameSettings => copy_str("These Settings apply when you Play"),
        MenuLevel::MapEditor => copy_str("Quickly view/edit a Map in a Editor"),
        MenuLevel::Maps => copy_str("Manage Map related data and options"),
        MenuLevel::MapsSearchDoomworld => copy_str("Search for Maps, Download 'em!"),
        MenuLevel::MapsReadme => copy_str("View local Map Readmes"),
        MenuLevel::AppSettings => copy_str("Tinker with the settings behind the app"),
        MenuLevel::AppSettingsDefaults => copy_str(
            "Defaults to use for Profiles, Pick and Play, Editor, etc",
        ),
        MenuLevel::AppSettingsList => copy_str("List the data stored in the local Sqlite database"),
        MenuLevel::AppSettingsUpdate => copy_str("Have fun! Don't break anything"),
        MenuLevel::AppSettingsDelete => copy_str(
            "If you really want to delete everything, use Reset",
        ),
    }
}

/// A page of the menu as it is shown: its entries, its name and help line, and the
/// question and help text of the prompt that offers the entries.
pub struct MenuPage {
    pub entries: Vec<String>,
    pub name: String,
    pub help: String,
    pub prompt: String,
    pub prompt_help: String,
}

/// The question of a page's prompt.
pub open spec fn prompt_text(level: MenuLevel) -> Seq<char> {
    "Select a "@ + page_name(level) + " option:"@
}

/// The help text of a page's prompt: the keys, then the page's help line.
pub open spec fn prompt_help_text(level: MenuLevel) -> Seq<char> {
    "\u{2191}\u{2193} to move, enter to select, type to filter]\n["@ + page_help(level)
}

/// The texts of a list of strings.
pub open spec fn string_views(v: Seq<String>) -> Seq<Seq<char>> {
    v.map_values(|s: String| s@)
}

/// The page a menu level shows in a menu mode, with the current play settings and
/// settings shown beside the entries that change them.
pub fn menu_page(
    menu_mode: MenuMode,
    menu_level: MenuLevel,
    play_settings: &PlaySettings,
    app_settings: &AppSettings,
) -> (r: MenuPage)
    ensures
        string_views(r.entries@) == visible_entries(
            page_commands(menu_level),
            menu_mode,
            menu_level,
            *play_settings,
            *app_settings,
        ),
        r.name@ == page_name(menu_level),
        r.help@ == page_help(menu_level),
        r.prompt@ == prompt_text(menu_level),
        r.prompt_help@ == prompt_help_text(menu_level),
{
    let cs = page_command_list(menu_level);
    let mut entries: Vec<String> = Vec::new();
    let mut i: usize = cs.len();
    assert(cs@.skip(cs@.len() as int) =~= Seq::<(MenuCommand, MenuMode)>::empty());
    let ghost all = cs@;
    let mut rev: Vec<String> = Vec::new();
    while i > 0
        invariant
            i <= cs@.len(),
            all == cs@,
            string_views(rev@).reverse() == visible_entries(
                cs@.skip(i as int),
                menu_mode,
                menu_level,
                *play_settings,
                *app_settings,
            ),
        decreases i,
    {
        let (c, m) = cs[i - 1];
        assert(cs@.skip(i - 1).drop_first() =~= cs@.skip(i as int));
        assert(cs@.skip(i - 1)[0] == cs@[i - 1]);
        if m == menu_mode || menu_mode == MenuMode::Full {
            let label = entry_label(menu_level, c, play_settings, app_settings);
            let ghost before = string_views(rev@);
            rev.push(label);
            assert(string_views(rev@) =~= before.push(label@));
            assert(before.push(label@).reverse() =~= seq![label@] + before.reverse());
        }
        i = i - 1;
    }
    assert(cs@.skip(0) =~= cs@);
    let mut j: usize = rev.len();
    while j > 0
        invariant
            j <= rev@.len(),
            string_views(entries@) == string_views(rev@).reverse().take(rev@.len() - j),
        decreases j,
    {
        let ghost before = string_views(entries@);
        entries.push(rev[j - 1].clone());
        assert(string_views(entries@) =~= before.push(rev@[j - 1]@));
        assert(string_views(rev@).reverse().take(rev@.len() - j + 1) =~= string_views(rev@).reverse().take(rev@.len() - j).push(rev@[j - 1]@));
        j = j - 1;
    }
    assert(string_views(rev@).reverse().take(rev@.len() as int) =~= string_views(rev@).reverse());
    let name = page_name_text(menu_level);
    let help = page_help_text(menu_level);
    let prompt = concat3("Select a ", name.as_str(), " option:");
    let mut prompt_help = copy_str("\u{2191}\u{2193} to move, enter to select, type to filter]\n[");
    prompt_help.append(help.as_str());
    MenuPage { entries, name, help, prompt, prompt_help }
}

/// The command a prompt's answer gives: `Back` when the prompt was skipped, otherwise the
/// command of the chosen entry.
pub fn menu_answer_command(answer: Option<&str>) -> (r: Option<MenuCommand>)
    ensures
        answer is None ==> r == Some(MenuCommand::Back),
        answer matches Some(c) ==> r == choice_command(c@),
{
    match answer {
        None => Some(MenuCommand::Back),
        Some(c) => menu_choice_command(c),
    }
}

// ---------------------------------------------------------------------------
// Carrying out a command
// ---------------------------------------------------------------------------

/// The page a command opens, for the commands that open one.
pub open spec fn submenu_of(c: MenuCommand) -> Option<MenuLevel> {
    match c {
        MenuCommand::Editor => Some(MenuLevel::MapEditor),
        MenuCommand::Profiles => Some(MenuLevel::Profiles),
        MenuCommand::PlaySettings => Some(MenuLevel::GameSettings),
        MenuCommand::Maps => Some(MenuLevel::Maps),
        MenuCommand::AppSettings => Some(MenuLevel::AppSettings),
        MenuCommand::SetDefaults => Some(MenuLevel::AppSettingsDefaults),
        MenuCommand::ListStoredData => Some(MenuLevel::AppSettingsList),
        MenuCommand::UpdateStoredData => Some(MenuLevel::AppSettingsUpdate),
        MenuCommand::DeleteStoredData => Some(MenuLevel::AppSettingsDelete),
        MenuCommand::SearchAndDownloadOnDoomworld => Some(MenuLevel::MapsSearchDoomworld),
        MenuCommand::ViewReadme => Some(MenuLevel::MapsReadme),
        _ => None,
    }
}

/// What carrying out a menu command comes to.
pub enum MenuAction {
    /// Show another page of the menu.
    OpenMenu(MenuLevel),
    /// Run the command's task; `force` skips its confirmation prompt.
    RunTask { command: MenuCommand, force: bool },
    /// Nothing to run: the result is this message.
    Finish(String),
}

/// What a command comes to: a page for the commands that open one, a message for
/// `Ignore`, `Back` (none) and `Quit`, and the command's task otherwise; only `Reset`
/// and `ResetPlaySettings` take `force`.
pub open spec fn menu_action_is(c: MenuCommand, force: bool, a: MenuAction) -> bool {
    match submenu_of(c) {
        Some(level) => a == MenuAction::OpenMenu(level),
        None => match c {
            MenuCommand::Ignore | MenuCommand::Back => a matches MenuAction::Finish(m) && m@
                == Seq::<char>::empty(),
            MenuCommand::Quit => a matches MenuAction::Finish(m) && m@ == "Quitting"@,
            MenuCommand::Reset | MenuCommand::ResetPlaySettings => a == MenuAction::RunTask {
                command: c,
                force,
            },
            _ => a == MenuAction::RunTask { command: c, force: false },
        },
    }
}

/// What carrying out a command comes to, with `force` handed to the commands that
/// ask for confirmation.
pub fn run_menu_command_with_force(menu_command: MenuCommand, force: bool) -> (r: MenuAction)
    ensures
        menu_action_is(menu_command, force, r),
{
    match menu_command {
        MenuCommand::Editor => MenuAction::OpenMenu(MenuLevel::MapEditor),
        MenuCommand::Profiles => MenuAction::OpenMenu(MenuLevel::Profiles),
        MenuCommand::PlaySettings => MenuAction::OpenMenu(MenuLevel::GameSettings),
        MenuCommand::Maps => MenuAction::OpenMenu(MenuLevel::Maps),
        MenuCommand::AppSettings => MenuAction::OpenMenu(MenuLevel::AppSettings),
        MenuCommand::SetDefaults => MenuAction::OpenMenu(MenuLevel::AppSettingsDefaults),
        MenuCommand::ListStoredData => MenuAction::OpenMenu(MenuLevel::AppSettingsList),
        MenuCommand::UpdateStoredData => MenuAction::OpenMenu(MenuLevel::AppSettingsUpdate),
        MenuCommand::DeleteStoredData => MenuAction::OpenMenu(MenuLevel::AppSettingsDelete),
        MenuCommand::SearchAndDownloadOnDoomworld => MenuAction::OpenMenu(
            MenuLevel::MapsSearchDoomworld,
        ),
        MenuCommand::ViewReadme => MenuAction::OpenMenu(MenuLevel::MapsReadme),
        MenuCommand::Ignore | MenuCommand::Back => MenuAction::Finish(String::new()),
        MenuCommand::Quit => MenuAction::Finish(copy_str("Quitting")),
        MenuCommand::Reset | MenuCommand::ResetPlaySettings => MenuAction::RunTask {
            command: menu_command,
            force,
        },
        _ => MenuAction::RunTask { command: menu_command, force: false },
    }
}

/// What carrying out a command comes to, without forcing.
pub fn run_menu_command(menu_command: MenuCommand) -> (r: MenuAction)
    ensures
        menu_action_is(menu_command, false, r),
{
    run_menu_command_with_force(menu_command, false)
}


// ---------------------------------------------------------------------------
// Laws
// ---------------------------------------------------------------------------

/// Full mode shows every entry of a page, in order.
pub proof fn law_full_mode_shows_every_entry(
    cs: Seq<(MenuCommand, MenuMode)>,
    level: MenuLevel,
    play: PlaySettings,
    app: AppSettings,
)
    ensures
        visible_entries(cs, MenuMode::Full, level, play, app).len() == cs.len(),
        forall|i: int|
            0 <= i < cs.len() ==> visible_entries(cs, MenuMode::Full, level, play, app)[i]
                == entry_text(cs[i].0, entry_value(level, cs[i].0, play, app)),
    decreases cs.len(),
{
    if cs.len() > 0 {
        law_full_mode_shows_every_entry(cs.drop_first(), level, play, app);
        let rest = visible_entries(cs.drop_first(), MenuMode::Full, level, play, app);
        assert forall|i: int| 0 <= i < cs.len() implies visible_entries(
            cs,
            MenuMode::Full,
            level,
            play,
            app,
        )[i] == entry_text(cs[i].0, entry_value(level, cs[i].0, play, app)) by {
            if i > 0 {
                assert(cs.drop_first()[i - 1] == cs[i]);
            }
        }
    }
}

/// Simple mode never shows more entries than full mode.
pub proof fn law_simple_mode_shows_no_more(
    cs: Seq<(MenuCommand, MenuMode)>,
    level: MenuLevel,
    play: PlaySettings,
    app: AppSettings,
)
    ensures
        visible_entries(cs, MenuMode::Simple, level, play, app).len() <= visible_entries(
            cs,
            MenuMode::Full,
            level,
            play,
            app,
        ).len(),
    decreases cs.len(),
{
    if cs.len() > 0 {
        law_simple_mode_shows_no_more(cs.drop_first(), level, play, app);
    }
}



// ---------------------------------------------------------------------------
// Telling the commands' texts apart
// ---------------------------------------------------------------------------

/// The character at `i`, if the text has one there.
pub open spec fn char_at(t: Seq<char>, i: int) -> Option<char> {
    if 0 <= i < t.len() {
        Some(t[i])
    } else {
        None
    }
}

/// The length of a text and three of its characters: no two commands' texts share
/// them.
pub open spec fn text_key(t: Seq<char>) -> (nat, Option<char>, Option<char>, Option<char>) {
    (t.len(), char_at(t, 1), char_at(t, 7), char_at(t, 13))
}

/// The command whose text has the given key, if any.
pub open spec fn command_of_key(k: (nat, Option<char>, Option<char>, Option<char>)) -> Option<MenuCommand> {
    if k == (20nat, Some('l'), Some('f'), Some('P')) {
        Some(MenuCommand::PlayDefaultProfile)
    } else if k == (17nat, Some('l'), Some('s'), Some('f')) {
        Some(MenuCommand::PlayLastProfile)
    } else if k == (19nat, Some('i'), Some('P'), Some('r')) {
        Some(MenuCommand::PickAndPlayProfile)
    } else if k == (15nat, Some('i'), Some('P'), Some('a')) {
        Some(MenuCommand::PickAndPlayMap)
    } else if k == (9nat, Some('d'), Some('>'), None::<char>) {
        Some(MenuCommand::Editor)
    } else if k == (11nat, Some('r'), Some('s'), None::<char>) {
        Some(MenuCommand::Profiles)
    } else if k == (16nat, Some('l'), Some('t'), Some(' ')) {
        Some(MenuCommand::PlaySettings)
    } else if k == (7nat, Some('a'), None::<char>, None::<char>) {
        Some(MenuCommand::Maps)
    } else if k == (15nat, Some('p'), Some('t'), Some('>')) {
        Some(MenuCommand::AppSettings)
    } else if k == (11nat, Some('e'), Some('f'), None::<char>) {
        Some(MenuCommand::NewProfile)
    } else if k == (12nat, Some('d'), Some('o'), None::<char>) {
        Some(MenuCommand::EditProfile)
    } else if k == (24nat, Some('h'), Some('E'), Some(' ')) {
        Some(MenuCommand::ChangeEngineOnProfile)
    } else if k == (14nat, Some('e'), Some('P'), Some('e')) {
        Some(MenuCommand::DeleteProfile)
    } else if k == (19nat, Some('e'), Some('a'), Some('r')) {
        Some(MenuCommand::SetDefaultProfile)
    } else if k == (13nat, Some('i'), Some('o'), None::<char>) {
        Some(MenuCommand::ListProfile)
    } else if k == (9nat, Some('e'), Some('d'), None::<char>) {
        Some(MenuCommand::MenuMode)
    } else if k == (17nat, Some('s'), Some('m'), Some(' ')) {
        Some(MenuCommand::UseDoomworldApi)
    } else if k == (15nat, Some('e'), Some('a'), Some('>')) {
        Some(MenuCommand::SetDefaults)
    } else if k == (18nat, Some('e'), Some('a'), Some('n')) {
        Some(MenuCommand::SetDefaultEngine)
    } else if k == (24nat, Some('e'), Some('a'), Some('n')) {
        Some(MenuCommand::SetDefaultIwad)
    } else if k == (19nat, Some('i'), Some('o'), Some('a')) {
        Some(MenuCommand::ListStoredData)
    } else if k == (12nat, Some('i'), Some('g'), None::<char>) {
        Some(MenuCommand::ListEngines)
    } else if k == (18nat, Some('i'), Some('t'), Some(' ')) {
        Some(MenuCommand::ListIwads)
    } else if k == (9nat, Some('i'), Some('p'), None::<char>) {
        Some(MenuCommand::ListMaps)
    } else if k == (17nat, Some('i'), Some('p'), Some('i')) {
        Some(MenuCommand::ListAppSettings)
    } else if k == (18nat, Some('i'), Some('a'), Some('t')) {
        Some(MenuCommand::ListPlaySettings)
    } else if k == (21nat, Some('p'), Some('S'), Some(' ')) {
        Some(MenuCommand::UpdateStoredData)
    } else if k == (14nat, Some('p'), Some('E'), Some('s')) {
        Some(MenuCommand::UpdateEngines)
    } else if k == (20nat, Some('p'), Some('I'), Some('a')) {
        Some(MenuCommand::UpdateIwads)
    } else if k == (11nat, Some('p'), Some('M'), None::<char>) {
        Some(MenuCommand::UpdateMaps)
    } else if k == (15nat, Some('p'), Some('M'), Some('f')) {
        Some(MenuCommand::UpdateMapInfo)
    } else if k == (21nat, Some('e'), Some('S'), Some(' ')) {
        Some(MenuCommand::DeleteStoredData)
    } else if k == (14nat, Some('e'), Some('E'), Some('s')) {
        Some(MenuCommand::DeleteEngines)
    } else if k == (20nat, Some('e'), Some('I'), Some('a')) {
        Some(MenuCommand::DeleteIwads)
    } else if k == (11nat, Some('e'), Some('M'), None::<char>) {
        Some(MenuCommand::DeleteMaps)
    } else if k == (16nat, Some('i'), Some('p'), Some('i')) {
        Some(MenuCommand::AppVersion)
    } else if k == (4nat, Some('n'), None::<char>, None::<char>) {
        Some(MenuCommand::Init)
    } else if k == (5nat, Some('e'), None::<char>, None::<char>) {
        Some(MenuCommand::Reset)
    } else if k == (19nat, Some('o'), Some('b'), Some(' ')) {
        Some(MenuCommand::CompLevel)
    } else if k == (11nat, Some('o'), Some('F'), None::<char>) {
        Some(MenuCommand::ConfigFile)
    } else if k == (13nat, Some('a'), Some('n'), None::<char>) {
        Some(MenuCommand::FastMonsters)
    } else if k == (11nat, Some('o'), Some('t'), None::<char>) {
        Some(MenuCommand::NoMonsters)
    } else if k == (16nat, Some('e'), Some(' '), Some('e')) {
        Some(MenuCommand::RespawnMonsters)
    } else if k == (13nat, Some('a'), Some(' '), None::<char>) {
        Some(MenuCommand::WarpToLevel)
    } else if k == (5nat, Some('k'), None::<char>, None::<char>) {
        Some(MenuCommand::Skill)
    } else if k == (5nat, Some('u'), None::<char>, None::<char>) {
        Some(MenuCommand::Turbo)
    } else if k == (5nat, Some('i'), None::<char>, None::<char>) {
        Some(MenuCommand::Timer)
    } else if k == (12nat, Some('c'), Some('W'), None::<char>) {
        Some(MenuCommand::Width)
    } else if k == (13nat, Some('c'), Some('H'), None::<char>) {
        Some(MenuCommand::Height)
    } else if k == (11nat, Some('u'), Some('r'), None::<char>) {
        Some(MenuCommand::FullScreen)
    } else if k == (8nat, Some('i'), Some('d'), None::<char>) {
        Some(MenuCommand::Windowed)
    } else if k == (20nat, Some('d'), Some('n'), Some('g')) {
        Some(MenuCommand::AdditionalArguments)
    } else if k == (19nat, Some('e'), Some('l'), Some('t')) {
        Some(MenuCommand::ResetPlaySettings)
    } else if k == (29nat, Some('p'), Some('o'), Some('a')) {
        Some(MenuCommand::OpenFromDefaultProfile)
    } else if k == (26nat, Some('p'), Some('o'), Some('t')) {
        Some(MenuCommand::OpenFromLastProfile)
    } else if k == (22nat, Some('p'), Some('o'), Some('k')) {
        Some(MenuCommand::OpenFromPickProfile)
    } else if k == (18nat, Some('p'), Some('o'), Some('k')) {
        Some(MenuCommand::OpenFromPickMap)
    } else if k == (18nat, Some('e'), Some('a'), Some('d')) {
        Some(MenuCommand::SetDefaultEditor)
    } else if k == (12nat, Some('i'), Some('i'), None::<char>) {
        Some(MenuCommand::ListEditors)
    } else if k == (10nat, Some('d'), Some('t'), None::<char>) {
        Some(MenuCommand::AddEditor)
    } else if k == (13nat, Some('e'), Some('E'), None::<char>) {
        Some(MenuCommand::DeleteEditor)
    } else if k == (17nat, Some('i'), Some(' '), Some('o')) {
        Some(MenuCommand::ViewOnDoomworld)
    } else if k == (33nat, Some('e'), Some('&'), Some('l')) {
        Some(MenuCommand::SearchAndDownloadOnDoomworld)
    } else if k == (26nat, Some('e'), Some('D'), Some('r')) {
        Some(MenuCommand::SearchDoomworldByAuthor)
    } else if k == (28nat, Some('e'), Some('D'), Some('r')) {
        Some(MenuCommand::SearchDoomworldByFileName)
    } else if k == (29nat, Some('e'), Some('D'), Some('r')) {
        Some(MenuCommand::SearchDoomworldByMapTitle)
    } else if k == (14nat, Some('i'), Some('a'), Some('>')) {
        Some(MenuCommand::ViewReadme)
    } else if k == (27nat, Some('e'), Some('f'), Some('e')) {
        Some(MenuCommand::ReadmeFromDefaultProfile)
    } else if k == (24nat, Some('e'), Some('f'), Some('a')) {
        Some(MenuCommand::ReadmeFromLastProfile)
    } else if k == (24nat, Some('e'), Some('f'), Some('i')) {
        Some(MenuCommand::ReadmeFromPickProfile)
    } else if k == (20nat, Some('e'), Some('f'), Some('i')) {
        Some(MenuCommand::ReadmeFromPickMap)
    } else if k == (10nat, Some('a'), Some('S'), None::<char>) {
        Some(MenuCommand::Back)
    } else if k == (10nat, Some('u'), Some('S'), None::<char>) {
        Some(MenuCommand::Quit)
    } else if k == (6nat, Some('g'), None::<char>, None::<char>) {
        Some(MenuCommand::Ignore)
    } else {
        None
    }
}

/// Each command's text leads back to it through its key.
proof fn lemma_command_of_key(c: MenuCommand)
    ensures
        command_of_key(text_key(command_text(c))) == Some(c),
{
    match c {
        MenuCommand::PlayDefaultProfile => reveal_strlit("Play Default Profile"),
        MenuCommand::PlayLastProfile => reveal_strlit("Play Last Profile"),
        MenuCommand::PickAndPlayProfile => reveal_strlit("Pick & Play Profile"),
        MenuCommand::PickAndPlayMap => reveal_strlit("Pick & Play Map"),
        MenuCommand::Editor => reveal_strlit("Editor >>"),
        MenuCommand::Profiles => reveal_strlit("Profiles >>"),
        MenuCommand::PlaySettings => reveal_strlit("Play Settings >>"),
        MenuCommand::Maps => reveal_strlit("Maps >>"),
        MenuCommand::AppSettings => reveal_strlit("App Settings >>"),
        MenuCommand::NewProfile => reveal_strlit("New Profile"),
        MenuCommand::EditProfile => reveal_strlit("Edit Profile"),
        MenuCommand::ChangeEngineOnProfile => reveal_strlit("Change Engine on Profile"),
        MenuCommand::DeleteProfile => reveal_strlit("Delete Profile"),
        MenuCommand::SetDefaultProfile => reveal_strlit("Set Default Profile"),
        MenuCommand::ListProfile => reveal_strlit("List Profiles"),
        MenuCommand::MenuMode => reveal_strlit("Menu Mode"),
        MenuCommand::UseDoomworldApi => reveal_strlit("Use Doomworld API"),
        MenuCommand::SetDefaults => reveal_strlit("Set Defaults >>"),
        MenuCommand::SetDefaultEngine => reveal_strlit("Set Default Engine"),
        MenuCommand::SetDefaultIwad => reveal_strlit("Set Default Internal WAD"),
        MenuCommand::ListStoredData => reveal_strlit("List Stored Data >>"),
        MenuCommand::ListEngines => reveal_strlit("List Engines"),
        MenuCommand::ListIwads => reveal_strlit("List Internal WADs"),
        MenuCommand::ListMaps => reveal_strlit("List Maps"),
        MenuCommand::ListAppSettings => reveal_strlit("List App Settings"),
        MenuCommand::ListPlaySettings => reveal_strlit("List Play Settings"),
        MenuCommand::UpdateStoredData => reveal_strlit("Update Stored Data >>"),
        MenuCommand::UpdateEngines => reveal_strlit("Update Engines"),
        MenuCommand::UpdateIwads => reveal_strlit("Update Internal WADs"),
        MenuCommand::UpdateMaps => reveal_strlit("Update Maps"),
        MenuCommand::UpdateMapInfo => reveal_strlit("Update Map Info"),
        MenuCommand::DeleteStoredData => reveal_strlit("Delete Stored Data >>"),
        MenuCommand::DeleteEngines => reveal_strlit("Delete Engines"),
        MenuCommand::DeleteIwads => reveal_strlit("Delete Internal WADs"),
        MenuCommand::DeleteMaps => reveal_strlit("Delete Maps"),
        MenuCommand::AppVersion => reveal_strlit("View App Version"),
        MenuCommand::Init => reveal_strlit("Init"),
        MenuCommand::Reset => reveal_strlit("Reset"),
        MenuCommand::CompLevel => reveal_strlit("Compatibility Level"),
        MenuCommand::ConfigFile => reveal_strlit("Config File"),
        MenuCommand::FastMonsters => reveal_strlit("Fast Monsters"),
        MenuCommand::NoMonsters => reveal_strlit("No Monsters"),
        MenuCommand::RespawnMonsters => reveal_strlit("Respawn Monsters"),
        MenuCommand::WarpToLevel => reveal_strlit("Warp to Level"),
        MenuCommand::Skill => reveal_strlit("Skill"),
        MenuCommand::Turbo => reveal_strlit("Turbo"),
        MenuCommand::Timer => reveal_strlit("Timer"),
        MenuCommand::Width => reveal_strlit("Screen Width"),
        MenuCommand::Height => reveal_strlit("Screen Height"),
        MenuCommand::FullScreen => reveal_strlit("Full Screen"),
        MenuCommand::Windowed => reveal_strlit("Windowed"),
        MenuCommand::AdditionalArguments => reveal_strlit("Additional Arguments"),
        MenuCommand::ResetPlaySettings => reveal_strlit("Reset Play Settings"),
        MenuCommand::OpenFromDefaultProfile => reveal_strlit("Open from Default Profile Map"),
        MenuCommand::OpenFromLastProfile => reveal_strlit("Open from Last Profile Map"),
        MenuCommand::OpenFromPickProfile => reveal_strlit("Open from Pick Profile"),
        MenuCommand::OpenFromPickMap => reveal_strlit("Open from Pick Map"),
        MenuCommand::SetDefaultEditor => reveal_strlit("Set Default Editor"),
        MenuCommand::ListEditors => reveal_strlit("List Editors"),
        MenuCommand::AddEditor => reveal_strlit("Add Editor"),
        MenuCommand::DeleteEditor => reveal_strlit("Delete Editor"),
        MenuCommand::ViewOnDoomworld => reveal_strlit("View on Doomworld"),
        MenuCommand::SearchAndDownloadOnDoomworld => reveal_strlit("Search & Download on Doomworld >>"),
        MenuCommand::SearchDoomworldByAuthor => reveal_strlit("Search Doomworld by Author"),
        MenuCommand::SearchDoomworldByFileName => reveal_strlit("Search Doomworld by FileName"),
        MenuCommand::SearchDoomworldByMapTitle => reveal_strlit("Search Doomworld by Map Title"),
        MenuCommand::ViewReadme => reveal_strlit("View Readme >>"),
        MenuCommand::ReadmeFromDefaultProfile => reveal_strlit("Readme from Default Profile"),
        MenuCommand::ReadmeFromLastProfile => reveal_strlit("Readme from Last Profile"),
        MenuCommand::ReadmeFromPickProfile => reveal_strlit("Readme from Pick Profile"),
        MenuCommand::ReadmeFromPickMap => reveal_strlit("Readme from Pick Map"),
        MenuCommand::Back => reveal_strlit("Back <ESC>"),
        MenuCommand::Quit => reveal_strlit("Quit <ESC>"),
        MenuCommand::Ignore => reveal_strlit("Ignore"),
    }
}

/// Where each command stands in `all_commands`.
proof fn lemma_all_commands_contains(c: MenuCommand)
    ensures
        all_commands().contains(c),
{
    match c {
        MenuCommand::PlayDefaultProfile => assert(all_commands()[0] == c),
        MenuCommand::PlayLastProfile => assert(all_commands()[1] == c),
        MenuCommand::PickAndPlayProfile => assert(all_commands()[2] == c),
        MenuCommand::PickAndPlayMap => assert(all_commands()[3] == c),
        MenuCommand::Editor => assert(all_commands()[4] == c),
        MenuCommand::Profiles => assert(all_commands()[5] == c),
        MenuCommand::PlaySettings => assert(all_commands()[6] == c),
        MenuCommand::Maps => assert(all_commands()[7] == c),
        MenuCommand::AppSettings => assert(all_commands()[8] == c),
        MenuCommand::NewProfile => assert(all_commands()[9] == c),
        MenuCommand::EditProfile => assert(all_commands()[10] == c),
        MenuCommand::ChangeEngineOnProfile => assert(all_commands()[11] == c),
        MenuCommand::DeleteProfile => assert(all_commands()[12] == c),
        MenuCommand::SetDefaultProfile => assert(all_commands()[13] == c),
        MenuCommand::ListProfile => assert(all_commands()[14] == c),
        MenuCommand::MenuMode => assert(all_commands()[15] == c),
        MenuCommand::UseDoomworldApi => assert(all_commands()[16] == c),
        MenuCommand::SetDefaults => assert(all_commands()[17] == c),
        MenuCommand::SetDefaultEngine => assert(all_commands()[18] == c),
        MenuCommand::SetDefaultIwad => assert(all_commands()[19] == c),
        MenuCommand::ListStoredData => assert(all_commands()[20] == c),
        MenuCommand::ListEngines => assert(all_commands()[21] == c),
        MenuCommand::ListIwads => assert(all_commands()[22] == c),
        MenuCommand::ListMaps => assert(all_commands()[23] == c),
        MenuCommand::ListAppSettings => assert(all_commands()[24] == c),
        MenuCommand::ListPlaySettings => assert(all_commands()[25] == c),
        MenuCommand::UpdateStoredData => assert(all_commands()[26] == c),
        MenuCommand::UpdateEngines => assert(all_commands()[27] == c),
        MenuCommand::UpdateIwads => assert(all_commands()[28] == c),
        MenuCommand::UpdateMaps => assert(all_commands()[29] == c),
        MenuCommand::UpdateMapInfo => assert(all_commands()[30] == c),
        MenuCommand::DeleteStoredData => assert(all_commands()[31] == c),
        MenuCommand::DeleteEngines => assert(all_commands()[32] == c),
        MenuCommand::DeleteIwads => assert(all_commands()[33] == c),
        MenuCommand::DeleteMaps => assert(all_commands()[34] == c),
        MenuCommand::AppVersion => assert(all_commands()[35] == c),
        MenuCommand::Init => assert(all_commands()[36] == c),
        MenuCommand::Reset => assert(all_commands()[37] == c),
        MenuCommand::CompLevel => assert(all_commands()[38] == c),
        MenuCommand::ConfigFile => assert(all_commands()[39] == c),
        MenuCommand::FastMonsters => assert(all_commands()[40] == c),
        MenuCommand::NoMonsters => assert(all_commands()[41] == c),
        MenuCommand::RespawnMonsters => assert(all_commands()[42] == c),
        MenuCommand::WarpToLevel => assert(all_commands()[43] == c),
        MenuCommand::Skill => assert(all_commands()[44] == c),
        MenuCommand::Turbo => assert(all_commands()[45] == c),
        MenuCommand::Timer => assert(all_commands()[46] == c),
        MenuCommand::Width => assert(all_commands()[47] == c),
        MenuCommand::Height => assert(all_commands()[48] == c),
        MenuCommand::FullScreen => assert(all_commands()[49] == c),
        MenuCommand::Windowed => assert(all_commands()[50] == c),
        MenuCommand::AdditionalArguments => assert(all_commands()[51] == c),
        MenuCommand::ResetPlaySettings => assert(all_commands()[52] == c),
        MenuCommand::OpenFromDefaultProfile => assert(all_commands()[53] == c),
        MenuCommand::OpenFromLastProfile => assert(all_commands()[54] == c),
        MenuCommand::OpenFromPickProfile => assert(all_commands()[55] == c),
        MenuCommand::OpenFromPickMap => assert(all_commands()[56] == c),
        MenuCommand::SetDefaultEditor => assert(all_commands()[57] == c),
        MenuCommand::ListEditors => assert(all_commands()[58] == c),
        MenuCommand::AddEditor => assert(all_commands()[59] == c),
        MenuCommand::DeleteEditor => assert(all_commands()[60] == c),
        MenuCommand::ViewOnDoomworld => assert(all_commands()[61] == c),
        MenuCommand::SearchAndDownloadOnDoomworld => assert(all_commands()[62] == c),
        MenuCommand::SearchDoomworldByAuthor => assert(all_commands()[63] == c),
        MenuCommand::SearchDoomworldByFileName => assert(all_commands()[64] == c),
        MenuCommand::SearchDoomworldByMapTitle => assert(all_commands()[65] == c),
        MenuCommand::ViewReadme => assert(all_commands()[66] == c),
        MenuCommand::ReadmeFromDefaultProfile => assert(all_commands()[67] == c),
        MenuCommand::ReadmeFromLastProfile => assert(all_commands()[68] == c),
        MenuCommand::ReadmeFromPickProfile => assert(all_commands()[69] == c),
        MenuCommand::ReadmeFromPickMap => assert(all_commands()[70] == c),
        MenuCommand::Back => assert(all_commands()[71] == c),
        MenuCommand::Quit => assert(all_commands()[72] == c),
        MenuCommand::Ignore => assert(all_commands()[73] == c),
    }
}
/// The command the search finds has the text searched for.
proof fn lemma_found_command_has_text(cs: Seq<MenuCommand>, t: Seq<char>)
    ensures
        command_of_text_in(cs, t) matches Some(x) ==> command_text(x) == t,
    decreases cs.len(),
{
    if cs.len() > 0 && command_text(cs[0]) != t {
        lemma_found_command_has_text(cs.drop_first(), t);
    }
}

/// The text of a listed command is found.
proof fn lemma_listed_command_found(cs: Seq<MenuCommand>, c: MenuCommand)
    requires
        cs.contains(c),
    ensures
        command_of_text_in(cs, command_text(c)) is Some,
    decreases cs.len(),
{
    if command_text(cs[0]) != command_text(c) {
        let i = choose|i: int| 0 <= i < cs.len() && cs[i] == c;
        assert(cs.drop_first()[i - 1] == c);
        lemma_listed_command_found(cs.drop_first(), c);
    }
}

/// The text a command is shown with parses back to that command.
pub proof fn law_command_text_parses_back(c: MenuCommand)
    ensures
        command_of_text(command_text(c)) == Some(c),
{
    lemma_all_commands_contains(c);
    lemma_listed_command_found(all_commands(), c);
    lemma_found_command_has_text(all_commands(), command_text(c));
    let x = command_of_text(command_text(c))->0;
    lemma_command_of_key(x);
    lemma_command_of_key(c);
}



/// Each command's text is not empty, has no `(`, and neither starts nor ends with
/// white space.
proof fn lemma_command_text_shape(c: MenuCommand)
    ensures
        command_text(c).len() > 0,
        !is_whitespace(command_text(c)[0]),
        !is_whitespace(command_text(c).last()),
        forall|i: int| 0 <= i < command_text(c).len() ==> command_text(c)[i] != '(',
{
    match c {
        MenuCommand::PlayDefaultProfile => reveal_strlit("Play Default Profile"),
        MenuCommand::PlayLastProfile => reveal_strlit("Play Last Profile"),
        MenuCommand::PickAndPlayProfile => reveal_strlit("Pick & Play Profile"),
        MenuCommand::PickAndPlayMap => reveal_strlit("Pick & Play Map"),
        MenuCommand::Editor => reveal_strlit("Editor >>"),
        MenuCommand::Profiles => reveal_strlit("Profiles >>"),
        MenuCommand::PlaySettings => reveal_strlit("Play Settings >>"),
        MenuCommand::Maps => reveal_strlit("Maps >>"),
        MenuCommand::AppSettings => reveal_strlit("App Settings >>"),
        MenuCommand::NewProfile => reveal_strlit("New Profile"),
        MenuCommand::EditProfile => reveal_strlit("Edit Profile"),
        MenuCommand::ChangeEngineOnProfile => reveal_strlit("Change Engine on Profile"),
        MenuCommand::DeleteProfile => reveal_strlit("Delete Profile"),
        MenuCommand::SetDefaultProfile => reveal_strlit("Set Default Profile"),
        MenuCommand::ListProfile => reveal_strlit("List Profiles"),
        MenuCommand::MenuMode => reveal_strlit("Menu Mode"),
        MenuCommand::UseDoomworldApi => reveal_strlit("Use Doomworld API"),
        MenuCommand::SetDefaults => reveal_strlit("Set Defaults >>"),
        MenuCommand::SetDefaultEngine => reveal_strlit("Set Default Engine"),
        MenuCommand::SetDefaultIwad => reveal_strlit("Set Default Internal WAD"),
        MenuCommand::ListStoredData => reveal_strlit("List Stored Data >>"),
        MenuCommand::ListEngines => reveal_strlit("List Engines"),
        MenuCommand::ListIwads => reveal_strlit("List Internal WADs"),
        MenuCommand::ListMaps => reveal_strlit("List Maps"),
        MenuCommand::ListAppSettings => reveal_strlit("List App Settings"),
        MenuCommand::ListPlaySettings => reveal_strlit("List Play Settings"),
        MenuCommand::UpdateStoredData => reveal_strlit("Update Stored Data >>"),
        MenuCommand::UpdateEngines => reveal_strlit("Update Engines"),
        MenuCommand::UpdateIwads => reveal_strlit("Update Internal WADs"),
        MenuCommand::UpdateMaps => reveal_strlit("Update Maps"),
        MenuCommand::UpdateMapInfo => reveal_strlit("Update Map Info"),
        MenuCommand::DeleteStoredData => reveal_strlit("Delete Stored Data >>"),
        MenuCommand::DeleteEngines => reveal_strlit("Delete Engines"),
        MenuCommand::DeleteIwads => reveal_strlit("Delete Internal WADs"),
        MenuCommand::DeleteMaps => reveal_strlit("Delete Maps"),
        MenuCommand::AppVersion => reveal_strlit("View App Version"),
        MenuCommand::Init => reveal_strlit("Init"),
        MenuCommand::Reset => reveal_strlit("Reset"),
        MenuCommand::CompLevel => reveal_strlit("Compatibility Level"),
        MenuCommand::ConfigFile => reveal_strlit("Config File"),
        MenuCommand::FastMonsters => reveal_strlit("Fast Monsters"),
        MenuCommand::NoMonsters => reveal_strlit("No Monsters"),
        MenuCommand::RespawnMonsters => reveal_strlit("Respawn Monsters"),
        MenuCommand::WarpToLevel => reveal_strlit("Warp to Level"),
        MenuCommand::Skill => reveal_strlit("Skill"),
        MenuCommand::Turbo => reveal_strlit("Turbo"),
        MenuCommand::Timer => reveal_strlit("Timer"),
        MenuCommand::Width => reveal_strlit("Screen Width"),
        MenuCommand::Height => reveal_strlit("Screen Height"),
        MenuCommand::FullScreen => reveal_strlit("Full Screen"),
        MenuCommand::Windowed => reveal_strlit("Windowed"),
        MenuCommand::AdditionalArguments => reveal_strlit("Additional Arguments"),
        MenuCommand::ResetPlaySettings => reveal_strlit("Reset Play Settings"),
        MenuCommand::OpenFromDefaultProfile => reveal_strlit("Open from Default Profile Map"),
        MenuCommand::OpenFromLastProfile => reveal_strlit("Open from Last Profile Map"),
        MenuCommand::OpenFromPickProfile => reveal_strlit("Open from Pick Profile"),
        MenuCommand::OpenFromPickMap => reveal_strlit("Open from Pick Map"),
        MenuCommand::SetDefaultEditor => reveal_strlit("Set Default Editor"),
        MenuCommand::ListEditors => reveal_strlit("List Editors"),
        MenuCommand::AddEditor => reveal_strlit("Add Editor"),
        MenuCommand::DeleteEditor => reveal_strlit("Delete Editor"),
        MenuCommand::ViewOnDoomworld => reveal_strlit("View on Doomworld"),
        MenuCommand::SearchAndDownloadOnDoomworld => reveal_strlit("Search & Download on Doomworld >>"),
        MenuCommand::SearchDoomworldByAuthor => reveal_strlit("Search Doomworld by Author"),
        MenuCommand::SearchDoomworldByFileName => reveal_strlit("Search Doomworld by FileName"),
        MenuCommand::SearchDoomworldByMapTitle => reveal_strlit("Search Doomworld by Map Title"),
        MenuCommand::ViewReadme => reveal_strlit("View Readme >>"),
        MenuCommand::ReadmeFromDefaultProfile => reveal_strlit("Readme from Default Profile"),
        MenuCommand::ReadmeFromLastProfile => reveal_strlit("Readme from Last Profile"),
        MenuCommand::ReadmeFromPickProfile => reveal_strlit("Readme from Pick Profile"),
        MenuCommand::ReadmeFromPickMap => reveal_strlit("Readme from Pick Map"),
        MenuCommand::Back => reveal_strlit("Back <ESC>"),
        MenuCommand::Quit => reveal_strlit("Quit <ESC>"),
        MenuCommand::Ignore => reveal_strlit("Ignore"),
    }
}

/// `before_first` passes over a prefix that holds no separator.
proof fn lemma_before_first_append(a: Seq<char>, b: Seq<char>, sep: char)
    requires
        forall|i: int| 0 <= i < a.len() ==> a[i] != sep,
    ensures
        before_first(a + b, sep) == a + before_first(b, sep),
    decreases a.len(),
{
    if a.len() == 0 {
        assert(a + b =~= b);
        assert(a + before_first(b, sep) =~= before_first(b, sep));
    } else {
        assert((a + b)[0] == a[0]);
        assert((a + b).drop_first() =~= a.drop_first() + b);
        lemma_before_first_append(a.drop_first(), b, sep);
        assert(seq![a[0]] + (a.drop_first() + before_first(b, sep)) =~= a + before_first(b, sep));
    }
}

/// The text before the first `(` of a shown value: a single space.
proof fn lemma_before_value(v: Seq<char>)
    ensures
        before_first(" ("@ + v + ")"@, '(') == seq![' '],
{
    reveal_strlit(" (");
    let b = " ("@ + v + ")"@;
    assert(b[0] == ' ');
    assert(b.drop_first()[0] == '(');
    assert(before_first(b.drop_first(), '(') == Seq::<char>::empty());
    assert(seq![b[0]] + Seq::<char>::empty() =~= seq![' ']);
}

/// A menu entry stands for the command it shows, whatever value it shows beside it.
pub proof fn law_menu_entry_gives_its_command(c: MenuCommand, value: Option<Seq<char>>)
    ensures
        choice_command(entry_text(c, value)) == Some(c),
{
    let t = command_text(c);
    lemma_command_text_shape(c);
    law_command_text_parses_back(c);
    match value {
        Some(v) => {
            let rest = " ("@ + v + ")"@;
            assert(entry_text(c, value) =~= t + rest);
            lemma_before_first_append(t, rest, '(');
            lemma_before_value(v);
            let padded = t + seq![' '];
            assert(padded[0] == t[0]);
            assert(trim_start(padded) == padded);
            assert(padded.last() == ' ');
            assert(padded.drop_last() =~= t);
            assert(trim_end(t) == t);
            assert(trim_end(padded) == t);
        },
        None => {
            lemma_before_first_append(t, Seq::<char>::empty(), '(');
            assert(t + Seq::<char>::empty() =~= t);
            assert(trim_start(t) == t);
            assert(trim_end(t) == t);
        },
    }
}

} // verus!

//! The records the launcher stores (engines, IWADs, maps, editors, profiles and
//! settings) and the texts it shows for them.

use vstd::prelude::*;
use crate::constants::DEFAULT_NOT_SET;
use crate::doom_data::{
    game_engine_type_name, game_engine_type_text, internal_wad_type_name,
    internal_wad_type_text, GameEngineType, InternalWadType,
};
use crate::files::replace_all;
use crate::text::{copy_str, decimal, push_decimal, str_eq, u64_to_string};
use crate::tui::MenuMode;

verus! {

// ---------------------------------------------------------------------------
// Text helpers
// ---------------------------------------------------------------------------

/// A copy of an optional string.
pub fn copy_opt_string(o: &Option<String>) -> (r: Option<String>)
    ensures
        r == *o,
{
    match o {
        Some(s) => Some(s.clone()),
        None => None,
    }
}

/// The text of an optional string, `DEFAULT_NOT_SET` when it is absent.
pub open spec fn opt_text(o: Option<Seq<char>>) -> Seq<char> {
    match o {
        Some(s) => s,
        None => DEFAULT_NOT_SET@,
    }
}

/// The text of an optional string, as a sequence of characters.
pub open spec fn opt_string_view(o: Option<String>) -> Option<Seq<char>> {
    match o {
        Some(s) => Some(s@),
        None => None,
    }
}

/// The text of an optional number, `DEFAULT_NOT_SET` when it is absent.
pub open spec fn opt_number_text(o: Option<nat>) -> Seq<char> {
    match o {
        Some(n) => decimal(n),
        None => DEFAULT_NOT_SET@,
    }
}

// ---------------------------------------------------------------------------
// FileVersion
// ---------------------------------------------------------------------------

/// The version of an executable, as its file's version resource gives it.
#[derive(Clone, Debug)]
pub struct FileVersion {
    pub app_name: String,
    pub path: String,
    pub major: u32,
    pub minor: u32,
    pub build: u32,
    pub revision: u32,
}

/// `major.minor.build.revision` in decimal.
pub open spec fn version_text(major: u32, minor: u32, build: u32, revision: u32) -> Seq<char> {
    decimal(major as nat) + seq!['.'] + decimal(minor as nat) + seq!['.'] + decimal(
        build as nat,
    ) + seq!['.'] + decimal(revision as nat)
}

impl FileVersion {
    /// The version as `major.minor.build.revision`.
    pub fn display_version(&self) -> (r: String)
        ensures
            r@ == version_text(self.major, self.minor, self.build, self.revision),
    {
        let mut s = String::new();
        push_decimal(&mut s, self.major as u64);
        crate::text::push_char(&mut s, '.');
        push_decimal(&mut s, self.minor as u64);
        crate::text::push_char(&mut s, '.');
        push_decimal(&mut s, self.build as u64);
        crate::text::push_char(&mut s, '.');
        push_decimal(&mut s, self.revision as u64);
        assert(s@ =~= version_text(self.major, self.minor, self.build, self.revision));
        s
    }
}

// ---------------------------------------------------------------------------
// Engine, Iwad, Map, Editor
// ---------------------------------------------------------------------------

/// A Doom engine known to the launcher.
#[derive(Clone, Debug)]
pub struct Engine {
    pub id: i32,
    pub app_name: String,
    pub path: String,
    pub internal_path: Option<String>,
    pub version: String,
    pub game_engine_type: GameEngineType,
}

/// `app_name (path [version], engine type)`.
pub open spec fn engine_text(e: Engine) -> Seq<char> {
    e.app_name@ + " ("@ + e.path@ + " ["@ + e.version@ + "], "@ + game_engine_type_text(
        e.game_engine_type,
    ) + ")"@
}

impl Engine {
    /// The engine as one line of text.
    pub fn display_text(&self) -> (r: String)
        ensures
            r@ == engine_text(*self),
    {
        let mut s = self.app_name.clone();
        s.append(" (");
        s.append(self.path.as_str());
        s.append(" [");
        s.append(self.version.as_str());
        s.append("], ");
        let t = game_engine_type_name(self.game_engine_type);
        s.append(t.as_str());
        s.append(")");
        s
    }

    /// A copy of the engine.
    pub fn copy(&self) -> (r: Engine)
        ensures
            r == *self,
    {
        Engine {
            id: self.id,
            app_name: self.app_name.clone(),
            path: self.path.clone(),
            internal_path: copy_opt_string(&self.internal_path),
            version: self.version.clone(),
            game_engine_type: self.game_engine_type,
        }
    }
}

impl Default for Engine {
    fn default() -> (r: Engine)
        ensures
            r.id == 0,
            r.app_name@ == DEFAULT_NOT_SET@,
            r.path@ == DEFAULT_NOT_SET@,
            r.internal_path is None,
            r.version@ == "-"@,
            r.game_engine_type == GameEngineType::Unknown,
    {
        Engine {
            id: 0,
            app_name: copy_str(DEFAULT_NOT_SET),
            path: copy_str(DEFAULT_NOT_SET),
            internal_path: None,
            version: copy_str("-"),
            game_engine_type: GameEngineType::Unknown,
        }
    }
}

/// A commercial (internal) WAD known to the launcher.
#[derive(Clone, Debug)]
pub struct Iwad {
    pub id: i32,
    pub path: String,
    pub internal_wad_type: InternalWadType,
}

/// `IWAD name (path)`.
pub open spec fn iwad_text(w: Iwad) -> Seq<char> {
    internal_wad_type_text(w.internal_wad_type) + " ("@ + w.path@ + ")"@
}

impl Iwad {
    /// The IWAD as one line of text.
    pub fn display_text(&self) -> (r: String)
        ensures
            r@ == iwad_text(*self),
    {
        let mut s = internal_wad_type_name(self.internal_wad_type);
        s.append(" (");
        s.append(self.path.as_str());
        s.append(")");
        s
    }

    /// A copy of the IWAD.
    pub fn copy(&self) -> (r: Iwad)
        ensures
            r == *self,
    {
        Iwad { id: self.id, path: self.path.clone(), internal_wad_type: self.internal_wad_type }
    }
}

impl Default for Iwad {
    fn default() -> (r: Iwad)
        ensures
            r.id == 0,
            r.path@ == DEFAULT_NOT_SET@,
            r.internal_wad_type == InternalWadType::Unknown,
    {
        Iwad { id: 0, path: copy_str(DEFAULT_NOT_SET), internal_wad_type: InternalWadType::Unknown }
    }
}

/// A map (PWAD) known to the launcher (the stored record of one).
#[derive(Clone, Debug)]
pub struct MapRecord {
    pub id: i32,
    pub title: String,
    pub author: String,
    pub path: String,
}

/// `title by 'author' (path)`.
pub open spec fn map_text(m: MapRecord) -> Seq<char> {
    m.title@ + " by '"@ + m.author@ + "' ("@ + m.path@ + ")"@
}

impl MapRecord {
    /// The map as one line of text.
    pub fn display_text(&self) -> (r: String)
        ensures
            r@ == map_text(*self),
    {
        let mut s = self.title.clone();
        s.append(" by '");
        s.append(self.author.as_str());
        s.append("' (");
        s.append(self.path.as_str());
        s.append(")");
        s
    }

    /// A copy of the map.
    pub fn copy(&self) -> (r: MapRecord)
        ensures
            r == *self,
    {
        MapRecord {
            id: self.id,
            title: self.title.clone(),
            author: self.author.clone(),
            path: self.path.clone(),
        }
    }
}

impl Default for MapRecord {
    fn default() -> (r: MapRecord)
        ensures
            r.id == 0,
            r.title@ == DEFAULT_NOT_SET@,
            r.author@ == DEFAULT_NOT_SET@,
            r.path@ == DEFAULT_NOT_SET@,
    {
        MapRecord {
            id: 0,
            title: copy_str(DEFAULT_NOT_SET),
            author: copy_str(DEFAULT_NOT_SET),
            path: copy_str(DEFAULT_NOT_SET),
        }
    }
}

/// A map editor known to the launcher.
#[derive(Clone, Debug)]
pub struct Editor {
    pub id: i32,
    pub app_name: String,
    pub path: String,
    pub load_file_argument: Option<String>,
    pub additional_arguments: Option<String>,
    pub version: String,
}

/// `app_name (path [version])`.
pub open spec fn editor_text(e: Editor) -> Seq<char> {
    e.app_name@ + " ("@ + e.path@ + " ["@ + e.version@ + "])"@
}

impl Editor {
    /// The editor as one line of text.
    pub fn display_text(&self) -> (r: String)
        ensures
            r@ == editor_text(*self),
    {
        let mut s = self.app_name.clone();
        s.append(" (");
        s.append(self.path.as_str());
        s.append(" [");
        s.append(self.version.as_str());
        s.append("])");
        s
    }

    /// A copy of the editor.
    pub fn copy(&self) -> (r: Editor)
        ensures
            r == *self,
    {
        Editor {
            id: self.id,
            app_name: self.app_name.clone(),
            path: self.path.clone(),
            load_file_argument: copy_opt_string(&self.load_file_argument),
            additional_arguments: copy_opt_string(&self.additional_arguments),
            version: self.version.clone(),
        }
    }
}

// ---------------------------------------------------------------------------
// Profiles
// ---------------------------------------------------------------------------

/// A profile: an engine, an IWAD and up to five maps, played together. Dates are
/// seconds since the Unix epoch, in UTC.
#[derive(Clone, Debug)]
pub struct Profile {
    pub id: i32,
    pub name: String,
    pub engine_id: Option<i32>,
    pub iwad_id: Option<i32>,
    pub map_id: Option<i32>,
    pub map_id2: Option<i32>,
    pub map_id3: Option<i32>,
    pub map_id4: Option<i32>,
    pub map_id5: Option<i32>,
    pub date_created: i64,
    pub date_edited: i64,
    pub date_last_run: Option<i64>,
    pub run_count: i32,
    pub additional_arguments: Option<String>,
}

impl Profile {
    /// A copy of the profile.
    pub fn copy(&self) -> (r: Profile)
        ensures
            r == *self,
    {
        Profile {
            id: self.id,
            name: self.name.clone(),
            engine_id: self.engine_id,
            iwad_id: self.iwad_id,
            map_id: self.map_id,
            map_id2: self.map_id2,
            map_id3: self.map_id3,
            map_id4: self.map_id4,
            map_id5: self.map_id5,
            date_created: self.date_created,
            date_edited: self.date_edited,
            date_last_run: self.date_last_run,
            run_count: self.run_count,
            additional_arguments: copy_opt_string(&self.additional_arguments),
        }
    }
}

/// The ids of a profile's five map slots; 0 for an empty slot.
pub type MapIds = (i32, i32, i32, i32, i32);

/// The id of an optional map slot, 0 when it is empty.
pub open spec fn id_or_zero(o: Option<i32>) -> i32 {
    match o {
        Some(i) => i,
        None => 0,
    }
}

/// The five map slots as ids, an empty slot as 0.
pub fn map_ids_from_options(
    a: Option<i32>,
    b: Option<i32>,
    c: Option<i32>,
    d: Option<i32>,
    e: Option<i32>,
) -> (r: MapIds)
    ensures
        r == (id_or_zero(a), id_or_zero(b), id_or_zero(c), id_or_zero(d), id_or_zero(e)),
{
    (a.unwrap_or(0), b.unwrap_or(0), c.unwrap_or(0), d.unwrap_or(0), e.unwrap_or(0))
}

/// Five texts, one for each map slot of a profile.
pub type MapStrings = (String, String, String, String, String);

/// The five texts in slot order.
pub open spec fn map_strings_seq(m: MapStrings) -> Seq<Seq<char>> {
    seq![m.0@, m.1@, m.2@, m.3@, m.4@]
}

/// A profile with the names and paths of what it links to, as the menus show it.
#[derive(Debug)]
pub struct ProfileDisplay {
    pub id: i32,
    pub name: String,
    pub engine_id: i32,
    pub engine_app_name: String,
    pub engine_path: String,
    pub engine_file: String,
    pub engine_version: String,
    pub iwad_id: i32,
    pub iwad_path: String,
    pub iwad_file: String,
    pub map_ids: MapIds,
    pub map_paths: MapStrings,
    pub map_files: MapStrings,
    pub additional_arguments: String,
    pub date_created: i64,
    pub date_edited: i64,
    pub date_last_run: Option<i64>,
    pub run_count: i32,
}

/// `name / engine file [engine version] / IWAD file`, with the map files in brackets
/// after the name when there are any.
pub open spec fn profile_display_text(p: ProfileDisplay) -> Seq<char> {
    let maps = combined_map_strings(map_strings_seq(p.map_files), ", "@);
    if maps.len() == 0 {
        p.name@ + " / "@ + p.engine_file@ + " ["@ + p.engine_version@ + "] / "@ + p.iwad_file@
    } else {
        p.name@ + " ("@ + maps + ") / "@ + p.engine_file@ + " ["@ + p.engine_version@
            + "] / "@ + p.iwad_file@
    }
}

/// A copy of five texts.
pub fn copy_map_strings(m: &MapStrings) -> (r: MapStrings)
    ensures
        r == *m,
{
    (m.0.clone(), m.1.clone(), m.2.clone(), m.3.clone(), m.4.clone())
}

impl ProfileDisplay {
    /// A copy of the profile display.
    pub fn copy(&self) -> (r: ProfileDisplay)
        ensures
            r == *self,
    {
        ProfileDisplay {
            id: self.id,
            name: self.name.clone(),
            engine_id: self.engine_id,
            engine_app_name: self.engine_app_name.clone(),
            engine_path: self.engine_path.clone(),
            engine_file: self.engine_file.clone(),
            engine_version: self.engine_version.clone(),
            iwad_id: self.iwad_id,
            iwad_path: self.iwad_path.clone(),
            iwad_file: self.iwad_file.clone(),
            map_ids: self.map_ids,
            map_paths: copy_map_strings(&self.map_paths),
            map_files: copy_map_strings(&self.map_files),
            additional_arguments: self.additional_arguments.clone(),
            date_created: self.date_created,
            date_edited: self.date_edited,
            date_last_run: self.date_last_run,
            run_count: self.run_count,
        }
    }

    /// The profile as one line of text.
    pub fn display_text(&self) -> (r: String)
        ensures
            r@ == profile_display_text(*self),
    {
        let maps = display_combined_map_strings(&self.map_files);
        let mut s = self.name.clone();
        if !maps.as_str().is_empty() {
            s.append(" (");
            s.append(maps.as_str());
            s.append(") / ");
        } else {
            s.append(" / ");
        }
        let ghost head = s@;
        s.append(self.engine_file.as_str());
        s.append(" [");
        s.append(self.engine_version.as_str());
        s.append("] / ");
        s.append(self.iwad_file.as_str());
        assert(s@ =~= head + self.engine_file@ + " ["@ + self.engine_version@ + "] / "@
            + self.iwad_file@);
        s
    }
}

// ---------------------------------------------------------------------------
// Settings
// ---------------------------------------------------------------------------

/// The launcher's settings: defaults, the last profile played, search folders and
/// the menu mode.
#[derive(Clone, Debug)]
pub struct AppSettings {
    pub id: i32,
    pub default_profile_id: Option<i32>,
    pub last_profile_id: Option<i32>,
    pub default_engine_id: Option<i32>,
    pub default_iwad_id: Option<i32>,
    pub default_editor_id: Option<i32>,
    pub engine_search_folder: Option<String>,
    pub iwad_search_folder: Option<String>,
    pub map_search_folder: Option<String>,
    pub editor_search_folder: Option<String>,
    pub menu_mode: MenuMode,
}

impl AppSettings {
    /// A copy of the settings.
    pub fn copy(&self) -> (r: AppSettings)
        ensures
            r == *self,
    {
        AppSettings {
            id: self.id,
            default_profile_id: self.default_profile_id,
            last_profile_id: self.last_profile_id,
            default_engine_id: self.default_engine_id,
            default_iwad_id: self.default_iwad_id,
            default_editor_id: self.default_editor_id,
            engine_search_folder: copy_opt_string(&self.engine_search_folder),
            iwad_search_folder: copy_opt_string(&self.iwad_search_folder),
            map_search_folder: copy_opt_string(&self.map_search_folder),
            editor_search_folder: copy_opt_string(&self.editor_search_folder),
            menu_mode: self.menu_mode,
        }
    }
}

impl Default for AppSettings {
    fn default() -> (r: AppSettings)
        ensures
            r.id == 0,
            r.default_profile_id is None,
            r.last_profile_id is None,
            r.default_engine_id is None,
            r.default_iwad_id is None,
            r.default_editor_id is None,
            r.engine_search_folder is None,
            r.iwad_search_folder is None,
            r.map_search_folder is None,
            r.editor_search_folder is None,
            r.menu_mode == MenuMode::Simple,
    {
        AppSettings {
            id: 0,
            default_profile_id: None,
            last_profile_id: None,
            default_engine_id: None,
            default_iwad_id: None,
            default_editor_id: None,
            engine_search_folder: None,
            iwad_search_folder: None,
            map_search_folder: None,
            editor_search_folder: None,
            menu_mode: MenuMode::Simple,
        }
    }
}

/// The settings as the menus show them, each as text.
#[derive(Clone, Debug)]
pub struct AppSettingsDisplay {
    pub menu_mode: String,
    pub default_profile: String,
    pub last_profile: String,
    pub default_engine: String,
    pub default_iwad: String,
    pub default_editor: String,
    pub engine_search_folder: String,
    pub iwad_search_folder: String,
    pub map_search_folder: String,
    pub editor_search_folder: String,
}

/// A number, or `DEFAULT_NOT_SET`.
pub fn display_option_u8(value: &Option<u8>) -> (r: String)
    ensures
        r@ == opt_number_text(
            match value {
                Some(i) => Some(*i as nat),
                None => None,
            },
        ),
{
    match value {
        Some(i) => u64_to_string(*i as u64),
        None => copy_str(DEFAULT_NOT_SET),
    }
}

/// A number, or `DEFAULT_NOT_SET`.
pub fn display_option_u32(value: &Option<u32>) -> (r: String)
    ensures
        r@ == opt_number_text(
            match value {
                Some(i) => Some(*i as nat),
                None => None,
            },
        ),
{
    match value {
        Some(i) => u64_to_string(*i as u64),
        None => copy_str(DEFAULT_NOT_SET),
    }
}

/// A string, or `DEFAULT_NOT_SET`.
pub fn display_option_string(value: &Option<String>) -> (r: String)
    ensures
        r@ == opt_text(opt_string_view(*value)),
{
    match value {
        Some(s) => s.clone(),
        None => copy_str(DEFAULT_NOT_SET),
    }
}

/// A compatibility level's name, or `DEFAULT_NOT_SET`.
pub fn display_option_comp_level(value: &Option<CompLevel>) -> (r: String)
    ensures
        r@ == opt_text(
            match value {
                Some(c) => Some(comp_level_text(*c)),
                None => None,
            },
        ),
{
    match value {
        Some(c) => comp_level_name(*c),
        None => copy_str(DEFAULT_NOT_SET),
    }
}

/// The compatibility levels that engines of the PrBoom family accept.
#[derive(Debug, PartialEq, Eq, Structural, Clone, Copy)]
pub enum CompLevel {
    DoomV12,
    DoomV1666,
    DoomV19,
    UltimateDoom,
    FinalDoom,
    DosDoom,
    TasDoom,
    Boom,
    BoomV201,
    BoomV202,
    LxDoom,
    Mbf,
    PrBoomPlus,
    Mbf21,
}

/// Every compatibility level, in order.
pub open spec fn all_comp_levels() -> Seq<CompLevel> {
    seq![
        CompLevel::DoomV12,
        CompLevel::DoomV1666,
        CompLevel::DoomV19,
        CompLevel::UltimateDoom,
        CompLevel::FinalDoom,
        CompLevel::DosDoom,
        CompLevel::TasDoom,
        CompLevel::Boom,
        CompLevel::BoomV201,
        CompLevel::BoomV202,
        CompLevel::LxDoom,
        CompLevel::Mbf,
        CompLevel::PrBoomPlus,
        CompLevel::Mbf21,
    ]
}

/// The number an engine takes for a compatibility level (and the one stored).
pub open spec fn comp_level_value(c: CompLevel) -> int {
    match c {
        CompLevel::DoomV12 => 0,
        CompLevel::DoomV1666 => 1,
        CompLevel::DoomV19 => 2,
        CompLevel::UltimateDoom => 3,
        CompLevel::FinalDoom => 4,
        CompLevel::DosDoom => 5,
        CompLevel::TasDoom => 6,
        CompLevel::Boom => 7,
        CompLevel::BoomV201 => 8,
        CompLevel::BoomV202 => 9,
        CompLevel::LxDoom => 10,
        CompLevel::Mbf => 11,
        CompLevel::PrBoomPlus => 17,
        CompLevel::Mbf21 => 21,
    }
}

/// The display name of a compatibility level.
pub open spec fn comp_level_text(c: CompLevel) -> Seq<char> {
    match c {
        CompLevel::DoomV12 => "Doom v1.2 (0)"@,
        CompLevel::DoomV1666 => "Doom v1.666 (1)"@,
        CompLevel::DoomV19 => "Doom v1.9 (2)"@,
        CompLevel::UltimateDoom => "Ultimate Doom (3)"@,
        CompLevel::FinalDoom => "Final Doom & Doom95 (4)"@,
        CompLevel::DosDoom => "DOSDoom (5)"@,
        CompLevel::TasDoom => "TASDoom (6)"@,
        CompLevel::Boom => "Boom (6)"@,
        CompLevel::BoomV201 => "Boom v2.01 (8)"@,
        CompLevel::BoomV202 => "Boom v2.02 (9)"@,
        CompLevel::LxDoom => "LxDoom (10)"@,
        CompLevel::Mbf => "MBF (11)"@,
        CompLevel::PrBoomPlus => "PrBoom+ (17)"@,
        CompLevel::Mbf21 => "MBF 21 (21)"@,
    }
}

/// The number an engine takes for a compatibility level.
pub fn comp_level_number(c: CompLevel) -> (r: i32)
    ensures
        r == comp_level_value(c),
{
    match c {
        CompLevel::DoomV12 => 0,
        CompLevel::DoomV1666 => 1,
        CompLevel::DoomV19 => 2,
        CompLevel::UltimateDoom => 3,
        CompLevel::FinalDoom => 4,
        CompLevel::DosDoom => 5,
        CompLevel::TasDoom => 6,
        CompLevel::Boom => 7,
        CompLevel::BoomV201 => 8,
        CompLevel::BoomV202 => 9,
        CompLevel::LxDoom => 10,
        CompLevel::Mbf => 11,
        CompLevel::PrBoomPlus => 17,
        CompLevel::Mbf21 => 21,
    }
}

/// The compatibility level stored as a number, if the number is one.
pub fn comp_level_from_number(n: i32) -> (r: Option<CompLevel>)
    ensures
        r matches Some(c) ==> comp_level_value(c) == n,
        r is None ==> forall|c: CompLevel| comp_level_value(c) != n,
{
    match n {
        0 => Some(CompLevel::DoomV12),
        1 => Some(CompLevel::DoomV1666),
        2 => Some(CompLevel::DoomV19),
        3 => Some(CompLevel::UltimateDoom),
        4 => Some(CompLevel::FinalDoom),
        5 => Some(CompLevel::DosDoom),
        6 => Some(CompLevel::TasDoom),
        7 => Some(CompLevel::Boom),
        8 => Some(CompLevel::BoomV201),
        9 => Some(CompLevel::BoomV202),
        10 => Some(CompLevel::LxDoom),
        11 => Some(CompLevel::Mbf),
        17 => Some(CompLevel::PrBoomPlus),
        21 => Some(CompLevel::Mbf21),
        _ => None,
    }
}

/// The display name of a compatibility level.
pub fn comp_level_name(c: CompLevel) -> (s: String)
    ensures
        s@ == comp_level_text(c),
{
    match c {
        CompLevel::DoomV12 => copy_str("Doom v1.2 (0)"),
        CompLevel::DoomV1666 => copy_str("Doom v1.666 (1)"),
        CompLevel::DoomV19 => copy_str("Doom v1.9 (2)"),
        CompLevel::UltimateDoom => copy_str("Ultimate Doom (3)"),
        CompLevel::FinalDoom => copy_str("Final Doom & Doom95 (4)"),
        CompLevel::DosDoom => copy_str("DOSDoom (5)"),
        CompLevel::TasDoom => copy_str("TASDoom (6)"),
        CompLevel::Boom => copy_str("Boom (6)"),
        CompLevel::BoomV201 => copy_str("Boom v2.01 (8)"),
        CompLevel::BoomV202 => copy_str("Boom v2.02 (9)"),
        CompLevel::LxDoom => copy_str("LxDoom (10)"),
        CompLevel::Mbf => copy_str("MBF (11)"),
        CompLevel::PrBoomPlus => copy_str("PrBoom+ (17)"),
        CompLevel::Mbf21 => copy_str("MBF 21 (21)"),
    }
}

/// The compatibility level whose display name is `text`, the first in order when two
/// share a name.
pub open spec fn comp_level_of_text(text: Seq<char>) -> Option<CompLevel> {
    comp_level_of_text_in(all_comp_levels(), text)
}

/// The first level of `levels` whose display name is `text`.
pub open spec fn comp_level_of_text_in(levels: Seq<CompLevel>, text: Seq<char>) -> Option<
    CompLevel,
>
    decreases levels.len(),
{
    if levels.len() == 0 {
        None
    } else if comp_level_text(levels[0]) == text {
        Some(levels[0])
    } else {
        comp_level_of_text_in(levels.drop_first(), text)
    }
}

/// Parses a compatibility level from its display name.
pub fn comp_level_from_text(text: &str) -> (r: Option<CompLevel>)
    ensures
        r == comp_level_of_text(text@),
{
    let levels: Vec<CompLevel> = vec![
        CompLevel::DoomV12,
        CompLevel::DoomV1666,
        CompLevel::DoomV19,
        CompLevel::UltimateDoom,
        CompLevel::FinalDoom,
        CompLevel::DosDoom,
        CompLevel::TasDoom,
        CompLevel::Boom,
        CompLevel::BoomV201,
        CompLevel::BoomV202,
        CompLevel::LxDoom,
        CompLevel::Mbf,
        CompLevel::PrBoomPlus,
        CompLevel::Mbf21,
    ];
    assert(levels@ =~= all_comp_levels());
    assert(levels@.skip(0) =~= levels@);
    let mut i: usize = 0;
    while i < levels.len()
        invariant
            i <= levels@.len(),
            comp_level_of_text(text@) == comp_level_of_text_in(levels@.skip(i as int), text@),
        decreases levels.len() - i,
    {
        let c = levels[i];
        let name = comp_level_name(c);
        assert(levels@.skip(i as int).drop_first() =~= levels@.skip(i + 1));
        if str_eq(name.as_str(), text) {
            return Some(c);
        }
        i = i + 1;
    }
    None
}

/// The settings a game is started with.
#[derive(Clone, Debug)]
pub struct PlaySettings {
    pub id: i32,
    pub comp_level: Option<CompLevel>,
    pub config_file: Option<String>,
    pub fast_monsters: bool,
    pub no_monsters: bool,
    pub respawn_monsters: bool,
    pub warp: Option<String>,
    pub skill: Option<u8>,
    pub turbo: Option<u8>,
    pub timer: Option<u32>,
    pub width: Option<u32>,
    pub height: Option<u32>,
    pub full_screen: bool,
    pub windowed: bool,
    pub additional_arguments: Option<String>,
}

/// Play settings with nothing set.
pub open spec fn play_settings_cleared(p: PlaySettings) -> bool {
    &&& p.comp_level is None
    &&& p.config_file is None
    &&& !p.fast_monsters
    &&& !p.no_monsters
    &&& !p.respawn_monsters
    &&& p.warp is None
    &&& p.skill is None
    &&& p.turbo is None
    &&& p.timer is None
    &&& p.width is None
    &&& p.height is None
    &&& !p.full_screen
    &&& !p.windowed
    &&& p.additional_arguments is None
}

impl PlaySettings {
    /// A copy of the play settings.
    pub fn copy(&self) -> (r: PlaySettings)
        ensures
            r == *self,
    {
        PlaySettings {
            id: self.id,
            comp_level: self.comp_level,
            config_file: copy_opt_string(&self.config_file),
            fast_monsters: self.fast_monsters,
            no_monsters: self.no_monsters,
            respawn_monsters: self.respawn_monsters,
            warp: copy_opt_string(&self.warp),
            skill: self.skill,
            turbo: self.turbo,
            timer: self.timer,
            width: self.width,
            height: self.height,
            full_screen: self.full_screen,
            windowed: self.windowed,
            additional_arguments: copy_opt_string(&self.additional_arguments),
        }
    }
}

impl Default for PlaySettings {
    fn default() -> (r: PlaySettings)
        ensures
            r.id == 0,
            play_settings_cleared(r),
    {
        PlaySettings {
            id: 0,
            comp_level: None,
            config_file: None,
            fast_monsters: false,
            no_monsters: false,
            respawn_monsters: false,
            warp: None,
            skill: None,
            turbo: None,
            timer: None,
            width: None,
            height: None,
            full_screen: false,
            windowed: false,
            additional_arguments: None,
        }
    }
}

// ---------------------------------------------------------------------------
// Combined map texts
// ---------------------------------------------------------------------------

/// Whether a map text is shown: it is not empty and not `DEFAULT_NOT_SET`.
pub open spec fn is_shown_map_string(s: Seq<char>) -> bool {
    s.len() > 0 && s != DEFAULT_NOT_SET@
}

/// The shown texts of `parts`, in order, joined by `sep`.
pub open spec fn combined_map_strings(parts: Seq<Seq<char>>, sep: Seq<char>) -> Seq<char>
    decreases parts.len(),
{
    if parts.len() == 0 {
        Seq::empty()
    } else {
        let rest = combined_map_strings(parts.drop_first(), sep);
        if !is_shown_map_string(parts[0]) {
            rest
        } else if rest.len() == 0 {
            parts[0]
        } else {
            parts[0] + sep + rest
        }
    }
}

/// The shown texts of `parts`, in order.
pub open spec fn shown_map_strings(parts: Seq<Seq<char>>) -> Seq<Seq<char>>
    decreases parts.len(),
{
    if parts.len() == 0 {
        Seq::empty()
    } else if is_shown_map_string(parts[0]) {
        seq![parts[0]] + shown_map_strings(parts.drop_first())
    } else {
        shown_map_strings(parts.drop_first())
    }
}

/// The combined text is empty exactly when no text is shown.
pub proof fn lemma_combined_empty(parts: Seq<Seq<char>>, sep: Seq<char>)
    ensures
        (combined_map_strings(parts, sep).len() == 0) <==> (shown_map_strings(parts).len() == 0),
    decreases parts.len(),
{
    if parts.len() > 0 {
        lemma_combined_empty(parts.drop_first(), sep);
    }
}

/// Joins the shown texts of the five slots with `sep`.
fn combine_map_strings(data: &MapStrings, sep: &str) -> (r: String)
    ensures
        r@ == combined_map_strings(map_strings_seq(*data), sep@),
{
    let parts: [&String; 5] = [&data.0, &data.1, &data.2, &data.3, &data.4];
    let ghost all = map_strings_seq(*data);
    let mut acc = String::new();
    let mut i: usize = 5;
    assert(all.skip(5) =~= Seq::<Seq<char>>::empty());
    while i > 0
        invariant
            i <= 5,
            all == map_strings_seq(*data),
            all.len() == 5,
            forall|k: int| 0 <= k < 5 ==> (#[trigger] parts@[k])@ == all[k],
            acc@ == combined_map_strings(all.skip(i as int), sep@),
        decreases i,
    {
        let s: &String = parts[i - 1];
        assert(all.skip(i - 1).drop_first() =~= all.skip(i as int));
        assert(all.skip(i - 1)[0] == all[i - 1]);
        let shown = !s.as_str().is_empty() && !str_eq(s.as_str(), DEFAULT_NOT_SET);
        if shown {
            if acc.as_str().is_empty() {
                acc = s.clone();
            } else {
                let mut t = s.clone();
                t.append(sep);
                t.append(acc.as_str());
                acc = t;
            }
        }
        i = i - 1;
    }
    assert(all.skip(0) =~= all);
    acc
}

/// The shown map texts of a profile, one per line.
pub fn display_combined_tabled_map_strings(data: &MapStrings) -> (r: String)
    ensures
        r@ == combined_map_strings(map_strings_seq(*data), seq!['\n']),
{
    let r = combine_map_strings(data, "\n");
    proof {
        reveal_strlit("\n");
        assert("\n"@ =~= seq!['\n']);
    }
    r
}

/// The shown map texts of a profile, separated by commas.
pub fn display_combined_map_strings(data: &MapStrings) -> (r: String)
    ensures
        r@ == combined_map_strings(map_strings_seq(*data), ", "@),
{
    combine_map_strings(data, ", ")
}

/// A one-character pattern starts a non-empty text exactly when its first character is
/// that character.
proof fn lemma_char_prefix(s: Seq<char>, c: char)
    requires
        s.len() > 0,
    ensures
        seq![c].is_prefix_of(s) <==> s[0] == c,
{
    if s[0] == c {
        assert(seq![c] =~= s.subrange(0, 1));
    }
    if seq![c].is_prefix_of(s) {
        assert(seq![c][0] == s.subrange(0, 1)[0]);
    }
}

/// Replacing a one-character pattern distributes over concatenation.
proof fn lemma_replace_char_concat(a: Seq<char>, b: Seq<char>, c: char, rep: Seq<char>)
    ensures
        replace_all(a + b, seq![c], rep) == replace_all(a, seq![c], rep) + replace_all(
            b,
            seq![c],
            rep,
        ),
    decreases a.len(),
{
    let pat = seq![c];
    if a.len() == 0 {
        assert(a + b =~= b);
    } else {
        let ab = a + b;
        assert(ab[0] == a[0]);
        lemma_char_prefix(ab, c);
        lemma_char_prefix(a, c);
        assert(ab.drop_first() =~= a.drop_first() + b);
        assert(ab.skip(1) =~= ab.drop_first());
        assert(a.skip(1) =~= a.drop_first());
        lemma_replace_char_concat(a.drop_first(), b, c, rep);
    }
}

/// A text without the character is left as it is.
proof fn lemma_replace_absent_char(a: Seq<char>, c: char, rep: Seq<char>)
    requires
        !a.contains(c),
    ensures
        replace_all(a, seq![c], rep) == a,
    decreases a.len(),
{
    if a.len() > 0 {
        assert(a[0] != c);
        lemma_char_prefix(a, c);
        assert forall|k: int| 0 <= k < a.drop_first().len() implies a.drop_first()[k] != c by {
            assert(a.drop_first()[k] == a[k + 1]);
        }
        lemma_replace_absent_char(a.drop_first(), c, rep);
        assert(a =~= seq![a[0]] + a.drop_first());
    }
}

/// Joining shown texts with `sep` gives the newline-joined text with each newline
/// replaced by `sep`, when no text holds a newline.
proof fn lemma_newline_join_replaced(parts: Seq<Seq<char>>, sep: Seq<char>)
    requires
        forall|i: int| 0 <= i < parts.len() ==> !(#[trigger] parts[i]).contains('\n'),
    ensures
        replace_all(combined_map_strings(parts, seq!['\n']), seq!['\n'], sep)
            == combined_map_strings(parts, sep),
    decreases parts.len(),
{
    if parts.len() == 0 {
        assert(replace_all(Seq::<char>::empty(), seq!['\n'], sep) =~= Seq::<char>::empty());
    } else {
        let rest = parts.drop_first();
        assert forall|i: int| 0 <= i < rest.len() implies !(#[trigger] rest[i]).contains('\n') by {
            assert(rest[i] == parts[i + 1]);
        }
        assert(!parts[0].contains('\n'));
        lemma_newline_join_replaced(rest, sep);
        lemma_combined_empty(rest, seq!['\n']);
        lemma_combined_empty(rest, sep);
        lemma_replace_absent_char(parts[0], '\n', sep);
        let r_nl = combined_map_strings(rest, seq!['\n']);
        if is_shown_map_string(parts[0]) && r_nl.len() != 0 {
            lemma_replace_char_concat(parts[0] + seq!['\n'], r_nl, '\n', sep);
            lemma_replace_char_concat(parts[0], seq!['\n'], '\n', sep);
            let nl = seq!['\n'];
            lemma_char_prefix(nl, '\n');
            assert(nl.skip(1) =~= Seq::<char>::empty());
            assert(replace_all(Seq::<char>::empty(), nl, sep) =~= Seq::<char>::empty());
            assert(replace_all(nl, nl, sep) =~= sep);
        }
    }
}

/// Whether no map text of `parts` is shown, each being empty or `DEFAULT_NOT_SET`.
proof fn lemma_shown_empty(parts: Seq<Seq<char>>)
    ensures
        (shown_map_strings(parts).len() == 0) <==> (forall|i: int|
            0 <= i < parts.len() ==> !is_shown_map_string(#[trigger] parts[i])),
    decreases parts.len(),
{
    if parts.len() > 0 {
        let rest = parts.drop_first();
        lemma_shown_empty(rest);
        if forall|i: int| 0 <= i < rest.len() ==> !is_shown_map_string(#[trigger] rest[i]) {
            assert forall|i: int| 0 <= i < parts.len() implies !is_shown_map_string(
                #[trigger] parts[i],
            ) || i == 0 by {
                if i > 0 {
                    assert(parts[i] == rest[i - 1]);
                }
            }
        } else {
            let k = choose|i: int| 0 <= i < rest.len() && is_shown_map_string(#[trigger] rest[i]);
            assert(parts[k + 1] == rest[k]);
        }
    }
}

/// The comma-separated map text of a profile is its one-per-line text with each line
/// break replaced by `", "`, as long as no map text holds a line break; and both are
/// empty exactly when every map text is empty or `DEFAULT_NOT_SET`.
pub proof fn law_comma_map_text_is_line_text_joined(data: MapStrings)
    requires
        forall|i: int|
            0 <= i < 5 ==> !(#[trigger] map_strings_seq(data)[i]).contains('\n'),
    ensures
        combined_map_strings(map_strings_seq(data), ", "@) == replace_all(
            combined_map_strings(map_strings_seq(data), seq!['\n']),
            seq!['\n'],
            ", "@,
        ),
        (combined_map_strings(map_strings_seq(data), ", "@).len() == 0) <==> (forall|i: int|
            0 <= i < 5 ==> !is_shown_map_string(#[trigger] map_strings_seq(data)[i])),
{
    let parts = map_strings_seq(data);
    lemma_newline_join_replaced(parts, ", "@);
    lemma_combined_empty(parts, ", "@);
    lemma_shown_empty(parts);
}

/// How much of a record a list shows.
#[derive(Debug, PartialEq, Eq, Structural, Clone, Copy)]
pub enum ListType {
    Full,
    Summary,
}

} // verus!

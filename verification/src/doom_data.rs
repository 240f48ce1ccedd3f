//! What the launcher knows about Doom: the engines it can recognise, the
//! commercial IWADs, and the file kinds that hold maps.

use vstd::prelude::*;
use crate::text::copy_str;

verus! {

pub const EXT_WAD: &'static str = "wad";
pub const EXT_PK3: &'static str = "pk3";
pub const EXT_PKE: &'static str = "pke";
pub const EXT_TXT: &'static str = "txt";

/// The first four bytes of an IWAD file.
pub const IWAD_IDENTIFIER: [u8; 4] = [73u8, 87u8, 65u8, 68u8];

/// The first four bytes of a PWAD file.
pub const PWAD_IDENTIFIER: [u8; 4] = [80u8, 87u8, 65u8, 68u8];

/// The family of a Doom engine.
#[derive(Debug, PartialEq, Eq, Structural, Clone, Copy)]
pub enum GameEngineType {
    GzDoom,
    PrBoomPlus,
    CrispyDoom,
    EternityEngine,
    DoomRetro,
    Woof,
    Unknown,
}

/// The operating systems the launcher runs on.
#[derive(Debug, PartialEq, Eq, Structural, Clone, Copy)]
pub enum OperatingSystem {
    Windows,
    Linux,
    MacOs,
}

/// The display name of an engine family.
pub open spec fn game_engine_type_text(t: GameEngineType) -> Seq<char> {
    match t {
        GameEngineType::GzDoom => "GZDoom"@,
        GameEngineType::PrBoomPlus => "PrBoom+"@,
        GameEngineType::CrispyDoom => "Crispy Doom"@,
        GameEngineType::EternityEngine => "Eternity Engine"@,
        GameEngineType::DoomRetro => "Doom Retro"@,
        GameEngineType::Woof => "Woof!"@,
        GameEngineType::Unknown => "Unknown"@,
    }
}

/// The display name of an engine family.
pub fn game_engine_type_name(t: GameEngineType) -> (s: String)
    ensures
        s@ == game_engine_type_text(t),
{
    match t {
        GameEngineType::GzDoom => copy_str("GZDoom"),
        GameEngineType::PrBoomPlus => copy_str("PrBoom+"),
        GameEngineType::CrispyDoom => copy_str("Crispy Doom"),
        GameEngineType::EternityEngine => copy_str("Eternity Engine"),
        GameEngineType::DoomRetro => copy_str("Doom Retro"),
        GameEngineType::Woof => copy_str("Woof!"),
        GameEngineType::Unknown => copy_str("Unknown"),
    }
}

/// The display name of an operating system.
pub open spec fn operating_system_text(os: OperatingSystem) -> Seq<char> {
    match os {
        OperatingSystem::Windows => "Windows"@,
        OperatingSystem::Linux => "Linux"@,
        OperatingSystem::MacOs => "MacOs"@,
    }
}

/// The operating system named by a `std::env::consts::OS` value, if it is one the
/// launcher supports.
pub open spec fn operating_system_of(os: Seq<char>) -> Option<OperatingSystem> {
    if os == crate::constants::OS_WINDOWS@ {
        Some(OperatingSystem::Windows)
    } else if os == crate::constants::OS_LINUX@ {
        Some(OperatingSystem::Linux)
    } else if os == crate::constants::OS_MACOS@ {
        Some(OperatingSystem::MacOs)
    } else {
        None
    }
}

/// The operating system named by a `std::env::consts::OS` value; `None` for one the
/// launcher does not support.
pub fn operating_system_from_name(os: &str) -> (r: Option<OperatingSystem>)
    ensures
        r == operating_system_of(os@),
{
    if crate::text::str_eq(os, crate::constants::OS_WINDOWS) {
        Some(OperatingSystem::Windows)
    } else if crate::text::str_eq(os, crate::constants::OS_LINUX) {
        Some(OperatingSystem::Linux)
    } else if crate::text::str_eq(os, crate::constants::OS_MACOS) {
        Some(OperatingSystem::MacOs)
    } else {
        None
    }
}

/// An engine executable the launcher can recognise by its file name.
#[derive(Clone, Debug)]
pub struct GameEngine {
    pub exe_name: String,
    pub internal_path: Option<String>,
    pub game_engine_type: GameEngineType,
    pub operating_system: OperatingSystem,
}

/// The content of a `GameEngine`.
pub struct GameEngineView {
    pub exe_name: Seq<char>,
    pub internal_path: Option<Seq<char>>,
    pub game_engine_type: GameEngineType,
    pub operating_system: OperatingSystem,
}

/// The text of an optional string.
pub open spec fn opt_view(o: Option<String>) -> Option<Seq<char>> {
    match o {
        Some(s) => Some(s@),
        None => None,
    }
}

impl View for GameEngine {
    type V = GameEngineView;

    open spec fn view(&self) -> GameEngineView {
        GameEngineView {
            exe_name: self.exe_name@,
            internal_path: opt_view(self.internal_path),
            game_engine_type: self.game_engine_type,
            operating_system: self.operating_system,
        }
    }
}

/// One known engine.
pub open spec fn known_engine(
    exe_name: Seq<char>,
    internal_path: Option<Seq<char>>,
    game_engine_type: GameEngineType,
    operating_system: OperatingSystem,
) -> GameEngineView {
    GameEngineView { exe_name, internal_path, game_engine_type, operating_system }
}

/// Every engine the launcher knows, on every operating system, in order.
pub open spec fn all_known_engines() -> Seq<GameEngineView> {
    seq![
        known_engine("gzdoom.exe"@, None, GameEngineType::GzDoom, OperatingSystem::Windows),
        known_engine("dsda-doom.exe"@, None, GameEngineType::PrBoomPlus, OperatingSystem::Windows),
        known_engine("crispy-doom.exe"@, None, GameEngineType::CrispyDoom, OperatingSystem::Windows),
        known_engine("eternity.exe"@, None, GameEngineType::EternityEngine, OperatingSystem::Windows),
        known_engine("doomretro.exe"@, None, GameEngineType::DoomRetro, OperatingSystem::Windows),
        known_engine("woof.exe"@, None, GameEngineType::Woof, OperatingSystem::Windows),
        known_engine(
            "gzdoom.app"@,
            Some("Contents/MacOS/gzdoom"@),
            GameEngineType::GzDoom,
            OperatingSystem::MacOs,
        ),
    ]
}

/// The known engines of one operating system, in the order of `all_known_engines`.
pub open spec fn engine_list_spec(os: OperatingSystem) -> Seq<GameEngineView> {
    match os {
        OperatingSystem::Windows => all_known_engines().take(6),
        OperatingSystem::Linux => Seq::empty(),
        OperatingSystem::MacOs => all_known_engines().skip(6),
    }
}

/// The contents of a list of engines.
pub open spec fn engines_view(v: Seq<GameEngine>) -> Seq<GameEngineView> {
    v.map_values(|e: GameEngine| e@)
}

fn make_engine(
    exe_name: &str,
    internal_path: Option<&str>,
    game_engine_type: GameEngineType,
    operating_system: OperatingSystem,
) -> (e: GameEngine)
    ensures
        e@ == known_engine(
            exe_name@,
            match internal_path {
                Some(p) => Some(p@),
                None => None,
            },
            game_engine_type,
            operating_system,
        ),
{
    GameEngine {
        exe_name: copy_str(exe_name),
        internal_path: match internal_path {
            Some(p) => Some(copy_str(p)),
            None => None,
        },
        game_engine_type,
        operating_system,
    }
}

/// The engines the launcher can recognise on the given operating system.
pub fn get_engine_list(operating_system: OperatingSystem) -> (r: Vec<GameEngine>)
    ensures
        engines_view(r@) == engine_list_spec(operating_system),
{
    let mut result: Vec<GameEngine> = Vec::new();
    match operating_system {
        OperatingSystem::Windows => {
            result.push(make_engine("gzdoom.exe", None, GameEngineType::GzDoom, OperatingSystem::Windows));
            result.push(make_engine("dsda-doom.exe", None, GameEngineType::PrBoomPlus, OperatingSystem::Windows));
            result.push(make_engine("crispy-doom.exe", None, GameEngineType::CrispyDoom, OperatingSystem::Windows));
            result.push(make_engine("eternity.exe", None, GameEngineType::EternityEngine, OperatingSystem::Windows));
            result.push(make_engine("doomretro.exe", None, GameEngineType::DoomRetro, OperatingSystem::Windows));
            result.push(make_engine("woof.exe", None, GameEngineType::Woof, OperatingSystem::Windows));
        },
        OperatingSystem::Linux => {},
        OperatingSystem::MacOs => {
            result.push(
                make_engine(
                    "gzdoom.app",
                    Some("Contents/MacOS/gzdoom"),
                    GameEngineType::GzDoom,
                    OperatingSystem::MacOs,
                ),
            );
        },
    }
    assert(engines_view(result@) =~= engine_list_spec(operating_system));
    result
}

/// Every engine `get_engine_list` offers runs on the operating system it was asked for,
/// and every engine known for that operating system is offered.
pub proof fn law_engine_list_matches_os(os: OperatingSystem)
    ensures
        forall|i: int|
            0 <= i < engine_list_spec(os).len() ==> (#[trigger] engine_list_spec(os)[i]).operating_system
                == os,
        forall|i: int|
            0 <= i < all_known_engines().len() && (#[trigger] all_known_engines()[i]).operating_system
                == os ==> engine_list_spec(os).contains(all_known_engines()[i]),
{
    let all = all_known_engines();
    assert forall|i: int|
        0 <= i < all.len() && (#[trigger] all[i]).operating_system == os implies engine_list_spec(
        os,
    ).contains(all[i]) by {
        match os {
            OperatingSystem::Windows => {
                assert(engine_list_spec(os)[i] == all[i]);
            },
            OperatingSystem::Linux => {},
            OperatingSystem::MacOs => {
                assert(i == 6);
                assert(engine_list_spec(os)[0] == all[i]);
            },
        }
    }
}

/// The commercial and shareware game data files.
#[derive(Debug, PartialEq, Eq, Structural, Clone, Copy)]
pub enum InternalWadType {
    Doom,
    DoomShareware,
    Doom2,
    Tnt,
    Plutonia,
    Heretic,
    HereticShareware,
    Hexen,
    HexenDeathkings,
    StrifeTeaser,
    Strife,
    StrifeVoices,
    Unknown,
}

/// The display name of an IWAD.
pub open spec fn internal_wad_type_text(t: InternalWadType) -> Seq<char> {
    match t {
        InternalWadType::Doom => "Doom"@,
        InternalWadType::DoomShareware => "Doom Shareware"@,
        InternalWadType::Doom2 => "Doom II"@,
        InternalWadType::Tnt => "TNT: Evilution (Final Doom)"@,
        InternalWadType::Plutonia => "The Plutonia Experiment (Final Doom)"@,
        InternalWadType::Heretic => "Heretic"@,
        InternalWadType::HereticShareware => "Heretic Shareware"@,
        InternalWadType::Hexen => "Hexen"@,
        InternalWadType::HexenDeathkings => "Hexen: Deathkings of the Dark Citadel"@,
        InternalWadType::StrifeTeaser => "Strife Teaser"@,
        InternalWadType::Strife => "Strife"@,
        InternalWadType::StrifeVoices => "Strife Voices"@,
        InternalWadType::Unknown => "Unknown"@,
    }
}

/// The display name of an IWAD.
pub fn internal_wad_type_name(t: InternalWadType) -> (s: String)
    ensures
        s@ == internal_wad_type_text(t),
{
    match t {
        InternalWadType::Doom => copy_str("Doom"),
        InternalWadType::DoomShareware => copy_str("Doom Shareware"),
        InternalWadType::Doom2 => copy_str("Doom II"),
        InternalWadType::Tnt => copy_str("TNT: Evilution (Final Doom)"),
        InternalWadType::Plutonia => copy_str("The Plutonia Experiment (Final Doom)"),
        InternalWadType::Heretic => copy_str("Heretic"),
        InternalWadType::HereticShareware => copy_str("Heretic Shareware"),
        InternalWadType::Hexen => copy_str("Hexen"),
        InternalWadType::HexenDeathkings => copy_str("Hexen: Deathkings of the Dark Citadel"),
        InternalWadType::StrifeTeaser => copy_str("Strife Teaser"),
        InternalWadType::Strife => copy_str("Strife"),
        InternalWadType::StrifeVoices => copy_str("Strife Voices"),
        InternalWadType::Unknown => copy_str("Unknown"),
    }
}

/// An IWAD the launcher can recognise by its file name.
#[derive(Clone, Debug)]
pub struct InternalWad {
    pub file_name: String,
    pub name: String,
    pub internal_wad_type: InternalWadType,
}

/// The known IWADs: file name and kind, in order.
pub open spec fn known_iwads() -> Seq<(Seq<char>, InternalWadType)> {
    seq![
        ("DOOM1.WAD"@, InternalWadType::DoomShareware),
        ("DOOM.WAD"@, InternalWadType::Doom),
        ("DOOM2.WAD"@, InternalWadType::Doom2),
        ("TNT.WAD"@, InternalWadType::Tnt),
        ("PLUTONIA.WAD"@, InternalWadType::Plutonia),
        ("HERETIC1.WAD"@, InternalWadType::HereticShareware),
        ("HERETIC.WAD"@, InternalWadType::Heretic),
        ("HEXEN.WAD"@, InternalWadType::Hexen),
        ("HEXDD.WAD"@, InternalWadType::HexenDeathkings),
        ("STRIFE0.WAD"@, InternalWadType::StrifeTeaser),
        ("STRIFE1.WAD"@, InternalWadType::Strife),
        ("VOICES.WAD"@, InternalWadType::StrifeVoices),
    ]
}

/// A list of IWADs holds exactly the known IWADs, in order, each named after its kind.
pub open spec fn is_internal_wad_list(v: Seq<InternalWad>) -> bool {
    &&& v.len() == known_iwads().len()
    &&& forall|i: int|
        0 <= i < v.len() ==> {
            &&& (#[trigger] v[i]).file_name@ == known_iwads()[i].0
            &&& v[i].internal_wad_type == known_iwads()[i].1
            &&& v[i].name@ == internal_wad_type_text(known_iwads()[i].1)
        }
}

fn make_iwad(file_name: &str, internal_wad_type: InternalWadType) -> (w: InternalWad)
    ensures
        w.file_name@ == file_name@,
        w.internal_wad_type == internal_wad_type,
        w.name@ == internal_wad_type_text(internal_wad_type),
{
    InternalWad {
        file_name: copy_str(file_name),
        name: internal_wad_type_name(internal_wad_type),
        internal_wad_type,
    }
}

/// The IWADs the launcher can recognise, each named after its kind.
pub fn get_internal_wad_list() -> (r: Vec<InternalWad>)
    ensures
        is_internal_wad_list(r@),
{
    let mut r: Vec<InternalWad> = Vec::new();
    r.push(make_iwad("DOOM1.WAD", InternalWadType::DoomShareware));
    r.push(make_iwad("DOOM.WAD", InternalWadType::Doom));
    r.push(make_iwad("DOOM2.WAD", InternalWadType::Doom2));
    r.push(make_iwad("TNT.WAD", InternalWadType::Tnt));
    r.push(make_iwad("PLUTONIA.WAD", InternalWadType::Plutonia));
    r.push(make_iwad("HERETIC1.WAD", InternalWadType::HereticShareware));
    r.push(make_iwad("HERETIC.WAD", InternalWadType::Heretic));
    r.push(make_iwad("HEXEN.WAD", InternalWadType::Hexen));
    r.push(make_iwad("HEXDD.WAD", InternalWadType::HexenDeathkings));
    r.push(make_iwad("STRIFE0.WAD", InternalWadType::StrifeTeaser));
    r.push(make_iwad("STRIFE1.WAD", InternalWadType::Strife));
    r.push(make_iwad("VOICES.WAD", InternalWadType::StrifeVoices));
    r
}

} // verus!

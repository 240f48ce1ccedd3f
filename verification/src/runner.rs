//! What is launched to play a profile or to open a map in an editor: the program,
//! its arguments, and the message shown for it.

use vstd::prelude::*;
use crate::data::{play_settings_cleared, comp_level_name, comp_level_text, AppSettings, Editor, Engine, Iwad, MapIds, MapRecord, PlaySettings, Profile};
use crate::db::{
    engine_has_id, first_match, get_engine_by_id, get_iwad_by_id, get_map_by_id,
    get_profile_by_id, id_error, iwad_has_id, map_has_id, profile_has_id,
};
use crate::paths::{full_path_spec, get_full_path};
use crate::text::{
    concat2, concat3, contains_string, copy_str, decimal, double_backslashes,
    escape_backslashes, join_strings, joined, split_whitespace, string_seq, u64_to_string, words,
};
use crate::tui::{blue, fg_text, magenta};

verus! {

// ---------------------------------------------------------------------------
// Splitting arguments
// ---------------------------------------------------------------------------

/// What `shlex::split` returns for a text: the words of a POSIX shell command line, or
/// none when the text is not one (an unclosed quote, a trailing backslash).
pub uninterp spec fn shlex_split_result(s: Seq<char>) -> Option<Seq<Seq<char>>>;

/// `shlex::split`: splits a text into words the way a POSIX shell does; `None` when the
/// text has an unclosed quote or ends in a backslash. Its result is named
/// `shlex_split_result`.
#[verifier::external_body]
fn shlex_split(s: &str) -> (r: Option<Vec<String>>)
    ensures
        match r {
            Some(v) => shlex_split_result(s@) == Some(string_seq(v@)),
            None => shlex_split_result(s@) is None,
        },
{
    shlex::split(s)
}

/// The arguments a text of additional arguments comes to: its backslashes doubled, then
/// split like a shell command line; nothing when it does not split.
pub open spec fn extra_args(additional: Option<Seq<char>>) -> Seq<Seq<char>> {
    match additional {
        None => Seq::empty(),
        Some(a) => match shlex_split_result(double_backslashes(a)) {
            Some(v) => v,
            None => Seq::empty(),
        },
    }
}

/// Appends the arguments of a text of additional arguments.
pub fn add_arguments_to_command(args: &mut Vec<String>, additional_arguments: &Option<String>)
    ensures
        string_seq(final(args)@) == string_seq(old(args)@) + extra_args(
            match additional_arguments {
                Some(a) => Some(a@),
                None => None,
            },
        ),
{
    match additional_arguments {
        Some(a) => {
            let escaped = escape_backslashes(a.as_str());
            match shlex_split(escaped.as_str()) {
                Some(v) => append_strings(args, &v),
                None => {
                    assert(string_seq(args@) + Seq::<Seq<char>>::empty() =~= string_seq(args@));
                },
            }
        },
        None => {
            assert(string_seq(args@) + Seq::<Seq<char>>::empty() =~= string_seq(args@));
        },
    }
}

/// Appends copies of `more` to `args`.
pub fn append_strings(args: &mut Vec<String>, more: &Vec<String>)
    ensures
        string_seq(final(args)@) == string_seq(old(args)@) + string_seq(more@),
{
    let ghost start = string_seq(args@);
    let mut i: usize = 0;
    while i < more.len()
        invariant
            i <= more@.len(),
            string_seq(args@) == start + string_seq(more@.take(i as int)),
        decreases more.len() - i,
    {
        let ghost before = string_seq(args@);
        args.push(more[i].clone());
        assert(string_seq(args@) =~= before.push(more@[i as int]@));
        assert(string_seq(more@.take(i + 1)) =~= string_seq(more@.take(i as int)).push(
            more@[i as int]@,
        ));
        i = i + 1;
    }
    assert(more@.take(more@.len() as int) =~= more@);
}

fn push_str(args: &mut Vec<String>, s: &str)
    ensures
        string_seq(final(args)@) == string_seq(old(args)@).push(s@),
{
    let ghost before = string_seq(args@);
    args.push(copy_str(s));
    assert(string_seq(args@) =~= before.push(s@));
}

// ---------------------------------------------------------------------------
// Playing
// ---------------------------------------------------------------------------

/// A program to start and the arguments to start it with.
pub struct LaunchCommand {
    pub program: String,
    pub args: Vec<String>,
}

/// The file an engine is started from: its path, with its internal path (the
/// executable inside a macOS application bundle) joined on when it has one.
pub open spec fn engine_launch_path_spec(e: Engine) -> Seq<char> {
    match e.internal_path {
        Some(p) => full_path_spec(e.path@, p@),
        None => e.path@,
    }
}

/// The file an engine is started from.
pub fn engine_launch_path(engine: &Engine) -> (r: String)
    ensures
        r@ == engine_launch_path_spec(*engine),
{
    match &engine.internal_path {
        Some(p) => get_full_path(engine.path.as_str(), p.as_str()),
        None => engine.path.clone(),
    }
}

/// Whether a file is among those known to exist.
pub open spec fn file_known(existing: Seq<String>, path: Seq<char>) -> bool {
    exists|j: int| 0 <= j < existing.len() && (#[trigger] existing[j])@ == path
}

/// The `-file` arguments of the maps with the given ids (0 skipped), in order: each map
/// is looked up and has to exist; the first failure gives its message.
pub open spec fn map_file_args(maps: Seq<MapRecord>, ids: Seq<i32>, existing: Seq<String>) -> Result<
    Seq<Seq<char>>,
    Seq<char>,
>
    decreases ids.len(),
{
    if ids.len() == 0 {
        Ok(Seq::empty())
    } else if ids[0] == 0 {
        map_file_args(maps, ids.drop_first(), existing)
    } else {
        match first_match(maps, map_has_id(ids[0])) {
            None => Err(id_error("Failed to get map with id '"@, ids[0])),
            Some(m) => if !file_known(existing, m.path@) {
                Err("Play aborted, Map not found - '"@ + m.path@ + "'"@)
            } else {
                match map_file_args(maps, ids.drop_first(), existing) {
                    Ok(rest) => Ok(seq![m.path@] + rest),
                    Err(e) => Err(e),
                }
            },
        }
    }
}

/// A flag followed by a value.
pub open spec fn flag_value(flag: Seq<char>, value: Option<Seq<char>>) -> Seq<Seq<char>> {
    match value {
        Some(v) => seq![flag, v],
        None => Seq::empty(),
    }
}

/// A flag that is there when `on` holds.
pub open spec fn flag_if(flag: Seq<char>, on: bool) -> Seq<Seq<char>> {
    if on {
        seq![flag]
    } else {
        Seq::empty()
    }
}

/// An optional number as text.
pub open spec fn number_text(n: Option<nat>) -> Option<Seq<char>> {
    match n {
        Some(n) => Some(decimal(n)),
        None => None,
    }
}

/// The compatibility level and config file arguments.
pub open spec fn play_settings_head(p: PlaySettings) -> Seq<Seq<char>> {
    flag_value(
        "-complevel"@,
        match p.comp_level {
            Some(c) => Some(comp_level_text(c)),
            None => None,
        },
    ) + flag_value(
        "-config"@,
        match p.config_file {
            Some(f) => Some(f@),
            None => None,
        },
    )
}

/// The monster flags.
pub open spec fn play_settings_flags(p: PlaySettings) -> Seq<Seq<char>> {
    flag_if("-fast"@, p.fast_monsters) + flag_if("-nomonsters"@, p.no_monsters) + flag_if(
        "-respawn"@,
        p.respawn_monsters,
    )
}

/// The warp arguments: `-warp` and the words of the warp setting.
pub open spec fn play_settings_warp(p: PlaySettings) -> Seq<Seq<char>> {
    match p.warp {
        Some(w) => seq!["-warp"@] + words(w@),
        None => Seq::empty(),
    }
}

/// The numeric settings.
pub open spec fn play_settings_numbers(p: PlaySettings) -> Seq<Seq<char>> {
    flag_value(
        "-skill"@,
        number_text(
            match p.skill {
                Some(v) => Some(v as nat),
                None => None,
            },
        ),
    ) + flag_value(
        "-turbo"@,
        number_text(
            match p.turbo {
                Some(v) => Some(v as nat),
                None => None,
            },
        ),
    ) + flag_value(
        "-timer"@,
        number_text(
            match p.timer {
                Some(v) => Some(v as nat),
                None => None,
            },
        ),
    ) + flag_value(
        "-width"@,
        number_text(
            match p.width {
                Some(v) => Some(v as nat),
                None => None,
            },
        ),
    ) + flag_value(
        "-height"@,
        number_text(
            match p.height {
                Some(v) => Some(v as nat),
                None => None,
            },
        ),
    )
}

/// The screen flags and the settings' additional arguments.
pub open spec fn play_settings_tail(p: PlaySettings) -> Seq<Seq<char>> {
    flag_if("-fullscreen"@, p.full_screen) + flag_if("-window"@, p.windowed) + extra_args(
        match p.additional_arguments {
            Some(a) => Some(a@),
            None => None,
        },
    )
}

/// The arguments the play settings add, in order.
pub open spec fn play_settings_args(p: PlaySettings) -> Seq<Seq<char>> {
    play_settings_head(p) + play_settings_flags(p) + play_settings_warp(p)
        + play_settings_numbers(p) + play_settings_tail(p)
}

/// What playing an engine, an IWAD and maps comes to: the engine's file and the
/// arguments, or the message of the first lookup or existence check that fails.
pub open spec fn play_spec(
    engines: Seq<Engine>,
    iwads: Seq<Iwad>,
    maps: Seq<MapRecord>,
    engine_id: i32,
    iwad_id: i32,
    map_ids: MapIds,
    additional_arguments: Option<Seq<char>>,
    play_settings: PlaySettings,
    existing: Seq<String>,
) -> Result<(Seq<char>, Seq<Seq<char>>), Seq<char>> {
    match first_match(engines, engine_has_id(engine_id)) {
        None => Err(id_error("Failed to get engine with id '"@, engine_id)),
        Some(engine) => match first_match(iwads, iwad_has_id(iwad_id)) {
            None => Err(id_error("Failed to get internal wad with id '"@, iwad_id)),
            Some(iwad) => {
                let program = engine_launch_path_spec(engine);
                if !file_known(existing, program) {
                    Err("Play aborted, Engine not found - '"@ + program + "'"@)
                } else if !file_known(existing, iwad.path@) {
                    Err("Play aborted, IWAD not found - '"@ + iwad.path@ + "'"@)
                } else {
                    let files = if map_ids.0 != 0 {
                        match map_file_args(
                            maps,
                            seq![map_ids.0, map_ids.1, map_ids.2, map_ids.3, map_ids.4],
                            existing,
                        ) {
                            Ok(paths) => Ok(seq!["-file"@] + paths),
                            Err(e) => Err(e),
                        }
                    } else {
                        Ok(Seq::empty())
                    };
                    match files {
                        Err(e) => Err(e),
                        Ok(files) => Ok(
                            (
                                program,
                                seq!["-iwad"@, iwad.path@] + files + extra_args(
                                    additional_arguments,
                                ) + play_settings_args(play_settings),
                            ),
                        ),
                    }
                }
            },
        },
    }
}

fn map_args(
    args: &mut Vec<String>,
    maps: &Vec<MapRecord>,
    map_ids: MapIds,
    existing_files: &Vec<String>,
) -> (r: Result<(), String>)
    ensures
        match map_file_args(
            maps@,
            seq![map_ids.0, map_ids.1, map_ids.2, map_ids.3, map_ids.4],
            existing_files@,
        ) {
            Ok(paths) => r is Ok && string_seq(final(args)@) == string_seq(old(args)@) + paths,
            Err(e) => r matches Err(m) && m@ == e,
        },
{
    let ids: [i32; 5] = [map_ids.0, map_ids.1, map_ids.2, map_ids.3, map_ids.4];
    let ghost all = seq![map_ids.0, map_ids.1, map_ids.2, map_ids.3, map_ids.4];
    assert(ids@ =~= all);
    let ghost start = string_seq(args@);
    let mut i: usize = 0;
    assert(all.skip(0) =~= all);
    while i < 5
        invariant
            i <= 5,
            ids@ == all,
            all == seq![map_ids.0, map_ids.1, map_ids.2, map_ids.3, map_ids.4],
            map_file_args(maps@, all, existing_files@) == match map_file_args(
                maps@,
                all.skip(i as int),
                existing_files@,
            ) {
                Ok(rest) => Ok::<Seq<Seq<char>>, Seq<char>>(
                    string_seq(args@).skip(start.len() as int) + rest,
                ),
                Err(e) => Err::<Seq<Seq<char>>, Seq<char>>(e),
            },
            string_seq(args@).take(start.len() as int) == start,
            string_seq(args@).len() >= start.len(),
        decreases 5 - i,
    {
        let id = ids[i];
        let ghost tail = all.skip(i as int);
        assert(tail.drop_first() =~= all.skip(i + 1));
        assert(tail[0] == id);
        if id != 0 {
            let m = match get_map_by_id(maps, id) {
                Ok(m) => m,
                Err(e) => return Err(e),
            };
            if !contains_string(existing_files, m.path.as_str()) {
                return Err(concat3("Play aborted, Map not found - '", m.path.as_str(), "'"));
            }
            let ghost before = string_seq(args@);
            args.push(m.path.clone());
            proof {
                assert(string_seq(args@) =~= before.push(m.path@));
                assert(string_seq(args@).take(start.len() as int) =~= before.take(
                    start.len() as int,
                ));
                assert(string_seq(args@).skip(start.len() as int) =~= before.skip(
                    start.len() as int,
                ).push(m.path@));
                match map_file_args(maps@, all.skip(i + 1), existing_files@) {
                    Ok(rest) => {
                        assert(before.skip(start.len() as int) + (seq![m.path@] + rest)
                            =~= before.skip(start.len() as int).push(m.path@) + rest);
                    },
                    Err(_) => {},
                }
            }
        }
        i = i + 1;
    }
    proof {
        assert(all.skip(5) =~= Seq::<i32>::empty());
        assert(string_seq(args@) =~= string_seq(args@).take(start.len() as int) + string_seq(
            args@,
        ).skip(start.len() as int));
        assert(string_seq(args@).skip(start.len() as int) + Seq::<Seq<char>>::empty()
            =~= string_seq(args@).skip(start.len() as int));
    }
    Ok(())
}

fn flag_number(args: &mut Vec<String>, flag: &str, value: Option<u64>)
    ensures
        string_seq(final(args)@) == string_seq(old(args)@) + flag_value(
            flag@,
            number_text(
                match value {
                    Some(v) => Some(v as nat),
                    None => None,
                },
            ),
        ),
{
    match value {
        Some(v) => {
            let ghost before = string_seq(args@);
            push_str(args, flag);
            let t = u64_to_string(v);
            let ghost mid = string_seq(args@);
            args.push(t);
            assert(string_seq(args@) =~= mid.push(decimal(v as nat)));
            assert(string_seq(args@) =~= before + seq![flag@, decimal(v as nat)]);
        },
        None => {
            assert(string_seq(args@) + Seq::<Seq<char>>::empty() =~= string_seq(args@));
        },
    }
}

fn flag_when(args: &mut Vec<String>, flag: &str, on: bool)
    ensures
        string_seq(final(args)@) == string_seq(old(args)@) + flag_if(flag@, on),
{
    if on {
        let ghost before = string_seq(args@);
        push_str(args, flag);
        assert(string_seq(args@) =~= before + seq![flag@]);
    } else {
        assert(string_seq(args@) + Seq::<Seq<char>>::empty() =~= string_seq(args@));
    }
}

fn play_settings_head_args(args: &mut Vec<String>, p: &PlaySettings)
    ensures
        string_seq(final(args)@) == string_seq(old(args)@) + play_settings_head(*p),
{
    let ghost start = string_seq(args@);
    match p.comp_level {
        Some(c) => {
            push_str(args, "-complevel");
            let t = comp_level_name(c);
            let ghost before = string_seq(args@);
            args.push(t);
            assert(string_seq(args@) =~= before.push(comp_level_text(c)));
        },
        None => {},
    }
    let ghost s1 = string_seq(args@);
    match &p.config_file {
        Some(f) => {
            push_str(args, "-config");
            push_str(args, f.as_str());
        },
        None => {},
    }
    assert(string_seq(args@) =~= start + play_settings_head(*p));
}

fn play_settings_flag_args(args: &mut Vec<String>, p: &PlaySettings)
    ensures
        string_seq(final(args)@) == string_seq(old(args)@) + play_settings_flags(*p),
{
    let ghost start = string_seq(args@);
    flag_when(args, "-fast", p.fast_monsters);
    flag_when(args, "-nomonsters", p.no_monsters);
    flag_when(args, "-respawn", p.respawn_monsters);
    assert(string_seq(args@) =~= start + play_settings_flags(*p));
}

fn play_settings_warp_args(args: &mut Vec<String>, p: &PlaySettings)
    ensures
        string_seq(final(args)@) == string_seq(old(args)@) + play_settings_warp(*p),
{
    let ghost start = string_seq(args@);
    match &p.warp {
        Some(w) => {
            push_str(args, "-warp");
            let ws = split_whitespace(w.as_str());
            append_strings(args, &ws);
        },
        None => {},
    }
    assert(string_seq(args@) =~= start + play_settings_warp(*p));
}

fn play_settings_number_args(args: &mut Vec<String>, p: &PlaySettings)
    ensures
        string_seq(final(args)@) == string_seq(old(args)@) + play_settings_numbers(*p),
{
    let ghost start = string_seq(args@);
    flag_number(
        args,
        "-skill",
        match p.skill {
            Some(v) => Some(v as u64),
            None => None,
        },
    );
    flag_number(
        args,
        "-turbo",
        match p.turbo {
            Some(v) => Some(v as u64),
            None => None,
        },
    );
    flag_number(
        args,
        "-timer",
        match p.timer {
            Some(v) => Some(v as u64),
            None => None,
        },
    );
    flag_number(
        args,
        "-width",
        match p.width {
            Some(v) => Some(v as u64),
            None => None,
        },
    );
    flag_number(
        args,
        "-height",
        match p.height {
            Some(v) => Some(v as u64),
            None => None,
        },
    );
    assert(string_seq(args@) =~= start + play_settings_numbers(*p));
}

fn play_settings_tail_args(args: &mut Vec<String>, p: &PlaySettings)
    ensures
        string_seq(final(args)@) == string_seq(old(args)@) + play_settings_tail(*p),
{
    let ghost start = string_seq(args@);
    flag_when(args, "-fullscreen", p.full_screen);
    flag_when(args, "-window", p.windowed);
    add_arguments_to_command(args, &p.additional_arguments);
    assert(string_seq(args@) =~= start + play_settings_tail(*p));
}

fn play_settings_arguments(args: &mut Vec<String>, p: &PlaySettings)
    ensures
        string_seq(final(args)@) == string_seq(old(args)@) + play_settings_args(*p),
{
    let ghost start = string_seq(args@);
    play_settings_head_args(args, p);
    play_settings_flag_args(args, p);
    play_settings_warp_args(args, p);
    play_settings_number_args(args, p);
    play_settings_tail_args(args, p);
    assert(string_seq(args@) =~= start + play_settings_args(*p));
}

/// The command that plays an engine with an IWAD and maps, with the play settings.
/// `existing_files` lists the files known to exist; the engine's file, the IWAD and
/// each map have to be among them.
pub fn play_from_engine_iwad_and_map(
    engines: &Vec<Engine>,
    iwads: &Vec<Iwad>,
    maps: &Vec<MapRecord>,
    engine_id: i32,
    iwad_id: i32,
    map_ids: MapIds,
    additional_arguments: &Option<String>,
    play_settings: &PlaySettings,
    existing_files: &Vec<String>,
) -> (r: Result<LaunchCommand, String>)
    ensures
        match play_spec(
            engines@,
            iwads@,
            maps@,
            engine_id,
            iwad_id,
            map_ids,
            match additional_arguments {
                Some(a) => Some(a@),
                None => None,
            },
            *play_settings,
            existing_files@,
        ) {
            Ok((program, args)) => r matches Ok(c) && c.program@ == program && string_seq(
                c.args@,
            ) == args,
            Err(e) => r matches Err(m) && m@ == e,
        },
{
    let engine = match get_engine_by_id(engines, engine_id) {
        Ok(e) => e,
        Err(e) => return Err(e),
    };
    let iwad = match get_iwad_by_id(iwads, iwad_id) {
        Ok(w) => w,
        Err(e) => return Err(e),
    };
    let program = engine_launch_path(&engine);
    if !contains_string(existing_files, program.as_str()) {
        return Err(concat3("Play aborted, Engine not found - '", program.as_str(), "'"));
    }
    if !contains_string(existing_files, iwad.path.as_str()) {
        return Err(concat3("Play aborted, IWAD not found - '", iwad.path.as_str(), "'"));
    }
    let mut args: Vec<String> = Vec::new();
    push_str(&mut args, "-iwad");
    push_str(&mut args, iwad.path.as_str());
    let ghost head = string_seq(args@);
    assert(head =~= seq!["-iwad"@, iwad.path@]);
    if map_ids.0 != 0 {
        push_str(&mut args, "-file");
        match map_args(&mut args, maps, map_ids, existing_files) {
            Ok(()) => {},
            Err(e) => return Err(e),
        }
    }
    let ghost with_files = string_seq(args@);
    add_arguments_to_command(&mut args, additional_arguments);
    let ghost with_extra = string_seq(args@);
    play_settings_arguments(&mut args, play_settings);
    proof {
        if map_ids.0 != 0 {
            let paths = map_file_args(
                maps@,
                seq![map_ids.0, map_ids.1, map_ids.2, map_ids.3, map_ids.4],
                existing_files@,
            )->Ok_0;
            assert(with_files =~= head + (seq!["-file"@] + paths));
        } else {
            assert(with_files =~= head + Seq::<Seq<char>>::empty());
        }
    }
    Ok(LaunchCommand { program, args })
}

/// What playing a profile comes to: the profile is looked up, then its engine, IWAD
/// and maps are played with its additional arguments.
pub open spec fn play_profile_spec(
    profiles: Seq<Profile>,
    engines: Seq<Engine>,
    iwads: Seq<Iwad>,
    maps: Seq<MapRecord>,
    profile_id: i32,
    play_settings: PlaySettings,
    existing: Seq<String>,
) -> Result<(Seq<char>, Seq<Seq<char>>), Seq<char>> {
    match first_match(profiles, profile_has_id(profile_id)) {
        None => Err(id_error("Failed to get profile with id '"@, profile_id)),
        Some(p) => play_spec(
            engines,
            iwads,
            maps,
            p.engine_id->0,
            p.iwad_id->0,
            (
                crate::data::id_or_zero(p.map_id),
                crate::data::id_or_zero(p.map_id2),
                crate::data::id_or_zero(p.map_id3),
                crate::data::id_or_zero(p.map_id4),
                crate::data::id_or_zero(p.map_id5),
            ),
            match p.additional_arguments {
                Some(a) => Some(a@),
                None => None,
            },
            play_settings,
            existing,
        ),
    }
}

/// The command that plays a profile. A profile to play has an engine and an IWAD.
pub fn play_from_profile(
    profiles: &Vec<Profile>,
    engines: &Vec<Engine>,
    iwads: &Vec<Iwad>,
    maps: &Vec<MapRecord>,
    profile_id: i32,
    play_settings: &PlaySettings,
    existing_files: &Vec<String>,
) -> (r: Result<LaunchCommand, String>)
    requires
        first_match(profiles@, profile_has_id(profile_id)) matches Some(p) ==> p.engine_id is Some
            && p.iwad_id is Some,
    ensures
        match play_profile_spec(
            profiles@,
            engines@,
            iwads@,
            maps@,
            profile_id,
            *play_settings,
            existing_files@,
        ) {
            Ok((program, args)) => r matches Ok(c) && c.program@ == program && string_seq(
                c.args@,
            ) == args,
            Err(e) => r matches Err(m) && m@ == e,
        },
{
    let profile = match get_profile_by_id(profiles, profile_id) {
        Ok(p) => p,
        Err(e) => return Err(e),
    };
    let engine_id = profile.engine_id.unwrap();
    let iwad_id = profile.iwad_id.unwrap();
    let map_ids = crate::data::map_ids_from_options(
        profile.map_id,
        profile.map_id2,
        profile.map_id3,
        profile.map_id4,
        profile.map_id5,
    );
    play_from_engine_iwad_and_map(
        engines,
        iwads,
        maps,
        engine_id,
        iwad_id,
        map_ids,
        &profile.additional_arguments,
        play_settings,
        existing_files,
    )
}

/// Records a profile as the last one played, when asked to.
pub fn record_last_profile(app_settings: &mut AppSettings, profile_id: i32, update_last_profile: bool)
    ensures
        update_last_profile ==> *final(app_settings) == (AppSettings {
            last_profile_id: Some(profile_id),
            ..*old(app_settings)
        }),
        !update_last_profile ==> *final(app_settings) == *old(app_settings),
{
    if update_last_profile {
        app_settings.last_profile_id = Some(profile_id);
    }
}

/// `<what> '<program>', Args '<arguments>'`, the program in magenta and the
/// arguments, joined by spaces, in blue.
pub open spec fn run_message_spec(what: Seq<char>, program: Seq<char>, args: Seq<Seq<char>>) -> Seq<
    char,
> {
    what + " '"@ + fg_text(seq!['3', '5'], program) + "', Args '"@ + fg_text(
        seq!['3', '4'],
        joined(args, " "@),
    ) + "'"@
}

/// The message that describes a launch.
pub fn run_message(what: &str, command: &LaunchCommand) -> (r: String)
    ensures
        r@ == run_message_spec(what@, command.program@, string_seq(command.args@)),
{
    let p = magenta(command.program.as_str());
    let joined_args = join_strings(&command.args, " ");
    let a = blue(joined_args.as_str());
    let mut r = concat3(what, " '", p.as_str());
    r.append("', Args '");
    r.append(a.as_str());
    r.append("'");
    r
}

// ---------------------------------------------------------------------------
// Editing
// ---------------------------------------------------------------------------

/// The arguments that open a map in an editor: the editor's load-file argument if it
/// has one, the map, then its additional arguments split like a shell command line.
pub open spec fn editor_args_spec(map_path: Seq<char>, e: Editor) -> Seq<Seq<char>> {
    (match e.load_file_argument {
        Some(a) => seq![a@],
        None => Seq::empty(),
    }) + seq![map_path] + match e.additional_arguments {
        Some(a) => match shlex_split_result(a@) {
            Some(v) => v,
            None => Seq::empty(),
        },
        None => Seq::empty(),
    }
}

/// The command that opens a map in an editor.
pub fn editor(map_path: &str, editor_record: &Editor) -> (r: LaunchCommand)
    ensures
        r.program@ == editor_record.path@,
        string_seq(r.args@) == editor_args_spec(map_path@, *editor_record),
{
    let mut args: Vec<String> = Vec::new();
    match &editor_record.load_file_argument {
        Some(a) => push_str(&mut args, a.as_str()),
        None => {},
    }
    push_str(&mut args, map_path);
    let ghost head = string_seq(args@);
    match &editor_record.additional_arguments {
        Some(a) => match shlex_split(a.as_str()) {
            Some(v) => append_strings(&mut args, &v),
            None => {},
        },
        None => {},
    }
    proof {
        assert(string_seq(args@) =~= editor_args_spec(map_path@, *editor_record));
    }
    LaunchCommand { program: editor_record.path.clone(), args }
}

/// The message after a map's readme was opened, or when it has none.
pub fn open_map_readme_message(map_path: &str, readme_file_name: &Option<String>) -> (r: String)
    ensures
        readme_file_name matches Some(f) ==> r@ == "Opened Map Readme for Map - '"@ + fg_text(
            seq!['3', '5'],
            f@,
        ) + "' / '"@ + fg_text(seq!['3', '4'], map_path@) + "'"@,
        readme_file_name is None ==> r@ == "No Map Readme found for Map - '"@ + map_path@ + "'"@,
{
    match readme_file_name {
        Some(f) => {
            let a = magenta(f.as_str());
            let b = blue(map_path);
            let mut r = concat3("Opened Map Readme for Map - '", a.as_str(), "' / '");
            r.append(b.as_str());
            r.append("'");
            r
        },
        None => concat3("No Map Readme found for Map - '", map_path, "'"),
    }
}


// ---------------------------------------------------------------------------
// Laws
// ---------------------------------------------------------------------------

/// Play settings that were reset add no argument to a launch: after a reset, a game is
/// started with the IWAD, the maps and the profile's own arguments only.
pub proof fn law_reset_play_settings_add_no_arguments(p: PlaySettings)
    requires
        play_settings_cleared(p),
    ensures
        play_settings_args(p) == Seq::<Seq<char>>::empty(),
{
    assert(play_settings_head(p) =~= Seq::<Seq<char>>::empty());
    assert(play_settings_flags(p) =~= Seq::<Seq<char>>::empty());
    assert(play_settings_numbers(p) =~= Seq::<Seq<char>>::empty());
    assert(play_settings_tail(p) =~= Seq::<Seq<char>>::empty());
    assert(play_settings_args(p) =~= Seq::<Seq<char>>::empty());
}

/// Every launch of a game names its IWAD first: the arguments start with `-iwad` and
/// the IWAD's path.
pub proof fn law_play_starts_with_iwad(
    engines: Seq<Engine>,
    iwads: Seq<Iwad>,
    maps: Seq<MapRecord>,
    engine_id: i32,
    iwad_id: i32,
    map_ids: MapIds,
    additional_arguments: Option<Seq<char>>,
    play_settings: PlaySettings,
    existing: Seq<String>,
)
    ensures
        play_spec(
            engines,
            iwads,
            maps,
            engine_id,
            iwad_id,
            map_ids,
            additional_arguments,
            play_settings,
            existing,
        ) matches Ok((_, args)) ==> args.len() >= 2 && args[0] == "-iwad"@ && args[1]
            == first_match(iwads, iwad_has_id(iwad_id))->0.path@,
{
}


/// `flag` is followed by `value` somewhere in `args`.
pub open spec fn followed_by(args: Seq<Seq<char>>, flag: Seq<char>, value: Seq<char>) -> bool {
    exists|k: int| 0 <= k && k + 1 < args.len() && #[trigger] args[k] == flag && args[k + 1] == value
}

/// `flag` is one of `args`.
pub open spec fn has_arg(args: Seq<Seq<char>>, flag: Seq<char>) -> bool {
    exists|k: int| 0 <= k < args.len() && #[trigger] args[k] == flag
}

proof fn lemma_followed_by_pair(flag: Seq<char>, value: Seq<char>)
    ensures
        followed_by(seq![flag, value], flag, value),
{
    let s = seq![flag, value];
    assert(s[0] == flag && s[1] == value);
}

/// The play settings name each of their values after its own flag: the skill after
/// `-skill`, the turbo after `-turbo`, the timer after `-timer`, the screen width after
/// `-width` and the height after `-height`, each as its decimal text; the compatibility
/// level after `-complevel`, the config file after `-config`; a warp adds `-warp`; each
/// monster and screen switch that is on adds its flag.
pub open spec fn settings_named_in(p: PlaySettings, args: Seq<Seq<char>>) -> bool {
    &&& p.comp_level matches Some(c) ==> followed_by(args, "-complevel"@, comp_level_text(c))
    &&& p.config_file matches Some(f) ==> followed_by(args, "-config"@, f@)
    &&& p.warp is Some ==> has_arg(args, "-warp"@)
    &&& p.skill matches Some(v) ==> followed_by(args, "-skill"@, decimal(v as nat))
    &&& p.turbo matches Some(v) ==> followed_by(args, "-turbo"@, decimal(v as nat))
    &&& p.timer matches Some(v) ==> followed_by(args, "-timer"@, decimal(v as nat))
    &&& p.width matches Some(v) ==> followed_by(args, "-width"@, decimal(v as nat))
    &&& p.height matches Some(v) ==> followed_by(args, "-height"@, decimal(v as nat))
    &&& p.fast_monsters ==> has_arg(args, "-fast"@)
    &&& p.no_monsters ==> has_arg(args, "-nomonsters"@)
    &&& p.respawn_monsters ==> has_arg(args, "-respawn"@)
    &&& p.full_screen ==> has_arg(args, "-fullscreen"@)
    &&& p.windowed ==> has_arg(args, "-window"@)
}

/// What a part of the arguments holds, the whole holds too.
proof fn lemma_sandwich(a: Seq<Seq<char>>, b: Seq<Seq<char>>, c: Seq<Seq<char>>)
    ensures
        forall|f: Seq<char>, v: Seq<char>| #[trigger] followed_by(b, f, v) ==> followed_by(a + b + c, f, v),
        forall|f: Seq<char>| #[trigger] has_arg(b, f) ==> has_arg(a + b + c, f),
{
    assert forall|f: Seq<char>, v: Seq<char>| #[trigger] followed_by(b, f, v) implies followed_by(a + b + c, f, v) by {
        let k = choose|k: int| 0 <= k && k + 1 < b.len() && #[trigger] b[k] == f && b[k + 1] == v;
        assert((a + b + c)[a.len() + k] == b[k] && (a + b + c)[a.len() + k + 1] == b[k + 1]);
    }
    assert forall|f: Seq<char>| #[trigger] has_arg(b, f) implies has_arg(a + b + c, f) by {
        let k = choose|k: int| 0 <= k < b.len() && #[trigger] b[k] == f;
        assert((a + b + c)[a.len() + k] == b[k]);
    }
}

/// The settings' arguments hold everything a setting names.
proof fn lemma_settings_named_within(p: PlaySettings, a: Seq<Seq<char>>, c: Seq<Seq<char>>)
    requires
        settings_named_in(p, play_settings_args(p)),
    ensures
        settings_named_in(p, a + play_settings_args(p) + c),
{
    lemma_sandwich(a, play_settings_args(p), c);
}

proof fn lemma_flag_if_has(flag: Seq<char>, on: bool)
    ensures
        on ==> has_arg(flag_if(flag, on), flag),
{
    if on {
        assert(flag_if(flag, on)[0] == flag);
    }
}

proof fn lemma_number_flag(flag: Seq<char>, n: Option<nat>)
    ensures
        n matches Some(v) ==> followed_by(flag_value(flag, number_text(n)), flag, decimal(v)),
{
    if let Some(v) = n {
        lemma_followed_by_pair(flag, decimal(v));
    }
}

/// The number part names each number after its flag.
proof fn lemma_numbers_named(p: PlaySettings)
    ensures
        p.skill matches Some(v) ==> followed_by(play_settings_numbers(p), "-skill"@, decimal(v as nat)),
        p.turbo matches Some(v) ==> followed_by(play_settings_numbers(p), "-turbo"@, decimal(v as nat)),
        p.timer matches Some(v) ==> followed_by(play_settings_numbers(p), "-timer"@, decimal(v as nat)),
        p.width matches Some(v) ==> followed_by(play_settings_numbers(p), "-width"@, decimal(v as nat)),
        p.height matches Some(v) ==> followed_by(play_settings_numbers(p), "-height"@, decimal(v as nat)),
{
    let e = Seq::<Seq<char>>::empty();
    let sk = match p.skill { Some(v) => Some(v as nat), None => None };
    let tu = match p.turbo { Some(v) => Some(v as nat), None => None };
    let ti = match p.timer { Some(v) => Some(v as nat), None => None };
    let wi = match p.width { Some(v) => Some(v as nat), None => None };
    let he = match p.height { Some(v) => Some(v as nat), None => None };
    let a = flag_value("-skill"@, number_text(sk));
    let b = flag_value("-turbo"@, number_text(tu));
    let c = flag_value("-timer"@, number_text(ti));
    let d = flag_value("-width"@, number_text(wi));
    let f = flag_value("-height"@, number_text(he));
    lemma_number_flag("-skill"@, sk);
    lemma_number_flag("-turbo"@, tu);
    lemma_number_flag("-timer"@, ti);
    lemma_number_flag("-width"@, wi);
    lemma_number_flag("-height"@, he);
    let n = play_settings_numbers(p);
    assert(n =~= e + a + (b + c + d + f));
    lemma_sandwich(e, a, b + c + d + f);
    assert(n =~= a + b + (c + d + f));
    lemma_sandwich(a, b, c + d + f);
    assert(n =~= a + b + c + (d + f));
    lemma_sandwich(a + b, c, d + f);
    assert(n =~= a + b + c + d + f);
    lemma_sandwich(a + b + c, d, f);
    assert(n =~= a + b + c + d + f + e);
    lemma_sandwich(a + b + c + d, f, e);
}

/// The switch parts hold the flag of each switch that is on.
proof fn lemma_switches_named(p: PlaySettings)
    ensures
        p.fast_monsters ==> has_arg(play_settings_flags(p), "-fast"@),
        p.no_monsters ==> has_arg(play_settings_flags(p), "-nomonsters"@),
        p.respawn_monsters ==> has_arg(play_settings_flags(p), "-respawn"@),
        p.full_screen ==> has_arg(play_settings_tail(p), "-fullscreen"@),
        p.windowed ==> has_arg(play_settings_tail(p), "-window"@),
{
    let e = Seq::<Seq<char>>::empty();
    let a = flag_if("-fast"@, p.fast_monsters);
    let b = flag_if("-nomonsters"@, p.no_monsters);
    let c = flag_if("-respawn"@, p.respawn_monsters);
    lemma_flag_if_has("-fast"@, p.fast_monsters);
    lemma_flag_if_has("-nomonsters"@, p.no_monsters);
    lemma_flag_if_has("-respawn"@, p.respawn_monsters);
    let fl = play_settings_flags(p);
    assert(fl =~= e + a + (b + c));
    lemma_sandwich(e, a, b + c);
    assert(fl =~= a + b + c);
    lemma_sandwich(a, b, c);
    assert(fl =~= a + b + c + e);
    lemma_sandwich(a + b, c, e);
    let x = flag_if("-fullscreen"@, p.full_screen);
    let y = flag_if("-window"@, p.windowed);
    let z = extra_args(match p.additional_arguments { Some(t) => Some(t@), None => None });
    lemma_flag_if_has("-fullscreen"@, p.full_screen);
    lemma_flag_if_has("-window"@, p.windowed);
    let t = play_settings_tail(p);
    assert(t =~= e + x + (y + z));
    lemma_sandwich(e, x, y + z);
    assert(t =~= x + y + z);
    lemma_sandwich(x, y, z);
}

/// The head names the compatibility level and the config file, and the warp part holds
/// `-warp` when there is a warp.
proof fn lemma_head_and_warp_named(p: PlaySettings)
    ensures
        p.comp_level matches Some(c) ==> followed_by(play_settings_head(p), "-complevel"@, comp_level_text(c)),
        p.config_file matches Some(f) ==> followed_by(play_settings_head(p), "-config"@, f@),
        p.warp is Some ==> has_arg(play_settings_warp(p), "-warp"@),
{
    let e = Seq::<Seq<char>>::empty();
    let a = flag_value("-complevel"@, match p.comp_level { Some(c) => Some(comp_level_text(c)), None => None });
    let b = flag_value("-config"@, match p.config_file { Some(f) => Some(f@), None => None });
    if let Some(c) = p.comp_level {
        lemma_followed_by_pair("-complevel"@, comp_level_text(c));
    }
    if let Some(f) = p.config_file {
        lemma_followed_by_pair("-config"@, f@);
    }
    let h = play_settings_head(p);
    assert(h =~= e + a + b);
    lemma_sandwich(e, a, b);
    assert(h =~= a + b + e);
    lemma_sandwich(a, b, e);
    if let Some(w) = p.warp {
        assert(play_settings_warp(p)[0] == "-warp"@);
    }
}

/// Five parts that each name their own settings name all of them once joined.
proof fn lemma_parts_named(
    p: PlaySettings,
    head: Seq<Seq<char>>,
    fl: Seq<Seq<char>>,
    warp: Seq<Seq<char>>,
    numbers: Seq<Seq<char>>,
    tail: Seq<Seq<char>>,
)
    requires
        p.comp_level matches Some(c) ==> followed_by(head, "-complevel"@, comp_level_text(c)),
        p.config_file matches Some(f) ==> followed_by(head, "-config"@, f@),
        p.warp is Some ==> has_arg(warp, "-warp"@),
        p.skill matches Some(v) ==> followed_by(numbers, "-skill"@, decimal(v as nat)),
        p.turbo matches Some(v) ==> followed_by(numbers, "-turbo"@, decimal(v as nat)),
        p.timer matches Some(v) ==> followed_by(numbers, "-timer"@, decimal(v as nat)),
        p.width matches Some(v) ==> followed_by(numbers, "-width"@, decimal(v as nat)),
        p.height matches Some(v) ==> followed_by(numbers, "-height"@, decimal(v as nat)),
        p.fast_monsters ==> has_arg(fl, "-fast"@),
        p.no_monsters ==> has_arg(fl, "-nomonsters"@),
        p.respawn_monsters ==> has_arg(fl, "-respawn"@),
        p.full_screen ==> has_arg(tail, "-fullscreen"@),
        p.windowed ==> has_arg(tail, "-window"@),
    ensures
        settings_named_in(p, head + fl + warp + numbers + tail),
{
    let e = Seq::<Seq<char>>::empty();
    let all = head + fl + warp + numbers + tail;
    assert(all =~= e + head + (fl + warp + numbers + tail));
    lemma_sandwich(e, head, fl + warp + numbers + tail);
    assert(all =~= head + fl + (warp + numbers + tail));
    lemma_sandwich(head, fl, warp + numbers + tail);
    assert(all =~= head + fl + warp + (numbers + tail));
    lemma_sandwich(head + fl, warp, numbers + tail);
    lemma_sandwich(head + fl + warp, numbers, tail);
    assert(all =~= head + fl + warp + numbers + tail + e);
    lemma_sandwich(head + fl + warp + numbers, tail, e);
}

/// The arguments of the play settings name every setting after its own flag.
pub proof fn law_play_settings_named_by_their_flags(p: PlaySettings)
    ensures
        settings_named_in(p, play_settings_args(p)),
{
    lemma_numbers_named(p);
    lemma_switches_named(p);
    lemma_head_and_warp_named(p);
    lemma_parts_named(
        p,
        play_settings_head(p),
        play_settings_flags(p),
        play_settings_warp(p),
        play_settings_numbers(p),
        play_settings_tail(p),
    );
}

/// Every launch names each play setting after its own flag: the width of the settings
/// follows `-width`, the height follows `-height`, and so on.
pub proof fn law_launch_names_play_settings(
    engines: Seq<Engine>,
    iwads: Seq<Iwad>,
    maps: Seq<MapRecord>,
    engine_id: i32,
    iwad_id: i32,
    map_ids: MapIds,
    additional_arguments: Option<Seq<char>>,
    play_settings: PlaySettings,
    existing: Seq<String>,
)
    ensures
        play_spec(
            engines,
            iwads,
            maps,
            engine_id,
            iwad_id,
            map_ids,
            additional_arguments,
            play_settings,
            existing,
        ) matches Ok((_, args)) ==> settings_named_in(play_settings, args),
{
    law_play_settings_named_by_their_flags(play_settings);
    match play_spec(
        engines,
        iwads,
        maps,
        engine_id,
        iwad_id,
        map_ids,
        additional_arguments,
        play_settings,
        existing,
    ) {
        Ok((_, args)) => {
            let n = args.len() - play_settings_args(play_settings).len();
            let before = args.take(n);
            assert(args =~= before + play_settings_args(play_settings) + Seq::<Seq<char>>::empty());
            lemma_settings_named_within(play_settings, before, Seq::<Seq<char>>::empty());
        },
        Err(_) => {},
    }
}

} // verus!

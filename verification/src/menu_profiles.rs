//! Profiles from the command line: choosing the default one and deleting one.

use vstd::prelude::*;
use crate::data::{engine_text, AppSettings, Engine, Iwad, MapRecord, Profile};
use crate::text::decimal;
use crate::files::utf8_len;
use crate::paths::{extract_file_name, extract_file_name_spec};
use crate::text::{concat2, join_strings, joined, string_seq, to_lowercase, unicode_lowercase};
use crate::db::{find_profile_by_name, first_match, profile_has_name};
use crate::menu_app_settings::{remove_profile_from_app_settings, settings_without_profile};
use crate::menu_editor::DeleteOutcome;
use crate::text::{concat3, copy_str};

verus! {

/// Makes the profile with the given name the default one.
pub fn cli_set_default_profile(profiles: &Vec<Profile>, app_settings: &mut AppSettings, name: &str) -> (r:
    String)
    ensures
        first_match(profiles@, profile_has_name(name@)) matches Some(p) ==> *final(app_settings)
            == (AppSettings { default_profile_id: Some(p.id), ..*old(app_settings) }) && r@
            == "Successfully set Default Profile as '"@ + p.name@ + "'"@,
        first_match(profiles@, profile_has_name(name@)) is None ==> *final(app_settings) == *old(
            app_settings,
        ) && r@ == "Cannot set Default Profile. Profile not found - '"@ + name@ + "'"@,
{
    match find_profile_by_name(profiles, name) {
        Some(p) => {
            app_settings.default_profile_id = Some(p.id);
            concat3("Successfully set Default Profile as '", p.name.as_str(), "'")
        },
        None => concat3("Cannot set Default Profile. Profile not found - '", name, "'"),
    }
}

/// Deleting a profile once confirmed (`confirmed` is the forced flag or the user's
/// answer): it stops being the default and the last profile, and is deleted.
pub fn delete_profile_core(
    app_settings: &mut AppSettings,
    profile_id: i32,
    profile_name: &str,
    confirmed: bool,
) -> (r: DeleteOutcome)
    ensures
        confirmed ==> r.deleted == Some(profile_id) && r.message@
            == "Successfully deleted Profile '"@ + profile_name@ + "'"@ && *final(app_settings)
            == settings_without_profile(*old(app_settings), profile_id),
        !confirmed ==> r.deleted is None && r.message@ == "Canceled Profile deletion"@
            && *final(app_settings) == *old(app_settings),
{
    if confirmed {
        let _ = remove_profile_from_app_settings(app_settings, profile_id);
        return DeleteOutcome {
            message: concat3("Successfully deleted Profile '", profile_name, "'"),
            deleted: Some(profile_id),
        };
    }
    DeleteOutcome { message: copy_str("Canceled Profile deletion"), deleted: None }
}

/// Deleting the profile with the given name, from the command line.
pub fn cli_delete_profile(
    profiles: &Vec<Profile>,
    app_settings: &mut AppSettings,
    profile_name: &str,
    confirmed: bool,
) -> (r: DeleteOutcome)
    ensures
        first_match(profiles@, profile_has_name(profile_name@)) is None ==> r.deleted is None
            && r.message@ == "Cannot delete Profile. Profile not found - '"@ + profile_name@ + "'"@
            && *final(app_settings) == *old(app_settings),
        first_match(profiles@, profile_has_name(profile_name@)) matches Some(p) ==> (confirmed
            ==> r.deleted == Some(p.id) && r.message@ == "Successfully deleted Profile '"@
            + p.name@ + "'"@ && *final(app_settings) == settings_without_profile(
            *old(app_settings),
            p.id,
        )) && (!confirmed ==> r.deleted is None
            && *final(app_settings) == *old(app_settings)),
{
    match find_profile_by_name(profiles, profile_name) {
        Some(p) => delete_profile_core(app_settings, p.id, p.name.as_str(), confirmed),
        None => DeleteOutcome {
            message: concat3("Cannot delete Profile. Profile not found - '", profile_name, "'"),
            deleted: None,
        },
    }
}


/// `Cannot add Profile '<name>'<rest>`.
pub open spec fn cannot_add(name: Seq<char>, rest: Seq<char>) -> Seq<char> {
    "Cannot add Profile '"@ + name + "'"@ + rest
}

fn cannot_add_message(name: &str, rest: &str) -> (r: String)
    ensures
        r@ == cannot_add(name@, rest@),
{
    let mut m = concat3("Cannot add Profile '", name, "'");
    m.append(rest);
    m
}

/// The first stored engine whose path is `path`, case ignored.
pub open spec fn engine_by_path_ci(engines: Seq<Engine>, path: Seq<char>) -> Option<Engine> {
    first_match(engines, |e: Engine| unicode_lowercase(e.path@) == unicode_lowercase(path))
}

/// The first stored IWAD whose path is `path`, case ignored.
pub open spec fn iwad_by_path_ci(iwads: Seq<Iwad>, path: Seq<char>) -> Option<Iwad> {
    first_match(iwads, |w: Iwad| unicode_lowercase(w.path@) == unicode_lowercase(path))
}

/// The id of the first stored map whose file name is `name`, case ignored.
pub open spec fn map_id_by_file_name(maps: Seq<MapRecord>, name: Seq<char>) -> Option<i32> {
    match first_match(
        maps,
        |m: MapRecord| unicode_lowercase(extract_file_name_spec(m.path@)) == unicode_lowercase(name),
    ) {
        Some(m) => Some(m.id),
        None => None,
    }
}

/// The five map slots the given map file names fill: each name's map (none when no map
/// has that file name), then empty slots.
pub open spec fn map_slots(maps: Seq<MapRecord>, names: Seq<Seq<char>>) -> Seq<Option<i32>> {
    Seq::new(
        5,
        |k: int| if k < names.len() {
            map_id_by_file_name(maps, names[k])
        } else {
            None
        },
    )
}

fn find_engine_by_path_ci(engines: &Vec<Engine>, path: &str) -> (r: Option<Engine>)
    ensures
        r == engine_by_path_ci(engines@, path@),
{
    let lower = to_lowercase(path);
    let mut i: usize = 0;
    assert(engines@.skip(0) =~= engines@);
    while i < engines.len()
        invariant
            i <= engines@.len(),
            lower@ == unicode_lowercase(path@),
            engine_by_path_ci(engines@, path@) == engine_by_path_ci(engines@.skip(i as int), path@),
        decreases engines.len() - i,
    {
        assert(engines@.skip(i as int).drop_first() =~= engines@.skip(i + 1));
        assert(engines@.skip(i as int)[0] == engines@[i as int]);
        let l = to_lowercase(engines[i].path.as_str());
        if crate::text::str_eq(l.as_str(), lower.as_str()) {
            return Some(engines[i].copy());
        }
        i = i + 1;
    }
    assert(engines@.skip(i as int) =~= Seq::<Engine>::empty());
    None
}

fn find_iwad_by_path_ci(iwads: &Vec<Iwad>, path: &str) -> (r: Option<Iwad>)
    ensures
        r == iwad_by_path_ci(iwads@, path@),
{
    let lower = to_lowercase(path);
    let mut i: usize = 0;
    assert(iwads@.skip(0) =~= iwads@);
    while i < iwads.len()
        invariant
            i <= iwads@.len(),
            lower@ == unicode_lowercase(path@),
            iwad_by_path_ci(iwads@, path@) == iwad_by_path_ci(iwads@.skip(i as int), path@),
        decreases iwads.len() - i,
    {
        assert(iwads@.skip(i as int).drop_first() =~= iwads@.skip(i + 1));
        assert(iwads@.skip(i as int)[0] == iwads@[i as int]);
        let l = to_lowercase(iwads[i].path.as_str());
        if crate::text::str_eq(l.as_str(), lower.as_str()) {
            return Some(iwads[i].copy());
        }
        i = i + 1;
    }
    assert(iwads@.skip(i as int) =~= Seq::<Iwad>::empty());
    None
}

fn find_map_id_by_file_name(maps: &Vec<MapRecord>, name: &str) -> (r: Option<i32>)
    ensures
        r == map_id_by_file_name(maps@, name@),
{
    let lower = to_lowercase(name);
    let ghost p = |m: MapRecord| unicode_lowercase(extract_file_name_spec(m.path@)) == unicode_lowercase(name@);
    let mut i: usize = 0;
    assert(maps@.skip(0) =~= maps@);
    while i < maps.len()
        invariant
            i <= maps@.len(),
            lower@ == unicode_lowercase(name@),
            p == (|m: MapRecord| unicode_lowercase(extract_file_name_spec(m.path@)) == unicode_lowercase(name@)),
            first_match(maps@, p) == first_match(maps@.skip(i as int), p),
        decreases maps.len() - i,
    {
        assert(maps@.skip(i as int).drop_first() =~= maps@.skip(i + 1));
        assert(maps@.skip(i as int)[0] == maps@[i as int]);
        let f = extract_file_name(maps[i].path.as_str());
        let l = to_lowercase(f.as_str());
        if crate::text::str_eq(l.as_str(), lower.as_str()) {
            return Some(maps[i].id);
        }
        i = i + 1;
    }
    assert(maps@.skip(i as int) =~= Seq::<MapRecord>::empty());
    None
}

fn name_byte_len_below(name: &str, limit: usize) -> (r: bool)
    requires
        limit > 0,
    ensures
        r == (utf8_len(name@) < limit),
{
    let v = crate::text::chars_of(name);
    let mut n: usize = 0;
    let mut i: usize = 0;
    assert(v@.skip(0) =~= v@);
    while i < v.len()
        invariant
            i <= v@.len(),
            v@ == name@,
            n < limit,
            utf8_len(name@) == n + utf8_len(v@.skip(i as int)),
        decreases v.len() - i,
    {
        let u = v[i] as u32;
        let w: usize = if u < 0x80 {
            1
        } else if u < 0x800 {
            2
        } else if u < 0x10000 {
            3
        } else {
            4
        };
        assert(v@.skip(i as int).drop_first() =~= v@.skip(i + 1));
        if w >= limit - n {
            return false;
        }
        n = n + w;
        i = i + 1;
    }
    assert(v@.skip(i as int) =~= Seq::<char>::empty());
    true
}

/// What adding a profile from the command line comes to: the message, and the profile
/// to store when one is added.
pub struct AddProfileOutcome {
    pub message: String,
    pub added: Option<Profile>,
}

/// The checks of a command-line profile, in order, and the profile they let through.
pub open spec fn cli_add_profile_is(
    engines: Seq<Engine>,
    iwads: Seq<Iwad>,
    maps: Seq<MapRecord>,
    profiles: Seq<Profile>,
    name: Seq<char>,
    engine: Seq<char>,
    iwad: Seq<char>,
    maps_in: Option<Seq<Seq<char>>>,
    args: Option<Seq<Seq<char>>>,
    now: i64,
    r: AddProfileOutcome,
) -> bool {
    if engines.len() == 0 {
        r.added is None && r.message@ == cannot_add(
            name,
            ", There are no Engines to select. Please run 'init'"@,
        )
    } else if iwads.len() == 0 {
        r.added is None && r.message@ == cannot_add(
            name,
            ", There are no IWADs to select. Please run 'init"@,
        )
    } else if maps.len() == 0 {
        r.added is None && r.message@ == cannot_add(
            name,
            ", There are no Maps to select. Please run 'init'"@,
        )
    } else if first_match(profiles, profile_has_name(name)) is Some {
        r.added is None && r.message@ == cannot_add(name, ". Profile name already exists"@)
    } else if utf8_len(name) < 3 {
        r.added is None && r.message@ == cannot_add(
            name,
            ". Profile name must be at least 3 characters"@,
        )
    } else if engine_by_path_ci(engines, engine) is None {
        r.added is None && r.message@ == cannot_add(name, ". Engine not found - '"@) + engine
            + "'"@
    } else if iwad_by_path_ci(iwads, iwad) is None {
        r.added is None && r.message@ == cannot_add(name, ". IWAD not found - '"@) + iwad + "'"@
    } else if maps_in matches Some(m) && m.len() > 5 {
        r.added is None && r.message@ == cannot_add(
            name,
            ". A max of 5 maps can be specified per Profile"@,
        )
    } else {
        let slots = match maps_in {
            Some(m) => map_slots(maps, m),
            None => Seq::new(5, |k: int| None::<i32>),
        };
        &&& r.message@ == "Successfully created a new Profile - '"@ + name + "'"@
        &&& r.added matches Some(p)
        &&& p.id == 0
        &&& p.name@ == name
        &&& p.engine_id == Some(engine_by_path_ci(engines, engine)->0.id)
        &&& p.iwad_id == Some(iwad_by_path_ci(iwads, iwad)->0.id)
        &&& p.map_id == slots[0]
        &&& p.map_id2 == slots[1]
        &&& p.map_id3 == slots[2]
        &&& p.map_id4 == slots[3]
        &&& p.map_id5 == slots[4]
        &&& crate::data::opt_string_view(p.additional_arguments) == match args {
            Some(a) => Some(joined(a, " "@)),
            None => None,
        }
        &&& p.date_created == now
        &&& p.date_edited == now
        &&& p.date_last_run is None
        &&& p.run_count == 0
    }
}

/// Adds a profile from the command line: the engine and IWAD given by path (case
/// ignored) and up to five maps given by file name (case ignored). `now` is the time
/// of creation. A save game given on the command line is not kept, as a profile has no
/// field for one.
pub fn cli_add_profile(
    engines: &Vec<Engine>,
    iwads: &Vec<Iwad>,
    maps: &Vec<MapRecord>,
    profiles: &Vec<Profile>,
    name: &str,
    engine: &str,
    iwad: &str,
    maps_in: &Option<Vec<String>>,
    save_game: &Option<String>,
    args: &Option<Vec<String>>,
    now: i64,
) -> (r: AddProfileOutcome)
    ensures
        cli_add_profile_is(
            engines@,
            iwads@,
            maps@,
            profiles@,
            name@,
            engine@,
            iwad@,
            match maps_in {
                Some(m) => Some(string_seq(m@)),
                None => None,
            },
            match args {
                Some(a) => Some(string_seq(a@)),
                None => None,
            },
            now,
            r,
        ),
{
    if engines.len() == 0 {
        return AddProfileOutcome {
            message: cannot_add_message(name, ", There are no Engines to select. Please run 'init'"),
            added: None,
        };
    }
    if iwads.len() == 0 {
        return AddProfileOutcome {
            message: cannot_add_message(name, ", There are no IWADs to select. Please run 'init"),
            added: None,
        };
    }
    if maps.len() == 0 {
        return AddProfileOutcome {
            message: cannot_add_message(name, ", There are no Maps to select. Please run 'init'"),
            added: None,
        };
    }
    if find_profile_by_name(profiles, name).is_some() {
        return AddProfileOutcome {
            message: cannot_add_message(name, ". Profile name already exists"),
            added: None,
        };
    }
    if name_byte_len_below(name, crate::constants::MIN_NAME_LENGTH) {
        return AddProfileOutcome {
            message: cannot_add_message(name, ". Profile name must be at least 3 characters"),
            added: None,
        };
    }
    let engine_selection = match find_engine_by_path_ci(engines, engine) {
        Some(e) => e,
        None => {
            let mut m = cannot_add_message(name, ". Engine not found - '");
            m.append(engine);
            m.append("'");
            return AddProfileOutcome { message: m, added: None };
        },
    };
    let iwad_selection = match find_iwad_by_path_ci(iwads, iwad) {
        Some(w) => w,
        None => {
            let mut m = cannot_add_message(name, ". IWAD not found - '");
            m.append(iwad);
            m.append("'");
            return AddProfileOutcome { message: m, added: None };
        },
    };
    let mut slots: Vec<Option<i32>> = Vec::new();
    match maps_in {
        Some(names) => {
            if names.len() > 5 {
                return AddProfileOutcome {
                    message: cannot_add_message(
                        name,
                        ". A max of 5 maps can be specified per Profile",
                    ),
                    added: None,
                };
            }
            let ghost ns = string_seq(names@);
            let mut k: usize = 0;
            while k < 5
                invariant
                    k <= 5,
                    names@.len() <= 5,
                    ns == string_seq(names@),
                    slots@.len() == k,
                    forall|j: int| 0 <= j < k ==> slots@[j] == map_slots(maps@, ns)[j],
                decreases 5 - k,
            {
                if k < names.len() {
                    slots.push(find_map_id_by_file_name(maps, names[k].as_str()));
                } else {
                    slots.push(None);
                }
                k = k + 1;
            }
        },
        None => {
            let mut k: usize = 0;
            while k < 5
                invariant
                    k <= 5,
                    slots@.len() == k,
                    forall|j: int| 0 <= j < k ==> slots@[j] is None,
                decreases 5 - k,
            {
                slots.push(None);
                k = k + 1;
            }
        },
    }
    let additional_arguments = match args {
        Some(a) => Some(join_strings(a, " ")),
        None => None,
    };
    let _ = save_game;
    let profile = Profile {
        id: 0,
        name: copy_str(name),
        engine_id: Some(engine_selection.id),
        iwad_id: Some(iwad_selection.id),
        map_id: slots[0],
        map_id2: slots[1],
        map_id3: slots[2],
        map_id4: slots[3],
        map_id5: slots[4],
        date_created: now,
        date_edited: now,
        date_last_run: None,
        run_count: 0,
        additional_arguments,
    };
    let message = concat3("Successfully created a new Profile - '", name, "'");
    AddProfileOutcome { message, added: Some(profile) }
}

/// Why a profile name typed in is refused: it is taken, or shorter than three bytes.
pub fn validate_profile_name(profiles: &Vec<Profile>, input: &str) -> (r: Option<String>)
    ensures
        first_match(profiles@, profile_has_name(input@)) is Some ==> (r matches Some(m) && m@
            == "Profile name already exists"@),
        first_match(profiles@, profile_has_name(input@)) is None && utf8_len(input@) < 3 ==> (
        r matches Some(m) && m@ == "Profile name must be at least 3 characters"@),
        first_match(profiles@, profile_has_name(input@)) is None && utf8_len(input@) >= 3
            ==> r is None,
{
    if find_profile_by_name(profiles, input).is_some() {
        return Some(copy_str("Profile name already exists"));
    }
    if name_byte_len_below(input, crate::constants::MIN_NAME_LENGTH) {
        return Some(copy_str("Profile name must be at least 3 characters"));
    }
    None
}

/// Why a new name typed in for the profile with id `profile_id` is refused: another
/// profile has it, or it is shorter than three bytes. The profile's own name is fine.
pub fn validate_edited_profile_name(profiles: &Vec<Profile>, input: &str, profile_id: i32) -> (r:
    Option<String>)
    ensures
        (first_match(profiles@, profile_has_name(input@)) matches Some(p) && p.id != profile_id)
            ==> (r matches Some(m) && m@ == "Profile name already exists"@),
        !(first_match(profiles@, profile_has_name(input@)) matches Some(p) && p.id != profile_id)
            && utf8_len(input@) < 3 ==> (r matches Some(m) && m@
            == "Profile name must be at least 3 characters"@),
        !(first_match(profiles@, profile_has_name(input@)) matches Some(p) && p.id != profile_id)
            && utf8_len(input@) >= 3 ==> r is None,
{
    if let Some(p) = find_profile_by_name(profiles, input) {
        if p.id != profile_id {
            return Some(copy_str("Profile name already exists"));
        }
    }
    if name_byte_len_below(input, crate::constants::MIN_NAME_LENGTH) {
        return Some(copy_str("Profile name must be at least 3 characters"));
    }
    None
}

// ---------------------------------------------------------------------------
// Changing the engine of profiles
// ---------------------------------------------------------------------------

/// Why the engine of profiles cannot be changed: there are no engines, or no profiles.
pub fn change_engine_on_profile_check(engine_count: usize, profile_count: usize) -> (r: Option<String>)
    ensures
        engine_count == 0 ==> (r matches Some(m) && m@
            == "Cannot change Engine on Profiles because there are no Engines to select"@),
        engine_count > 0 && profile_count == 0 ==> (r matches Some(m) && m@
            == "There are no Profiles to change the Engine on"@),
        engine_count > 0 && profile_count > 0 ==> r is None,
{
    if engine_count == 0 {
        Some(copy_str("Cannot change Engine on Profiles because there are no Engines to select"))
    } else if profile_count == 0 {
        Some(copy_str("There are no Profiles to change the Engine on"))
    } else {
        None
    }
}

/// Profiles that use the engine with the given id.
pub open spec fn uses_engine(engine_id: i32) -> spec_fn(Profile) -> bool {
    |p: Profile| p.engine_id == Some(engine_id)
}

/// The profiles that use an engine, in order; when none does, the message that nothing
/// changes.
pub fn profiles_using_engine(profiles: &Vec<Profile>, engine: &Engine) -> (r: Result<Vec<Profile>, String>)
    ensures
        profiles@.filter(uses_engine(engine.id)).len() > 0 ==> (r matches Ok(v) && v@
            == profiles@.filter(uses_engine(engine.id))),
        profiles@.filter(uses_engine(engine.id)).len() == 0 ==> (r matches Err(m) && m@
            == "No changes made to changing Engine on Profiles. No Profiles are using the Engine - '"@
            + engine_text(*engine) + "'"@),
{
    let ghost pred = uses_engine(engine.id);
    let mut out: Vec<Profile> = Vec::new();
    let mut i: usize = 0;
    while i < profiles.len()
        invariant
            i <= profiles@.len(),
            pred == uses_engine(engine.id),
            out@ == profiles@.take(i as int).filter(pred),
        decreases profiles.len() - i,
    {
        proof {
            assert(profiles@.take(i + 1).drop_last() =~= profiles@.take(i as int));
            assert(profiles@.take(i + 1).last() == profiles@[i as int]);
            reveal_with_fuel(Seq::filter, 1);
        }
        if profiles[i].engine_id == Some(engine.id) {
            out.push(profiles[i].copy());
        }
        i = i + 1;
    }
    assert(profiles@.take(profiles@.len() as int) =~= profiles@);
    if out.len() == 0 {
        let shown = engine.display_text();
        let mut m = concat2(
            "No changes made to changing Engine on Profiles. No Profiles are using the Engine - '",
            shown.as_str(),
        );
        m.append("'");
        return Err(m);
    }
    Ok(out)
}

/// The chosen profiles moved from engine `before` to engine `after`, and the message:
/// nothing changes when no profile was chosen.
pub fn change_engine_on_profiles(chosen: &Vec<Profile>, before: &Engine, after: &Engine) -> (r: (
    Vec<Profile>,
    String,
))
    requires
        chosen@.len() <= u64::MAX,
    ensures
        r.0@.len() == chosen@.len(),
        forall|i: int| 0 <= i < chosen@.len() ==> #[trigger] r.0@[i] == (Profile {
            engine_id: Some(after.id),
            ..chosen@[i]
        }),
        chosen@.len() == 0 ==> r.1@ == "No changes made to changing Engine on Profiles. No Profiles selected"@,
        chosen@.len() > 0 ==> r.1@ == "Successfully changed Engine from '"@ + engine_text(*before)
            + "' to '"@ + engine_text(*after) + "' on "@ + decimal(chosen@.len()) + " Profiles"@,
{
    let mut out: Vec<Profile> = Vec::new();
    let mut i: usize = 0;
    while i < chosen.len()
        invariant
            i <= chosen@.len(),
            out@.len() == i,
            forall|j: int| 0 <= j < i ==> #[trigger] out@[j] == (Profile {
                engine_id: Some(after.id),
                ..chosen@[j]
            }),
        decreases chosen.len() - i,
    {
        let mut p = chosen[i].copy();
        p.engine_id = Some(after.id);
        out.push(p);
        i = i + 1;
    }
    if chosen.len() == 0 {
        return (out, copy_str("No changes made to changing Engine on Profiles. No Profiles selected"));
    }
    let b = before.display_text();
    let a = after.display_text();
    let n = crate::text::u64_to_string(chosen.len() as u64);
    let mut m = concat3("Successfully changed Engine from '", b.as_str(), "' to '");
    m.append(a.as_str());
    m.append("' on ");
    m.append(n.as_str());
    m.append(" Profiles");
    (out, m)
}


/// Words joined by single spaces split at spaces into those words again, when no word
/// holds a space.
proof fn lemma_space_joined_splits_back(words: Seq<Seq<char>>)
    requires
        words.len() > 0,
        forall|i: int, j: int| 0 <= i < words.len() && 0 <= j < words[i].len() ==> #[trigger] words[i][j] != ' ',
    ensures
        crate::text::split_char(joined(words, " "@), ' ') == words,
    decreases words.len(),
{
    reveal_strlit(" ");
    assert(" "@ =~= seq![' ']);
    let last = words.last();
    assert(forall|j: int| 0 <= j < last.len() ==> last[j] != ' ') by {
        assert forall|j: int| 0 <= j < last.len() implies last[j] != ' ' by {
            assert(words[words.len() - 1][j] != ' ');
        }
    }
    if words.len() == 1 {
        crate::finder::lemma_split_char_plain(words[0], ' ');
        assert(seq![words[0]] =~= words);
    } else {
        let init = words.drop_last();
        assert forall|i: int, j: int| 0 <= i < init.len() && 0 <= j < init[i].len() implies #[trigger] init[i][j] != ' ' by {
            assert(init[i] == words[i]);
        }
        lemma_space_joined_splits_back(init);
        crate::finder::lemma_split_char_append(joined(init, " "@), last, ' ');
        assert(joined(words, " "@) == joined(init, " "@) + seq![' '] + last);
        assert(init.push(last) =~= words);
    }
}

/// A profile added from the command line keeps the given arguments as one text that
/// splits at its spaces into exactly those arguments again (when no argument holds a
/// space); with no arguments given it has none.
pub proof fn law_added_profile_keeps_each_argument(
    engines: Seq<Engine>,
    iwads: Seq<Iwad>,
    maps: Seq<MapRecord>,
    profiles: Seq<Profile>,
    name: Seq<char>,
    engine: Seq<char>,
    iwad: Seq<char>,
    maps_in: Option<Seq<Seq<char>>>,
    args: Option<Seq<Seq<char>>>,
    now: i64,
    r: AddProfileOutcome,
)
    requires
        cli_add_profile_is(engines, iwads, maps, profiles, name, engine, iwad, maps_in, args, now, r),
        r.added is Some,
    ensures
        args is None ==> r.added->0.additional_arguments is None,
        args matches Some(a) ==> (a.len() > 0 && (forall|i: int, j: int|
            0 <= i < a.len() && 0 <= j < a[i].len() ==> #[trigger] a[i][j] != ' ')
            ==> (r.added->0.additional_arguments matches Some(t) && crate::text::split_char(t@, ' ') == a)),
{
    if let Some(a) = args {
        if a.len() > 0 && (forall|i: int, j: int|
            0 <= i < a.len() && 0 <= j < a[i].len() ==> #[trigger] a[i][j] != ' ') {
            lemma_space_joined_splits_back(a);
        }
    }
}

} // verus!

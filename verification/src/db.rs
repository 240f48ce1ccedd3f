//! Queries over the stored records.
//!
//! The launcher keeps its records in tables (engines, IWADs, maps, editors and
//! profiles). The functions here answer its queries over the rows of those tables,
//! handed over as lists in table order; a lookup by key takes the first matching row,
//! as a query with `fetch_one` does.

use vstd::prelude::*;
use crate::constants::DEFAULT_NOT_SET;
use crate::data::{
    copy_opt_string, display_option_string, id_or_zero, opt_string_view, opt_text, AppSettings,
    AppSettingsDisplay, Editor, Engine, Iwad, MapIds, MapRecord, Profile, ProfileDisplay,
    editor_text, engine_text, iwad_text, profile_display_text,
};
use crate::paths::{extract_file_name, extract_file_name_spec, extract_path, extract_path_spec};
use crate::text::{concat3, i32_to_string, signed_decimal};
use crate::tui::{menu_mode_name, menu_mode_text};

verus! {

// ---------------------------------------------------------------------------
// First matching row
// ---------------------------------------------------------------------------

/// The first row of `rows` that satisfies `p`.
pub open spec fn first_match<T>(rows: Seq<T>, p: spec_fn(T) -> bool) -> Option<T>
    decreases rows.len(),
{
    if rows.len() == 0 {
        None
    } else if p(rows[0]) {
        Some(rows[0])
    } else {
        first_match(rows.drop_first(), p)
    }
}

/// Some row of `rows` satisfies `p`.
pub open spec fn any_match<T>(rows: Seq<T>, p: spec_fn(T) -> bool) -> bool {
    exists|i: int| 0 <= i < rows.len() && p(#[trigger] rows[i])
}

/// The first match is found exactly when some row matches, and it matches.
pub proof fn lemma_first_match<T>(rows: Seq<T>, p: spec_fn(T) -> bool)
    ensures
        first_match(rows, p) is Some <==> any_match(rows, p),
        first_match(rows, p) matches Some(r) ==> p(r),
    decreases rows.len(),
{
    if rows.len() > 0 {
        lemma_first_match(rows.drop_first(), p);
        if any_match(rows.drop_first(), p) {
            let i = choose|i: int| 0 <= i < rows.drop_first().len() && p(rows.drop_first()[i]);
            assert(rows[i + 1] == rows.drop_first()[i]);
        }
        if any_match(rows, p) && !p(rows[0]) {
            let i = choose|i: int| 0 <= i < rows.len() && p(rows[i]);
            assert(rows.drop_first()[i - 1] == rows[i]);
        }
    }
}

/// A row that matches, with no match before it, is the first match.
pub proof fn lemma_first_match_at<T>(rows: Seq<T>, p: spec_fn(T) -> bool, k: int)
    requires
        0 <= k < rows.len(),
        p(rows[k]),
        forall|j: int| 0 <= j < k ==> !p(#[trigger] rows[j]),
    ensures
        first_match(rows, p) == Some(rows[k]),
    decreases k,
{
    if k > 0 {
        assert(!p(rows[0]));
        assert forall|j: int| 0 <= j < k - 1 implies !p(#[trigger] rows.drop_first()[j]) by {
            assert(rows.drop_first()[j] == rows[j + 1]);
        }
        lemma_first_match_at(rows.drop_first(), p, k - 1);
    }
}

/// Rows whose `id` is `id`.
pub open spec fn engine_has_id(id: i32) -> spec_fn(Engine) -> bool {
    |e: Engine| e.id == id
}

pub open spec fn iwad_has_id(id: i32) -> spec_fn(Iwad) -> bool {
    |w: Iwad| w.id == id
}

pub open spec fn map_has_id(id: i32) -> spec_fn(MapRecord) -> bool {
    |m: MapRecord| m.id == id
}

pub open spec fn editor_has_id(id: i32) -> spec_fn(Editor) -> bool {
    |e: Editor| e.id == id
}

pub open spec fn profile_has_id(id: i32) -> spec_fn(Profile) -> bool {
    |p: Profile| p.id == id
}

/// Editors whose path is `path`.
pub open spec fn editor_has_path(path: Seq<char>) -> spec_fn(Editor) -> bool {
    |e: Editor| e.path@ == path
}

/// Profiles whose name is `name`.
pub open spec fn profile_has_name(name: Seq<char>) -> spec_fn(Profile) -> bool {
    |p: Profile| p.name@ == name
}

/// The first engine with the given id.
pub fn find_engine_by_id(engines: &Vec<Engine>, id: i32) -> (r: Option<Engine>)
    ensures
        r == first_match(engines@, engine_has_id(id)),
{
    let mut i: usize = 0;
    assert(engines@.skip(0) =~= engines@);
    while i < engines.len()
        invariant
            i <= engines@.len(),
            first_match(engines@, engine_has_id(id)) == first_match(
                engines@.skip(i as int),
                engine_has_id(id),
            ),
        decreases engines.len() - i,
    {
        assert(engines@.skip(i as int).drop_first() =~= engines@.skip(i + 1));
        if engines[i].id == id {
            return Some(engines[i].copy());
        }
        i = i + 1;
    }
    None
}

/// The first IWAD with the given id.
pub fn find_iwad_by_id(iwads: &Vec<Iwad>, id: i32) -> (r: Option<Iwad>)
    ensures
        r == first_match(iwads@, iwad_has_id(id)),
{
    let mut i: usize = 0;
    assert(iwads@.skip(0) =~= iwads@);
    while i < iwads.len()
        invariant
            i <= iwads@.len(),
            first_match(iwads@, iwad_has_id(id)) == first_match(
                iwads@.skip(i as int),
                iwad_has_id(id),
            ),
        decreases iwads.len() - i,
    {
        assert(iwads@.skip(i as int).drop_first() =~= iwads@.skip(i + 1));
        if iwads[i].id == id {
            return Some(iwads[i].copy());
        }
        i = i + 1;
    }
    None
}

/// The first map with the given id.
pub fn find_map_by_id(maps: &Vec<MapRecord>, id: i32) -> (r: Option<MapRecord>)
    ensures
        r == first_match(maps@, map_has_id(id)),
{
    let mut i: usize = 0;
    assert(maps@.skip(0) =~= maps@);
    while i < maps.len()
        invariant
            i <= maps@.len(),
            first_match(maps@, map_has_id(id)) == first_match(maps@.skip(i as int), map_has_id(id)),
        decreases maps.len() - i,
    {
        assert(maps@.skip(i as int).drop_first() =~= maps@.skip(i + 1));
        if maps[i].id == id {
            return Some(maps[i].copy());
        }
        i = i + 1;
    }
    None
}

/// The first editor with the given id.
pub fn find_editor_by_id(editors: &Vec<Editor>, id: i32) -> (r: Option<Editor>)
    ensures
        r == first_match(editors@, editor_has_id(id)),
{
    let mut i: usize = 0;
    assert(editors@.skip(0) =~= editors@);
    while i < editors.len()
        invariant
            i <= editors@.len(),
            first_match(editors@, editor_has_id(id)) == first_match(
                editors@.skip(i as int),
                editor_has_id(id),
            ),
        decreases editors.len() - i,
    {
        assert(editors@.skip(i as int).drop_first() =~= editors@.skip(i + 1));
        if editors[i].id == id {
            return Some(editors[i].copy());
        }
        i = i + 1;
    }
    None
}

/// The first editor with the given path.
pub fn find_editor_by_path(editors: &Vec<Editor>, path: &str) -> (r: Option<Editor>)
    ensures
        r == first_match(editors@, editor_has_path(path@)),
{
    let mut i: usize = 0;
    assert(editors@.skip(0) =~= editors@);
    while i < editors.len()
        invariant
            i <= editors@.len(),
            first_match(editors@, editor_has_path(path@)) == first_match(
                editors@.skip(i as int),
                editor_has_path(path@),
            ),
        decreases editors.len() - i,
    {
        assert(editors@.skip(i as int).drop_first() =~= editors@.skip(i + 1));
        if crate::text::str_eq(editors[i].path.as_str(), path) {
            return Some(editors[i].copy());
        }
        i = i + 1;
    }
    None
}

/// The first profile with the given id.
pub fn find_profile_by_id(profiles: &Vec<Profile>, id: i32) -> (r: Option<Profile>)
    ensures
        r == first_match(profiles@, profile_has_id(id)),
{
    let mut i: usize = 0;
    assert(profiles@.skip(0) =~= profiles@);
    while i < profiles.len()
        invariant
            i <= profiles@.len(),
            first_match(profiles@, profile_has_id(id)) == first_match(
                profiles@.skip(i as int),
                profile_has_id(id),
            ),
        decreases profiles.len() - i,
    {
        assert(profiles@.skip(i as int).drop_first() =~= profiles@.skip(i + 1));
        if profiles[i].id == id {
            return Some(profiles[i].copy());
        }
        i = i + 1;
    }
    None
}

/// The first profile with the given name.
pub fn find_profile_by_name(profiles: &Vec<Profile>, name: &str) -> (r: Option<Profile>)
    ensures
        r == first_match(profiles@, profile_has_name(name@)),
{
    let mut i: usize = 0;
    assert(profiles@.skip(0) =~= profiles@);
    while i < profiles.len()
        invariant
            i <= profiles@.len(),
            first_match(profiles@, profile_has_name(name@)) == first_match(
                profiles@.skip(i as int),
                profile_has_name(name@),
            ),
        decreases profiles.len() - i,
    {
        assert(profiles@.skip(i as int).drop_first() =~= profiles@.skip(i + 1));
        if crate::text::str_eq(profiles[i].name.as_str(), name) {
            return Some(profiles[i].copy());
        }
        i = i + 1;
    }
    None
}

// ---------------------------------------------------------------------------
// Lookups that fail with a message
// ---------------------------------------------------------------------------

/// `prefix 'id'`: the message of a failed lookup by id.
pub open spec fn id_error(prefix: Seq<char>, id: i32) -> Seq<char> {
    prefix + signed_decimal(id as int) + "'"@
}

/// `prefix 'text'`: the message of a failed lookup by text.
pub open spec fn text_error(prefix: Seq<char>, text: Seq<char>) -> Seq<char> {
    prefix + text + "'"@
}

fn id_error_message(prefix: &str, id: i32) -> (r: String)
    ensures
        r@ == id_error(prefix@, id),
{
    let n = i32_to_string(id);
    concat3(prefix, n.as_str(), "'")
}

/// The engine with the given id, or the message of the failed lookup.
pub fn get_engine_by_id(engines: &Vec<Engine>, id: i32) -> (r: Result<Engine, String>)
    ensures
        r matches Ok(e) ==> first_match(engines@, engine_has_id(id)) == Some(e),
        r matches Err(m) ==> first_match(engines@, engine_has_id(id)) is None && m@ == id_error(
            "Failed to get engine with id '"@,
            id,
        ),
{
    match find_engine_by_id(engines, id) {
        Some(e) => Ok(e),
        None => Err(id_error_message("Failed to get engine with id '", id)),
    }
}

/// The IWAD with the given id, or the message of the failed lookup.
pub fn get_iwad_by_id(iwads: &Vec<Iwad>, id: i32) -> (r: Result<Iwad, String>)
    ensures
        r matches Ok(w) ==> first_match(iwads@, iwad_has_id(id)) == Some(w),
        r matches Err(m) ==> first_match(iwads@, iwad_has_id(id)) is None && m@ == id_error(
            "Failed to get internal wad with id '"@,
            id,
        ),
{
    match find_iwad_by_id(iwads, id) {
        Some(w) => Ok(w),
        None => Err(id_error_message("Failed to get internal wad with id '", id)),
    }
}

/// The map with the given id, or the message of the failed lookup.
pub fn get_map_by_id(maps: &Vec<MapRecord>, id: i32) -> (r: Result<MapRecord, String>)
    ensures
        r matches Ok(m) ==> first_match(maps@, map_has_id(id)) == Some(m),
        r matches Err(m) ==> first_match(maps@, map_has_id(id)) is None && m@ == id_error(
            "Failed to get map with id '"@,
            id,
        ),
{
    match find_map_by_id(maps, id) {
        Some(m) => Ok(m),
        None => Err(id_error_message("Failed to get map with id '", id)),
    }
}

/// The editor with the given id, or the message of the failed lookup.
pub fn get_editor_by_id(editors: &Vec<Editor>, id: i32) -> (r: Result<Editor, String>)
    ensures
        r matches Ok(e) ==> first_match(editors@, editor_has_id(id)) == Some(e),
        r matches Err(m) ==> first_match(editors@, editor_has_id(id)) is None && m@ == id_error(
            "Failed to get editor with id '"@,
            id,
        ),
{
    match find_editor_by_id(editors, id) {
        Some(e) => Ok(e),
        None => Err(id_error_message("Failed to get editor with id '", id)),
    }
}

/// The editor with the given path, or the message of the failed lookup.
pub fn get_editor_by_path(editors: &Vec<Editor>, path: &str) -> (r: Result<Editor, String>)
    ensures
        r matches Ok(e) ==> first_match(editors@, editor_has_path(path@)) == Some(e),
        r matches Err(m) ==> first_match(editors@, editor_has_path(path@)) is None && m@
            == text_error("Failed to get editor with path '"@, path@),
{
    match find_editor_by_path(editors, path) {
        Some(e) => Ok(e),
        None => Err(concat3("Failed to get editor with path '", path, "'")),
    }
}

/// The profile with the given id, or the message of the failed lookup.
pub fn get_profile_by_id(profiles: &Vec<Profile>, id: i32) -> (r: Result<Profile, String>)
    ensures
        r matches Ok(p) ==> first_match(profiles@, profile_has_id(id)) == Some(p),
        r matches Err(m) ==> first_match(profiles@, profile_has_id(id)) is None && m@ == id_error(
            "Failed to get profile with id '"@,
            id,
        ),
{
    match find_profile_by_id(profiles, id) {
        Some(p) => Ok(p),
        None => Err(id_error_message("Failed to get profile with id '", id)),
    }
}

/// The profile with the given name, or the message of the failed lookup.
pub fn get_profile_by_name(profiles: &Vec<Profile>, name: &str) -> (r: Result<Profile, String>)
    ensures
        r matches Ok(p) ==> first_match(profiles@, profile_has_name(name@)) == Some(p),
        r matches Err(m) ==> first_match(profiles@, profile_has_name(name@)) is None && m@
            == text_error("Failed to get profile with name '"@, name@),
{
    match find_profile_by_name(profiles, name) {
        Some(p) => Ok(p),
        None => Err(concat3("Failed to get profile with name '", name, "'")),
    }
}

// ---------------------------------------------------------------------------
// Maps of a profile
// ---------------------------------------------------------------------------

/// The five ids in slot order.
pub open spec fn map_ids_seq(ids: MapIds) -> Seq<i32> {
    seq![ids.0, ids.1, ids.2, ids.3, ids.4]
}

/// The non-zero ids of `ids`, in order.
pub open spec fn set_map_ids(ids: Seq<i32>) -> Seq<i32>
    decreases ids.len(),
{
    if ids.len() == 0 {
        Seq::empty()
    } else if ids[0] != 0 {
        seq![ids[0]] + set_map_ids(ids.drop_first())
    } else {
        set_map_ids(ids.drop_first())
    }
}

/// Looking up each id of `ids` in `maps`: the maps found, or the first id not found.
pub open spec fn maps_for_ids(maps: Seq<MapRecord>, ids: Seq<i32>) -> Result<Seq<MapRecord>, i32>
    decreases ids.len(),
{
    if ids.len() == 0 {
        Ok(Seq::empty())
    } else {
        match first_match(maps, map_has_id(ids[0])) {
            None => Err(ids[0]),
            Some(m) => match maps_for_ids(maps, ids.drop_first()) {
                Ok(rest) => Ok(seq![m] + rest),
                Err(i) => Err(i),
            },
        }
    }
}

/// The maps of the non-zero slots, in slot order; fails with the message of the first
/// id that has no map.
pub fn get_maps_by_ids(maps: &Vec<MapRecord>, map_ids: MapIds) -> (r: Result<
    Vec<MapRecord>,
    String,
>)
    ensures
        r matches Ok(v) ==> maps_for_ids(maps@, set_map_ids(map_ids_seq(map_ids))) == Ok::<
            Seq<MapRecord>,
            i32,
        >(v@),
        r matches Err(m) ==> exists|i: i32|
            maps_for_ids(maps@, set_map_ids(map_ids_seq(map_ids))) == Err::<Seq<MapRecord>, i32>(i)
                && m@ == id_error("Failed to get map with id '"@, i),
{
    let ids: [i32; 5] = [map_ids.0, map_ids.1, map_ids.2, map_ids.3, map_ids.4];
    let ghost all = map_ids_seq(map_ids);
    assert(ids@ =~= all);
    let mut result: Vec<MapRecord> = Vec::new();
    let mut i: usize = 0;
    assert(all.skip(0) =~= all);
    while i < 5
        invariant
            i <= 5,
            ids@ == all,
            all == map_ids_seq(map_ids),
            all.len() == 5,
            maps_for_ids(maps@, set_map_ids(all)) == match maps_for_ids(
                maps@,
                set_map_ids(all.skip(i as int)),
            ) {
                Ok(rest) => Ok::<Seq<MapRecord>, i32>(result@ + rest),
                Err(j) => Err::<Seq<MapRecord>, i32>(j),
            },
        decreases 5 - i,
    {
        let id = ids[i];
        let ghost tail = all.skip(i as int);
        assert(tail.drop_first() =~= all.skip(i + 1));
        assert(tail[0] == id);
        if id != 0 {
            match get_map_by_id(maps, id) {
                Ok(m) => {
                    proof {
                        let rest = set_map_ids(all.skip(i + 1));
                        assert(set_map_ids(tail) =~= seq![id] + rest);
                        assert((seq![id] + rest).drop_first() =~= rest);
                        match maps_for_ids(maps@, rest) {
                            Ok(x) => {
                                assert(result@.push(m) + x =~= result@ + (seq![m] + x));
                            },
                            Err(_) => {},
                        }
                    }
                    result.push(m);
                },
                Err(e) => {
                    proof {
                        let rest = set_map_ids(all.skip(i + 1));
                        assert(set_map_ids(tail) =~= seq![id] + rest);
                        assert((seq![id] + rest)[0] == id);
                        assert(maps_for_ids(maps@, seq![id] + rest) == Err::<Seq<MapRecord>, i32>(
                            id,
                        ));
                        assert(maps_for_ids(maps@, set_map_ids(tail)) == Err::<Seq<MapRecord>, i32>(
                            id,
                        ));
                        assert(maps_for_ids(maps@, set_map_ids(map_ids_seq(map_ids))) == Err::<
                            Seq<MapRecord>,
                            i32,
                        >(id));
                    }
                    return Err(e);
                },
            }
        }
        i = i + 1;
    }
    proof {
        assert(all.skip(5) =~= Seq::<i32>::empty());
        assert(result@ + Seq::<MapRecord>::empty() =~= result@);
    }
    Ok(result)
}

// ---------------------------------------------------------------------------
// Profile display
// ---------------------------------------------------------------------------

/// The fields of a linked record that a profile display shows, the default record's
/// when there is none.
pub open spec fn engine_app_name_of(e: Option<Engine>) -> Seq<char> {
    match e {
        Some(e) => e.app_name@,
        None => DEFAULT_NOT_SET@,
    }
}

pub open spec fn engine_path_of(e: Option<Engine>) -> Seq<char> {
    match e {
        Some(e) => e.path@,
        None => DEFAULT_NOT_SET@,
    }
}

pub open spec fn engine_version_of(e: Option<Engine>) -> Seq<char> {
    match e {
        Some(e) => e.version@,
        None => "-"@,
    }
}

pub open spec fn iwad_path_of(w: Option<Iwad>) -> Seq<char> {
    match w {
        Some(w) => w.path@,
        None => DEFAULT_NOT_SET@,
    }
}

pub open spec fn map_path_of(m: Option<MapRecord>) -> Seq<char> {
    match m {
        Some(m) => m.path@,
        None => DEFAULT_NOT_SET@,
    }
}

/// The text of an optional string, empty when it is absent.
pub open spec fn text_or_empty(o: Option<String>) -> Seq<char> {
    match o {
        Some(s) => s@,
        None => Seq::empty(),
    }
}

/// `d` shows profile `p` with engine `e`, IWAD `w` and the maps `m` of its five slots
/// (`None` for the default record).
pub open spec fn is_profile_display_of(
    d: ProfileDisplay,
    p: Profile,
    e: Option<Engine>,
    w: Option<Iwad>,
    m: Seq<Option<MapRecord>>,
) -> bool {
    &&& m.len() == 5
    &&& d.id == p.id
    &&& d.name@ == p.name@
    &&& d.engine_id == id_or_zero(p.engine_id)
    &&& d.engine_app_name@ == engine_app_name_of(e)
    &&& d.engine_path@ == extract_path_spec(engine_path_of(e))
    &&& d.engine_file@ == extract_file_name_spec(engine_path_of(e))
    &&& d.engine_version@ == engine_version_of(e)
    &&& d.iwad_id == id_or_zero(p.iwad_id)
    &&& d.iwad_path@ == extract_path_spec(iwad_path_of(w))
    &&& d.iwad_file@ == extract_file_name_spec(iwad_path_of(w))
    &&& d.map_ids == (
        id_or_zero(p.map_id),
        id_or_zero(p.map_id2),
        id_or_zero(p.map_id3),
        id_or_zero(p.map_id4),
        id_or_zero(p.map_id5),
    )
    &&& d.map_paths.0@ == extract_path_spec(map_path_of(m[0]))
    &&& d.map_paths.1@ == extract_path_spec(map_path_of(m[1]))
    &&& d.map_paths.2@ == extract_path_spec(map_path_of(m[2]))
    &&& d.map_paths.3@ == extract_path_spec(map_path_of(m[3]))
    &&& d.map_paths.4@ == extract_path_spec(map_path_of(m[4]))
    &&& d.map_files.0@ == extract_file_name_spec(map_path_of(m[0]))
    &&& d.map_files.1@ == extract_file_name_spec(map_path_of(m[1]))
    &&& d.map_files.2@ == extract_file_name_spec(map_path_of(m[2]))
    &&& d.map_files.3@ == extract_file_name_spec(map_path_of(m[3]))
    &&& d.map_files.4@ == extract_file_name_spec(map_path_of(m[4]))
    &&& d.additional_arguments@ == text_or_empty(p.additional_arguments)
    &&& d.date_created == p.date_created
    &&& d.date_edited == p.date_edited
    &&& d.date_last_run == p.date_last_run
    &&& d.run_count == p.run_count
}

fn engine_or_default(e: Option<Engine>) -> (r: Engine)
    ensures
        r.app_name@ == engine_app_name_of(e),
        r.path@ == engine_path_of(e),
        r.version@ == engine_version_of(e),
{
    match e {
        Some(e) => e,
        None => Engine::default(),
    }
}

fn iwad_or_default(w: Option<Iwad>) -> (r: Iwad)
    ensures
        r.path@ == iwad_path_of(w),
{
    match w {
        Some(w) => w,
        None => Iwad::default(),
    }
}

fn map_or_default(m: Option<MapRecord>) -> (r: MapRecord)
    ensures
        r.path@ == map_path_of(m),
{
    match m {
        Some(m) => m,
        None => MapRecord::default(),
    }
}

/// The display of a profile, given what its links were resolved to.
fn get_profile_display(
    profile: &Profile,
    engine: Option<Engine>,
    iwad: Option<Iwad>,
    maps: (Option<MapRecord>, Option<MapRecord>, Option<MapRecord>, Option<MapRecord>, Option<
        MapRecord,
    >),
) -> (d: ProfileDisplay)
    ensures
        is_profile_display_of(d, *profile, engine, iwad, seq![maps.0, maps.1, maps.2, maps.3, maps.4]),
{
    let e = engine_or_default(engine);
    let w = iwad_or_default(iwad);
    let m0 = map_or_default(maps.0);
    let m1 = map_or_default(maps.1);
    let m2 = map_or_default(maps.2);
    let m3 = map_or_default(maps.3);
    let m4 = map_or_default(maps.4);
    let additional_arguments = match &profile.additional_arguments {
        Some(a) => a.clone(),
        None => String::new(),
    };
    let d = ProfileDisplay {
        id: profile.id,
        name: profile.name.clone(),
        engine_id: profile.engine_id.unwrap_or(0),
        engine_app_name: e.app_name.clone(),
        engine_path: extract_path(e.path.as_str()),
        engine_file: extract_file_name(e.path.as_str()),
        engine_version: e.version.clone(),
        iwad_id: profile.iwad_id.unwrap_or(0),
        iwad_path: extract_path(w.path.as_str()),
        iwad_file: extract_file_name(w.path.as_str()),
        map_ids: (
            profile.map_id.unwrap_or(0),
            profile.map_id2.unwrap_or(0),
            profile.map_id3.unwrap_or(0),
            profile.map_id4.unwrap_or(0),
            profile.map_id5.unwrap_or(0),
        ),
        map_paths: (
            extract_path(m0.path.as_str()),
            extract_path(m1.path.as_str()),
            extract_path(m2.path.as_str()),
            extract_path(m3.path.as_str()),
            extract_path(m4.path.as_str()),
        ),
        map_files: (
            extract_file_name(m0.path.as_str()),
            extract_file_name(m1.path.as_str()),
            extract_file_name(m2.path.as_str()),
            extract_file_name(m3.path.as_str()),
            extract_file_name(m4.path.as_str()),
        ),
        additional_arguments,
        date_created: profile.date_created,
        date_edited: profile.date_edited,
        date_last_run: profile.date_last_run,
        run_count: profile.run_count,
    };
    d
}

/// The engine, IWAD and maps the display list resolves a profile's links to: the first
/// row with the slot's id, an empty slot counting as id 0.
pub open spec fn list_links(
    p: Profile,
    engines: Seq<Engine>,
    iwads: Seq<Iwad>,
    maps: Seq<MapRecord>,
) -> (Option<Engine>, Option<Iwad>, Seq<Option<MapRecord>>) {
    (
        first_match(engines, engine_has_id(id_or_zero(p.engine_id))),
        first_match(iwads, iwad_has_id(id_or_zero(p.iwad_id))),
        seq![
            first_match(maps, map_has_id(id_or_zero(p.map_id))),
            first_match(maps, map_has_id(id_or_zero(p.map_id2))),
            first_match(maps, map_has_id(id_or_zero(p.map_id3))),
            first_match(maps, map_has_id(id_or_zero(p.map_id4))),
            first_match(maps, map_has_id(id_or_zero(p.map_id5))),
        ],
    )
}

/// The display of every profile, in order. A link whose row is missing shows the
/// default record.
pub fn get_profile_display_list(
    profiles: &Vec<Profile>,
    engines: &Vec<Engine>,
    iwads: &Vec<Iwad>,
    maps: &Vec<MapRecord>,
) -> (r: Vec<ProfileDisplay>)
    ensures
        r@.len() == profiles@.len(),
        forall|i: int|
            0 <= i < profiles@.len() ==> {
                let links = list_links(profiles@[i], engines@, iwads@, maps@);
                is_profile_display_of(#[trigger] r@[i], profiles@[i], links.0, links.1, links.2)
            },
{
    let mut out: Vec<ProfileDisplay> = Vec::new();
    let mut i: usize = 0;
    while i < profiles.len()
        invariant
            i <= profiles@.len(),
            out@.len() == i,
            forall|k: int|
                0 <= k < i ==> {
                    let links = list_links(profiles@[k], engines@, iwads@, maps@);
                    is_profile_display_of(#[trigger] out@[k], profiles@[k], links.0, links.1, links.2)
                },
        decreases profiles.len() - i,
    {
        let p = &profiles[i];
        let e = find_engine_by_id(engines, p.engine_id.unwrap_or(0));
        let w = find_iwad_by_id(iwads, p.iwad_id.unwrap_or(0));
        let m0 = find_map_by_id(maps, p.map_id.unwrap_or(0));
        let m1 = find_map_by_id(maps, p.map_id2.unwrap_or(0));
        let m2 = find_map_by_id(maps, p.map_id3.unwrap_or(0));
        let m3 = find_map_by_id(maps, p.map_id4.unwrap_or(0));
        let m4 = find_map_by_id(maps, p.map_id5.unwrap_or(0));
        let d = get_profile_display(p, e, w, (m0, m1, m2, m3, m4));
        proof {
            let links = list_links(profiles@[i as int], engines@, iwads@, maps@);
            assert(links.2 =~= seq![m0, m1, m2, m3, m4]);
        }
        out.push(d);
        i = i + 1;
    }
    out
}

/// Resolves an optional link by id: `None` when the slot is empty, the first row with
/// the id when there is one, and the id itself when there is none.
pub open spec fn resolve_link<T>(rows: Seq<T>, slot: Option<i32>, has_id: spec_fn(i32) -> spec_fn(
    T,
) -> bool) -> Result<Option<T>, i32> {
    match slot {
        None => Ok(None),
        Some(id) => match first_match(rows, has_id(id)) {
            Some(r) => Ok(Some(r)),
            None => Err(id),
        },
    }
}

/// The outcome of `get_profile_display_by_id`: the profile, then its engine, IWAD and
/// each map slot in order, each link that is set has to resolve; the message is that
/// of the first lookup that fails.
pub open spec fn profile_display_by_id_ok(
    profiles: Seq<Profile>,
    engines: Seq<Engine>,
    iwads: Seq<Iwad>,
    maps: Seq<MapRecord>,
    id: i32,
    d: ProfileDisplay,
) -> bool {
    exists|p: Profile, e: Option<Engine>, w: Option<Iwad>, m: Seq<Option<MapRecord>>|
        #![trigger is_profile_display_of(d, p, e, w, m)]
        {
            &&& first_match(profiles, profile_has_id(id)) == Some(p)
            &&& resolve_link(engines, p.engine_id, |i: i32| engine_has_id(i)) == Ok::<
                Option<Engine>,
                i32,
            >(e)
            &&& resolve_link(iwads, p.iwad_id, |i: i32| iwad_has_id(i)) == Ok::<Option<Iwad>, i32>(
                w,
            )
            &&& m.len() == 5
            &&& resolve_link(maps, p.map_id, |i: i32| map_has_id(i)) == Ok::<
                Option<MapRecord>,
                i32,
            >(m[0])
            &&& resolve_link(maps, p.map_id2, |i: i32| map_has_id(i)) == Ok::<
                Option<MapRecord>,
                i32,
            >(m[1])
            &&& resolve_link(maps, p.map_id3, |i: i32| map_has_id(i)) == Ok::<
                Option<MapRecord>,
                i32,
            >(m[2])
            &&& resolve_link(maps, p.map_id4, |i: i32| map_has_id(i)) == Ok::<
                Option<MapRecord>,
                i32,
            >(m[3])
            &&& resolve_link(maps, p.map_id5, |i: i32| map_has_id(i)) == Ok::<
                Option<MapRecord>,
                i32,
            >(m[4])
            &&& is_profile_display_of(d, p, e, w, m)
        }
}

/// The first failing lookup of `get_profile_display_by_id`, as its message.
pub open spec fn profile_display_by_id_error(
    profiles: Seq<Profile>,
    engines: Seq<Engine>,
    iwads: Seq<Iwad>,
    maps: Seq<MapRecord>,
    id: i32,
) -> Option<Seq<char>> {
    match first_match(profiles, profile_has_id(id)) {
        None => Some(id_error("Failed to get profile with id '"@, id)),
        Some(p) => match resolve_link(engines, p.engine_id, |i: i32| engine_has_id(i)) {
            Err(j) => Some(id_error("Failed to get engine with id '"@, j)),
            Ok(_) => match resolve_link(iwads, p.iwad_id, |i: i32| iwad_has_id(i)) {
                Err(j) => Some(id_error("Failed to get internal wad with id '"@, j)),
                Ok(_) => match resolve_link(maps, p.map_id, |i: i32| map_has_id(i)) {
                    Err(j) => Some(id_error("Failed to get map with id '"@, j)),
                    Ok(_) => match resolve_link(maps, p.map_id2, |i: i32| map_has_id(i)) {
                        Err(j) => Some(id_error("Failed to get map with id '"@, j)),
                        Ok(_) => match resolve_link(maps, p.map_id3, |i: i32| map_has_id(i)) {
                            Err(j) => Some(id_error("Failed to get map with id '"@, j)),
                            Ok(_) => match resolve_link(maps, p.map_id4, |i: i32| map_has_id(i)) {
                                Err(j) => Some(id_error("Failed to get map with id '"@, j)),
                                Ok(_) => match resolve_link(
                                    maps,
                                    p.map_id5,
                                    |i: i32| map_has_id(i),
                                ) {
                                    Err(j) => Some(id_error("Failed to get map with id '"@, j)),
                                    Ok(_) => None,
                                },
                            },
                        },
                    },
                },
            },
        },
    }
}

fn resolve_map_link(maps: &Vec<MapRecord>, slot: Option<i32>) -> (r: Result<
    Option<MapRecord>,
    String,
>)
    ensures
        r matches Ok(m) ==> resolve_link(maps@, slot, |i: i32| map_has_id(i)) == Ok::<
            Option<MapRecord>,
            i32,
        >(m),
        r matches Err(msg) ==> exists|j: i32|
            resolve_link(maps@, slot, |i: i32| map_has_id(i)) == Err::<Option<MapRecord>, i32>(j)
                && msg@ == id_error("Failed to get map with id '"@, j),
{
    match slot {
        None => Ok(None),
        Some(id) => match get_map_by_id(maps, id) {
            Ok(m) => Ok(Some(m)),
            Err(e) => Err(e),
        },
    }
}

/// The display of the profile with the given id, its links resolved by id; fails with
/// the message of the first lookup that finds nothing.
pub fn get_profile_display_by_id(
    profiles: &Vec<Profile>,
    engines: &Vec<Engine>,
    iwads: &Vec<Iwad>,
    maps: &Vec<MapRecord>,
    id: i32,
) -> (r: Result<ProfileDisplay, String>)
    ensures
        r matches Ok(d) ==> profile_display_by_id_error(profiles@, engines@, iwads@, maps@, id)
            is None && profile_display_by_id_ok(profiles@, engines@, iwads@, maps@, id, d),
        r matches Err(m) ==> profile_display_by_id_error(profiles@, engines@, iwads@, maps@, id)
            == Some(m@),
{
    let profile = match get_profile_by_id(profiles, id) {
        Ok(p) => p,
        Err(e) => return Err(e),
    };
    let engine = match profile.engine_id {
        None => None,
        Some(eid) => match get_engine_by_id(engines, eid) {
            Ok(e) => Some(e),
            Err(e) => return Err(e),
        },
    };
    let iwad = match profile.iwad_id {
        None => None,
        Some(wid) => match get_iwad_by_id(iwads, wid) {
            Ok(w) => Some(w),
            Err(e) => return Err(e),
        },
    };
    let m0 = match resolve_map_link(maps, profile.map_id) {
        Ok(m) => m,
        Err(e) => return Err(e),
    };
    let m1 = match resolve_map_link(maps, profile.map_id2) {
        Ok(m) => m,
        Err(e) => return Err(e),
    };
    let m2 = match resolve_map_link(maps, profile.map_id3) {
        Ok(m) => m,
        Err(e) => return Err(e),
    };
    let m3 = match resolve_map_link(maps, profile.map_id4) {
        Ok(m) => m,
        Err(e) => return Err(e),
    };
    let m4 = match resolve_map_link(maps, profile.map_id5) {
        Ok(m) => m,
        Err(e) => return Err(e),
    };
    let d = get_profile_display(&profile, engine, iwad, (m0, m1, m2, m3, m4));
    proof {
        let m = seq![m0, m1, m2, m3, m4];
        assert(is_profile_display_of(d, profile, engine, iwad, m));
    }
    Ok(d)
}

// ---------------------------------------------------------------------------
// Settings display
// ---------------------------------------------------------------------------

/// The first failing lookup of `get_app_settings_display`, as its message: the default
/// profile, the last profile, then the default engine, IWAD and editor.
pub open spec fn app_settings_display_error(
    s: AppSettings,
    profiles: Seq<Profile>,
    engines: Seq<Engine>,
    iwads: Seq<Iwad>,
    maps: Seq<MapRecord>,
    editors: Seq<Editor>,
) -> Option<Seq<char>> {
    let default_profile = match s.default_profile_id {
        Some(id) => profile_display_by_id_error(profiles, engines, iwads, maps, id),
        None => None,
    };
    let last_profile = match s.last_profile_id {
        Some(id) => profile_display_by_id_error(profiles, engines, iwads, maps, id),
        None => None,
    };
    let engine = match s.default_engine_id {
        Some(id) => if first_match(engines, engine_has_id(id)) is None {
            Some(id_error("Failed to get engine with id '"@, id))
        } else {
            None
        },
        None => None,
    };
    let iwad = match s.default_iwad_id {
        Some(id) => if first_match(iwads, iwad_has_id(id)) is None {
            Some(id_error("Failed to get internal wad with id '"@, id))
        } else {
            None
        },
        None => None,
    };
    let editor = match s.default_editor_id {
        Some(id) => if first_match(editors, editor_has_id(id)) is None {
            Some(id_error("Failed to get editor with id '"@, id))
        } else {
            None
        },
        None => None,
    };
    if default_profile is Some {
        default_profile
    } else if last_profile is Some {
        last_profile
    } else if engine is Some {
        engine
    } else if iwad is Some {
        iwad
    } else {
        editor
    }
}

/// The text shown for a profile setting: the profile's display line, or
/// `DEFAULT_NOT_SET` when none is set.
pub open spec fn profile_setting_text(
    slot: Option<i32>,
    profiles: Seq<Profile>,
    engines: Seq<Engine>,
    iwads: Seq<Iwad>,
    maps: Seq<MapRecord>,
    text: Seq<char>,
) -> bool {
    match slot {
        None => text == DEFAULT_NOT_SET@,
        Some(id) => exists|d: ProfileDisplay|
            profile_display_by_id_ok(profiles, engines, iwads, maps, id, d) && text
                == #[trigger] profile_display_text(d),
    }
}

/// The text shown for an engine, IWAD or editor setting.
pub open spec fn engine_setting_text(slot: Option<i32>, engines: Seq<Engine>) -> Seq<char> {
    match slot {
        None => DEFAULT_NOT_SET@,
        Some(id) => engine_text(first_match(engines, engine_has_id(id))->0),
    }
}

pub open spec fn iwad_setting_text(slot: Option<i32>, iwads: Seq<Iwad>) -> Seq<char> {
    match slot {
        None => DEFAULT_NOT_SET@,
        Some(id) => iwad_text(first_match(iwads, iwad_has_id(id))->0),
    }
}

pub open spec fn editor_setting_text(slot: Option<i32>, editors: Seq<Editor>) -> Seq<char> {
    match slot {
        None => DEFAULT_NOT_SET@,
        Some(id) => editor_text(first_match(editors, editor_has_id(id))->0),
    }
}

fn profile_setting_display(
    slot: Option<i32>,
    profiles: &Vec<Profile>,
    engines: &Vec<Engine>,
    iwads: &Vec<Iwad>,
    maps: &Vec<MapRecord>,
) -> (r: Result<String, String>)
    ensures
        r matches Ok(t) ==> (match slot {
            Some(id) => profile_display_by_id_error(profiles@, engines@, iwads@, maps@, id) is None,
            None => true,
        }) && profile_setting_text(slot, profiles@, engines@, iwads@, maps@, t@),
        r matches Err(m) ==> (match slot {
            Some(id) => profile_display_by_id_error(profiles@, engines@, iwads@, maps@, id) == Some(
                m@,
            ),
            None => false,
        }),
{
    match slot {
        Some(id) => match get_profile_display_by_id(profiles, engines, iwads, maps, id) {
            Ok(d) => {
                let t = d.display_text();
                Ok(t)
            },
            Err(e) => Err(e),
        },
        None => Ok(crate::text::copy_str(DEFAULT_NOT_SET)),
    }
}

/// The settings as the menus show them: each linked record as its display line and
/// each unset value as `DEFAULT_NOT_SET`; fails with the message of the first link that
/// does not resolve.
pub fn get_app_settings_display(
    app_settings: &AppSettings,
    profiles: &Vec<Profile>,
    engines: &Vec<Engine>,
    iwads: &Vec<Iwad>,
    maps: &Vec<MapRecord>,
    editors: &Vec<Editor>,
) -> (r: Result<AppSettingsDisplay, String>)
    ensures
        r matches Ok(d) ==> {
            &&& app_settings_display_error(
                *app_settings,
                profiles@,
                engines@,
                iwads@,
                maps@,
                editors@,
            ) is None
            &&& d.menu_mode@ == menu_mode_text(app_settings.menu_mode)
            &&& profile_setting_text(
                app_settings.default_profile_id,
                profiles@,
                engines@,
                iwads@,
                maps@,
                d.default_profile@,
            )
            &&& profile_setting_text(
                app_settings.last_profile_id,
                profiles@,
                engines@,
                iwads@,
                maps@,
                d.last_profile@,
            )
            &&& d.default_engine@ == engine_setting_text(app_settings.default_engine_id, engines@)
            &&& d.default_iwad@ == iwad_setting_text(app_settings.default_iwad_id, iwads@)
            &&& d.default_editor@ == editor_setting_text(app_settings.default_editor_id, editors@)
            &&& d.engine_search_folder@ == opt_text(
                opt_string_view(app_settings.engine_search_folder),
            )
            &&& d.iwad_search_folder@ == opt_text(opt_string_view(app_settings.iwad_search_folder))
            &&& d.map_search_folder@ == opt_text(opt_string_view(app_settings.map_search_folder))
            &&& d.editor_search_folder@ == opt_text(
                opt_string_view(app_settings.editor_search_folder),
            )
        },
        r matches Err(m) ==> app_settings_display_error(
            *app_settings,
            profiles@,
            engines@,
            iwads@,
            maps@,
            editors@,
        ) == Some(m@),
{
    let default_profile = match profile_setting_display(
        app_settings.default_profile_id,
        profiles,
        engines,
        iwads,
        maps,
    ) {
        Ok(t) => t,
        Err(e) => return Err(e),
    };
    let last_profile = match profile_setting_display(
        app_settings.last_profile_id,
        profiles,
        engines,
        iwads,
        maps,
    ) {
        Ok(t) => t,
        Err(e) => return Err(e),
    };
    let default_engine = match app_settings.default_engine_id {
        Some(id) => match get_engine_by_id(engines, id) {
            Ok(e) => e.display_text(),
            Err(e) => return Err(e),
        },
        None => crate::text::copy_str(DEFAULT_NOT_SET),
    };
    let default_iwad = match app_settings.default_iwad_id {
        Some(id) => match get_iwad_by_id(iwads, id) {
            Ok(w) => w.display_text(),
            Err(e) => return Err(e),
        },
        None => crate::text::copy_str(DEFAULT_NOT_SET),
    };
    let default_editor = match app_settings.default_editor_id {
        Some(id) => match get_editor_by_id(editors, id) {
            Ok(e) => e.display_text(),
            Err(e) => return Err(e),
        },
        None => crate::text::copy_str(DEFAULT_NOT_SET),
    };
    Ok(
        AppSettingsDisplay {
            menu_mode: menu_mode_name(app_settings.menu_mode),
            default_profile,
            last_profile,
            default_engine,
            default_iwad,
            default_editor,
            engine_search_folder: display_option_string(&app_settings.engine_search_folder),
            iwad_search_folder: display_option_string(&app_settings.iwad_search_folder),
            map_search_folder: display_option_string(&app_settings.map_search_folder),
            editor_search_folder: display_option_string(&app_settings.editor_search_folder),
        },
    )
}

// ---------------------------------------------------------------------------
// Links to profiles
// ---------------------------------------------------------------------------

/// Whether some profile uses the engine.
pub fn is_engine_linked_to_profiles(profiles: &Vec<Profile>, id: i32) -> (r: bool)
    ensures
        r == exists|i: int| 0 <= i < profiles@.len() && (#[trigger] profiles@[i]).engine_id == Some(id),
{
    let mut i: usize = 0;
    while i < profiles.len()
        invariant
            i <= profiles@.len(),
            forall|k: int| 0 <= k < i ==> (#[trigger] profiles@[k]).engine_id != Some(id),
        decreases profiles.len() - i,
    {
        if profiles[i].engine_id == Some(id) {
            return true;
        }
        i = i + 1;
    }
    false
}

/// Whether some profile uses the IWAD.
pub fn is_iwad_linked_to_profiles(profiles: &Vec<Profile>, id: i32) -> (r: bool)
    ensures
        r == exists|i: int| 0 <= i < profiles@.len() && (#[trigger] profiles@[i]).iwad_id == Some(id),
{
    let mut i: usize = 0;
    while i < profiles.len()
        invariant
            i <= profiles@.len(),
            forall|k: int| 0 <= k < i ==> (#[trigger] profiles@[k]).iwad_id != Some(id),
        decreases profiles.len() - i,
    {
        if profiles[i].iwad_id == Some(id) {
            return true;
        }
        i = i + 1;
    }
    false
}

/// Whether a profile uses the map in one of its five slots.
pub open spec fn profile_uses_map(p: Profile, id: i32) -> bool {
    p.map_id == Some(id) || p.map_id2 == Some(id) || p.map_id3 == Some(id) || p.map_id4 == Some(
        id,
    ) || p.map_id5 == Some(id)
}

/// Whether some profile uses the map.
pub fn is_map_linked_to_profiles(profiles: &Vec<Profile>, id: i32) -> (r: bool)
    ensures
        r == exists|i: int| 0 <= i < profiles@.len() && profile_uses_map(#[trigger] profiles@[i], id),
{
    let mut i: usize = 0;
    while i < profiles.len()
        invariant
            i <= profiles@.len(),
            forall|k: int| 0 <= k < i ==> !profile_uses_map(#[trigger] profiles@[k], id),
        decreases profiles.len() - i,
    {
        let p = &profiles[i];
        if p.map_id == Some(id) || p.map_id2 == Some(id) || p.map_id3 == Some(id) || p.map_id4
            == Some(id) || p.map_id5 == Some(id) {
            return true;
        }
        i = i + 1;
    }
    false
}


// ---------------------------------------------------------------------------
// Laws
// ---------------------------------------------------------------------------

/// The maps of a profile's slots come back in slot order, one for each slot that is
/// set, each with the slot's id.
pub proof fn law_maps_by_ids_follow_the_slots(maps: Seq<MapRecord>, ids: Seq<i32>)
    ensures
        maps_for_ids(maps, ids) matches Ok(found) ==> found.len() == ids.len() && forall|k: int|
            0 <= k < ids.len() ==> (#[trigger] found[k]).id == ids[k],
    decreases ids.len(),
{
    if ids.len() > 0 {
        law_maps_by_ids_follow_the_slots(maps, ids.drop_first());
        lemma_first_match(maps, map_has_id(ids[0]));
        match maps_for_ids(maps, ids) {
            Ok(found) => {
                let m = first_match(maps, map_has_id(ids[0]))->0;
                let rest = maps_for_ids(maps, ids.drop_first())->Ok_0;
                assert(found == seq![m] + rest);
                assert forall|k: int| 0 <= k < ids.len() implies (#[trigger] found[k]).id == ids[k] by {
                    if k > 0 {
                        assert(found[k] == rest[k - 1]);
                        assert(ids.drop_first()[k - 1] == ids[k]);
                    }
                }
            },
            Err(_) => {},
        }
    }
}


/// Two profile displays show the same values, field by field.
pub open spec fn same_profile_display(a: ProfileDisplay, b: ProfileDisplay) -> bool {
    &&& a.id == b.id
    &&& a.name@ == b.name@
    &&& a.engine_id == b.engine_id
    &&& a.engine_app_name@ == b.engine_app_name@
    &&& a.engine_path@ == b.engine_path@
    &&& a.engine_file@ == b.engine_file@
    &&& a.engine_version@ == b.engine_version@
    &&& a.iwad_id == b.iwad_id
    &&& a.iwad_path@ == b.iwad_path@
    &&& a.iwad_file@ == b.iwad_file@
    &&& a.map_ids == b.map_ids
    &&& a.map_paths.0@ == b.map_paths.0@
    &&& a.map_paths.1@ == b.map_paths.1@
    &&& a.map_paths.2@ == b.map_paths.2@
    &&& a.map_paths.3@ == b.map_paths.3@
    &&& a.map_paths.4@ == b.map_paths.4@
    &&& a.map_files.0@ == b.map_files.0@
    &&& a.map_files.1@ == b.map_files.1@
    &&& a.map_files.2@ == b.map_files.2@
    &&& a.map_files.3@ == b.map_files.3@
    &&& a.map_files.4@ == b.map_files.4@
    &&& a.additional_arguments@ == b.additional_arguments@
    &&& a.date_created == b.date_created
    &&& a.date_edited == b.date_edited
    &&& a.date_last_run == b.date_last_run
    &&& a.run_count == b.run_count
}

/// The list resolves an empty slot as id 0; the single lookup leaves it empty. They agree
/// when no stored row has id 0 for a slot that the profile leaves empty.
pub open spec fn empty_slots_match_nothing(
    p: Profile,
    engines: Seq<Engine>,
    iwads: Seq<Iwad>,
    maps: Seq<MapRecord>,
) -> bool {
    &&& p.engine_id is None ==> first_match(engines, engine_has_id(0)) is None
    &&& p.iwad_id is None ==> first_match(iwads, iwad_has_id(0)) is None
    &&& (p.map_id is None || p.map_id2 is None || p.map_id3 is None || p.map_id4 is None
        || p.map_id5 is None) ==> first_match(maps, map_has_id(0)) is None
}

/// Two displays of one profile with the same linked records show the same values.
proof fn lemma_display_determined(
    a: ProfileDisplay,
    b: ProfileDisplay,
    p: Profile,
    e: Option<Engine>,
    w: Option<Iwad>,
    m: Seq<Option<MapRecord>>,
    n: Seq<Option<MapRecord>>,
)
    requires
        is_profile_display_of(a, p, e, w, m),
        is_profile_display_of(b, p, e, w, n),
        forall|k: int| 0 <= k < 5 ==> m[k] == n[k],
    ensures
        same_profile_display(a, b),
{
    assert(m[0] == n[0] && m[1] == n[1] && m[2] == n[2] && m[3] == n[3] && m[4] == n[4]);
}

/// A map slot resolved by the single lookup is the record the list shows for it.
proof fn lemma_map_slot_agrees(maps: Seq<MapRecord>, slot: Option<i32>, found: Option<MapRecord>)
    requires
        resolve_link(maps, slot, |i: i32| map_has_id(i)) == Ok::<Option<MapRecord>, i32>(found),
        slot is None ==> first_match(maps, map_has_id(0)) is None,
    ensures
        found == first_match(maps, map_has_id(id_or_zero(slot))),
{
}

/// The display of the profile with a given id, when it can be made, shows the same
/// values as that profile's entry in the display list, as long as no stored row has id 0
/// for a slot the profile leaves empty (the list resolves an empty slot as id 0). The
/// profile is the first one with that id.
pub proof fn law_profile_display_by_id_is_list_entry(
    profiles: Seq<Profile>,
    engines: Seq<Engine>,
    iwads: Seq<Iwad>,
    maps: Seq<MapRecord>,
    id: i32,
    d: ProfileDisplay,
    list: Seq<ProfileDisplay>,
    i: int,
)
    requires
        0 <= i < profiles.len(),
        profiles[i].id == id,
        forall|j: int| 0 <= j < i ==> (#[trigger] profiles[j]).id != id,
        empty_slots_match_nothing(profiles[i], engines, iwads, maps),
        profile_display_by_id_ok(profiles, engines, iwads, maps, id, d),
        list.len() == profiles.len(),
        forall|k: int|
            0 <= k < profiles.len() ==> {
                let links = list_links(profiles[k], engines, iwads, maps);
                is_profile_display_of(#[trigger] list[k], profiles[k], links.0, links.1, links.2)
            },
    ensures
        same_profile_display(d, list[i]),
{
    lemma_first_match_at(profiles, profile_has_id(id), i);
    let (p, e, w, m) = choose|p: Profile, e: Option<Engine>, w: Option<Iwad>, m: Seq<
        Option<MapRecord>,
    >|
        #![trigger is_profile_display_of(d, p, e, w, m)]
        {
            &&& first_match(profiles, profile_has_id(id)) == Some(p)
            &&& resolve_link(engines, p.engine_id, |i: i32| engine_has_id(i)) == Ok::<
                Option<Engine>,
                i32,
            >(e)
            &&& resolve_link(iwads, p.iwad_id, |i: i32| iwad_has_id(i)) == Ok::<Option<Iwad>, i32>(
                w,
            )
            &&& m.len() == 5
            &&& resolve_link(maps, p.map_id, |i: i32| map_has_id(i)) == Ok::<
                Option<MapRecord>,
                i32,
            >(m[0])
            &&& resolve_link(maps, p.map_id2, |i: i32| map_has_id(i)) == Ok::<
                Option<MapRecord>,
                i32,
            >(m[1])
            &&& resolve_link(maps, p.map_id3, |i: i32| map_has_id(i)) == Ok::<
                Option<MapRecord>,
                i32,
            >(m[2])
            &&& resolve_link(maps, p.map_id4, |i: i32| map_has_id(i)) == Ok::<
                Option<MapRecord>,
                i32,
            >(m[3])
            &&& resolve_link(maps, p.map_id5, |i: i32| map_has_id(i)) == Ok::<
                Option<MapRecord>,
                i32,
            >(m[4])
            &&& is_profile_display_of(d, p, e, w, m)
        };
    assert(p == profiles[i]);
    let links = list_links(p, engines, iwads, maps);
    assert(e == links.0);
    assert(w == links.1);
    lemma_map_slot_agrees(maps, p.map_id, m[0]);
    lemma_map_slot_agrees(maps, p.map_id2, m[1]);
    lemma_map_slot_agrees(maps, p.map_id3, m[2]);
    lemma_map_slot_agrees(maps, p.map_id4, m[3]);
    lemma_map_slot_agrees(maps, p.map_id5, m[4]);
    assert(is_profile_display_of(list[i], p, links.0, links.1, links.2));
    lemma_display_determined(d, list[i], p, e, w, m, links.2);
}

} // verus!

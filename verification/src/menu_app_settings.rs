//! The launcher's settings: the menu mode, the defaults, the search folders, and how
//! the stored engines, IWADs and maps are brought in line with what a search found.

use vstd::prelude::*;
use crate::data::{editor_text, engine_text, iwad_text, AppSettings, Editor, Engine, Iwad, MapRecord, Profile};
use crate::doom_data::{InternalWad, InternalWadType};
use crate::files::get_internal_wad_type_from_file_name;
use crate::paths::extract_file_name_spec;
use crate::db::{
    editor_has_path, first_match, is_engine_linked_to_profiles, is_iwad_linked_to_profiles,
    is_map_linked_to_profiles, profile_uses_map,
};
use crate::text::{
    ascii_lowercase, concat2, concat3, contains_string, copy_str, str_eq, to_lowercase, unicode_lowercase,
};
use crate::tui::{fg_text, green, menu_mode_name, menu_mode_text, red, toggled, MenuMode};

verus! {

// ---------------------------------------------------------------------------
// Start-up and menu mode
// ---------------------------------------------------------------------------

/// Whether the app has to run its set-up before anything else: when the settings table
/// is empty, unless set-up itself was forced.
pub fn check_app_can_run(force: bool, app_settings_table_empty: bool) -> (needs_init: bool)
    ensures
        needs_init == (!force && app_settings_table_empty),
{
    !force && app_settings_table_empty
}

/// `Menu mode set to: <mode>`.
pub open spec fn menu_mode_set_message(m: MenuMode) -> Seq<char> {
    "Menu mode set to: "@ + menu_mode_text(m)
}

/// Switches the menu mode between full and simple.
pub fn update_menu_mode(app_settings: &mut AppSettings) -> (r: String)
    ensures
        *final(app_settings) == (AppSettings {
            menu_mode: toggled(old(app_settings).menu_mode),
            ..*old(app_settings)
        }),
        r@ == menu_mode_set_message(toggled(old(app_settings).menu_mode)),
{
    if app_settings.menu_mode == MenuMode::Full {
        app_settings.menu_mode = MenuMode::Simple;
    } else {
        app_settings.menu_mode = MenuMode::Full;
    }
    let name = menu_mode_name(app_settings.menu_mode);
    let mut r = copy_str("Menu mode set to: ");
    r.append(name.as_str());
    r
}

/// Switching the menu mode twice gives back the mode one started from.
pub proof fn law_menu_mode_toggle_twice(m: MenuMode)
    ensures
        toggled(toggled(m)) == m,
{
}

/// Sets the menu mode; asking for the mode already set changes nothing.
pub fn cli_update_menu_mode(app_settings: &mut AppSettings, menu_mode: MenuMode) -> (r: String)
    ensures
        *final(app_settings) == (AppSettings { menu_mode, ..*old(app_settings) }),
        old(app_settings).menu_mode == menu_mode ==> r@ == "Menu mode is already set to: "@
            + menu_mode_text(menu_mode),
        old(app_settings).menu_mode != menu_mode ==> r@ == menu_mode_set_message(menu_mode),
{
    if app_settings.menu_mode == menu_mode {
        let name = menu_mode_name(menu_mode);
        let mut r = copy_str("Menu mode is already set to: ");
        r.append(name.as_str());
        return r;
    }
    app_settings.menu_mode = menu_mode;
    let name = menu_mode_name(menu_mode);
    let mut r = copy_str("Menu mode set to: ");
    r.append(name.as_str());
    r
}

// ---------------------------------------------------------------------------
// Set-up from the command line
// ---------------------------------------------------------------------------

/// The folders a command-line set-up searches: the engine, IWAD and map folders, the
/// map folder being the IWAD folder when none is given; fails when a folder does not
/// exist, checking the engine folder, then the IWAD folder, then the map folder.
pub open spec fn cli_init_spec(
    engine_path: Seq<char>,
    iwad_path: Seq<char>,
    map_path: Option<Seq<char>>,
    engine_exists: bool,
    iwad_exists: bool,
    map_exists: bool,
) -> Result<(Seq<char>, Seq<char>, Seq<char>), Seq<char>> {
    if !engine_exists {
        Err("Engine path does not exist: "@ + engine_path)
    } else if !iwad_exists {
        Err("IWAD path does not exist: "@ + iwad_path)
    } else {
        match map_path {
            Some(m) => if !map_exists {
                Err("Map path does not exist: "@ + m)
            } else {
                Ok((engine_path, iwad_path, m))
            },
            None => Ok((engine_path, iwad_path, iwad_path)),
        }
    }
}

/// Checks the folders of a command-line set-up and gives the three folders to search.
/// `map_exists` is only looked at when a map folder is given.
pub fn cli_init(
    engine_path: &str,
    iwad_path: &str,
    map_path: Option<String>,
    engine_exists: bool,
    iwad_exists: bool,
    map_exists: bool,
) -> (r: Result<(String, String, String), String>)
    ensures
        match (
            r,
            cli_init_spec(
                engine_path@,
                iwad_path@,
                match map_path {
                    Some(m) => Some(m@),
                    None => None,
                },
                engine_exists,
                iwad_exists,
                map_exists,
            ),
        ) {
            (Ok(got), Ok(want)) => got.0@ == want.0 && got.1@ == want.1 && got.2@ == want.2,
            (Err(got), Err(want)) => got@ == want,
            _ => false,
        },
{
    if !engine_exists {
        return Err(concat2("Engine path does not exist: ", engine_path));
    }
    if !iwad_exists {
        return Err(concat2("IWAD path does not exist: ", iwad_path));
    }
    let map_folder = match map_path {
        Some(m) => {
            if !map_exists {
                return Err(concat2("Map path does not exist: ", m.as_str()));
            }
            m
        },
        None => copy_str(iwad_path),
    };
    Ok((copy_str(engine_path), copy_str(iwad_path), map_folder))
}

/// Records the folders a set-up searched.
pub fn set_search_folders(
    app_settings: &mut AppSettings,
    engine_search_folder: String,
    iwad_search_folder: String,
    map_search_folder: String,
) -> (r: String)
    ensures
        *final(app_settings) == (AppSettings {
            engine_search_folder: Some(engine_search_folder),
            iwad_search_folder: Some(iwad_search_folder),
            map_search_folder: Some(map_search_folder),
            ..*old(app_settings)
        }),
        r@ == fg_text(seq!['3', '2'], "Succesfully configured!"@),
{
    app_settings.engine_search_folder = Some(engine_search_folder);
    app_settings.iwad_search_folder = Some(iwad_search_folder);
    app_settings.map_search_folder = Some(map_search_folder);
    green("Succesfully configured!")
}

/// The folders an interactive set-up offers first: the stored ones, the IWAD folder
/// falling back to the engine folder and the map folder to the IWAD folder.
pub fn init_default_folder(stored: &Option<String>, fallback: &str) -> (r: String)
    ensures
        r@ == match stored {
            Some(s) => s@,
            None => fallback@,
        },
{
    match stored {
        Some(s) => s.clone(),
        None => copy_str(fallback),
    }
}

// ---------------------------------------------------------------------------
// Defaults that point at removed records
// ---------------------------------------------------------------------------

/// The settings once a profile is gone: the default and last profile are unset when
/// they are that profile, and every other setting is kept.
pub open spec fn settings_without_profile(a: AppSettings, profile_id: i32) -> AppSettings {
    AppSettings {
        default_profile_id: if a.default_profile_id == Some(profile_id) {
            None
        } else {
            a.default_profile_id
        },
        last_profile_id: if a.last_profile_id == Some(profile_id) {
            None
        } else {
            a.last_profile_id
        },
        ..a
    }
}

/// The settings once an editor is gone: the default editor is unset when it is that
/// editor, and every other setting is kept.
pub open spec fn settings_without_editor(a: AppSettings, editor_id: i32) -> AppSettings {
    if a.default_editor_id == Some(editor_id) {
        AppSettings { default_editor_id: None, ..a }
    } else {
        a
    }
}

/// Unsets the default and last profile when they are the given profile; the message
/// says whether anything changed.
pub fn remove_profile_from_app_settings(app_settings: &mut AppSettings, profile_id: i32) -> (r:
    String)
    ensures
        final(app_settings).default_profile_id == (if old(app_settings).default_profile_id
            == Some(profile_id) {
            None
        } else {
            old(app_settings).default_profile_id
        }),
        final(app_settings).last_profile_id == (if old(app_settings).last_profile_id == Some(
            profile_id,
        ) {
            None
        } else {
            old(app_settings).last_profile_id
        }),
        *final(app_settings) == (AppSettings {
            default_profile_id: final(app_settings).default_profile_id,
            last_profile_id: final(app_settings).last_profile_id,
            ..*old(app_settings)
        }),
        (old(app_settings).default_profile_id == Some(profile_id)
            || old(app_settings).last_profile_id == Some(profile_id)) ==> r@ == fg_text(
            seq!['3', '2'],
            "Successfully removed Profile from App Settings"@,
        ),
        !(old(app_settings).default_profile_id == Some(profile_id)
            || old(app_settings).last_profile_id == Some(profile_id)) ==> r@ == Seq::<
            char,
        >::empty(),
{
    let mut tidied = false;
    if app_settings.default_profile_id == Some(profile_id) {
        app_settings.default_profile_id = None;
        tidied = true;
    }
    if app_settings.last_profile_id == Some(profile_id) {
        app_settings.last_profile_id = None;
        tidied = true;
    }
    if tidied {
        green("Successfully removed Profile from App Settings")
    } else {
        String::new()
    }
}

/// Unsets the default engine when it is the given engine.
pub fn remove_engine_from_app_settings(app_settings: &mut AppSettings, engine_id: i32) -> (r:
    String)
    ensures
        old(app_settings).default_engine_id == Some(engine_id) ==> *final(app_settings) == (
        AppSettings { default_engine_id: None, ..*old(app_settings) }) && r@ == fg_text(
            seq!['3', '2'],
            "Successfully removed Engine from App Settings"@,
        ),
        old(app_settings).default_engine_id != Some(engine_id) ==> *final(app_settings) == *old(
            app_settings,
        ) && r@ == Seq::<char>::empty(),
{
    if app_settings.default_engine_id == Some(engine_id) {
        app_settings.default_engine_id = None;
        return green("Successfully removed Engine from App Settings");
    }
    String::new()
}

/// Unsets the default IWAD when it is the given IWAD.
pub fn remove_iwad_from_app_settings(app_settings: &mut AppSettings, iwad_id: i32) -> (r: String)
    ensures
        old(app_settings).default_iwad_id == Some(iwad_id) ==> *final(app_settings) == (
        AppSettings { default_iwad_id: None, ..*old(app_settings) }) && r@ == fg_text(
            seq!['3', '2'],
            "Successfully removed IWAD from App Settings"@,
        ),
        old(app_settings).default_iwad_id != Some(iwad_id) ==> *final(app_settings) == *old(
            app_settings,
        ) && r@ == Seq::<char>::empty(),
{
    if app_settings.default_iwad_id == Some(iwad_id) {
        app_settings.default_iwad_id = None;
        return green("Successfully removed IWAD from App Settings");
    }
    String::new()
}

/// Unsets the default editor when it is the given editor.
pub fn remove_editor_from_app_settings(app_settings: &mut AppSettings, editor_id: i32) -> (r:
    String)
    ensures
        old(app_settings).default_editor_id == Some(editor_id) ==> *final(app_settings) == (
        AppSettings { default_editor_id: None, ..*old(app_settings) }) && r@ == fg_text(
            seq!['3', '2'],
            "Successfully removed Editor from App Settings"@,
        ),
        old(app_settings).default_editor_id != Some(editor_id) ==> *final(app_settings) == *old(
            app_settings,
        ) && r@ == Seq::<char>::empty(),
{
    if app_settings.default_editor_id == Some(editor_id) {
        app_settings.default_editor_id = None;
        return green("Successfully removed Editor from App Settings");
    }
    String::new()
}

/// After a record is removed from the settings, no default or last-run setting names
/// it any more, and every other setting is as it was.
pub proof fn law_removed_record_is_not_a_default(before: AppSettings, after: AppSettings, id: i32)
    requires
        after == (AppSettings {
            default_profile_id: if before.default_profile_id == Some(id) {
                None
            } else {
                before.default_profile_id
            },
            last_profile_id: if before.last_profile_id == Some(id) {
                None
            } else {
                before.last_profile_id
            },
            ..before
        }),
    ensures
        after.default_profile_id != Some(id),
        after.last_profile_id != Some(id),
        after.default_engine_id == before.default_engine_id,
        after.menu_mode == before.menu_mode,
{
}

// ---------------------------------------------------------------------------
// Choosing a default
// ---------------------------------------------------------------------------

/// The index of the first id equal to `id`.
pub open spec fn index_of_id(ids: Seq<i32>, id: i32) -> Option<int>
    decreases ids.len(),
{
    if ids.len() == 0 {
        None
    } else if ids[0] == id {
        Some(0)
    } else {
        match index_of_id(ids.drop_first(), id) {
            Some(i) => Some(i + 1),
            None => None,
        }
    }
}

/// A found index lies within the list.
pub proof fn lemma_index_of_id_bound(ids: Seq<i32>, id: i32)
    ensures
        index_of_id(ids, id) matches Some(k) ==> 0 <= k < ids.len(),
    decreases ids.len(),
{
    if ids.len() > 0 {
        lemma_index_of_id_bound(ids.drop_first(), id);
    }
}

/// The index of the first id equal to `id`, if any.
pub fn position_of_id(ids: &Vec<i32>, id: i32) -> (r: Option<usize>)
    ensures
        r matches Some(i) ==> index_of_id(ids@, id) == Some(i as int),
        r is None ==> index_of_id(ids@, id) is None,
{
    let mut i: usize = 0;
    assert(ids@.skip(0) =~= ids@);
    while i < ids.len()
        invariant
            i <= ids@.len(),
            index_of_id(ids@, id) == match index_of_id(ids@.skip(i as int), id) {
                Some(k) => Some(k + i),
                None => None::<int>,
            },
        decreases ids.len() - i,
    {
        assert(ids@.skip(i as int).drop_first() =~= ids@.skip(i + 1));
        if ids[i] == id {
            proof {
                lemma_index_of_id_bound(ids@, id);
            }
            return Some(i);
        }
        i = i + 1;
    }
    assert(ids@.skip(ids@.len() as int) =~= Seq::<i32>::empty());
    None
}

/// Where a picker over records with the given ids starts: at the current default, or
/// at the top when there is none. The current default must be among them.
pub fn starting_cursor(ids: &Vec<i32>, current: Option<i32>) -> (r: usize)
    requires
        current matches Some(c) ==> index_of_id(ids@, c) is Some,
    ensures
        current is None ==> r == 0,
        current matches Some(c) ==> index_of_id(ids@, c) == Some(r as int),
{
    if let Some(c) = current {
        let found = position_of_id(ids, c);
        if let Some(i) = found {
            return i;
        }
    }
    0
}

/// The message after a default engine was chosen.
pub fn default_engine_message(chosen: Option<&Engine>) -> (r: String)
    ensures
        chosen matches Some(e) ==> r@ == "Marked Engine '"@ + engine_text(*e) + "' as Default"@,
        chosen is None ==> r@ == "No changes made to setting Engine as Default"@,
{
    match chosen {
        Some(e) => {
            let t = e.display_text();
            concat3("Marked Engine '", t.as_str(), "' as Default")
        },
        None => copy_str("No changes made to setting Engine as Default"),
    }
}

/// The message after a default IWAD was chosen.
pub fn default_iwad_message(chosen: Option<&Iwad>) -> (r: String)
    ensures
        chosen matches Some(w) ==> r@ == "Marked IWAD '"@ + iwad_text(*w) + "' as Default"@,
        chosen is None ==> r@ == "No changes made to setting IWAD as Default"@,
{
    match chosen {
        Some(w) => {
            let t = w.display_text();
            concat3("Marked IWAD '", t.as_str(), "' as Default")
        },
        None => copy_str("No changes made to setting IWAD as Default"),
    }
}

/// The answer when there is nothing to pick a default from.
pub fn no_engines_message() -> (r: String)
    ensures
        r@ == fg_text(
            seq!['3', '1'],
            "Cannot set Default Engine. There are no Engines found. Please add one"@,
        ),
{
    red("Cannot set Default Engine. There are no Engines found. Please add one")
}

/// The answer when there is nothing to pick a default from.
pub fn no_iwads_message() -> (r: String)
    ensures
        r@ == fg_text(
            seq!['3', '1'],
            "Cannot set Default IWAD. There are no IWADs found. Please add one"@,
        ),
{
    red("Cannot set Default IWAD. There are no IWADs found. Please add one")
}

// ---------------------------------------------------------------------------
// Bringing the stored records in line with a search
// ---------------------------------------------------------------------------

/// Two paths name the same file when their lower-case forms agree.
pub open spec fn same_path_ignoring_case(a: Seq<char>, b: Seq<char>) -> bool {
    unicode_lowercase(a) == unicode_lowercase(b)
}

/// Two paths agree when ASCII letters are compared without case
/// (`str::eq_ignore_ascii_case`).
pub open spec fn same_path_ignoring_ascii_case(a: Seq<char>, b: Seq<char>) -> bool {
    ascii_lowercase(a) == ascii_lowercase(b)
}

/// `str::eq_ignore_ascii_case`.
pub fn eq_ignore_ascii_case(a: &str, b: &str) -> (r: bool)
    ensures
        r == same_path_ignoring_ascii_case(a@, b@),
{
    let x = crate::text::chars_of(a);
    let y = crate::text::chars_of(b);
    if x.len() != y.len() {
        proof {
            if ascii_lowercase(a@) == ascii_lowercase(b@) {
                assert(ascii_lowercase(a@).len() == a@.len());
            }
        }
        return false;
    }
    let mut i: usize = 0;
    while i < x.len()
        invariant
            i <= x@.len(),
            x@ == a@,
            y@ == b@,
            x@.len() == y@.len(),
            forall|k: int| 0 <= k < i ==> crate::text::ascii_lower(#[trigger] x@[k])
                == crate::text::ascii_lower(y@[k]),
        decreases x.len() - i,
    {
        let cx = x[i];
        let cy = y[i];
        let lx = if 'A' <= cx && cx <= 'Z' {
            ((cx as u32) + 32) as u8 as char
        } else {
            cx
        };
        let ly = if 'A' <= cy && cy <= 'Z' {
            ((cy as u32) + 32) as u8 as char
        } else {
            cy
        };
        proof {
            assert(lx == crate::text::ascii_lower(cx));
            assert(ly == crate::text::ascii_lower(cy));
        }
        if lx != ly {
            proof {
                assert(ascii_lowercase(a@)[i as int] == lx);
            }
            return false;
        }
        i = i + 1;
    }
    assert(ascii_lowercase(a@) =~= ascii_lowercase(b@));
    true
}

/// What bringing the stored engines in line with a chosen list does. Stored engines
/// that were not chosen (their paths compared without case) are deleted, unless a
/// profile uses them; chosen engines that are not stored (same path) are added; a
/// stored engine whose version changed gets the new version.
pub struct EngineSync {
    /// Not chosen, but kept because a profile uses them.
    pub kept_linked: Vec<Engine>,
    /// Not chosen, and deleted (and unset as the default engine).
    pub deleted: Vec<Engine>,
    /// Stored engines whose version changes: their id and the new version.
    pub version_updates: Vec<(i32, String)>,
    /// Chosen engines that are added.
    pub added: Vec<Engine>,
}

/// Whether `e` is among the chosen engines, paths compared without case.
pub open spec fn engine_chosen(chosen: Seq<Engine>, e: Engine) -> bool {
    exists|j: int| 0 <= j < chosen.len() && same_path_ignoring_case(#[trigger] chosen[j].path@, e.path@)
}

/// Whether some profile uses the engine.
pub open spec fn engine_in_use(profiles: Seq<Profile>, id: i32) -> bool {
    exists|i: int| 0 <= i < profiles.len() && (#[trigger] profiles[i]).engine_id == Some(id)
}

/// The stored engine with the same path as `e`.
pub open spec fn stored_engine(stored: Seq<Engine>, e: Engine) -> Option<Engine> {
    first_match(stored, |s: Engine| s.path@ == e.path@)
}

/// The version update a chosen engine calls for.
pub open spec fn engine_version_update(stored: Seq<Engine>, e: Engine) -> Option<(i32, Seq<char>)> {
    match stored_engine(stored, e) {
        Some(s) => if s.version@ != e.version@ {
            Some((s.id, e.version@))
        } else {
            None
        },
        None => None,
    }
}

/// The version updates as ids and texts.
pub open spec fn updates_view(v: Seq<(i32, String)>) -> Seq<(i32, Seq<char>)> {
    v.map_values(|u: (i32, String)| (u.0, u.1@))
}

fn lowercase_paths(engines: &Vec<Engine>) -> (r: Vec<String>)
    ensures
        r@.len() == engines@.len(),
        forall|j: int| 0 <= j < r@.len() ==> (#[trigger] r@[j])@ == unicode_lowercase(engines@[j].path@),
{
    let mut r: Vec<String> = Vec::new();
    let mut j: usize = 0;
    while j < engines.len()
        invariant
            j <= engines@.len(),
            r@.len() == j,
            forall|k: int| 0 <= k < j ==> (#[trigger] r@[k])@ == unicode_lowercase(engines@[k].path@),
        decreases engines.len() - j,
    {
        r.push(to_lowercase(engines[j].path.as_str()));
        j = j + 1;
    }
    r
}

fn find_engine_by_path(stored: &Vec<Engine>, path: &str) -> (r: Option<Engine>)
    ensures
        r == first_match(stored@, |s: Engine| s.path@ == path@),
{
    let mut i: usize = 0;
    assert(stored@.skip(0) =~= stored@);
    while i < stored.len()
        invariant
            i <= stored@.len(),
            first_match(stored@, |s: Engine| s.path@ == path@) == first_match(
                stored@.skip(i as int),
                |s: Engine| s.path@ == path@,
            ),
        decreases stored.len() - i,
    {
        assert(stored@.skip(i as int).drop_first() =~= stored@.skip(i + 1));
        if str_eq(stored[i].path.as_str(), path) {
            return Some(stored[i].copy());
        }
        i = i + 1;
    }
    None
}

/// Brings the stored engines in line with the chosen ones.
pub fn plan_engine_sync(stored: &Vec<Engine>, chosen: &Vec<Engine>, profiles: &Vec<Profile>) -> (r:
    EngineSync)
    ensures
        r.kept_linked@ == stored@.filter(
            |e: Engine| !engine_chosen(chosen@, e) && engine_in_use(profiles@, e.id),
        ),
        r.deleted@ == stored@.filter(
            |e: Engine| !engine_chosen(chosen@, e) && !engine_in_use(profiles@, e.id),
        ),
        updates_view(r.version_updates@) == chosen@.filter_map(
            |e: Engine| engine_version_update(stored@, e),
        ),
        r.added@ == chosen@.filter(|e: Engine| stored_engine(stored@, e) is None),
{
    let chosen_lower = lowercase_paths(chosen);
    let ghost keep_pred = |e: Engine| !engine_chosen(chosen@, e) && engine_in_use(profiles@, e.id);
    let ghost del_pred = |e: Engine| !engine_chosen(chosen@, e) && !engine_in_use(profiles@, e.id);
    let mut kept_linked: Vec<Engine> = Vec::new();
    let mut deleted: Vec<Engine> = Vec::new();
    let mut i: usize = 0;
    while i < stored.len()
        invariant
            i <= stored@.len(),
            chosen_lower@.len() == chosen@.len(),
            forall|j: int| 0 <= j < chosen_lower@.len() ==> (#[trigger] chosen_lower@[j])@
                == unicode_lowercase(chosen@[j].path@),
            keep_pred == (|e: Engine| !engine_chosen(chosen@, e) && engine_in_use(profiles@, e.id)),
            del_pred == (|e: Engine| !engine_chosen(chosen@, e) && !engine_in_use(profiles@, e.id)),
            kept_linked@ == stored@.take(i as int).filter(keep_pred),
            deleted@ == stored@.take(i as int).filter(del_pred),
        decreases stored.len() - i,
    {
        let e = &stored[i];
        let lower = to_lowercase(e.path.as_str());
        let is_chosen = contains_string(&chosen_lower, lower.as_str());
        proof {
            if is_chosen {
                let j = choose|j: int| 0 <= j < chosen_lower@.len() && (#[trigger] chosen_lower@[j])@ == lower@;
                assert(same_path_ignoring_case(chosen@[j].path@, e.path@));
            } else {
                assert forall|j: int| 0 <= j < chosen@.len() implies !same_path_ignoring_case(
                    #[trigger] chosen@[j].path@,
                    e.path@,
                ) by {
                    assert(chosen_lower@[j]@ == unicode_lowercase(chosen@[j].path@));
                }
            }
            assert(is_chosen == engine_chosen(chosen@, *e));
            assert(stored@.take(i + 1).drop_last() =~= stored@.take(i as int));
            assert(stored@.take(i + 1).last() == *e);
            reveal_with_fuel(Seq::filter, 1);
        }
        let in_use = is_engine_linked_to_profiles(profiles, e.id);
        if !is_chosen {
            if in_use {
                kept_linked.push(e.copy());
            } else {
                deleted.push(e.copy());
            }
        }
        i = i + 1;
    }
    assert(stored@.take(stored@.len() as int) =~= stored@);
    let ghost upd_fn = |e: Engine| engine_version_update(stored@, e);
    let ghost add_pred = |e: Engine| stored_engine(stored@, e) is None;
    let mut version_updates: Vec<(i32, String)> = Vec::new();
    let mut added: Vec<Engine> = Vec::new();
    let mut k: usize = 0;
    while k < chosen.len()
        invariant
            k <= chosen@.len(),
            upd_fn == (|e: Engine| engine_version_update(stored@, e)),
            add_pred == (|e: Engine| stored_engine(stored@, e) is None),
            updates_view(version_updates@) == chosen@.take(k as int).filter_map(upd_fn),
            added@ == chosen@.take(k as int).filter(add_pred),
        decreases chosen.len() - k,
    {
        let c = &chosen[k];
        let existing = find_engine_by_path(stored, c.path.as_str());
        proof {
            assert(chosen@.take(k + 1).drop_last() =~= chosen@.take(k as int));
            assert(chosen@.take(k + 1).last() == *c);
            reveal_with_fuel(Seq::filter, 1);
        }
        match existing {
            Some(s) => {
                if !str_eq(s.version.as_str(), c.version.as_str()) {
                    let ghost before = updates_view(version_updates@);
                    version_updates.push((s.id, c.version.clone()));
                    assert(updates_view(version_updates@) =~= before + seq![(s.id, c.version@)]);
                }
            },
            None => {
                added.push(c.copy());
            },
        }
        k = k + 1;
    }
    assert(chosen@.take(chosen@.len() as int) =~= chosen@);
    EngineSync { kept_linked, deleted, version_updates, added }
}


// ---------------------------------------------------------------------------
// Which found files are already stored
// ---------------------------------------------------------------------------

/// Two paths agree, exactly or with case ignored.
pub open spec fn paths_agree(a: Seq<char>, b: Seq<char>, ignore_case: bool) -> bool {
    if ignore_case {
        same_path_ignoring_case(a, b)
    } else {
        a == b
    }
}

/// The indexes of the found paths that some stored path agrees with: the entries a
/// picker starts with selected.
pub open spec fn stored_indexes(found: Seq<Seq<char>>, stored: Seq<Seq<char>>, ignore_case: bool) -> Seq<usize>
    decreases found.len(),
{
    if found.len() == 0 {
        Seq::empty()
    } else {
        let rest = stored_indexes(found.drop_last(), stored, ignore_case);
        if exists|j: int| 0 <= j < stored.len() && paths_agree(#[trigger] stored[j], found.last(), ignore_case) {
            rest.push((found.len() - 1) as usize)
        } else {
            rest
        }
    }
}

fn path_is_stored(stored: &Vec<String>, stored_lower: &Vec<String>, path: &str, ignore_case: bool) -> (r: bool)
    requires
        stored_lower@.len() == stored@.len(),
        forall|j: int| 0 <= j < stored@.len() ==> (#[trigger] stored_lower@[j])@ == unicode_lowercase(stored@[j]@),
    ensures
        r == exists|j: int| 0 <= j < stored@.len() && paths_agree(#[trigger] stored@[j]@, path@, ignore_case),
{
    if ignore_case {
        let lower = to_lowercase(path);
        let r = contains_string(stored_lower, lower.as_str());
        proof {
            if r {
                let j = choose|j: int| 0 <= j < stored_lower@.len() && (#[trigger] stored_lower@[j])@ == lower@;
                assert(paths_agree(stored@[j]@, path@, ignore_case));
            } else {
                assert forall|j: int| 0 <= j < stored@.len() implies !paths_agree(#[trigger] stored@[j]@, path@, ignore_case) by {
                    assert(stored_lower@[j]@ == unicode_lowercase(stored@[j]@));
                }
            }
        }
        r
    } else {
        contains_string(stored, path)
    }
}

/// The indexes of the found paths that are already stored, paths compared exactly or
/// with case ignored.
pub fn default_indexes(found: &Vec<String>, stored: &Vec<String>, ignore_case: bool) -> (r: Vec<usize>)
    ensures
        r@ == stored_indexes(crate::text::string_seq(found@), crate::text::string_seq(stored@), ignore_case),
{
    let mut stored_lower: Vec<String> = Vec::new();
    let mut j: usize = 0;
    while j < stored.len()
        invariant
            j <= stored@.len(),
            stored_lower@.len() == j,
            forall|k: int| 0 <= k < j ==> (#[trigger] stored_lower@[k])@ == unicode_lowercase(stored@[k]@),
        decreases stored.len() - j,
    {
        stored_lower.push(to_lowercase(stored[j].as_str()));
        j = j + 1;
    }
    let ghost fs = crate::text::string_seq(found@);
    let ghost ss = crate::text::string_seq(stored@);
    let mut out: Vec<usize> = Vec::new();
    let mut i: usize = 0;
    while i < found.len()
        invariant
            i <= found@.len(),
            fs == crate::text::string_seq(found@),
            ss == crate::text::string_seq(stored@),
            stored_lower@.len() == stored@.len(),
            forall|k: int| 0 <= k < stored@.len() ==> (#[trigger] stored_lower@[k])@ == unicode_lowercase(stored@[k]@),
            out@ == stored_indexes(fs.take(i as int), ss, ignore_case),
        decreases found.len() - i,
    {
        let hit = path_is_stored(stored, &stored_lower, found[i].as_str(), ignore_case);
        proof {
            assert(fs.take(i + 1).drop_last() =~= fs.take(i as int));
            assert(fs.take(i + 1).last() == found@[i as int]@);
            if hit {
                let k = choose|k: int| 0 <= k < stored@.len() && paths_agree(#[trigger] stored@[k]@, found@[i as int]@, ignore_case);
                assert(ss[k] == stored@[k]@);
            } else {
                assert forall|k: int| 0 <= k < ss.len() implies !paths_agree(#[trigger] ss[k], found@[i as int]@, ignore_case) by {
                    assert(ss[k] == stored@[k]@);
                }
            }
        }
        if hit {
            out.push(i);
        }
        i = i + 1;
    }
    assert(fs.take(found@.len() as int) =~= fs);
    out
}

// ---------------------------------------------------------------------------
// IWADs
// ---------------------------------------------------------------------------

/// Whether `w` is among the chosen IWAD paths, ASCII case ignored.
pub open spec fn iwad_chosen(chosen: Seq<Seq<char>>, w: Iwad) -> bool {
    exists|j: int| 0 <= j < chosen.len() && same_path_ignoring_ascii_case(#[trigger] chosen[j], w.path@)
}

/// Whether some profile uses the IWAD.
pub open spec fn iwad_in_use(profiles: Seq<Profile>, id: i32) -> bool {
    exists|i: int| 0 <= i < profiles.len() && (#[trigger] profiles[i]).iwad_id == Some(id)
}

/// The chosen IWAD paths as IWADs to add: each path's kind is found from its file name
/// (the first failure ends the list, with its message), and a path that is stored
/// (same path) is not added again.
pub open spec fn iwad_additions(
    stored: Seq<Iwad>,
    chosen: Seq<Seq<char>>,
    known: Seq<InternalWad>,
) -> (Seq<(Seq<char>, InternalWadType)>, Option<Seq<char>>)
    decreases chosen.len(),
{
    if chosen.len() == 0 {
        (Seq::empty(), None)
    } else {
        match crate::files::iwad_for_file(known, extract_file_name_spec(chosen[0])) {
            None => (
                Seq::empty(),
                Some(
                    "Unable to find internal wad type for file name '"@ + extract_file_name_spec(
                        chosen[0],
                    ) + "'"@,
                ),
            ),
            Some(k) => {
                let rest = iwad_additions(stored, chosen.drop_first(), known);
                if first_match(stored, |w: Iwad| w.path@ == chosen[0]) is Some {
                    rest
                } else {
                    (seq![(chosen[0], k.internal_wad_type)] + rest.0, rest.1)
                }
            },
        }
    }
}

/// The IWADs as paths and kinds.
pub open spec fn iwads_view(v: Seq<Iwad>) -> Seq<(Seq<char>, InternalWadType)> {
    v.map_values(|w: Iwad| (w.path@, w.internal_wad_type))
}

/// What bringing the stored IWADs in line with the chosen paths does: stored IWADs not
/// chosen are deleted unless a profile uses them; chosen ones not stored are added,
/// with id 0 and the kind their file names give, until a file name is of no known
/// IWAD (`error`).
pub struct IwadSync {
    pub kept_linked: Vec<Iwad>,
    pub deleted: Vec<Iwad>,
    pub added: Vec<Iwad>,
    pub error: Option<String>,
}

fn iwad_stored_at(stored: &Vec<Iwad>, path: &str) -> (r: bool)
    ensures
        r == (first_match(stored@, |w: Iwad| w.path@ == path@) is Some),
{
    let mut i: usize = 0;
    assert(stored@.skip(0) =~= stored@);
    while i < stored.len()
        invariant
            i <= stored@.len(),
            first_match(stored@, |w: Iwad| w.path@ == path@) == first_match(
                stored@.skip(i as int),
                |w: Iwad| w.path@ == path@,
            ),
        decreases stored.len() - i,
    {
        assert(stored@.skip(i as int).drop_first() =~= stored@.skip(i + 1));
        assert(stored@.skip(i as int)[0] == stored@[i as int]);
        if str_eq(stored[i].path.as_str(), path) {
            return true;
        }
        i = i + 1;
    }
    assert(stored@.skip(i as int) =~= Seq::<Iwad>::empty());
    false
}

fn iwad_chosen_exec(chosen: &Vec<String>, w: &Iwad) -> (r: bool)
    ensures
        r == iwad_chosen(crate::text::string_seq(chosen@), *w),
{
    let mut j: usize = 0;
    while j < chosen.len()
        invariant
            j <= chosen@.len(),
            forall|k: int| 0 <= k < j ==> !same_path_ignoring_ascii_case(#[trigger] chosen@[k]@, w.path@),
        decreases chosen.len() - j,
    {
        if eq_ignore_ascii_case(chosen[j].as_str(), w.path.as_str()) {
            assert(crate::text::string_seq(chosen@)[j as int] == chosen@[j as int]@);
            return true;
        }
        j = j + 1;
    }
    proof {
        assert forall|k: int| 0 <= k < chosen@.len() implies !same_path_ignoring_ascii_case(#[trigger] crate::text::string_seq(chosen@)[k], w.path@) by {
            assert(crate::text::string_seq(chosen@)[k] == chosen@[k]@);
        }
    }
    false
}

/// Brings the stored IWADs in line with the chosen paths.
pub fn plan_iwad_sync(
    stored: &Vec<Iwad>,
    chosen: &Vec<String>,
    profiles: &Vec<Profile>,
    known: &Vec<InternalWad>,
) -> (r: IwadSync)
    ensures
        r.kept_linked@ == stored@.filter(
            |w: Iwad| !iwad_chosen(crate::text::string_seq(chosen@), w) && iwad_in_use(profiles@, w.id),
        ),
        r.deleted@ == stored@.filter(
            |w: Iwad| !iwad_chosen(crate::text::string_seq(chosen@), w) && !iwad_in_use(profiles@, w.id),
        ),
        iwads_view(r.added@) == iwad_additions(stored@, crate::text::string_seq(chosen@), known@).0,
        forall|k: int| 0 <= k < r.added@.len() ==> (#[trigger] r.added@[k]).id == 0,
        match (r.error, iwad_additions(stored@, crate::text::string_seq(chosen@), known@).1) {
            (Some(m), Some(e)) => m@ == e,
            (None, None) => true,
            _ => false,
        },
{
    let ghost cs = crate::text::string_seq(chosen@);
    let ghost keep_pred = |w: Iwad| !iwad_chosen(cs, w) && iwad_in_use(profiles@, w.id);
    let ghost del_pred = |w: Iwad| !iwad_chosen(cs, w) && !iwad_in_use(profiles@, w.id);
    let mut kept_linked: Vec<Iwad> = Vec::new();
    let mut deleted: Vec<Iwad> = Vec::new();
    let mut i: usize = 0;
    while i < stored.len()
        invariant
            i <= stored@.len(),
            cs == crate::text::string_seq(chosen@),
            keep_pred == (|w: Iwad| !iwad_chosen(cs, w) && iwad_in_use(profiles@, w.id)),
            del_pred == (|w: Iwad| !iwad_chosen(cs, w) && !iwad_in_use(profiles@, w.id)),
            kept_linked@ == stored@.take(i as int).filter(keep_pred),
            deleted@ == stored@.take(i as int).filter(del_pred),
        decreases stored.len() - i,
    {
        let w = &stored[i];
        let is_chosen = iwad_chosen_exec(chosen, w);
        let in_use = is_iwad_linked_to_profiles(profiles, w.id);
        proof {
            assert(stored@.take(i + 1).drop_last() =~= stored@.take(i as int));
            assert(stored@.take(i + 1).last() == *w);
            reveal_with_fuel(Seq::filter, 1);
        }
        if !is_chosen {
            if in_use {
                kept_linked.push(w.copy());
            } else {
                deleted.push(w.copy());
            }
        }
        i = i + 1;
    }
    assert(stored@.take(stored@.len() as int) =~= stored@);
    let mut added: Vec<Iwad> = Vec::new();
    let mut k: usize = 0;
    assert(cs.skip(0) =~= cs);
    while k < chosen.len()
        invariant
            k <= chosen@.len(),
            cs == crate::text::string_seq(chosen@),
            keep_pred == (|w: Iwad| !iwad_chosen(cs, w) && iwad_in_use(profiles@, w.id)),
            del_pred == (|w: Iwad| !iwad_chosen(cs, w) && !iwad_in_use(profiles@, w.id)),
            kept_linked@ == stored@.filter(keep_pred),
            deleted@ == stored@.filter(del_pred),
            forall|j: int| 0 <= j < added@.len() ==> (#[trigger] added@[j]).id == 0,
            iwad_additions(stored@, cs, known@) == (
                iwads_view(added@) + iwad_additions(stored@, cs.skip(k as int), known@).0,
                iwad_additions(stored@, cs.skip(k as int), known@).1,
            ),
        decreases chosen.len() - k,
    {
        let c = &chosen[k];
        assert(cs.skip(k as int).drop_first() =~= cs.skip(k + 1));
        assert(cs.skip(k as int)[0] == c@);
        let kind = match get_internal_wad_type_from_file_name(known, c.as_str()) {
            Ok(t) => t,
            Err(e) => {
                proof {
                    assert(iwads_view(added@) + Seq::<(Seq<char>, InternalWadType)>::empty() =~= iwads_view(added@));
                }
                return IwadSync { kept_linked, deleted, added, error: Some(e) };
            },
        };
        if !iwad_stored_at(stored, c.as_str()) {
            let ghost before = iwads_view(added@);
            added.push(Iwad { id: 0, path: c.clone(), internal_wad_type: kind });
            proof {
                assert(iwads_view(added@) =~= before.push((c@, kind)));
                let rest = iwad_additions(stored@, cs.skip(k + 1), known@);
                assert(before + (seq![(c@, kind)] + rest.0) =~= before.push((c@, kind)) + rest.0);
            }
        }
        k = k + 1;
    }
    proof {
        assert(cs.skip(chosen@.len() as int) =~= Seq::<Seq<char>>::empty());
        assert(iwads_view(added@) + Seq::<(Seq<char>, InternalWadType)>::empty() =~= iwads_view(added@));
    }
    IwadSync { kept_linked, deleted, added, error: None }
}

/// IWADs whose path is `path`.
pub open spec fn iwad_has_path(path: Seq<char>) -> spec_fn(Iwad) -> bool {
    |w: Iwad| w.path@ == path
}

fn find_iwad_by_path(iwads: &Vec<Iwad>, path: &str) -> (r: Option<Iwad>)
    ensures
        r == first_match(iwads@, iwad_has_path(path@)),
{
    let mut i: usize = 0;
    assert(iwads@.skip(0) =~= iwads@);
    while i < iwads.len()
        invariant
            i <= iwads@.len(),
            first_match(iwads@, iwad_has_path(path@)) == first_match(
                iwads@.skip(i as int),
                iwad_has_path(path@),
            ),
        decreases iwads.len() - i,
    {
        assert(iwads@.skip(i as int).drop_first() =~= iwads@.skip(i + 1));
        if str_eq(iwads[i].path.as_str(), path) {
            return Some(iwads[i].copy());
        }
        i = i + 1;
    }
    None
}

/// Makes the engine with the given path the default one, from the command line.
pub fn cli_set_default_engine(engines: &Vec<Engine>, app_settings: &mut AppSettings, path: &str) -> (r:
    Result<String, String>)
    ensures
        first_match(engines@, |s: Engine| s.path@ == path@) matches Some(e) ==> *final(app_settings) == (
        AppSettings { default_engine_id: Some(e.id), ..*old(app_settings) }) && (r matches Ok(
            m,
        ) && m@ == "Marked Engine '"@ + engine_text(e) + "' as Default"@),
        first_match(engines@, |s: Engine| s.path@ == path@) is None ==> *final(app_settings) == *old(
            app_settings,
        ) && (r matches Err(m) && m@ == "Failed to get engine with path '"@ + path@ + "'"@),
{
    match find_engine_by_path(engines, path) {
        Some(e) => {
            app_settings.default_engine_id = Some(e.id);
            let shown = e.display_text();
            Ok(concat3("Marked Engine '", shown.as_str(), "' as Default"))
        },
        None => Err(concat3("Failed to get engine with path '", path, "'")),
    }
}

/// Makes the IWAD with the given path the default one, from the command line.
pub fn cli_set_default_iwad(iwads: &Vec<Iwad>, app_settings: &mut AppSettings, path: &str) -> (r:
    Result<String, String>)
    ensures
        first_match(iwads@, iwad_has_path(path@)) matches Some(w) ==> *final(app_settings) == (
        AppSettings { default_iwad_id: Some(w.id), ..*old(app_settings) }) && (r matches Ok(
            m,
        ) && m@ == "Marked IWAD '"@ + iwad_text(w) + "' as Default"@),
        first_match(iwads@, iwad_has_path(path@)) is None ==> *final(app_settings) == *old(
            app_settings,
        ) && (r matches Err(m) && m@ == "Failed to get iwad with path '"@ + path@ + "'"@),
{
    match find_iwad_by_path(iwads, path) {
        Some(w) => {
            app_settings.default_iwad_id = Some(w.id);
            let shown = w.display_text();
            Ok(concat3("Marked IWAD '", shown.as_str(), "' as Default"))
        },
        None => Err(concat3("Failed to get iwad with path '", path, "'")),
    }
}

// ---------------------------------------------------------------------------
// Maps
// ---------------------------------------------------------------------------

/// What becomes of a map file a search found.
#[derive(Debug, PartialEq, Eq, Structural, Clone, Copy)]
pub enum MapDecision {
    /// It is an IWAD.
    SkipIwad,
    /// It is not a map file.
    SkipInvalid,
    /// A map with that path is stored.
    Stored,
    /// It is added, with the title and author its readme gives.
    Add,
}

/// What becomes of a found map file: IWADs and files that cannot be maps are skipped,
/// stored ones kept, the rest added.
pub open spec fn map_decision(stored: Seq<MapRecord>, path: Seq<char>, is_iwad: bool, is_map_file: bool) -> MapDecision {
    if is_iwad {
        MapDecision::SkipIwad
    } else if !is_map_file {
        MapDecision::SkipInvalid
    } else if first_match(stored, |m: MapRecord| m.path@ == path) is Some {
        MapDecision::Stored
    } else {
        MapDecision::Add
    }
}

/// Whether a stored map is among the found paths, ASCII case ignored.
pub open spec fn map_found(found: Seq<Seq<char>>, m: MapRecord) -> bool {
    exists|j: int| 0 <= j < found.len() && same_path_ignoring_ascii_case(#[trigger] found[j], m.path@)
}

/// What bringing the stored maps in line with a search does: stored maps not found are
/// deleted unless a profile uses them, and each found file gets its decision.
pub struct MapSync {
    pub kept_linked: Vec<MapRecord>,
    pub deleted: Vec<MapRecord>,
    pub decisions: Vec<MapDecision>,
}

fn map_found_exec(found: &Vec<String>, m: &MapRecord) -> (r: bool)
    ensures
        r == map_found(crate::text::string_seq(found@), *m),
{
    let mut j: usize = 0;
    while j < found.len()
        invariant
            j <= found@.len(),
            forall|k: int| 0 <= k < j ==> !same_path_ignoring_ascii_case(#[trigger] found@[k]@, m.path@),
        decreases found.len() - j,
    {
        if eq_ignore_ascii_case(found[j].as_str(), m.path.as_str()) {
            assert(crate::text::string_seq(found@)[j as int] == found@[j as int]@);
            return true;
        }
        j = j + 1;
    }
    proof {
        assert forall|k: int| 0 <= k < found@.len() implies !same_path_ignoring_ascii_case(#[trigger] crate::text::string_seq(found@)[k], m.path@) by {
            assert(crate::text::string_seq(found@)[k] == found@[k]@);
        }
    }
    false
}

fn map_stored_at(stored: &Vec<MapRecord>, path: &str) -> (r: bool)
    ensures
        r == (first_match(stored@, |m: MapRecord| m.path@ == path@) is Some),
{
    let mut i: usize = 0;
    assert(stored@.skip(0) =~= stored@);
    while i < stored.len()
        invariant
            i <= stored@.len(),
            first_match(stored@, |m: MapRecord| m.path@ == path@) == first_match(
                stored@.skip(i as int),
                |m: MapRecord| m.path@ == path@,
            ),
        decreases stored.len() - i,
    {
        assert(stored@.skip(i as int).drop_first() =~= stored@.skip(i + 1));
        assert(stored@.skip(i as int)[0] == stored@[i as int]);
        if str_eq(stored[i].path.as_str(), path) {
            return true;
        }
        i = i + 1;
    }
    assert(stored@.skip(i as int) =~= Seq::<MapRecord>::empty());
    false
}

/// Brings the stored maps in line with the map files a search found; `is_iwad` and
/// `is_map_file` say, for each found file, what its header showed.
pub fn plan_map_sync(
    stored: &Vec<MapRecord>,
    found: &Vec<String>,
    is_iwad: &Vec<bool>,
    is_map_file: &Vec<bool>,
    profiles: &Vec<Profile>,
) -> (r: MapSync)
    requires
        is_iwad@.len() == found@.len(),
        is_map_file@.len() == found@.len(),
    ensures
        r.kept_linked@ == stored@.filter(
            |m: MapRecord| !map_found(crate::text::string_seq(found@), m) && (exists|i: int| 0 <= i < profiles@.len() && crate::db::profile_uses_map(#[trigger] profiles@[i], m.id)),
        ),
        r.deleted@ == stored@.filter(
            |m: MapRecord| !map_found(crate::text::string_seq(found@), m) && !(exists|i: int| 0 <= i < profiles@.len() && crate::db::profile_uses_map(#[trigger] profiles@[i], m.id)),
        ),
        r.decisions@.len() == found@.len(),
        forall|k: int| 0 <= k < found@.len() ==> #[trigger] r.decisions@[k] == map_decision(stored@, found@[k]@, is_iwad@[k], is_map_file@[k]),
{
    let ghost fs = crate::text::string_seq(found@);
    let ghost keep_pred = |m: MapRecord| !map_found(fs, m) && (exists|i: int| 0 <= i < profiles@.len() && crate::db::profile_uses_map(#[trigger] profiles@[i], m.id));
    let ghost del_pred = |m: MapRecord| !map_found(fs, m) && !(exists|i: int| 0 <= i < profiles@.len() && crate::db::profile_uses_map(#[trigger] profiles@[i], m.id));
    let mut kept_linked: Vec<MapRecord> = Vec::new();
    let mut deleted: Vec<MapRecord> = Vec::new();
    let mut i: usize = 0;
    while i < stored.len()
        invariant
            i <= stored@.len(),
            fs == crate::text::string_seq(found@),
            keep_pred == (|m: MapRecord| !map_found(fs, m) && (exists|i: int| 0 <= i < profiles@.len() && crate::db::profile_uses_map(#[trigger] profiles@[i], m.id))),
            del_pred == (|m: MapRecord| !map_found(fs, m) && !(exists|i: int| 0 <= i < profiles@.len() && crate::db::profile_uses_map(#[trigger] profiles@[i], m.id))),
            kept_linked@ == stored@.take(i as int).filter(keep_pred),
            deleted@ == stored@.take(i as int).filter(del_pred),
        decreases stored.len() - i,
    {
        let m = &stored[i];
        let is_found = map_found_exec(found, m);
        let in_use = is_map_linked_to_profiles(profiles, m.id);
        proof {
            assert(stored@.take(i + 1).drop_last() =~= stored@.take(i as int));
            assert(stored@.take(i + 1).last() == *m);
            reveal_with_fuel(Seq::filter, 1);
        }
        if !is_found {
            if in_use {
                kept_linked.push(m.copy());
            } else {
                deleted.push(m.copy());
            }
        }
        i = i + 1;
    }
    assert(stored@.take(stored@.len() as int) =~= stored@);
    let mut decisions: Vec<MapDecision> = Vec::new();
    let mut k: usize = 0;
    while k < found.len()
        invariant
            k <= found@.len(),
            is_iwad@.len() == found@.len(),
            is_map_file@.len() == found@.len(),
            decisions@.len() == k,
            forall|j: int| 0 <= j < k ==> #[trigger] decisions@[j] == map_decision(stored@, found@[j]@, is_iwad@[j], is_map_file@[j]),
        decreases found.len() - k,
    {
        let d = if is_iwad[k] {
            MapDecision::SkipIwad
        } else if !is_map_file[k] {
            MapDecision::SkipInvalid
        } else if map_stored_at(stored, found[k].as_str()) {
            MapDecision::Stored
        } else {
            MapDecision::Add
        };
        decisions.push(d);
        k = k + 1;
    }
    MapSync { kept_linked, deleted, decisions }
}

// ---------------------------------------------------------------------------
// Editors
// ---------------------------------------------------------------------------

/// The stored editor with the same path as `e`, case ignored.
pub open spec fn stored_editor(stored: Seq<Editor>, e: Editor) -> Option<Editor> {
    first_match(stored, |s: Editor| same_path_ignoring_case(s.path@, e.path@))
}

/// The version update a chosen editor calls for.
pub open spec fn editor_version_update(stored: Seq<Editor>, e: Editor) -> Option<(i32, Seq<char>)> {
    match stored_editor(stored, e) {
        Some(s) => if s.version@ != e.version@ {
            Some((s.id, e.version@))
        } else {
            None
        },
        None => None,
    }
}

/// What saving the chosen editors does: an editor stored under the same path (case
/// ignored) gets the new version when it changed; the others are added.
pub struct EditorSync {
    pub version_updates: Vec<(i32, String)>,
    pub added: Vec<Editor>,
}

fn find_editor_ci(stored: &Vec<Editor>, path: &str) -> (r: Option<Editor>)
    ensures
        r == first_match(stored@, |s: Editor| same_path_ignoring_case(s.path@, path@)),
{
    let lower = to_lowercase(path);
    let mut i: usize = 0;
    assert(stored@.skip(0) =~= stored@);
    while i < stored.len()
        invariant
            i <= stored@.len(),
            lower@ == unicode_lowercase(path@),
            first_match(stored@, |s: Editor| same_path_ignoring_case(s.path@, path@)) == first_match(
                stored@.skip(i as int),
                |s: Editor| same_path_ignoring_case(s.path@, path@),
            ),
        decreases stored.len() - i,
    {
        assert(stored@.skip(i as int).drop_first() =~= stored@.skip(i + 1));
        assert(stored@.skip(i as int)[0] == stored@[i as int]);
        let l = to_lowercase(stored[i].path.as_str());
        if str_eq(l.as_str(), lower.as_str()) {
            return Some(stored[i].copy());
        }
        i = i + 1;
    }
    assert(stored@.skip(i as int) =~= Seq::<Editor>::empty());
    None
}

/// Saves the chosen editors.
pub fn plan_editor_sync(stored: &Vec<Editor>, chosen: &Vec<Editor>) -> (r: EditorSync)
    ensures
        updates_view(r.version_updates@) == chosen@.filter_map(
            |e: Editor| editor_version_update(stored@, e),
        ),
        r.added@ == chosen@.filter(|e: Editor| stored_editor(stored@, e) is None),
{
    let ghost upd_fn = |e: Editor| editor_version_update(stored@, e);
    let ghost add_pred = |e: Editor| stored_editor(stored@, e) is None;
    let mut version_updates: Vec<(i32, String)> = Vec::new();
    let mut added: Vec<Editor> = Vec::new();
    let mut k: usize = 0;
    while k < chosen.len()
        invariant
            k <= chosen@.len(),
            upd_fn == (|e: Editor| editor_version_update(stored@, e)),
            add_pred == (|e: Editor| stored_editor(stored@, e) is None),
            updates_view(version_updates@) == chosen@.take(k as int).filter_map(upd_fn),
            added@ == chosen@.take(k as int).filter(add_pred),
        decreases chosen.len() - k,
    {
        let c = &chosen[k];
        let existing = find_editor_ci(stored, c.path.as_str());
        proof {
            assert(chosen@.take(k + 1).drop_last() =~= chosen@.take(k as int));
            assert(chosen@.take(k + 1).last() == *c);
            reveal_with_fuel(Seq::filter, 1);
        }
        match existing {
            Some(s) => {
                if !str_eq(s.version.as_str(), c.version.as_str()) {
                    let ghost before = updates_view(version_updates@);
                    version_updates.push((s.id, c.version.clone()));
                    assert(updates_view(version_updates@) =~= before + seq![(s.id, c.version@)]);
                }
            },
            None => {
                added.push(c.copy());
            },
        }
        k = k + 1;
    }
    assert(chosen@.take(chosen@.len() as int) =~= chosen@);
    EditorSync { version_updates, added }
}

} // verus!

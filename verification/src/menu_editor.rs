//! Opening maps in an editor, and adding, removing and choosing editors.

use vstd::prelude::*;
use crate::data::{editor_text, AppSettings, Editor, FileVersion, MapRecord, Profile};
use crate::db::{
    editor_has_id, editor_has_path, find_editor_by_path, first_match, get_editor_by_id,
    get_map_by_id, map_has_id, text_error,
};
use crate::menu_app_settings::{remove_editor_from_app_settings, settings_without_editor};
use crate::menu_common::{
    get_map_id_from_from_default_profile, get_map_id_from_from_last_profile, pick_from_profile_is,
    MapPick,
};
use crate::runner::{editor, editor_args_spec, LaunchCommand};
use crate::text::{concat2, concat3, copy_str, join_strings, joined, signed_decimal, string_seq};
use crate::tui::fg_text;

verus! {

/// The answer when there is no editor.
pub open spec fn no_editors() -> Seq<char> {
    "There are no Editors to select from"@
}

/// Where opening a map in an editor stands.
pub enum EditorStep {
    /// Nothing to open: the result is this message.
    Message(String),
    /// Launch the editor.
    Launch(LaunchCommand),
    /// The user chooses one of these editors to open the map at this path in.
    ChooseEditor { map_path: String, editors: Vec<Editor> },
}

/// Opening the map with the given id: the map is looked up; the default editor opens it
/// when one is set; otherwise the user chooses among the editors, if there are any.
pub open spec fn open_editor_is(
    maps: Seq<MapRecord>,
    editors: Seq<Editor>,
    app_settings: AppSettings,
    map_id: i32,
    r: Result<EditorStep, String>,
) -> bool {
    match first_match(maps, map_has_id(map_id)) {
        None => r matches Err(m) && m@ == "Unable to get Map for id '"@ + signed_decimal(
            map_id as int,
        ) + "'"@,
        Some(map) => match app_settings.default_editor_id {
            Some(eid) => match first_match(editors, editor_has_id(eid)) {
                None => r matches Err(m) && m@ == "Unable to get Default Editor"@,
                Some(e) => r matches Ok(EditorStep::Launch(c)) && c.program@ == e.path@
                    && string_seq(c.args@) == editor_args_spec(map.path@, e),
            },
            None => if editors.len() == 0 {
                r matches Ok(EditorStep::Message(m)) && m@ == no_editors()
            } else {
                r matches Ok(EditorStep::ChooseEditor { map_path, editors: v }) && map_path@
                    == map.path@ && v@ == editors
            },
        },
    }
}

/// Opens the map with the given id in an editor.
pub fn open_editor_from_map_id(
    maps: &Vec<MapRecord>,
    editors: Vec<Editor>,
    app_settings: &AppSettings,
    map_id: i32,
) -> (r: Result<EditorStep, String>)
    ensures
        open_editor_is(maps@, editors@, *app_settings, map_id, r),
{
    let map = match get_map_by_id(maps, map_id) {
        Ok(m) => m,
        Err(_) => {
            let n = crate::text::i32_to_string(map_id);
            return Err(concat3("Unable to get Map for id '", n.as_str(), "'"));
        },
    };
    if let Some(eid) = app_settings.default_editor_id {
        let e = match get_editor_by_id(&editors, eid) {
            Ok(e) => e,
            Err(_) => return Err(copy_str("Unable to get Default Editor")),
        };
        return Ok(EditorStep::Launch(editor(map.path.as_str(), &e)));
    }
    if editors.len() == 0 {
        return Ok(EditorStep::Message(copy_str("There are no Editors to select from")));
    }
    Ok(EditorStep::ChooseEditor { map_path: map.path, editors })
}

/// Where opening a profile's map in an editor stands: nothing to open without editors,
/// else the map picked from the profile.
pub enum OpenStep {
    Message(String),
    Pick(MapPick),
}

/// Opening a map of the default profile in an editor.
pub fn open_from_default_profile(
    editor_count: usize,
    app_settings: &AppSettings,
    profiles: &Vec<Profile>,
    maps: &Vec<MapRecord>,
) -> (r: Result<OpenStep, String>)
    ensures
        editor_count == 0 ==> (r matches Ok(OpenStep::Message(m)) && m@ == no_editors()),
        editor_count > 0 ==> pick_from_profile_is(
            app_settings.default_profile_id,
            "No Default Profile found. "@,
            "Cannot open Editor"@,
            profiles@,
            maps@,
            match r {
                Ok(OpenStep::Pick(p)) => Ok(p),
                Ok(OpenStep::Message(m)) => Err(m),
                Err(e) => Err(e),
            },
        ) && !(r matches Ok(OpenStep::Message(_))),
{
    if editor_count == 0 {
        return Ok(OpenStep::Message(copy_str("There are no Editors to select from")));
    }
    match get_map_id_from_from_default_profile(app_settings, profiles, maps, "Cannot open Editor") {
        Ok(p) => Ok(OpenStep::Pick(p)),
        Err(e) => Err(e),
    }
}

/// Opening a map of the last profile played in an editor.
pub fn open_from_last_profile(
    editor_count: usize,
    app_settings: &AppSettings,
    profiles: &Vec<Profile>,
    maps: &Vec<MapRecord>,
) -> (r: Result<OpenStep, String>)
    ensures
        editor_count == 0 ==> (r matches Ok(OpenStep::Message(m)) && m@ == no_editors()),
        editor_count > 0 ==> pick_from_profile_is(
            app_settings.last_profile_id,
            "No Last Profile found. "@,
            "Cannot open Editor"@,
            profiles@,
            maps@,
            match r {
                Ok(OpenStep::Pick(p)) => Ok(p),
                Ok(OpenStep::Message(m)) => Err(m),
                Err(e) => Err(e),
            },
        ) && !(r matches Ok(OpenStep::Message(_))),
{
    if editor_count == 0 {
        return Ok(OpenStep::Message(copy_str("There are no Editors to select from")));
    }
    match get_map_id_from_from_last_profile(app_settings, profiles, maps, "Cannot open Editor") {
        Ok(p) => Ok(OpenStep::Pick(p)),
        Err(e) => Err(e),
    }
}

/// A prompt to pick from, and the error when the user cancels it.
pub struct PickPrompt {
    pub prompt: String,
    pub cancel_error: String,
}

/// Opening a map of a profile the user picks: nothing without editors, else the prompt.
pub fn open_from_pick_profile(editor_count: usize) -> (r: Result<PickPrompt, String>)
    ensures
        editor_count == 0 ==> (r matches Err(m) && m@ == no_editors()),
        editor_count > 0 ==> (r matches Ok(p) && p.prompt@ == "Pick the Profile to open in Editor:"@
            && p.cancel_error@ == "Canceled opening Editor"@),
{
    if editor_count == 0 {
        return Err(copy_str("There are no Editors to select from"));
    }
    Ok(
        PickPrompt {
            prompt: copy_str("Pick the Profile to open in Editor:"),
            cancel_error: copy_str("Canceled opening Editor"),
        },
    )
}

/// Opening a map the user picks: nothing without editors, else the prompt.
pub fn open_from_pick_map(editor_count: usize) -> (r: Result<PickPrompt, String>)
    ensures
        editor_count == 0 ==> (r matches Err(m) && m@ == no_editors()),
        editor_count > 0 ==> (r matches Ok(p) && p.prompt@ == "Pick the Map to open in Editor:"@
            && p.cancel_error@ == "Canceled opening Editor"@),
{
    if editor_count == 0 {
        return Err(copy_str("There are no Editors to select from"));
    }
    Ok(
        PickPrompt {
            prompt: copy_str("Pick the Map to open in Editor:"),
            cancel_error: copy_str("Canceled opening Editor"),
        },
    )
}

/// What adding an editor from the command line comes to: the message, and the editor
/// to store when one is added.
pub struct AddEditorOutcome {
    pub message: String,
    pub added: Option<Editor>,
}

/// Adding an editor: refused when its file does not exist or an editor with that path
/// is stored; otherwise added with the name and version its file gives, unless those
/// could not be found out.
pub fn cli_add_editor(
    editors: &Vec<Editor>,
    path: &str,
    file_exists: bool,
    file_version: Result<FileVersion, String>,
    load_file_argument: Option<String>,
    args: &Option<Vec<String>>,
) -> (r: AddEditorOutcome)
    ensures
        !file_exists ==> r.added is None && r.message@ == "Cannot add Editor '"@ + path@
            + "'. Does not exist"@,
        file_exists && first_match(editors@, editor_has_path(path@)) is Some ==> r.added is None
            && r.message@ == "Cannot add Editor '"@ + path@ + "'. Editor already exists"@,
        file_exists && first_match(editors@, editor_has_path(path@)) is None ==> match file_version {
            Ok(v) => r.added matches Some(e) && e.id == 0 && e.app_name@ == v.app_name@ && e.path@
                == path@ && e.version@ == crate::data::version_text(
                v.major,
                v.minor,
                v.build,
                v.revision,
            ) && e.load_file_argument == load_file_argument && crate::data::opt_string_view(
                e.additional_arguments,
            ) == match args {
                Some(a) => Some(joined(string_seq(a@), " "@)),
                None => None,
            } && r.message@ == "Successfully added Editor - '"@ + editor_text(e) + "'"@,
            Err(msg) => r.added is None && r.message@
                == "Cannot add Editor, unable to get version information: '"@ + msg@ + "'"@,
        },
{
    if !file_exists {
        return AddEditorOutcome {
            message: concat3("Cannot add Editor '", path, "'. Does not exist"),
            added: None,
        };
    }
    if find_editor_by_path(editors, path).is_some() {
        return AddEditorOutcome {
            message: concat3("Cannot add Editor '", path, "'. Editor already exists"),
            added: None,
        };
    }
    let additional_arguments = match args {
        Some(a) => Some(join_strings(a, " ")),
        None => None,
    };
    match file_version {
        Ok(v) => {
            let e = Editor {
                id: 0,
                app_name: v.app_name.clone(),
                path: copy_str(path),
                load_file_argument,
                additional_arguments,
                version: v.display_version(),
            };
            let shown = e.display_text();
            let message = concat3("Successfully added Editor - '", shown.as_str(), "'");
            AddEditorOutcome { message, added: Some(e) }
        },
        Err(msg) => AddEditorOutcome {
            message: concat3(
                "Cannot add Editor, unable to get version information: '",
                msg.as_str(),
                "'",
            ),
            added: None,
        },
    }
}

/// What deleting an editor comes to: the message, and the id of the editor to delete.
pub struct DeleteOutcome {
    pub message: String,
    pub deleted: Option<i32>,
}

/// Deleting an editor once confirmed (`confirmed` is the forced flag or the user's
/// answer): it stops being the default editor and is deleted.
pub fn delete_editor_core(
    app_settings: &mut AppSettings,
    editor_id: i32,
    editor_app_name: &str,
    confirmed: bool,
) -> (r: DeleteOutcome)
    ensures
        confirmed ==> r.deleted == Some(editor_id) && r.message@ == "Successfully deleted Editor '"@
            + editor_app_name@ + "'"@ && *final(app_settings) == settings_without_editor(
            *old(app_settings),
            editor_id,
        ),
        !confirmed ==> r.deleted is None && r.message@ == "Canceled Editor deletion"@
            && *final(app_settings) == *old(app_settings),
{
    if confirmed {
        let _ = remove_editor_from_app_settings(app_settings, editor_id);
        return DeleteOutcome {
            message: concat3("Successfully deleted Editor '", editor_app_name, "'"),
            deleted: Some(editor_id),
        };
    }
    DeleteOutcome { message: copy_str("Canceled Editor deletion"), deleted: None }
}

/// Deleting the editor with the given path, from the command line.
pub fn cli_delete_editor(
    editors: &Vec<Editor>,
    app_settings: &mut AppSettings,
    editor_path: &str,
    confirmed: bool,
) -> (r: DeleteOutcome)
    ensures
        first_match(editors@, editor_has_path(editor_path@)) is None ==> r.deleted is None
            && r.message@ == "Editor not found - '"@ + editor_path@ + "'"@ && *final(app_settings)
            == *old(app_settings),
        first_match(editors@, editor_has_path(editor_path@)) matches Some(e) ==> (confirmed
            ==> r.deleted == Some(e.id) && r.message@ == "Successfully deleted Editor '"@
            + e.app_name@ + "'"@ && *final(app_settings) == settings_without_editor(
            *old(app_settings),
            e.id,
        )) && (!confirmed ==> r.deleted is None && *final(app_settings)
            == *old(app_settings)),
{
    match find_editor_by_path(editors, editor_path) {
        Some(e) => delete_editor_core(app_settings, e.id, e.app_name.as_str(), confirmed),
        None => DeleteOutcome {
            message: concat3("Editor not found - '", editor_path, "'"),
            deleted: None,
        },
    }
}

/// Makes the editor with the given path the default one.
pub fn cli_set_default_editor(editors: &Vec<Editor>, app_settings: &mut AppSettings, path: &str) -> (r:
    Result<String, String>)
    ensures
        first_match(editors@, editor_has_path(path@)) matches Some(e) ==> *final(app_settings) == (
        AppSettings { default_editor_id: Some(e.id), ..*old(app_settings) }) && (r matches Ok(
            m,
        ) && m@ == "Successfully set Editor '"@ + editor_text(e) + "' as Default"@),
        first_match(editors@, editor_has_path(path@)) is None ==> *final(app_settings) == *old(
            app_settings,
        ) && (r matches Err(m) && m@ == text_error("Failed to get editor with path '"@, path@)),
{
    let e = match crate::db::get_editor_by_path(editors, path) {
        Ok(e) => e,
        Err(m) => return Err(m),
    };
    app_settings.default_editor_id = Some(e.id);
    let shown = e.display_text();
    Ok(concat3("Successfully set Editor '", shown.as_str(), "' as Default"))
}

} // verus!

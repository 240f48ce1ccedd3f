//! The Doomworld idgames archive's search API: what a search answers, and how the
//! launcher reads an answer.

use vstd::prelude::*;
use crate::constants::DEFAULT_UNKNOWN;
use crate::paths::{base_name_spec, extract_file_name_no_extension};
use crate::text::{concat3, copy_str, i32_to_string, signed_decimal};

verus! {

/// Search by file name.
pub const SEARCH_FILENAME: &'static str = "filename";
/// Search by author.
pub const SEARCH_AUTHOR: &'static str = "author";
/// Search by title.
pub const SEARCH_TITLE: &'static str = "title";

/// Newest first.
pub const SORT_DATE: &'static str = "date";
/// By file name.
pub const SORT_FILENAME: &'static str = "filename";

/// The version of the API whose answers the launcher reads.
pub const EXPECTED_API_VERSION: i32 = 3;

/// A file of the archive. A missing title or author reads as `DEFAULT_UNKNOWN`.
#[derive(Debug)]
pub struct DoomworldFile {
    pub id: i32,
    pub title: String,
    pub author: String,
    pub filename: String,
    pub url: String,
    pub dir: String,
}

/// `title by author (filename)`.
pub open spec fn short_display_text(f: DoomworldFile) -> Seq<char> {
    f.title@ + " by "@ + f.author@ + " ("@ + f.filename@ + ")"@
}

impl DoomworldFile {
    /// The file as one short line.
    pub fn short_display(&self) -> (r: String)
        ensures
            r@ == short_display_text(*self),
    {
        let mut r = concat3(self.title.as_str(), " by ", self.author.as_str());
        r.append(" (");
        r.append(self.filename.as_str());
        r.append(")");
        r
    }

    /// A copy of the file.
    pub fn copy(&self) -> (r: DoomworldFile)
        ensures
            r == *self,
    {
        DoomworldFile {
            id: self.id,
            title: self.title.clone(),
            author: self.author.clone(),
            filename: self.filename.clone(),
            url: self.url.clone(),
            dir: self.dir.clone(),
        }
    }
}

/// An error the API reports.
#[derive(Debug)]
pub struct Error {
    pub error_type: String,
    pub message: String,
}

/// A warning the API reports.
#[derive(Debug)]
pub struct Warning {
    pub warning_type: String,
    pub message: String,
}

/// What an answer's `file` field holds: one file, a list of files, or something else.
#[derive(Debug)]
pub enum FileField {
    One(DoomworldFile),
    Many(Vec<DoomworldFile>),
    Other,
}

/// The content of an answer.
#[derive(Debug)]
pub struct Content {
    pub file: Option<FileField>,
}

/// An answer's metadata.
#[derive(Debug)]
pub struct Meta {
    pub version: i32,
}

/// An answer of the API.
#[derive(Debug)]
pub struct ApiResponse {
    pub error: Option<Error>,
    pub warning: Option<Warning>,
    pub content: Option<Content>,
    pub meta: Meta,
}

/// What the launcher reads from an answer: a message (an error or warning, "" when
/// there is none) and the files found.
#[derive(Debug)]
pub struct ApiResult {
    pub message: String,
    pub files: Vec<DoomworldFile>,
}

/// The message of an answer: its warning when it has one, else its error, else "".
pub open spec fn response_message(r: ApiResponse) -> Seq<char> {
    match r.warning {
        Some(w) => "Warning - "@ + w.message@,
        None => match r.error {
            Some(e) => "Error - "@ + e.message@,
            None => Seq::empty(),
        },
    }
}

/// The files of an answer: the one file, or the list, or none.
pub open spec fn response_files(r: ApiResponse) -> Seq<DoomworldFile> {
    match r.content {
        Some(c) => match c.file {
            Some(FileField::One(f)) => seq![f],
            Some(FileField::Many(v)) => v@,
            _ => Seq::empty(),
        },
        None => Seq::empty(),
    }
}

/// The message for an answer of another API version.
pub open spec fn version_error(v: i32) -> Seq<char> {
    "Error, unexpected Doomworld API version: "@ + signed_decimal(v as int) + " (expected 3)"@
}

/// Reads an answer: its message and files, unless it is of another API version.
pub fn parse_doomworld_api_response(response: ApiResponse) -> (r: Result<ApiResult, String>)
    ensures
        response.meta.version != EXPECTED_API_VERSION ==> (r matches Err(m) && m@ == version_error(
            response.meta.version,
        )),
        response.meta.version == EXPECTED_API_VERSION ==> (r matches Ok(a) && a.message@
            == response_message(response) && a.files@ == response_files(response)),
{
    if response.meta.version != EXPECTED_API_VERSION {
        let v = i32_to_string(response.meta.version);
        return Err(
            concat3("Error, unexpected Doomworld API version: ", v.as_str(), " (expected 3)"),
        );
    }
    let ghost whole = response;
    let mut message = String::new();
    if let Some(error) = response.error {
        message = crate::text::concat2("Error - ", error.message.as_str());
    }
    if let Some(warning) = response.warning {
        message = crate::text::concat2("Warning - ", warning.message.as_str());
    }
    let files: Vec<DoomworldFile> = match response.content {
        Some(c) => match c.file {
            Some(FileField::One(f)) => vec![f],
            Some(FileField::Many(v)) => v,
            _ => Vec::new(),
        },
        None => Vec::new(),
    };
    proof {
        assert(files@ =~= response_files(whole));
    }
    Ok(ApiResult { message, files })
}

/// The file name a map is searched for in the archive: its base name with `.zip`.
pub fn doomworld_lookup_filename(map_path: &str) -> (r: String)
    ensures
        r@ == base_name_spec(map_path@) + ".zip"@,
{
    let base = extract_file_name_no_extension(map_path);
    crate::text::concat2(base.as_str(), ".zip")
}

/// The title, author, id and address of the first file a search found; the title and
/// author are `DEFAULT_UNKNOWN` and the others none when it found nothing.
pub fn lookup_map_from_doomworld_api(api_result: &ApiResult) -> (r: (
    String,
    String,
    Option<i32>,
    Option<String>,
))
    ensures
        api_result.files@.len() == 0 ==> r.0@ == DEFAULT_UNKNOWN@ && r.1@ == DEFAULT_UNKNOWN@
            && r.2 is None && r.3 is None,
        api_result.files@.len() > 0 ==> {
            let f = api_result.files@[0];
            &&& r.0@ == f.title@
            &&& r.1@ == f.author@
            &&& r.2 == Some(f.id)
            &&& r.3 matches Some(u) && u@ == f.url@
        },
{
    if api_result.files.len() == 0 {
        return (copy_str(DEFAULT_UNKNOWN), copy_str(DEFAULT_UNKNOWN), None, None);
    }
    let f = &api_result.files[0];
    (f.title.clone(), f.author.clone(), Some(f.id), Some(f.url.clone()))
}

} // verus!

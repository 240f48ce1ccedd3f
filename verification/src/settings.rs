//! The settings file of the small console launcher: where it lies and what it holds.

use vstd::prelude::*;
use crate::paths::{full_path_spec, get_full_path};

verus! {

/// What the console launcher's settings file holds.
#[derive(Debug)]
pub struct Settings {
    pub doom_exe: String,
    pub iwad: String,
    pub file: String,
    pub editor_exe: String,
}

/// The settings file's path: the file's name joined onto the folder of the running
/// executable (`exe_dir`).
pub fn get_config_filename(exe_dir: &str, config_file: &str) -> (r: String)
    ensures
        r@ == full_path_spec(exe_dir@, config_file@),
{
    get_full_path(exe_dir, config_file)
}

} // verus!

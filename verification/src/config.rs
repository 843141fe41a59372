//! The session configuration: the project directory the members run in and
//! the optional build-mode flag, plus the well-known location of the host
//! terminal's settings document.

use vstd::prelude::*;
use vstd::string::StringExecFns;

verus! {

/// The configuration a session is created from: the project root used as the
/// working directory of every spawned member, and an optional release flag.
/// Immutable once loaded.
#[derive(Clone, Debug)]
pub struct Config {
    pub project_path: String,
    pub release: Option<bool>,
}

/// The effective build mode: release only when the flag is present and set;
/// an absent flag means debug.
pub fn effective_release(config: &Config) -> (r: bool)
    ensures
        r == (config.release == Some(true)),
{
    match config.release {
        Some(b) => b,
        None => false,
    }
}

/// The path of the host terminal's settings document, relative to the home
/// directory, for the regular or the preview edition of the terminal.
pub fn settings_path_components(preview: bool) -> (r: Vec<String>)
    ensures
        r@.len() == 6,
        r@[0]@ == "AppData"@,
        r@[1]@ == "Local"@,
        r@[2]@ == "Packages"@,
        r@[3]@ == (if preview {
            "Microsoft.WindowsTerminalPreview_8wekyb3d8bbwe"@
        } else {
            "Microsoft.WindowsTerminal_8wekyb3d8bbwe"@
        }),
        r@[4]@ == "LocalState"@,
        r@[5]@ == "settings.json"@,
{
    let mut v: Vec<String> = Vec::new();
    v.push(String::from_str("AppData"));
    v.push(String::from_str("Local"));
    v.push(String::from_str("Packages"));
    if preview {
        v.push(String::from_str("Microsoft.WindowsTerminalPreview_8wekyb3d8bbwe"));
    } else {
        v.push(String::from_str("Microsoft.WindowsTerminal_8wekyb3d8bbwe"));
    }
    v.push(String::from_str("LocalState"));
    v.push(String::from_str("settings.json"));
    v
}

} // verus!

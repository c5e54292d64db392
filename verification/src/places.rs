//! Where the app keeps its files, and what it writes there for a session's
//! bypass setting.

use vstd::prelude::*;

verus! {

/// The directory that the app's files live under: the home directory where
/// there is one, else the local data directory where there is one, else the
/// fallback (the working directory).
pub fn pick_base_dir<T>(home: Option<T>, data_local: Option<T>, fallback: T) -> (base: T)
    ensures
        base == match home {
            Some(h) => h,
            None => match data_local {
                Some(d) => d,
                None => fallback,
            },
        },
{
    match home {
        Some(h) => h,
        None => match data_local {
            Some(d) => d,
            None => fallback,
        },
    }
}

/// Where the todo list is stored, relative to the base directory.
pub fn todo_file_path() -> (path: &'static str)
    ensures
        path@ == ".vibe-island/todos.json"@,
{
    ".vibe-island/todos.json"
}

/// The directory of the bypass flag files, one per session named by the
/// session's id, relative to the base directory.
pub fn bypass_flag_dir() -> (path: &'static str)
    ensures
        path@ == ".vibe-island/bypass-flags"@,
{
    ".vibe-island/bypass-flags"
}

/// What becomes of a session's bypass flag file.
pub enum BypassFlagChange {
    /// Write the file with these contents.
    Write(String),
    /// Remove the file, where it exists.
    Remove,
}

/// Switching bypass on writes the flag file with the setting
/// `CLAUDE_BYPASS_PERMISSIONS=1`, which the hook reads on its next run;
/// switching it off removes the file.
pub fn bypass_flag_change(enabled: bool) -> (change: BypassFlagChange)
    ensures
        change is Write <==> enabled,
        change matches BypassFlagChange::Write(contents) ==> contents@ == "CLAUDE_BYPASS_PERMISSIONS=1"@,
{
    if enabled {
        BypassFlagChange::Write("CLAUDE_BYPASS_PERMISSIONS=1".to_owned())
    } else {
        BypassFlagChange::Remove
    }
}

} // verus!

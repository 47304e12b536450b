//! Portable-mode detection and data-directory selection.
//!
//! Portable mode is toggled by the mere presence of a sentinel file
//! next to the running executable.  The surrounding program resolves
//! the executable's directory and probes the file; the decisions — what
//! path to probe, what the probe's outcome means, and where persistent
//! data goes — are made and verified here.

use vstd::prelude::*;

verus! {

/// The path of the sentinel file for a given executable directory.
pub open spec fn sentinel_path_of(exe_dir: Seq<char>) -> Seq<char> {
    exe_dir + "/.portable"@
}

/// The data directory used in portable mode, a sibling of the
/// executable.
pub open spec fn portable_data_dir_of(exe_dir: Seq<char>) -> Seq<char> {
    exe_dir + "/data"@
}

/// Builds the path of the sentinel file to probe.
pub fn sentinel_path(exe_dir: &str) -> (r: String)
    ensures
        r@ == sentinel_path_of(exe_dir@),
{
    let s = String::from_str(exe_dir);
    s.concat("/.portable")
}

/// Builds the portable-mode data directory path.
pub fn data_dir_path(exe_dir: &str) -> (r: String)
    ensures
        r@ == portable_data_dir_of(exe_dir@),
{
    let s = String::from_str(exe_dir);
    s.concat("/data")
}

/// Portable mode holds exactly when the sentinel file was found.  A
/// probe that never happened — the executable's directory could not be
/// resolved — reads as "not portable", the same as an absent file.
pub fn is_portable(sentinel_found: Option<bool>) -> (r: bool)
    ensures
        r == (sentinel_found == Some(true)),
{
    match sentinel_found {
        Some(found) => found,
        None => false,
    }
}

/// Where persistent data is stored at startup: the sibling `data`
/// directory of the executable when the sentinel file is present, and
/// the platform-default profile directory otherwise, including when the
/// executable's directory could not be resolved.
pub fn resolve_data_dir(exe_dir: Option<&str>, sentinel_found: bool, default_dir: &str) -> (r:
    String)
    ensures
        match exe_dir {
            Some(d) => r@ == if sentinel_found {
                portable_data_dir_of(d@)
            } else {
                default_dir@
            },
            None => r@ == default_dir@,
        },
{
    match exe_dir {
        Some(d) => if sentinel_found {
            data_dir_path(d)
        } else {
            String::from_str(default_dir)
        },
        None => String::from_str(default_dir),
    }
}

} // verus!

//! Decisions taken when the program starts: logging defaults, the build
//! banner, the default library collection and the cache folders to check.

use vstd::prelude::*;
use crate::globals::CACHE_THUMBNAILS_SUBDIR;
use crate::library::media_viewer::str_eq;
use crate::util::enums::XDGUserDir;
use crate::util::listing::{join_path, joined_path};

verus! {

/// Environment variables to set before logging starts.
#[derive(Debug, Clone)]
pub struct LogSettings {
    /// New value of `RUST_LOG`, if it is to be set.
    pub rust_log: Option<String>,
    /// New value of `G_MESSAGES_DEBUG`, if it is to be set.
    pub g_messages_debug: Option<String>,
}

/// What to set given the current `RUST_LOG` (`rust_log`, when set): with
/// `RUST_LOG=debug`, GLib's debug messages are all shown; without
/// `RUST_LOG`, both variables get the build's defaults; otherwise nothing
/// changes.
pub fn log_settings(rust_log: Option<String>, default_rust_log: &str, default_g_messages_debug: &str) -> (r: LogSettings)
    ensures
        match rust_log {
            Some(v) => {
                &&& r.rust_log is None
                &&& v@ == "debug"@ ==> (r.g_messages_debug matches Some(g) && g@ == "all"@)
                &&& v@ != "debug"@ ==> r.g_messages_debug is None
            },
            None => {
                &&& r.rust_log matches Some(l) && l@ == default_rust_log@
                &&& r.g_messages_debug matches Some(g) && g@ == default_g_messages_debug@
            },
        },
{
    match rust_log {
        Some(v) => {
            if str_eq(v.as_str(), "debug") {
                LogSettings { rust_log: None, g_messages_debug: Some(String::from_str("all")) }
            } else {
                LogSettings { rust_log: None, g_messages_debug: None }
            }
        },
        None => LogSettings {
            rust_log: Some(String::from_str(default_rust_log)),
            g_messages_debug: Some(String::from_str(default_g_messages_debug)),
        },
    }
}

/// The part of the start-up banner that names the Flatpak sandbox:
/// ` [FLATPAK_ID: <id>]` inside one, empty otherwise.
pub fn flatpak_banner(flatpak_id: Option<&str>) -> (r: String)
    ensures
        match flatpak_id {
            Some(id) => r@ == " [FLATPAK_ID: "@ + id@ + "]"@,
            None => r@ == Seq::<char>::empty(),
        },
{
    match flatpak_id {
        Some(id) => {
            let mut r = String::from_str(" [FLATPAK_ID: ");
            r.append(id);
            r.append("]");
            r
        },
        None => String::new(),
    }
}

/// The XDG user directories that make up the default library collection.
pub fn default_library_collection() -> (r: Vec<XDGUserDir>)
    ensures
        r@ == seq![XDGUserDir::Pictures, XDGUserDir::Videos],
{
    let r: Vec<XDGUserDir> = vec![XDGUserDir::Pictures, XDGUserDir::Videos];
    proof {
        assert(r@ =~= seq![XDGUserDir::Pictures, XDGUserDir::Videos]);
    }
    r
}

/// The cache folders that must exist under the application's cache
/// directory `app_cache_dir`: the thumbnails folder.
pub fn cache_subdirectory_paths(app_cache_dir: &str) -> (r: Vec<String>)
    ensures
        r@.len() == 1,
        r@[0]@ == joined_path(app_cache_dir@, CACHE_THUMBNAILS_SUBDIR@),
{
    let mut r: Vec<String> = Vec::new();
    r.push(join_path(app_cache_dir, CACHE_THUMBNAILS_SUBDIR));
    r
}

/// The version shown in the about dialog: the revision for development
/// builds, the release version otherwise.
pub fn about_version<'a>(development_build: bool, vcs_tag: &'a str, app_version: &'a str) -> (r: &'a str)
    ensures
        r@ == (if development_build { vcs_tag@ } else { app_version@ }),
{
    if development_build {
        vcs_tag
    } else {
        app_version
    }
}

} // verus!

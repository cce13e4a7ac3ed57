//! Decisions of the application object: where its cache lives, and which
//! theme actions are checked.

pub mod library_list_model;

use vstd::prelude::*;
use crate::util::listing::{join_path, joined_path};
use crate::util::enums::{theme_value, PreferredAdwaitaTheme};
use crate::library::media_viewer::str_eq;
use crate::util::io_kind::IoErrorKind;

verus! {

/// The user's cache directory: `$XDG_CACHE_HOME` when it is set and not
/// empty; otherwise, in a Flatpak sandbox, `$HOME/.var/app/$FLATPAK_ID/cache`,
/// and else `$HOME/.cache`. (An empty `$XDG_CACHE_HOME` counts as unset, as
/// the XDG base directory specification asks.)
pub open spec fn cache_directory(
    xdg_cache_home: Option<Seq<char>>,
    home: Seq<char>,
    flatpak_id: Option<Seq<char>>,
) -> Seq<char> {
    match xdg_cache_home {
        Some(v) if v.len() > 0 => v,
        _ => match flatpak_id {
            Some(id) => home + "/.var/app/"@ + id + "/cache"@,
            None => home + "/.cache"@,
        },
    }
}

/// Whether the cache directory falls back to one under `$HOME`: when
/// `$XDG_CACHE_HOME` is unset or empty.
pub open spec fn uses_home_cache(xdg_cache_home: Option<Seq<char>>) -> bool {
    match xdg_cache_home {
        Some(v) => v.len() == 0,
        None => true,
    }
}

/// Returns the absolute path of the user's cache directory: the value of
/// `$XDG_CACHE_HOME` (`xdg_cache_home`) when it is set and not empty;
/// otherwise, under `$HOME` (`home`), the sandbox's cache when running as
/// the Flatpak `flatpak_id`, and `.cache` when not. `$HOME` and, inside a
/// sandbox, a `$FLATPAK_ID` equal to the application's id `app_id` are
/// needed only for the fallback.
pub fn get_cache_directory(
    xdg_cache_home: Option<String>,
    home: Option<String>,
    flatpak_id: Option<String>,
    app_id: &str,
) -> (r: String)
    requires
        uses_home_cache(match xdg_cache_home { Some(v) => Some(v@), None => None }) ==> {
            &&& home is Some
            &&& flatpak_id matches Some(id) ==> id@ == app_id@
        },
    ensures
        r@ == cache_directory(
            match xdg_cache_home { Some(v) => Some(v@), None => None },
            match home { Some(h) => h@, None => Seq::empty() },
            match flatpak_id { Some(id) => Some(id@), None => None },
        ),
{
    match xdg_cache_home {
        Some(value) if !value.as_str().is_empty() => {
            return value;
        },
        _ => {},
    }
    let user_home: String = match home {
        Some(h) => h,
        None => String::new(),
    };
    match is_flatpak(flatpak_id, app_id) {
        Some(id) => {
            let mut r = user_home;
            let a = "/.var/app/";
            let b = "/cache";
            r.append(a);
            r.append(id.as_str());
            r.append(b);
            r
        },
        None => {
            let mut r = user_home;
            let a = "/.cache";
            r.append(a);
            r
        },
    }
}

/// The application's cache directory: outside a Flatpak sandbox, the
/// `app_name` folder of the cache directory; inside one the cache
/// directory itself, which the sandbox already keeps for the application.
pub open spec fn app_cache_directory(cache_dir: Seq<char>, in_flatpak: bool, app_name: Seq<char>) -> Seq<char> {
    if in_flatpak {
        cache_dir
    } else {
        joined_path(cache_dir, app_name)
    }
}

/// Returns the absolute path of the application's cache directory, given
/// the user's cache directory `cache_dir`, whether the application runs
/// in a Flatpak sandbox, and its name `app_name`.
pub fn get_app_cache_directory(cache_dir: &str, in_flatpak: bool, app_name: &str) -> (r: String)
    ensures
        r@ == app_cache_directory(cache_dir@, in_flatpak, app_name@),
{
    if in_flatpak {
        String::from_str(cache_dir)
    } else {
        join_path(cache_dir, app_name)
    }
}

/// Returns `Some($FLATPAK_ID)` when running in a Flatpak sandbox, given the
/// value of `$FLATPAK_ID` (`flatpak_id`, when set), which must be the
/// application's id `app_id`.
pub fn is_flatpak(flatpak_id: Option<String>, app_id: &str) -> (r: Option<String>)
    requires
        flatpak_id matches Some(id) ==> id@ == app_id@,
    ensures
        r == flatpak_id,
        r matches Some(id) ==> id@ == app_id@,
{
    match flatpak_id {
        Some(var) => Some(var),
        None => None,
    }
}

/// What is done about a cache subdirectory after trying to open it.
#[derive(Debug, Clone, Copy, PartialEq, Eq, Structural)]
pub enum CacheSubdirAction {
    /// It exists: nothing to do.
    Keep,
    /// It is missing: create it, and mark the cache as fresh.
    CreateAndMarkFresh,
}

/// What is done about a cache subdirectory, given the error of opening it
/// (`None` when it opened). Any error but a missing directory is left out:
/// the application does not handle it.
pub fn cache_subdir_action(open_error: Option<IoErrorKind>) -> (r: CacheSubdirAction)
    requires
        open_error != Some(IoErrorKind::Other) && open_error != Some(IoErrorKind::PermissionDenied),
    ensures
        r == (if open_error is None { CacheSubdirAction::Keep } else { CacheSubdirAction::CreateAndMarkFresh }),
{
    match open_error {
        None => CacheSubdirAction::Keep,
        Some(_) => CacheSubdirAction::CreateAndMarkFresh,
    }
}

/// Whether the response of the clear-cache prompt asks to clear the cache.
pub fn clear_cache_confirmed(response: &str) -> (r: bool)
    ensures
        r == (response@ == "clear"@),
{
    str_eq(response, "clear")
}

/// How a failure to remove the application's cache directory is reported.
#[derive(Debug, Clone, Copy, PartialEq, Eq, Structural)]
pub enum CacheClearReport {
    /// The directory was already gone: nothing to report.
    Nothing,
    /// A critical message: the permissions do not allow clearing the cache.
    InsufficientPermissions,
    /// An error the application does not expect; the program stops.
    Unexpected,
}

/// How a failure of kind `kind` to remove the cache directory is reported.
pub fn cache_clear_report(kind: IoErrorKind) -> (r: CacheClearReport)
    ensures
        r == (match kind {
            IoErrorKind::NotFound => CacheClearReport::Nothing,
            IoErrorKind::PermissionDenied => CacheClearReport::InsufficientPermissions,
            IoErrorKind::Other => CacheClearReport::Unexpected,
        }),
{
    match kind {
        IoErrorKind::NotFound => CacheClearReport::Nothing,
        IoErrorKind::PermissionDenied => CacheClearReport::InsufficientPermissions,
        IoErrorKind::Other => CacheClearReport::Unexpected,
    }
}

/// Color scheme requested from the style manager.
#[derive(Debug, Clone, Copy, PartialEq, Eq, Structural)]
pub enum ColorScheme {
    Default,
    ForceLight,
    ForceDark,
}

/// Check states of the three theme actions.
#[derive(Debug, Clone, Copy, PartialEq, Eq, Structural)]
pub struct ThemeActionStates {
    pub system_theme: bool,
    pub dark_theme: bool,
    pub light_theme: bool,
}

/// The color scheme of a theme.
pub open spec fn color_scheme_of(theme: PreferredAdwaitaTheme) -> ColorScheme {
    match theme {
        PreferredAdwaitaTheme::System => ColorScheme::Default,
        PreferredAdwaitaTheme::Light => ColorScheme::ForceLight,
        PreferredAdwaitaTheme::Dark => ColorScheme::ForceDark,
    }
}

/// The name of the action that selects a theme.
pub open spec fn theme_action_name(theme: PreferredAdwaitaTheme) -> Seq<char> {
    match theme {
        PreferredAdwaitaTheme::System => "system-theme"@,
        PreferredAdwaitaTheme::Light => "light-theme"@,
        PreferredAdwaitaTheme::Dark => "dark-theme"@,
    }
}

/// The action states with only the action of `theme` checked.
pub open spec fn states_for(theme: PreferredAdwaitaTheme) -> ThemeActionStates {
    ThemeActionStates {
        system_theme: theme == PreferredAdwaitaTheme::System,
        dark_theme: theme == PreferredAdwaitaTheme::Dark,
        light_theme: theme == PreferredAdwaitaTheme::Light,
    }
}

impl PreferredAdwaitaTheme {
    /// The color scheme to request for this theme.
    pub fn color_scheme(&self) -> (c: ColorScheme)
        ensures
            c == color_scheme_of(*self),
    {
        match *self {
            PreferredAdwaitaTheme::System => ColorScheme::Default,
            PreferredAdwaitaTheme::Light => ColorScheme::ForceLight,
            PreferredAdwaitaTheme::Dark => ColorScheme::ForceDark,
        }
    }

    /// The name of the action that selects this theme.
    pub fn action_name(&self) -> (r: &'static str)
        ensures
            r@ == theme_action_name(*self),
    {
        match *self {
            PreferredAdwaitaTheme::System => "system-theme",
            PreferredAdwaitaTheme::Light => "light-theme",
            PreferredAdwaitaTheme::Dark => "dark-theme",
        }
    }
}

/// The check states of the theme actions after the action named
/// `action_name` was activated: only that action is checked. `None` when
/// no theme action has that name.
pub fn update_theme_action_states(action_name: &str) -> (r: Option<ThemeActionStates>)
    ensures
        action_name@ == "system-theme"@ ==> r == Some(states_for(PreferredAdwaitaTheme::System)),
        action_name@ == "light-theme"@ ==> r == Some(states_for(PreferredAdwaitaTheme::Light)),
        action_name@ == "dark-theme"@ ==> r == Some(states_for(PreferredAdwaitaTheme::Dark)),
        action_name@ != "system-theme"@ && action_name@ != "light-theme"@ && action_name@ != "dark-theme"@
            ==> r is None,
{
    proof {
        reveal_strlit("system-theme");
        reveal_strlit("light-theme");
        reveal_strlit("dark-theme");
        assert("system-theme"@.len() == 12);
        assert("light-theme"@.len() == 11);
        assert("dark-theme"@.len() == 10);
    }
    let name = String::from_str(action_name);
    if name == String::from_str("system-theme") {
        Some(ThemeActionStates { system_theme: true, dark_theme: false, light_theme: false })
    } else if name == String::from_str("light-theme") {
        Some(ThemeActionStates { system_theme: false, dark_theme: false, light_theme: true })
    } else if name == String::from_str("dark-theme") {
        Some(ThemeActionStates { system_theme: false, dark_theme: true, light_theme: false })
    } else {
        None
    }
}

/// What the application does when the `adwaita-theme` settings key takes
/// the value `key`: request the color scheme of the theme kept as that
/// value and check only that theme's action. `None` when the value is out
/// of the key's range.
pub fn adwaita_theme_changed(key: i32) -> (r: Option<(ColorScheme, ThemeActionStates)>)
    ensures
        match PreferredAdwaitaTheme::spec_from_value(key) {
            Some(t) => r == Some((color_scheme_of(t), states_for(t))),
            None => r is None,
        },
{
    match PreferredAdwaitaTheme::from_value(key) {
        Some(theme) => {
            let states = update_theme_action_states(theme.action_name());
            Some((theme.color_scheme(), states.unwrap()))
        },
        None => None,
    }
}

/// The check states of the theme actions when the application starts:
/// only the system theme's action is checked.
pub fn initial_theme_action_states() -> (s: ThemeActionStates)
    ensures
        s == states_for(PreferredAdwaitaTheme::System),
{
    ThemeActionStates { system_theme: true, dark_theme: false, light_theme: false }
}

/// The check states after the action of `theme` is activated in the
/// states `before`: `update_theme_action_states` sets all three states, so
/// the result does not depend on `before`.
pub open spec fn theme_states_step(before: ThemeActionStates, theme: PreferredAdwaitaTheme) -> ThemeActionStates {
    states_for(theme)
}

/// The check states of the theme actions after the theme actions of
/// `activations` were activated in turn, from the initial states.
pub open spec fn theme_states_after(activations: Seq<PreferredAdwaitaTheme>) -> ThemeActionStates
    decreases activations.len(),
{
    if activations.len() == 0 {
        states_for(PreferredAdwaitaTheme::System)
    } else {
        theme_states_step(theme_states_after(activations.drop_last()), activations.last())
    }
}

/// After any sequence of theme activations, exactly one theme action is
/// checked: the last activated one (the system theme's when none was), and
/// the settings key then holds that theme, whose color scheme is requested.
pub proof fn law_theme_activations(activations: Seq<PreferredAdwaitaTheme>)
    ensures
        ({
            let last = if activations.len() == 0 { PreferredAdwaitaTheme::System } else { activations.last() };
            let s = theme_states_after(activations);
            &&& s == states_for(last)
            &&& (s.system_theme as int) + (s.dark_theme as int) + (s.light_theme as int) == 1
            &&& PreferredAdwaitaTheme::spec_from_value(theme_value(last)) == Some(last)
        }),
{
    let last = if activations.len() == 0 { PreferredAdwaitaTheme::System } else { activations.last() };
    law_theme_selection_consistent(last);
}

/// Selecting a theme and reading the settings key back agree: the key
/// holds the theme's value, and the application then requests the
/// theme's color scheme and checks exactly the theme's own action.
pub proof fn law_theme_selection_consistent(theme: PreferredAdwaitaTheme)
    ensures
        PreferredAdwaitaTheme::spec_from_value(theme_value(theme)) == Some(theme),
        states_for(theme).system_theme == (theme_action_name(theme) == "system-theme"@),
        ({
            let s = states_for(theme);
            (s.system_theme as int) + (s.dark_theme as int) + (s.light_theme as int) == 1
        }),
{
    reveal_strlit("system-theme");
    reveal_strlit("light-theme");
    reveal_strlit("dark-theme");
    assert("system-theme"@.len() == 12);
    assert("light-theme"@.len() == 11);
    assert("dark-theme"@.len() == 10);
}

} // verus!

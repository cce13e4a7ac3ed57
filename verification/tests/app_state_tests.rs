use memories::application::{
    adwaita_theme_changed, cache_clear_report, initial_theme_action_states, cache_subdir_action, clear_cache_confirmed, get_app_cache_directory,
    get_cache_directory, is_flatpak, update_theme_action_states, CacheClearReport, CacheSubdirAction, ColorScheme,
    ThemeActionStates,
};
use memories::globals::CACHE_THUMBNAILS_SUBDIR;
use memories::library::media_viewer::ViewerContentType;
use memories::startup::{about_version, cache_subdirectory_paths, default_library_collection, flatpak_banner, log_settings};
use memories::util::enums::{PreferredAdwaitaTheme, XDGUserDir};
use memories::util::io_kind::IoErrorKind;
use memories::utils;
use memories::window::{master_stack_child_visible, master_window_loads_library, MemoriesApplicationWindow};

fn states(system_theme: bool, dark_theme: bool, light_theme: bool) -> ThemeActionStates {
    ThemeActionStates { system_theme, dark_theme, light_theme }
}

#[test]
fn cache_directory_prefers_xdg_cache_home() {
    let r = get_cache_directory(Some(String::from("/x/cache")), Some(String::from("/home/u")), Some(String::from("io.m")), "io.m");
    assert_eq!(r, "/x/cache");
}

#[test]
fn cache_directory_in_flatpak_sandbox() {
    let r = get_cache_directory(None, Some(String::from("/home/u")), Some(String::from("io.m")), "io.m");
    assert_eq!(r, "/home/u/.var/app/io.m/cache");
}

#[test]
fn cache_directory_outside_flatpak() {
    let r = get_cache_directory(None, Some(String::from("/home/u")), None, "io.m");
    assert_eq!(r, "/home/u/.cache");
}

#[test]
fn cache_directory_empty_xdg_cache_home_falls_back() {
    let r = get_cache_directory(Some(String::new()), Some(String::from("/home/u")), None, "io.m");
    assert_eq!(r, "/home/u/.cache");
    let r = get_cache_directory(Some(String::new()), Some(String::from("/home/u")), Some(String::from("io.m")), "io.m");
    assert_eq!(r, "/home/u/.var/app/io.m/cache");
}

#[test]
fn app_cache_directory_nested_outside_flatpak() {
    assert_eq!(get_app_cache_directory("/home/u/.cache", false, "Memories"), "/home/u/.cache/Memories");
    assert_eq!(get_app_cache_directory("/home/u/.var/app/io.m/cache", true, "Memories"), "/home/u/.var/app/io.m/cache");
}

#[test]
fn flatpak_detection() {
    assert_eq!(is_flatpak(Some(String::from("io.m")), "io.m"), Some(String::from("io.m")));
    assert_eq!(is_flatpak(None, "io.m"), None);
}

#[test]
fn theme_actions() {
    assert_eq!(update_theme_action_states("system-theme"), Some(states(true, false, false)));
    assert_eq!(update_theme_action_states("dark-theme"), Some(states(false, true, false)));
    assert_eq!(update_theme_action_states("light-theme"), Some(states(false, false, true)));
    assert_eq!(update_theme_action_states("blue-theme"), None);
    assert_eq!(PreferredAdwaitaTheme::Dark.action_name(), "dark-theme");
    assert_eq!(PreferredAdwaitaTheme::Light.color_scheme(), ColorScheme::ForceLight);
    assert_eq!(PreferredAdwaitaTheme::System.color_scheme(), ColorScheme::Default);
}

#[test]
fn theme_key_changes() {
    assert_eq!(adwaita_theme_changed(0), Some((ColorScheme::Default, states(true, false, false))));
    assert_eq!(adwaita_theme_changed(1), Some((ColorScheme::ForceLight, states(false, false, true))));
    assert_eq!(adwaita_theme_changed(2), Some((ColorScheme::ForceDark, states(false, true, false))));
    assert_eq!(adwaita_theme_changed(3), None);
}

#[test]
fn theme_selection_reads_back() {
    for t in [PreferredAdwaitaTheme::System, PreferredAdwaitaTheme::Light, PreferredAdwaitaTheme::Dark] {
        let (scheme, s) = adwaita_theme_changed(t.value()).unwrap();
        assert_eq!(scheme, t.color_scheme());
        assert_eq!(Some(s), update_theme_action_states(t.action_name()));
    }
}

#[test]
fn window_stack_pages() {
    let lib = master_stack_child_visible("library", false).unwrap();
    assert_eq!(lib.search_placeholder, "Search Photos");
    assert!(lib.load_library);
    assert!(!master_stack_child_visible("library", true).unwrap().load_library);
    let albums = master_stack_child_visible("albums", false).unwrap();
    assert_eq!(albums.search_placeholder, "Search Albums");
    assert!(!albums.load_library);
    let fav = master_stack_child_visible("favorites", false).unwrap();
    assert_eq!(fav.search_placeholder, "Search Favorites");
    assert!(master_stack_child_visible("viewer", false).is_none());
}

#[test]
fn window_fullscreen_toggles_twice_back() {
    let start = MemoriesApplicationWindow::new(false, false, 800, 600);
    assert!(!start.search_mode);
    let mut w = start;
    assert!(w.toggle_fullscreen());
    assert!(w.fullscreened);
    assert!(!w.toggle_fullscreen());
    assert_eq!(w, start);
}

#[test]
fn window_leave_fullscreen() {
    let mut w = MemoriesApplicationWindow::new(false, true, 800, 600);
    assert!(w.leave_fullscreen());
    assert!(!w.fullscreened);
    assert!(!w.leave_fullscreen());
    assert!(!w.fullscreened);
}

#[test]
fn window_size_kept_unless_maximized() {
    assert_eq!(MemoriesApplicationWindow::new(false, false, 800, 600).close_request(), Some((800, 600)));
    assert_eq!(MemoriesApplicationWindow::new(true, false, 800, 600).close_request(), None);
    let mut w = MemoriesApplicationWindow::new(false, false, 1, 2);
    w.toggle_search_bar(true);
    assert!(w.search_mode);
    w.toggle_search_bar(false);
    assert!(!w.search_mode);
}

#[test]
fn master_window_library_loading() {
    assert!(master_window_loads_library("library", "library", false));
    assert!(!master_window_loads_library("library", "library", true));
    assert!(!master_window_loads_library("albums", "library", false));
}

#[test]
fn logging_defaults() {
    let debug = log_settings(Some(String::from("debug")), "memories=info", "Memories");
    assert_eq!(debug.rust_log, None);
    assert_eq!(debug.g_messages_debug.as_deref(), Some("all"));
    let warn = log_settings(Some(String::from("warn")), "memories=info", "Memories");
    assert_eq!(warn.rust_log, None);
    assert_eq!(warn.g_messages_debug, None);
    let unset = log_settings(None, "memories=info", "Memories");
    assert_eq!(unset.rust_log.as_deref(), Some("memories=info"));
    assert_eq!(unset.g_messages_debug.as_deref(), Some("Memories"));
}

#[test]
fn startup_banner_and_folders() {
    assert_eq!(flatpak_banner(Some("io.m")), " [FLATPAK_ID: io.m]");
    assert_eq!(flatpak_banner(None), "");
    assert_eq!(default_library_collection(), vec![XDGUserDir::Pictures, XDGUserDir::Videos]);
    assert_eq!(cache_subdirectory_paths("/c/Memories"), vec![format!("/c/Memories/{}", CACHE_THUMBNAILS_SUBDIR)]);
    assert_eq!(about_version(true, "abc123", "1.0"), "abc123");
    assert_eq!(about_version(false, "abc123", "1.0"), "1.0");
}

#[test]
fn metadata_hash_is_md5_hex() {
    assert_eq!(utils::get_metadata_hash(b""), "d41d8cd98f00b204e9800998ecf8427e");
    assert_eq!(utils::get_metadata_hash(b"abc"), "900150983cd24fb0d6963f7d28e17f72");
    assert_eq!(utils::get_metadata_hash(b"abc").len(), 32);
}

#[test]
fn older_cache_directories() {
    assert_eq!(utils::get_cache_directory(Some(String::from("/x")), None), "/x");
    assert_eq!(utils::get_cache_directory(None, Some(String::from("/home/u"))), "/home/u/.cache");
    assert_eq!(utils::get_cache_directory(Some(String::new()), Some(String::from("/home/u"))), "/home/u/.cache");
    assert_eq!(utils::get_app_cache_directory("/home/u/.cache", "Memories"), "/home/u/.cache/Memories");
}

#[test]
fn content_type_from_extension_as_written() {
    assert_eq!(utils::get_content_type_from_ext("jpg"), ViewerContentType::Image);
    assert_eq!(utils::get_content_type_from_ext("JPG"), ViewerContentType::Invalid);
    assert_eq!(utils::get_content_type_from_ext("mkv"), ViewerContentType::Video);
    assert_eq!(utils::get_content_type_from_ext("svg"), ViewerContentType::VectorGraphics);
}

#[test]
fn cache_check_and_clear_decisions() {
    assert_eq!(cache_subdir_action(None), CacheSubdirAction::Keep);
    assert_eq!(cache_subdir_action(Some(IoErrorKind::NotFound)), CacheSubdirAction::CreateAndMarkFresh);
    assert!(clear_cache_confirmed("clear"));
    assert!(!clear_cache_confirmed("cancel"));
    assert_eq!(cache_clear_report(IoErrorKind::NotFound), CacheClearReport::Nothing);
    assert_eq!(cache_clear_report(IoErrorKind::PermissionDenied), CacheClearReport::InsufficientPermissions);
    assert_eq!(cache_clear_report(IoErrorKind::Other), CacheClearReport::Unexpected);
}

#[test]
fn theme_actions_start_with_system_checked() {
    assert_eq!(initial_theme_action_states(), states(true, false, false));
    // Any sequence of activations leaves exactly the last one checked.
    let mut s = initial_theme_action_states();
    for name in ["dark-theme", "light-theme", "dark-theme"] {
        s = update_theme_action_states(name).unwrap();
    }
    assert_eq!(s, states(false, true, false));
}

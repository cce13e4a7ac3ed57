//! The library view: which page it shows while the library loads.

pub mod library_list_model;
pub mod media_cell;
pub mod media_grid;
pub mod media_viewer;
pub mod properties;

use vstd::prelude::*;
use crate::util::io_kind::IoErrorKind;

verus! {

/// The type of library view instantiated. Depending on the variant, the
/// placeholder page shown for an empty library differs.
#[derive(Debug, Clone, Copy, PartialEq, Eq, Structural)]
pub enum LibraryViewMode {
    Library,
    Album,
    Favorites,
}

impl Default for LibraryViewMode {
    /// The library mode.
    fn default() -> (m: Self)
        ensures
            m == LibraryViewMode::Library,
    {
        LibraryViewMode::Library
    }
}

/// Name of the page shown for an empty library in a view mode.
pub open spec fn placeholder_page_of(mode: LibraryViewMode) -> Seq<char> {
    match mode {
        LibraryViewMode::Album => "album_placeholder_page"@,
        LibraryViewMode::Favorites => "favorites_placeholder_page"@,
        LibraryViewMode::Library => "placeholder_page"@,
    }
}

/// What the library view does once the list model has loaded.
#[derive(Debug, Clone, Copy)]
pub struct ModelsLoaded {
    /// Name of the page to show.
    pub page: &'static str,
    /// Whether the loading spinner stops.
    pub stop_spinner: bool,
    /// Whether to tell the user that thumbnails are made for the first
    /// time, and clear the settings' fresh-cache flag.
    pub announce_fresh_cache: bool,
}

/// The library view's state.
#[derive(Debug, Clone, Copy, PartialEq, Eq, Structural)]
pub struct MemoriesLibraryView {
    pub view_mode: LibraryViewMode,
}

impl MemoriesLibraryView {
    /// A view in library mode.
    pub fn new() -> (v: Self)
        ensures
            v.view_mode == LibraryViewMode::Library,
    {
        MemoriesLibraryView { view_mode: LibraryViewMode::default() }
    }

    /// Sets the library view mode.
    pub fn set_view_mode(&mut self, mode_variant: LibraryViewMode)
        ensures
            final(self).view_mode == mode_variant,
    {
        self.view_mode = mode_variant;
    }

    /// Name of the page shown for an empty library in this view's mode.
    pub fn placeholder_page(&self) -> (r: &'static str)
        ensures
            r@ == placeholder_page_of(self.view_mode),
    {
        let mut placeholder_page: &'static str = "placeholder_page";
        match self.view_mode {
            LibraryViewMode::Album => placeholder_page = "album_placeholder_page",
            LibraryViewMode::Favorites => placeholder_page = "favorites_placeholder_page",
            _ => {},
        }
        placeholder_page
    }

    /// What to do once the list model has loaded `item_count` items, given
    /// the settings' fresh-cache flag: an empty library shows the
    /// placeholder page of the view's mode, and the spinner keeps turning;
    /// otherwise the gallery page is shown, the spinner stops, and a fresh
    /// cache is announced.
    pub fn models_loaded(&self, item_count: u32, fresh_cache: bool) -> (r: ModelsLoaded)
        ensures
            item_count == 0 ==> {
                &&& r.page@ == placeholder_page_of(self.view_mode)
                &&& !r.stop_spinner
                &&& !r.announce_fresh_cache
            },
            item_count != 0 ==> {
                &&& r.page@ == "gallery_page"@
                &&& r.stop_spinner
                &&& r.announce_fresh_cache == fresh_cache
            },
    {
        if item_count == 0 {
            return ModelsLoaded { page: self.placeholder_page(), stop_spinner: false, announce_fresh_cache: false };
        }
        ModelsLoaded { page: "gallery_page", stop_spinner: true, announce_fresh_cache: fresh_cache }
    }
}

/// Description shown on the error page when running the FFmpeg binary
/// failed with an error of `kind`; `{BIN}` stands for the binary's name
/// and `{APP}` for the application's. `None` for a kind the view does not
/// expect, on which the program stops.
pub fn binary_check_description(kind: IoErrorKind) -> (r: Option<&'static str>)
    ensures
        match kind {
            IoErrorKind::NotFound => r matches Some(d)
                && d@ == "{BIN} was not found on your system. {APP} requires {BIN} to run."@,
            IoErrorKind::PermissionDenied => r matches Some(d)
                && d@ == "{APP} does not have the sufficient permissions to run {BIN}."@,
            IoErrorKind::Other => r is None,
        },
{
    match kind {
        IoErrorKind::NotFound => Some("{BIN} was not found on your system. {APP} requires {BIN} to run."),
        IoErrorKind::PermissionDenied => Some("{APP} does not have the sufficient permissions to run {BIN}."),
        IoErrorKind::Other => None,
    }
}

} // verus!

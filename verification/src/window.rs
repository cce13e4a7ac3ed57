//! Decisions of the application window: which view page asks for what,
//! full-screen toggling, and which window size is kept.

use vstd::prelude::*;
use crate::library::media_viewer::str_eq;

verus! {

/// What the window does when a page of its view stack becomes visible.
#[derive(Debug, Clone, Copy)]
pub struct MasterStackChild {
    /// Placeholder text of the search entry (to be translated).
    pub search_placeholder: &'static str,
    /// Whether the library has to be loaded now.
    pub load_library: bool,
}

/// What the window does when the view stack page `child_name` becomes
/// visible: the search entry's placeholder names what it searches, and
/// the library page loads the library if the photo grid has no model yet.
/// `None` for a page the window does not have.
pub fn master_stack_child_visible(child_name: &str, grid_has_model: bool) -> (r: Option<MasterStackChild>)
    ensures
        child_name@ == "library"@ ==> (r matches Some(c) && c.search_placeholder@ == "Search Photos"@
            && c.load_library == !grid_has_model),
        child_name@ != "library"@ && child_name@ == "albums"@ ==> (r matches Some(c)
            && c.search_placeholder@ == "Search Albums"@ && !c.load_library),
        child_name@ != "library"@ && child_name@ != "albums"@ && child_name@ == "favorites"@
            ==> (r matches Some(c) && c.search_placeholder@ == "Search Favorites"@ && !c.load_library),
        child_name@ != "library"@ && child_name@ != "albums"@ && child_name@ != "favorites"@ ==> r is None,
{
    if str_eq(child_name, "library") {
        Some(MasterStackChild { search_placeholder: "Search Photos", load_library: !grid_has_model })
    } else if str_eq(child_name, "albums") {
        Some(MasterStackChild { search_placeholder: "Search Albums", load_library: false })
    } else if str_eq(child_name, "favorites") {
        Some(MasterStackChild { search_placeholder: "Search Favorites", load_library: false })
    } else {
        None
    }
}

/// The window's state as the application keeps it in its settings.
#[derive(Debug, Clone, Copy, PartialEq, Eq, Structural)]
pub struct MemoriesApplicationWindow {
    pub maximized: bool,
    pub fullscreened: bool,
    pub width: i32,
    pub height: i32,
    pub search_mode: bool,
}

impl MemoriesApplicationWindow {
    /// The window with full screen toggled.
    pub open spec fn fullscreen_toggled(self) -> Self {
        MemoriesApplicationWindow { fullscreened: !self.fullscreened, ..self }
    }

    /// A window restored from the settings, with its search bar hidden.
    pub fn new(maximized: bool, fullscreened: bool, width: i32, height: i32) -> (w: Self)
        ensures
            w == (MemoriesApplicationWindow { maximized, fullscreened, width, height, search_mode: false }),
    {
        MemoriesApplicationWindow { maximized, fullscreened, width, height, search_mode: false }
    }

    /// The full-screen action: the window leaves full screen when it is in
    /// it and enters it otherwise. Returns the new state, which is also
    /// the action's state and what the settings keep.
    pub fn toggle_fullscreen(&mut self) -> (new_state: bool)
        ensures
            new_state == !old(self).fullscreened,
            *final(self) == old(self).fullscreen_toggled(),
    {
        let new_state: bool = !self.fullscreened;
        self.fullscreened = new_state;
        new_state
    }

    /// The leave-full-screen action: toggles full screen only when the
    /// window is in it. Returns whether it did.
    pub fn leave_fullscreen(&mut self) -> (toggled: bool)
        ensures
            toggled == old(self).fullscreened,
            *final(self) == (if old(self).fullscreened { old(self).fullscreen_toggled() } else { *old(self) }),
    {
        if self.fullscreened {
            self.toggle_fullscreen();
            return true;
        }
        false
    }

    /// The size to keep in the settings when the window closes: its width
    /// and height, unless it is maximized.
    pub fn close_request(&self) -> (r: Option<(i32, i32)>)
        ensures
            r == (if self.maximized { None } else { Some((self.width, self.height)) }),
    {
        if !self.maximized {
            Some((self.width, self.height))
        } else {
            None
        }
    }

    /// Shows or hides the search bar with the search toggle button.
    pub fn toggle_search_bar(&mut self, active: bool)
        ensures
            *final(self) == (MemoriesApplicationWindow { search_mode: active, ..*old(self) }),
    {
        self.search_mode = active;
    }
}

/// Toggling full screen twice restores the window as it was, and leaving
/// full screen always ends out of full screen with all else unchanged.
pub proof fn law_fullscreen_toggles(w: MemoriesApplicationWindow)
    ensures
        w.fullscreen_toggled().fullscreen_toggled() == w,
        !(if w.fullscreened { w.fullscreen_toggled() } else { w }).fullscreened,
        (if w.fullscreened { w.fullscreen_toggled() } else { w }) == (MemoriesApplicationWindow {
            fullscreened: false,
            ..w
        }),
{
}

/// Whether the older master window loads the library when the page
/// `child_name` becomes visible: only the library page, `library_page`,
/// does so, and only while the photo grid has no model.
pub fn master_window_loads_library(child_name: &str, library_page: &str, grid_has_model: bool) -> (r: bool)
    ensures
        r == (child_name@ == library_page@ && !grid_has_model),
{
    if str_eq(child_name, library_page) {
        if !grid_has_model {
            return true;
        }
    }
    false
}

} // verus!

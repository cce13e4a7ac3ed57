//! Constants shared by the application.

use vstd::prelude::*;

verus! {

/// Name of the binary that has to be installed to use the application.
pub const FFMPEG_BINARY: &'static str = "ffmpeg";

/// Name of the cache subdirectory that holds thumbnails.
pub const CACHE_THUMBNAILS_SUBDIR: &'static str = "thumbnails";

/// Fallback pictures folder, relative to `$HOME`.
pub const FALLBACK_XDG_PICTURES_DIR: &'static str = "Pictures";

/// Fallback videos folder, relative to `$HOME`.
pub const FALLBACK_XDG_VIDEOS_DIR: &'static str = "Videos";

/// Screenshots folder, relative to the default library folder.
pub const DEFAULT_SCREENSHOTS_REL_DIR: &'static str = "Screenshots";

/// Camera folder, relative to the default library folder.
pub const DEFAULT_CAMERA_REL_DIR: &'static str = "Camera";

/// Default `height-request` of the grid widgets of the library grid view on mobile.
pub const DEFAULT_GRID_WIDGET_HEIGHT: i32 = 66;

/// Zoom levels of the grid on mobile: the number of columns and the
/// height of a grid widget, from the least zoomed in to the most.
pub open spec fn mobile_zoom_levels() -> Seq<(u32, i32)> {
    seq![(5u32, 66i32), (3u32, 114i32), (2u32, 173i32)]
}

/// Zoom levels of the grid on desktop: the number of columns and the
/// height of a grid widget, from the least zoomed in to the most.
pub open spec fn desktop_zoom_levels() -> Seq<(u32, i32)> {
    seq![(10u32, 112i32), (5u32, 234i32)]
}

/// The zoom levels of the grid on mobile.
pub fn grid_mobile_zoom_levels() -> (r: Vec<(u32, i32)>)
    ensures
        r@ == mobile_zoom_levels(),
{
    let r: Vec<(u32, i32)> = vec![(5u32, 66i32), (3u32, 114i32), (2u32, 173i32)];
    proof {
        assert(r@ =~= mobile_zoom_levels());
    }
    r
}

/// The zoom levels of the grid on desktop.
pub fn grid_desktop_zoom_levels() -> (r: Vec<(u32, i32)>)
    ensures
        r@ == desktop_zoom_levels(),
{
    let r: Vec<(u32, i32)> = vec![(10u32, 112i32), (5u32, 234i32)];
    proof {
        assert(r@ =~= desktop_zoom_levels());
    }
    r
}

} // verus!

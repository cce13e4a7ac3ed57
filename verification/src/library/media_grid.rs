//! State of the library's media grid view: its zoom level and the
//! sensitivity of its zoom buttons.

use vstd::prelude::*;
use crate::library::media_cell::ThumbnailSource;
use crate::library::media_viewer::{content_type_of, lowercase, str_eq, to_lowercase, ViewerContentType};
use crate::utils::get_content_type_from_ext;
use crate::globals::{
    desktop_zoom_levels, grid_desktop_zoom_levels, grid_mobile_zoom_levels, mobile_zoom_levels,
    DEFAULT_GRID_WIDGET_HEIGHT,
};

verus! {

/// What the media grid view shows of its zoom state.
#[derive(Debug, Clone, Copy, PartialEq, Eq, Structural)]
pub struct MemoriesMediaGridView {
    /// Whether thumbnails are made with hardware acceleration.
    pub hardware_accel: bool,
    /// Height of each grid widget.
    pub grid_widget_height: i32,
    /// Whether the desktop zoom levels are in use.
    pub grid_desktop_zoom: bool,
    /// Least number of columns of the grid.
    pub min_columns: u32,
    /// Largest number of columns of the grid.
    pub max_columns: u32,
    /// Whether the zoom-in button can be pressed.
    pub zoom_in_sensitive: bool,
    /// Whether the zoom-out button can be pressed.
    pub zoom_out_sensitive: bool,
}

/// The zoom levels in use: desktop or mobile.
pub open spec fn zoom_levels_for(desktop: bool) -> Seq<(u32, i32)> {
    if desktop {
        desktop_zoom_levels()
    } else {
        mobile_zoom_levels()
    }
}

/// The last of the first `n` zoom levels that has `columns` columns, or 0
/// when none has.
pub open spec fn zoom_level_of(levels: Seq<(u32, i32)>, columns: u32, n: int) -> int
    decreases n,
{
    if n <= 0 || n > levels.len() {
        0
    } else if levels[n - 1].0 == columns {
        n - 1
    } else {
        zoom_level_of(levels, columns, n - 1)
    }
}

pub proof fn lemma_zoom_level_of_bounds(levels: Seq<(u32, i32)>, columns: u32, n: int)
    requires
        0 <= n <= levels.len(),
    ensures
        0 <= zoom_level_of(levels, columns, n),
        n > 0 ==> zoom_level_of(levels, columns, n) < n,
    decreases n,
{
    if n > 0 {
        lemma_zoom_level_of_bounds(levels, columns, n - 1);
    }
}

impl MemoriesMediaGridView {
    /// The zoom levels this view uses.
    pub open spec fn levels(self) -> Seq<(u32, i32)> {
        zoom_levels_for(self.grid_desktop_zoom)
    }

    /// This view after switching to zoom level `level`: its columns and
    /// widget height are those of the level; at the least zoomed-in level
    /// only zooming in is possible, at the most zoomed-in level only
    /// zooming out, and in between both.
    pub open spec fn at_zoom_level(self, level: int) -> Self {
        let levels = self.levels();
        MemoriesMediaGridView {
            grid_widget_height: levels[level].1,
            min_columns: levels[level].0,
            max_columns: levels[level].0,
            zoom_in_sensitive: if level == 0 { true } else if level == levels.len() - 1 { false } else { true },
            zoom_out_sensitive: if level == 0 { false } else if level == levels.len() - 1 { true } else { true },
            ..self
        }
    }

    /// The zoom level the view is at: the level with its number of columns.
    pub open spec fn current_zoom_level(self) -> int {
        zoom_level_of(self.levels(), self.max_columns, self.levels().len() as int)
    }

    /// This view after a press of the zoom-in (`zoom_in`) or zoom-out
    /// button: one level further in that direction, or unchanged when the
    /// current level is the last one in that direction.
    pub open spec fn zoomed(self, zoom_in: bool) -> Self {
        let level = self.current_zoom_level();
        if zoom_in {
            if level == self.levels().len() - 1 {
                self
            } else {
                self.at_zoom_level(level + 1)
            }
        } else {
            if level == 0 {
                self
            } else {
                self.at_zoom_level(level - 1)
            }
        }
    }

    /// A view at the least zoomed-in mobile level, as the interface starts.
    pub fn new(hardware_accel: bool) -> (v: Self)
        ensures
            v == (MemoriesMediaGridView {
                hardware_accel,
                grid_widget_height: DEFAULT_GRID_WIDGET_HEIGHT,
                grid_desktop_zoom: false,
                min_columns: mobile_zoom_levels()[0].0,
                max_columns: mobile_zoom_levels()[0].0,
                zoom_in_sensitive: true,
                zoom_out_sensitive: false,
            }),
    {
        let levels = grid_mobile_zoom_levels();
        let columns: u32 = levels[0].0;
        MemoriesMediaGridView {
            hardware_accel,
            grid_widget_height: DEFAULT_GRID_WIDGET_HEIGHT,
            grid_desktop_zoom: false,
            min_columns: columns,
            max_columns: columns,
            zoom_in_sensitive: true,
            zoom_out_sensitive: false,
        }
    }

    /// Returns the zoom levels for the window size the view is in.
    pub fn get_zoom_levels(&self) -> (r: Vec<(u32, i32)>)
        ensures
            r@ == self.levels(),
    {
        if self.grid_desktop_zoom {
            grid_desktop_zoom_levels()
        } else {
            grid_mobile_zoom_levels()
        }
    }

    /// Switches between the desktop and mobile zoom levels. Whenever this
    /// is set, the zoom buttons are reset to those of the least zoomed-in
    /// level; the columns and widget height are left as they are.
    pub fn set_grid_desktop_zoom(&mut self, desktop: bool)
        ensures
            *final(self) == (MemoriesMediaGridView {
                grid_desktop_zoom: desktop,
                zoom_in_sensitive: true,
                zoom_out_sensitive: false,
                ..*old(self)
            }),
    {
        self.grid_desktop_zoom = desktop;
        self.zoom_in_sensitive = true;
        self.zoom_out_sensitive = false;
    }

    /// Sets the grid columns and widget height of zoom level `zoom_level`,
    /// and which zoom buttons can be pressed at that level.
    pub fn set_grid_zoom_level(&mut self, zoom_level: usize)
        requires
            zoom_level < old(self).levels().len(),
        ensures
            *final(self) == old(self).at_zoom_level(zoom_level as int),
    {
        let zoom_levels = self.get_zoom_levels();
        let new_zoom_level: (u32, i32) = zoom_levels[zoom_level];

        self.grid_widget_height = new_zoom_level.1;
        self.min_columns = new_zoom_level.0;
        self.max_columns = new_zoom_level.0;

        if zoom_level == 0 {
            self.zoom_in_sensitive = true;
            self.zoom_out_sensitive = false;
        } else if zoom_level == zoom_levels.len() - 1 {
            self.zoom_in_sensitive = false;
            self.zoom_out_sensitive = true;
        } else {
            self.zoom_in_sensitive = true;
            self.zoom_out_sensitive = true;
        }
    }

    /// Moves the grid one zoom level in (`zoom_in`) or out, unless it is
    /// already at the last level in that direction. The current level is
    /// the last one whose number of columns is the grid's, or the first.
    pub fn gallery_grid_zoom(&mut self, zoom_in: bool)
        ensures
            *final(self) == old(self).zoomed(zoom_in),
    {
        let current_columns: u32 = self.max_columns;
        let mut current_zoom_level: usize = 0;
        let zoom_levels = self.get_zoom_levels();
        let n: usize = zoom_levels.len();
        let mut i: usize = 0;
        while i < n
            invariant
                n == zoom_levels@.len(),
                zoom_levels@ == self.levels(),
                current_columns == self.max_columns,
                0 <= i <= n,
                current_zoom_level == zoom_level_of(zoom_levels@, current_columns, i as int),
            decreases n - i,
        {
            if zoom_levels[i].0 == current_columns {
                current_zoom_level = i;
            }
            i = i + 1;
        }
        proof {
            lemma_zoom_level_of_bounds(zoom_levels@, current_columns, n as int);
        }
        if zoom_in {
            if current_zoom_level == n - 1 {
                return;
            }
            self.set_grid_zoom_level(current_zoom_level + 1);
        } else {
            if current_zoom_level == 0 {
                return;
            }
            self.set_grid_zoom_level(current_zoom_level - 1);
        }
    }

    /// Handler of the zoom-in button.
    pub fn zoom_in_callback(&mut self)
        ensures
            *final(self) == old(self).zoomed(true),
    {
        self.gallery_grid_zoom(true);
    }

    /// Handler of the zoom-out button.
    pub fn zoom_out_callback(&mut self)
        ensures
            *final(self) == old(self).zoomed(false),
    {
        self.gallery_grid_zoom(false);
    }
}

/// The zoom tables have distinct column counts: the level of each table
/// entry is its own index.
pub proof fn lemma_levels_distinct(desktop: bool, level: int)
    requires
        0 <= level < zoom_levels_for(desktop).len(),
    ensures
        zoom_level_of(zoom_levels_for(desktop), zoom_levels_for(desktop)[level].0,
            zoom_levels_for(desktop).len() as int) == level,
        zoom_levels_for(desktop).len() >= 2,
{
    reveal_with_fuel(zoom_level_of, 4);
}

/// Zooming in and then out again, from any level but the most zoomed-in
/// one, brings the grid back to the columns and widget height it had.
pub proof fn law_zoom_in_then_out_restores(v: MemoriesMediaGridView, level: int)
    requires
        0 <= level < v.levels().len() - 1,
        v.max_columns == v.levels()[level].0,
    ensures
        v.zoomed(true).zoomed(false).max_columns == v.max_columns,
        v.zoomed(true).zoomed(false).min_columns == v.levels()[level].0,
        v.zoomed(true).zoomed(false).grid_widget_height == v.levels()[level].1,
        v.zoomed(true).zoomed(false).current_zoom_level() == level,
{
    lemma_levels_distinct(v.grid_desktop_zoom, level);
    lemma_levels_distinct(v.grid_desktop_zoom, level + 1);
}

/// Zooming out and then in again, from any level but the least zoomed-in
/// one, brings the grid back to the columns and widget height it had.
pub proof fn law_zoom_out_then_in_restores(v: MemoriesMediaGridView, level: int)
    requires
        0 < level < v.levels().len(),
        v.max_columns == v.levels()[level].0,
    ensures
        v.zoomed(false).zoomed(true).max_columns == v.max_columns,
        v.zoomed(false).zoomed(true).min_columns == v.levels()[level].0,
        v.zoomed(false).zoomed(true).grid_widget_height == v.levels()[level].1,
        v.zoomed(false).zoomed(true).current_zoom_level() == level,
{
    lemma_levels_distinct(v.grid_desktop_zoom, level);
    lemma_levels_distinct(v.grid_desktop_zoom, level - 1);
}

/// After a press of a zoom button, the grid is at a level of its table,
/// and the zoom-in button can be pressed exactly when a more zoomed-in
/// level exists, the zoom-out button exactly when a less zoomed-in one
/// does; a press at the last level in its direction changes nothing.
pub proof fn law_zoom_buttons_follow_level(v: MemoriesMediaGridView, zoom_in: bool)
    ensures
        ({
            let w = v.zoomed(zoom_in);
            let level = w.current_zoom_level();
            ||| w == v
            ||| {
                &&& 0 <= level < w.levels().len()
                &&& w.max_columns == w.levels()[level].0
                &&& w.min_columns == w.levels()[level].0
                &&& w.grid_widget_height == w.levels()[level].1
                &&& w.zoom_in_sensitive == (level < w.levels().len() - 1)
                &&& w.zoom_out_sensitive == (level > 0)
            }
        }),
{
    let levels = v.levels();
    lemma_zoom_level_of_bounds(levels, v.max_columns, levels.len() as int);
    let level = v.current_zoom_level();
    lemma_levels_distinct(v.grid_desktop_zoom, 0);
    if zoom_in && level < levels.len() - 1 {
        lemma_levels_distinct(v.grid_desktop_zoom, level + 1);
    } else if !zoom_in && level > 0 {
        lemma_levels_distinct(v.grid_desktop_zoom, level - 1);
    }
}

/// How a grid cell is loaded for a file, by its extension.
#[derive(Debug, Clone, Copy, PartialEq, Eq, Structural)]
pub struct GridCellPlan {
    pub thumbnail: ThumbnailSource,
    pub content_type: ViewerContentType,
    /// Whether the picture's metadata is read with the image loader.
    pub load_picture_details: bool,
}

/// How a grid cell is loaded for a file whose extension, in lower case,
/// is `ext`: vector graphics are rendered from the file itself and
/// anything else gets a generated thumbnail; the content type follows the
/// extension; picture metadata is read for anything but a video, since the
/// image loader does not read video formats.
pub fn grid_cell_plan_lowercase(ext: &str) -> (r: GridCellPlan)
    ensures
        r.thumbnail == (if ext@ == "svg"@ { ThumbnailSource::OriginalFile } else { ThumbnailSource::Generated }),
        r.content_type == content_type_of(ext@),
        r.load_picture_details == (content_type_of(ext@) != ViewerContentType::Video),
{
    let thumbnail = if str_eq(ext, "svg") { ThumbnailSource::OriginalFile } else { ThumbnailSource::Generated };
    let content_type = get_content_type_from_ext(ext);
    let load_picture_details = match content_type {
        ViewerContentType::Video => false,
        _ => true,
    };
    GridCellPlan { thumbnail, content_type, load_picture_details }
}

/// How a grid cell is loaded for a file with the extension `ext`: the plan
/// of the extension in lower case.
pub fn grid_cell_plan(ext: &str) -> (r: GridCellPlan)
    ensures
        ({
            let l = lowercase(ext@);
            &&& r.thumbnail == (if l == "svg"@ { ThumbnailSource::OriginalFile } else { ThumbnailSource::Generated })
            &&& r.content_type == content_type_of(l)
            &&& r.load_picture_details == (content_type_of(l) != ViewerContentType::Video)
        }),
{
    let lowered: String = to_lowercase(ext);
    grid_cell_plan_lowercase(lowered.as_str())
}

} // verus!

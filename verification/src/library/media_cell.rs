//! How a cell of the media grid loads its thumbnail and metadata, and
//! when a press on it opens the viewer.

use vstd::prelude::*;
use crate::library::media_viewer::ViewerContentType;

verus! {

/// Where a cell's thumbnail comes from.
#[derive(Debug, Clone, Copy, PartialEq, Eq, Structural)]
pub enum ThumbnailSource {
    /// The file itself is rendered (vector graphics are cheap to render).
    OriginalFile,
    /// A thumbnail image is generated with FFmpeg.
    Generated,
}

/// How a cell is loaded for a content type.
#[derive(Debug, Clone, Copy, PartialEq, Eq, Structural)]
pub struct BindPlan {
    pub thumbnail: ThumbnailSource,
    /// Whether the picture's metadata is read with the image loader.
    pub load_picture_details: bool,
}

/// How a cell showing `content_type` is loaded.
pub open spec fn bind_plan_of(content_type: ViewerContentType) -> Option<BindPlan> {
    match content_type {
        ViewerContentType::VectorGraphics => Some(BindPlan {
            thumbnail: ThumbnailSource::OriginalFile,
            load_picture_details: true,
        }),
        ViewerContentType::Image => Some(BindPlan { thumbnail: ThumbnailSource::Generated, load_picture_details: true }),
        ViewerContentType::Video => Some(BindPlan { thumbnail: ThumbnailSource::Generated, load_picture_details: false }),
        ViewerContentType::Invalid => None,
    }
}

/// How a cell showing `content_type` is loaded: vector graphics are
/// rendered from the file, anything else gets a generated thumbnail; the
/// metadata of pictures (vector graphics included) is read, that of
/// videos is not. `None` for an invalid content type, which no cell shows.
pub fn bind_cell(content_type: ViewerContentType) -> (r: Option<BindPlan>)
    ensures
        r == bind_plan_of(content_type),
{
    let thumbnail = match content_type {
        ViewerContentType::VectorGraphics => ThumbnailSource::OriginalFile,
        _ => ThumbnailSource::Generated,
    };
    match content_type {
        ViewerContentType::Video => Some(BindPlan { thumbnail, load_picture_details: false }),
        ViewerContentType::Image | ViewerContentType::VectorGraphics => Some(BindPlan {
            thumbnail,
            load_picture_details: true,
        }),
        ViewerContentType::Invalid => None,
    }
}

/// Whether a press on a cell opens the viewer: the cell is selected and
/// the navigation view shows the page tagged `window`, not a viewer already.
pub fn opens_viewer(is_selected: bool, visible_page_tag: &str) -> (r: bool)
    ensures
        r == (is_selected && visible_page_tag@ == "window"@),
{
    if is_selected {
        if String::from_str(visible_page_tag) != String::from_str("window") {
            return false;
        }
        return true;
    }
    false
}

} // verus!
